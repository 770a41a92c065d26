//! User-friendly rendering of a standard contract address: a tag byte for
//! bounceability and network, the workchain byte, the 256-bit account id,
//! and a big-endian CRC-16/XMODEM of those 34 bytes, all hex-encoded in
//! lower case.

use vstd::prelude::*;

verus! {

/// The CRC-16/XMODEM checksum of a byte sequence. Its value is determined
/// by the bytes alone; the computation is left to the checksum library.
pub uninterp spec fn crc16_xmodem_of(data: Seq<u8>) -> u16;

/// Relies on crc16::State::<XMODEM>::calculate: the XMODEM checksum of the
/// given bytes, a function of the bytes alone.
#[verifier::external_body]
fn crc16_xmodem(data: &Vec<u8>) -> (r: u16)
    ensures
        r == crc16_xmodem_of(data@),
{
    crc16::State::<crc16::XMODEM>::calculate(data)
}

/// The lower-case hex digit for a nibble value.
pub open spec fn hex_digit(n: u8) -> char {
    if n == 0 {
        '0'
    } else if n == 1 {
        '1'
    } else if n == 2 {
        '2'
    } else if n == 3 {
        '3'
    } else if n == 4 {
        '4'
    } else if n == 5 {
        '5'
    } else if n == 6 {
        '6'
    } else if n == 7 {
        '7'
    } else if n == 8 {
        '8'
    } else if n == 9 {
        '9'
    } else if n == 10 {
        'a'
    } else if n == 11 {
        'b'
    } else if n == 12 {
        'c'
    } else if n == 13 {
        'd'
    } else if n == 14 {
        'e'
    } else {
        'f'
    }
}

/// The lower-case hex encoding of a byte sequence: two digits per byte,
/// high nibble first.
pub open spec fn hex_str_of(data: Seq<u8>) -> Seq<char> {
    Seq::new(
        (data.len() * 2) as nat,
        |i: int|
            if i % 2 == 0 {
                hex_digit(data[i / 2] / 16)
            } else {
                hex_digit(data[i / 2] % 16)
            },
    )
}

/// Relies on hex::encode: each byte becomes two lower-case hex digits,
/// high nibble first.
#[verifier::external_body]
fn to_hex(data: &Vec<u8>) -> (r: String)
    ensures
        r@ == hex_str_of(data@),
{
    hex::encode(data)
}

/// The tag byte of a user-friendly address: 0x11 for a bounceable address,
/// 0x51 for a non-bounceable one, with 0x80 added on the test network.
pub open spec fn spec_address_tag(bounce: bool, testnet: bool) -> u8 {
    ((if bounce {
        0x11int
    } else {
        0x51int
    }) + (if testnet {
        0x80int
    } else {
        0int
    })) as u8
}

/// The 36 bytes a user-friendly address encodes: tag, workchain byte, the
/// account id, and the big-endian XMODEM checksum of the preceding 34.
pub open spec fn spec_address_payload(wc: i8, addr: Seq<u8>, bounce: bool, testnet: bool) -> Seq<
    u8,
> {
    let body = seq![spec_address_tag(bounce, testnet), wc as u8] + addr;
    let crc = crc16_xmodem_of(body);
    body + seq![(crc / 256) as u8, (crc % 256) as u8]
}

/// Renders a standard address in its user-friendly form: the tag byte, the
/// workchain, the account id and the checksum, hex-encoded in lower case.
pub fn calc_userfriendly_address(wc: i8, addr: &Vec<u8>, bounce: bool, testnet: bool) -> (r:
    String)
    ensures
        r@ == hex_str_of(spec_address_payload(wc, addr@, bounce, testnet)),
{
    let mut bytes: Vec<u8> = Vec::new();
    let tag: u8 = (if bounce {
        0x11u8
    } else {
        0x51u8
    }) + (if testnet {
        0x80u8
    } else {
        0u8
    });
    bytes.push(tag);
    bytes.push(wc as u8);
    let mut i: usize = 0;
    while i < addr.len()
        invariant
            i <= addr@.len(),
            bytes@ == seq![spec_address_tag(bounce, testnet), wc as u8] + addr@.take(i as int),
        decreases addr@.len() - i,
    {
        bytes.push(addr[i]);
        proof {
            assert(bytes@ == seq![spec_address_tag(bounce, testnet), wc as u8] + addr@.take(
                i as int + 1,
            )) by {
                assert(addr@.take(i as int + 1) == addr@.take(i as int).push(addr@[i as int]));
            }
        }
        i = i + 1;
    }
    proof {
        assert(addr@.take(addr@.len() as int) == addr@);
    }
    let crc = crc16_xmodem(&bytes);
    bytes.push((crc / 256) as u8);
    bytes.push((crc % 256) as u8);
    to_hex(&bytes)
}

} // verus!
