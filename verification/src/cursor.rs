//! A forward-only reader over a bit-addressable buffer. Instruction streams
//! are byte sequences, but individual handlers consume operand fields of
//! arbitrary bit width, so the next opcode byte may start at any bit offset.
//! The dispatch engine only ever asks for the next eight bits as one byte.

use vstd::prelude::*;

use crate::DecodeError;

verus! {

/// 2^k for small k, used to express bit shifts as plain arithmetic.
pub open spec fn pow2_small(k: int) -> int
    decreases k,
{
    if k <= 0 {
        1
    } else {
        2 * pow2_small(k - 1)
    }
}

proof fn lemma_pow2_small_pos(k: int)
    ensures
        pow2_small(k) >= 1,
        k >= 1 ==> pow2_small(k) >= 2,
    decreases k,
{
    if k > 0 {
        lemma_pow2_small_pos(k - 1);
    }
}

proof fn lemma_pow2_small_add(a: int, b: int)
    requires
        0 <= a,
        0 <= b,
    ensures
        pow2_small(a) * pow2_small(b) == pow2_small(a + b),
    decreases a,
{
    if a > 0 {
        lemma_pow2_small_add(a - 1, b);
        assert(pow2_small(a) * pow2_small(b) == 2 * (pow2_small(a - 1) * pow2_small(b)))
            by (nonlinear_arith)
            requires
                pow2_small(a) == 2 * pow2_small(a - 1),
        ;
    }
}

/// The byte formed by the eight bits of `data` starting at bit offset `pos`
/// (bits are numbered most-significant first within each byte).
pub open spec fn byte_ahead(data: Seq<u8>, pos: int) -> u8 {
    let i = pos / 8;
    let k = pos % 8;
    if k == 0 {
        data[i]
    } else {
        ((data[i] as int % pow2_small(8 - k)) * pow2_small(k)
            + data[i + 1] as int / pow2_small(8 - k)) as u8
    }
}

/// A cursor over `data`, between bit offsets `pos` (next unread bit) and
/// `end` (one past the last readable bit). It only ever moves forward.
pub struct Cursor {
    data: Vec<u8>,
    pos: usize,
    end: usize,
}

impl Cursor {
    pub closed spec fn spec_data(self) -> Seq<u8> {
        self.data@
    }

    pub closed spec fn spec_pos(self) -> int {
        self.pos as int
    }

    pub closed spec fn spec_end(self) -> int {
        self.end as int
    }

    pub open spec fn wf(self) -> bool {
        0 <= self.spec_pos() <= self.spec_end() <= self.spec_data().len() * 8
    }

    pub open spec fn spec_remaining(self) -> int {
        self.spec_end() - self.spec_pos()
    }

    /// The whole bytes still ahead of the cursor, in order.
    pub open spec fn peek_bytes(self) -> Seq<u8> {
        Seq::new(
            (self.spec_remaining() / 8) as nat,
            |j: int| byte_ahead(self.spec_data(), self.spec_pos() + 8 * j),
        )
    }

    /// A cursor over all bits of `data`.
    pub fn from_bytes(data: Vec<u8>) -> (r: Cursor)
        requires
            data@.len() * 8 <= usize::MAX,
        ensures
            r.wf(),
            r.spec_data() == data@,
            r.spec_pos() == 0,
            r.spec_end() == data@.len() * 8,
    {
        let end = data.len() * 8;
        Cursor { data, pos: 0, end }
    }

    /// A cursor over the first `bits` bits of `data`, for buffers whose
    /// payload is not a whole number of bytes.
    pub fn with_bit_len(data: Vec<u8>, bits: usize) -> (r: Cursor)
        requires
            bits <= data@.len() * 8,
        ensures
            r.wf(),
            r.spec_data() == data@,
            r.spec_pos() == 0,
            r.spec_end() == bits,
    {
        Cursor { data, pos: 0, end: bits }
    }

    pub fn remaining_bits(&self) -> (r: usize)
        requires
            self.wf(),
        ensures
            r == self.spec_remaining(),
    {
        self.end - self.pos
    }

    /// Advances past `n` bits without reading them, as a handler does when
    /// it consumes an operand field; fails without moving when fewer than
    /// `n` bits remain.
    pub fn skip_bits(&mut self, n: usize) -> (r: Result<(), DecodeError>)
        requires
            old(self).wf(),
        ensures
            final(self).wf(),
            final(self).spec_data() == old(self).spec_data(),
            final(self).spec_end() == old(self).spec_end(),
            old(self).spec_remaining() >= n ==> {
                &&& r == Ok::<(), DecodeError>(())
                &&& final(self).spec_pos() == old(self).spec_pos() + n
            },
            old(self).spec_remaining() < n ==> {
                &&& r == Err::<(), DecodeError>(DecodeError::Truncated)
                &&& final(self).spec_pos() == old(self).spec_pos()
            },
    {
        if self.end - self.pos < n {
            return Err(DecodeError::Truncated);
        }
        self.pos = self.pos + n;
        Ok(())
    }

    /// Reads the next eight bits as one byte and advances past them; fails
    /// without moving when fewer than eight bits remain.
    pub fn get_next_byte(&mut self) -> (r: Result<u8, DecodeError>)
        requires
            old(self).wf(),
        ensures
            final(self).wf(),
            final(self).spec_data() == old(self).spec_data(),
            final(self).spec_end() == old(self).spec_end(),
            old(self).spec_remaining() >= 8 ==> {
                &&& r == Ok::<u8, DecodeError>(byte_ahead(old(self).spec_data(), old(self).spec_pos()))
                &&& final(self).spec_pos() == old(self).spec_pos() + 8
            },
            old(self).spec_remaining() < 8 ==> {
                &&& r == Err::<u8, DecodeError>(DecodeError::Truncated)
                &&& final(self).spec_pos() == old(self).spec_pos()
            },
    {
        if self.end - self.pos < 8 {
            return Err(DecodeError::Truncated);
        }
        let i = self.pos / 8;
        let k = self.pos % 8;
        assert(i < self.data@.len());
        let b: u8 = if k == 0 {
            self.data[i]
        } else {
            assert(i + 1 < self.data@.len());
            let m = pow2_u16(8 - k);
            let p = pow2_u16(k);
            proof {
                let ki = k as int;
                lemma_pow2_small_pos(ki);
                lemma_pow2_small_pos(8 - ki);
                lemma_pow2_small_add(ki, 8 - ki);
                lemma_pow2_small_add(8 - ki, ki);
                assert(pow2_small(8) == 256) by {
                    reveal_with_fuel(pow2_small, 9);
                };
            }
            let rem = self.data[i] as u16 % m;
            proof {
                assert(rem * p + p <= 256) by (nonlinear_arith)
                    requires
                        rem < m,
                        m * p == 256,
                        2 <= p,
                        2 <= m,
                ;
            }
            let hi = rem * p;
            let lo = self.data[i + 1] as u16 / m;
            proof {
                assert(lo < p) by (nonlinear_arith)
                    requires
                        lo == self.data@[i + 1] as u16 / m,
                        self.data@[i + 1] < 256,
                        m * p == 256,
                        2 <= m,
                ;
            }
            (hi + lo) as u8
        };
        self.pos = self.pos + 8;
        Ok(b)
    }
}

/// 2^k as a machine integer, for shift amounts a byte read can need.
fn pow2_u16(k: usize) -> (r: u16)
    requires
        0 <= k <= 8,
    ensures
        r == pow2_small(k as int),
{
    let r: u16 = match k {
        0 => 1,
        1 => 2,
        2 => 4,
        3 => 8,
        4 => 16,
        5 => 32,
        6 => 64,
        7 => 128,
        _ => 256,
    };
    proof {
        reveal_with_fuel(pow2_small, 9);
    }
    r
}

/// Advancing a well-formed cursor by one whole byte drops exactly the first
/// element of the bytes ahead of it.
pub proof fn lemma_peek_bytes_step(c0: Cursor, c1: Cursor)
    requires
        c0.wf(),
        c1.wf(),
        c1.spec_data() == c0.spec_data(),
        c1.spec_end() == c0.spec_end(),
        c1.spec_pos() == c0.spec_pos() + 8,
        c0.spec_remaining() >= 8,
    ensures
        c0.peek_bytes().len() >= 1,
        c0.peek_bytes()[0] == byte_ahead(c0.spec_data(), c0.spec_pos()),
        c1.peek_bytes() == c0.peek_bytes().skip(1),
{
    assert(c1.peek_bytes() =~= c0.peek_bytes().skip(1));
}

} // verus!
