//! An exhaustive table-driven check of the reference opcode table: every
//! byte value of every table (the top level and each nested subset) is
//! decoded and compared against the published instruction-set encoding.

use tvm_disasm::DecodeError;
use tvm_disasm::cursor::Cursor;
use tvm_disasm::handlers::{HandlerId, Handlers, Mode};

fn resolve(t: &Handlers, bytes: Vec<u8>) -> Result<HandlerId, DecodeError> {
    let mut cur = Cursor::from_bytes(bytes);
    t.get_handler(&mut cur)
}

struct TableCase {
    prefix: Vec<u8>,
    entries: Vec<(u8, u8, HandlerId)>,
    subsets: Vec<u8>,
}

fn reference_tables() -> Vec<TableCase> {
    vec![
        TableCase {
            prefix: vec![],
            entries: vec![
                (0x00, 0x00, HandlerId::Nop),
                (0x01, 0x0F, HandlerId::XchgSimple),
                (0x10, 0x10, HandlerId::XchgStd),
                (0x11, 0x11, HandlerId::XchgLong),
                (0x12, 0x1F, HandlerId::XchgSimple),
                (0x20, 0x2F, HandlerId::PushSimple),
                (0x30, 0x3F, HandlerId::PopSimple),
                (0x40, 0x4F, HandlerId::Xchg3),
                (0x50, 0x50, HandlerId::Xchg2),
                (0x51, 0x51, HandlerId::Xcpu),
                (0x52, 0x52, HandlerId::Puxc),
                (0x53, 0x53, HandlerId::Push2),
                (0x55, 0x55, HandlerId::Blkswap),
                (0x56, 0x56, HandlerId::Push),
                (0x57, 0x57, HandlerId::Pop),
                (0x58, 0x58, HandlerId::Rot),
                (0x59, 0x59, HandlerId::Rotrev),
                (0x5A, 0x5A, HandlerId::Swap2),
                (0x5B, 0x5B, HandlerId::Drop2),
                (0x5C, 0x5C, HandlerId::Dup2),
                (0x5D, 0x5D, HandlerId::Over2),
                (0x5E, 0x5E, HandlerId::Reverse),
                (0x60, 0x60, HandlerId::Pick),
                (0x61, 0x61, HandlerId::Rollx),
                (0x62, 0x62, HandlerId::Rollrevx),
                (0x63, 0x63, HandlerId::Blkswx),
                (0x64, 0x64, HandlerId::Revx),
                (0x65, 0x65, HandlerId::Dropx),
                (0x66, 0x66, HandlerId::Tuck),
                (0x67, 0x67, HandlerId::Xchgx),
                (0x68, 0x68, HandlerId::Depth),
                (0x69, 0x69, HandlerId::Chkdepth),
                (0x6A, 0x6A, HandlerId::Onlytopx),
                (0x6B, 0x6B, HandlerId::Onlyx),
                (0x6D, 0x6D, HandlerId::Null),
                (0x6E, 0x6E, HandlerId::Isnull),
                (0x70, 0x81, HandlerId::Pushint),
                (0x82, 0x82, HandlerId::PushintBig),
                (0x84, 0x84, HandlerId::Pushpow2dec),
                (0x85, 0x85, HandlerId::Pushnegpow2),
                (0x88, 0x88, HandlerId::Pushref),
                (0x89, 0x89, HandlerId::Pushrefslice),
                (0x8A, 0x8A, HandlerId::Pushrefcont),
                (0x8B, 0x8B, HandlerId::PushsliceShort),
                (0x8C, 0x8C, HandlerId::PushsliceMid),
                (0x8D, 0x8D, HandlerId::PushsliceLong),
                (0x8E, 0x8F, HandlerId::PushcontLong),
                (0x90, 0x9F, HandlerId::PushcontShort),
                (0xA0, 0xA0, HandlerId::Add(Mode::Signaling)),
                (0xA1, 0xA1, HandlerId::Sub(Mode::Signaling)),
                (0xA2, 0xA2, HandlerId::Subr(Mode::Signaling)),
                (0xA3, 0xA3, HandlerId::Negate(Mode::Signaling)),
                (0xA4, 0xA4, HandlerId::Inc(Mode::Signaling)),
                (0xA5, 0xA5, HandlerId::Dec(Mode::Signaling)),
                (0xA6, 0xA6, HandlerId::Addconst(Mode::Signaling)),
                (0xA7, 0xA7, HandlerId::Mulconst(Mode::Signaling)),
                (0xA8, 0xA8, HandlerId::Mul(Mode::Signaling)),
                (0xA9, 0xA9, HandlerId::Divmod(Mode::Signaling)),
                (0xAA, 0xAA, HandlerId::Lshift(Mode::Signaling)),
                (0xAB, 0xAB, HandlerId::Rshift(Mode::Signaling)),
                (0xAC, 0xAC, HandlerId::Lshift(Mode::Signaling)),
                (0xAD, 0xAD, HandlerId::Rshift(Mode::Signaling)),
                (0xAE, 0xAE, HandlerId::Pow2(Mode::Signaling)),
                (0xB0, 0xB0, HandlerId::And(Mode::Signaling)),
                (0xB1, 0xB1, HandlerId::Or(Mode::Signaling)),
                (0xB2, 0xB2, HandlerId::Xor(Mode::Signaling)),
                (0xB3, 0xB3, HandlerId::Not(Mode::Signaling)),
                (0xB4, 0xB4, HandlerId::Fits(Mode::Signaling)),
                (0xB5, 0xB5, HandlerId::Ufits(Mode::Signaling)),
                (0xB8, 0xB8, HandlerId::Sgn(Mode::Signaling)),
                (0xB9, 0xB9, HandlerId::Less(Mode::Signaling)),
                (0xBA, 0xBA, HandlerId::Equal(Mode::Signaling)),
                (0xBB, 0xBB, HandlerId::Leq(Mode::Signaling)),
                (0xBC, 0xBC, HandlerId::Greater(Mode::Signaling)),
                (0xBD, 0xBD, HandlerId::Neq(Mode::Signaling)),
                (0xBE, 0xBE, HandlerId::Geq(Mode::Signaling)),
                (0xBF, 0xBF, HandlerId::Cmp(Mode::Signaling)),
                (0xC0, 0xC0, HandlerId::Eqint(Mode::Signaling)),
                (0xC1, 0xC1, HandlerId::Lessint(Mode::Signaling)),
                (0xC2, 0xC2, HandlerId::Gtint(Mode::Signaling)),
                (0xC3, 0xC3, HandlerId::Neqint(Mode::Signaling)),
                (0xC4, 0xC4, HandlerId::Isnan),
                (0xC5, 0xC5, HandlerId::Chknan),
                (0xC8, 0xC8, HandlerId::Newc),
                (0xC9, 0xC9, HandlerId::Endc),
                (0xCA, 0xCA, HandlerId::Sti),
                (0xCB, 0xCB, HandlerId::Stu),
                (0xCC, 0xCC, HandlerId::Stref),
                (0xCD, 0xCD, HandlerId::Endcst),
                (0xCE, 0xCE, HandlerId::Stslice),
                (0xD0, 0xD0, HandlerId::Ctos),
                (0xD1, 0xD1, HandlerId::Ends),
                (0xD2, 0xD2, HandlerId::Ldi),
                (0xD3, 0xD3, HandlerId::Ldu),
                (0xD4, 0xD4, HandlerId::Ldref),
                (0xD5, 0xD5, HandlerId::Ldrefrtos),
                (0xD6, 0xD6, HandlerId::Ldslice),
                (0xD8, 0xD8, HandlerId::Callx),
                (0xD9, 0xD9, HandlerId::Jmpx),
                (0xDA, 0xDA, HandlerId::Callxargs),
                (0xDE, 0xDE, HandlerId::If),
                (0xDC, 0xDC, HandlerId::Ifret),
                (0xDD, 0xDD, HandlerId::Ifnotret),
                (0xDF, 0xDF, HandlerId::Ifnot),
                (0xE0, 0xE0, HandlerId::Ifjmp),
                (0xE1, 0xE1, HandlerId::Ifnotjmp),
                (0xE2, 0xE2, HandlerId::Ifelse),
                (0xE4, 0xE4, HandlerId::Repeat),
                (0xE5, 0xE5, HandlerId::Repeatend),
                (0xE6, 0xE6, HandlerId::Until),
                (0xE7, 0xE7, HandlerId::Untilend),
                (0xE8, 0xE8, HandlerId::While),
                (0xE9, 0xE9, HandlerId::Whileend),
                (0xEA, 0xEA, HandlerId::Again),
                (0xEB, 0xEB, HandlerId::Againend),
                (0xEC, 0xEC, HandlerId::Setcontargs),
                (0xEE, 0xEE, HandlerId::Blessargs),
                (0xF0, 0xF0, HandlerId::CallShort),
                (0xF3, 0xF3, HandlerId::Tryargs),
            ],
            subsets: vec![0xFF, 0x54, 0x5F, 0x6C, 0x6F, 0x83, 0xB6, 0xB7, 0xC7, 0xCF, 0xD7, 0xDB, 0xE3, 0xED, 0xF1, 0xF2, 0xFA, 0xFB, 0xF4, 0xF8, 0xF9, 0xFE],
        },
        TableCase {
            prefix: vec![0xFF],
            entries: vec![
                (0x00, 0xEF, HandlerId::Setcp),
                (0xF0, 0xF0, HandlerId::Setcpx),
                (0xF1, 0xFE, HandlerId::Setcp),
                (0xFF, 0xFF, HandlerId::Setcp),
            ],
            subsets: vec![],
        },
        TableCase {
            prefix: vec![0x54],
            entries: vec![
                (0x00, 0x0F, HandlerId::Xchg3),
                (0x10, 0x1F, HandlerId::Xc2pu),
                (0x20, 0x2F, HandlerId::Xcpuxc),
                (0x30, 0x3F, HandlerId::Xcpu2),
                (0x40, 0x4F, HandlerId::Puxc2),
                (0x50, 0x5F, HandlerId::Puxcpu),
                (0x60, 0x6F, HandlerId::Pu2xc),
                (0x70, 0x7F, HandlerId::Push3),
            ],
            subsets: vec![],
        },
        TableCase {
            prefix: vec![0x5F],
            entries: vec![
                (0x00, 0x0F, HandlerId::Blkdrop),
                (0x10, 0xFE, HandlerId::Blkpush),
                (0xFF, 0xFF, HandlerId::Blkpush),
            ],
            subsets: vec![],
        },
        TableCase {
            prefix: vec![0x6C],
            entries: vec![
                (0x10, 0xFE, HandlerId::Blkdrop2),
                (0xFF, 0xFF, HandlerId::Blkdrop2),
            ],
            subsets: vec![],
        },
        TableCase {
            prefix: vec![0x6F],
            entries: vec![
                (0x00, 0x0F, HandlerId::TupleCreate),
                (0x10, 0x1F, HandlerId::TupleIndex),
                (0x20, 0x2F, HandlerId::TupleUn),
                (0x30, 0x3F, HandlerId::TupleUnpackfirst),
                (0x40, 0x4F, HandlerId::TupleExplode),
                (0x50, 0x5F, HandlerId::TupleSetindex),
                (0x60, 0x6F, HandlerId::TupleIndexQuiet),
                (0x70, 0x7F, HandlerId::TupleSetindexQuiet),
                (0x80, 0x80, HandlerId::TupleCreatevar),
                (0x81, 0x81, HandlerId::TupleIndexvar),
                (0x82, 0x82, HandlerId::TupleUntuplevar),
                (0x83, 0x83, HandlerId::TupleUnpackfirstvar),
                (0x84, 0x84, HandlerId::TupleExplodevar),
                (0x85, 0x85, HandlerId::TupleSetindexvar),
                (0x86, 0x86, HandlerId::TupleIndexvarQuiet),
                (0x87, 0x87, HandlerId::TupleSetindexvarQuiet),
                (0x88, 0x88, HandlerId::TupleLen),
                (0x89, 0x89, HandlerId::TupleLenQuiet),
                (0x8A, 0x8A, HandlerId::Istuple),
                (0x8B, 0x8B, HandlerId::TupleLast),
                (0x8C, 0x8C, HandlerId::TuplePush),
                (0x8D, 0x8D, HandlerId::TuplePop),
                (0x90, 0x90, HandlerId::Zeroswapif),
                (0x91, 0x91, HandlerId::Zeroswapifnot),
                (0x92, 0x92, HandlerId::Zerorotrif),
                (0x93, 0x93, HandlerId::Zerorotrifnot),
                (0x94, 0x94, HandlerId::Zeroswapif2),
                (0x95, 0x95, HandlerId::Zeroswapifnot2),
                (0x96, 0x96, HandlerId::Zerorotrif2),
                (0x97, 0x97, HandlerId::Zerorotrifnot2),
                (0xA0, 0xA0, HandlerId::Nullswapif),
                (0xA1, 0xA1, HandlerId::Nullswapifnot),
                (0xA2, 0xA2, HandlerId::Nullrotrif),
                (0xA3, 0xA3, HandlerId::Nullrotrifnot),
                (0xA4, 0xA4, HandlerId::Nullswapif2),
                (0xA5, 0xA5, HandlerId::Nullswapifnot2),
                (0xA6, 0xA6, HandlerId::Nullrotrif2),
                (0xA7, 0xA7, HandlerId::Nullrotrifnot2),
                (0xB0, 0xBF, HandlerId::TupleIndex2),
                (0xC0, 0xFE, HandlerId::TupleIndex3),
                (0xFF, 0xFF, HandlerId::TupleIndex3),
            ],
            subsets: vec![],
        },
        TableCase {
            prefix: vec![0x83],
            entries: vec![
                (0x00, 0xFE, HandlerId::Pushpow2),
                (0xFF, 0xFF, HandlerId::Pushnan),
            ],
            subsets: vec![],
        },
        TableCase {
            prefix: vec![0xB6],
            entries: vec![
                (0x00, 0x00, HandlerId::Fitsx(Mode::Signaling)),
                (0x01, 0x01, HandlerId::Ufitsx(Mode::Signaling)),
                (0x02, 0x02, HandlerId::Bitsize(Mode::Signaling)),
                (0x03, 0x03, HandlerId::Ubitsize(Mode::Signaling)),
                (0x08, 0x08, HandlerId::Min(Mode::Signaling)),
                (0x09, 0x09, HandlerId::Max(Mode::Signaling)),
                (0x0A, 0x0A, HandlerId::Minmax(Mode::Signaling)),
                (0x0B, 0x0B, HandlerId::Abs(Mode::Signaling)),
            ],
            subsets: vec![],
        },
        TableCase {
            prefix: vec![0xB7],
            entries: vec![
                (0xA0, 0xA0, HandlerId::Add(Mode::Quiet)),
                (0xA1, 0xA1, HandlerId::Sub(Mode::Quiet)),
                (0xA2, 0xA2, HandlerId::Subr(Mode::Quiet)),
                (0xA3, 0xA3, HandlerId::Negate(Mode::Quiet)),
                (0xA4, 0xA4, HandlerId::Inc(Mode::Quiet)),
                (0xA5, 0xA5, HandlerId::Dec(Mode::Quiet)),
                (0xA6, 0xA6, HandlerId::Addconst(Mode::Quiet)),
                (0xA7, 0xA7, HandlerId::Mulconst(Mode::Quiet)),
                (0xA8, 0xA8, HandlerId::Mul(Mode::Quiet)),
                (0xA9, 0xA9, HandlerId::Divmod(Mode::Quiet)),
                (0xAA, 0xAA, HandlerId::Lshift(Mode::Quiet)),
                (0xAB, 0xAB, HandlerId::Rshift(Mode::Quiet)),
                (0xAC, 0xAC, HandlerId::Lshift(Mode::Quiet)),
                (0xAD, 0xAD, HandlerId::Rshift(Mode::Quiet)),
                (0xAE, 0xAE, HandlerId::Pow2(Mode::Quiet)),
                (0xB0, 0xB0, HandlerId::And(Mode::Quiet)),
                (0xB1, 0xB1, HandlerId::Or(Mode::Quiet)),
                (0xB2, 0xB2, HandlerId::Xor(Mode::Quiet)),
                (0xB3, 0xB3, HandlerId::Not(Mode::Quiet)),
                (0xB4, 0xB4, HandlerId::Fits(Mode::Quiet)),
                (0xB5, 0xB5, HandlerId::Ufits(Mode::Quiet)),
                (0xB8, 0xB8, HandlerId::Sgn(Mode::Quiet)),
                (0xB9, 0xB9, HandlerId::Less(Mode::Quiet)),
                (0xBA, 0xBA, HandlerId::Equal(Mode::Quiet)),
                (0xBB, 0xBB, HandlerId::Leq(Mode::Quiet)),
                (0xBC, 0xBC, HandlerId::Greater(Mode::Quiet)),
                (0xBD, 0xBD, HandlerId::Neq(Mode::Quiet)),
                (0xBE, 0xBE, HandlerId::Geq(Mode::Quiet)),
                (0xBF, 0xBF, HandlerId::Cmp(Mode::Quiet)),
                (0xC0, 0xC0, HandlerId::Eqint(Mode::Quiet)),
                (0xC1, 0xC1, HandlerId::Lessint(Mode::Quiet)),
                (0xC2, 0xC2, HandlerId::Gtint(Mode::Quiet)),
                (0xC3, 0xC3, HandlerId::Neqint(Mode::Quiet)),
            ],
            subsets: vec![0xB6],
        },
        TableCase {
            prefix: vec![0xB7, 0xB6],
            entries: vec![
                (0x00, 0x00, HandlerId::Fitsx(Mode::Quiet)),
                (0x01, 0x01, HandlerId::Ufitsx(Mode::Quiet)),
                (0x02, 0x02, HandlerId::Bitsize(Mode::Quiet)),
                (0x03, 0x03, HandlerId::Ubitsize(Mode::Quiet)),
                (0x08, 0x08, HandlerId::Min(Mode::Quiet)),
                (0x09, 0x09, HandlerId::Max(Mode::Quiet)),
                (0x0A, 0x0A, HandlerId::Minmax(Mode::Quiet)),
                (0x0B, 0x0B, HandlerId::Abs(Mode::Quiet)),
            ],
            subsets: vec![],
        },
        TableCase {
            prefix: vec![0xC7],
            entries: vec![
                (0x00, 0x00, HandlerId::Sempty),
                (0x01, 0x01, HandlerId::Sdempty),
                (0x02, 0x02, HandlerId::Srempty),
                (0x03, 0x03, HandlerId::Sdfirst),
                (0x04, 0x04, HandlerId::Sdlexcmp),
                (0x05, 0x05, HandlerId::Sdeq),
                (0x08, 0x08, HandlerId::Sdpfx),
                (0x09, 0x09, HandlerId::Sdpfxrev),
                (0x0A, 0x0A, HandlerId::Sdppfx),
                (0x0B, 0x0B, HandlerId::Sdppfxrev),
                (0x0C, 0x0C, HandlerId::Sdsfx),
                (0x0D, 0x0D, HandlerId::Sdsfxrev),
                (0x0E, 0x0E, HandlerId::Sdpsfx),
                (0x0F, 0x0F, HandlerId::Sdpsfxrev),
                (0x10, 0x10, HandlerId::Sdcntlead0),
                (0x11, 0x11, HandlerId::Sdcntlead1),
                (0x12, 0x12, HandlerId::Sdcnttrail0),
                (0x13, 0x13, HandlerId::Sdcnttrail1),
            ],
            subsets: vec![],
        },
        TableCase {
            prefix: vec![0xCF],
            entries: vec![
                (0x00, 0x00, HandlerId::Stix),
                (0x01, 0x01, HandlerId::Stux),
                (0x02, 0x02, HandlerId::Stixr),
                (0x03, 0x03, HandlerId::Stuxr),
                (0x04, 0x04, HandlerId::Stixq),
                (0x05, 0x05, HandlerId::Stuxq),
                (0x06, 0x06, HandlerId::Stixrq),
                (0x07, 0x07, HandlerId::Stuxrq),
                (0x08, 0x08, HandlerId::Sti),
                (0x09, 0x09, HandlerId::Stu),
                (0x0A, 0x0A, HandlerId::Stir),
                (0x0B, 0x0B, HandlerId::Stur),
                (0x0C, 0x0C, HandlerId::Stiq),
                (0x0D, 0x0D, HandlerId::Stuq),
                (0x0E, 0x0E, HandlerId::Stirq),
                (0x0F, 0x0F, HandlerId::Sturq),
                (0x10, 0x10, HandlerId::Stref),
                (0x11, 0x11, HandlerId::Stbref),
                (0x12, 0x12, HandlerId::Stslice),
                (0x13, 0x13, HandlerId::Stb),
                (0x14, 0x14, HandlerId::Strefr),
                (0x15, 0x15, HandlerId::Endcst),
                (0x16, 0x16, HandlerId::Stslicer),
                (0x17, 0x17, HandlerId::Stbr),
                (0x18, 0x18, HandlerId::Strefq),
                (0x19, 0x19, HandlerId::Stbrefq),
                (0x1A, 0x1A, HandlerId::Stsliceq),
                (0x1B, 0x1B, HandlerId::Stbq),
                (0x1C, 0x1C, HandlerId::Strefrq),
                (0x1D, 0x1D, HandlerId::Stbrefrq),
                (0x1E, 0x1E, HandlerId::Stslicerq),
                (0x1F, 0x1F, HandlerId::Stbrq),
                (0x20, 0x20, HandlerId::Strefconst),
                (0x21, 0x21, HandlerId::Stref2const),
                (0x23, 0x23, HandlerId::Endxc),
                (0x28, 0x28, HandlerId::Stile4),
                (0x29, 0x29, HandlerId::Stule4),
                (0x2A, 0x2A, HandlerId::Stile8),
                (0x2B, 0x2B, HandlerId::Stule8),
                (0x30, 0x30, HandlerId::Bdepth),
                (0x31, 0x31, HandlerId::Bbits),
                (0x32, 0x32, HandlerId::Brefs),
                (0x33, 0x33, HandlerId::Bbitrefs),
                (0x35, 0x35, HandlerId::Brembits),
                (0x36, 0x36, HandlerId::Bremrefs),
                (0x37, 0x37, HandlerId::Brembitrefs),
                (0x38, 0x38, HandlerId::BchkbitsShort),
                (0x39, 0x39, HandlerId::BchkbitsLong),
                (0x3A, 0x3A, HandlerId::Bchkrefs),
                (0x3B, 0x3B, HandlerId::Bchkbitrefs),
                (0x3C, 0x3C, HandlerId::BchkbitsqShort),
                (0x3D, 0x3D, HandlerId::BchkbitsqLong),
                (0x3E, 0x3E, HandlerId::Bchkrefsq),
                (0x3F, 0x3F, HandlerId::Bchkbitrefsq),
                (0x40, 0x40, HandlerId::Stzeroes),
                (0x41, 0x41, HandlerId::Stones),
                (0x42, 0x42, HandlerId::Stsame),
                (0x80, 0xFE, HandlerId::Stsliceconst),
                (0xFF, 0xFF, HandlerId::Stsliceconst),
            ],
            subsets: vec![],
        },
        TableCase {
            prefix: vec![0xD7],
            entries: vec![
                (0x00, 0x00, HandlerId::Ldix),
                (0x01, 0x01, HandlerId::Ldux),
                (0x02, 0x02, HandlerId::Pldix),
                (0x03, 0x03, HandlerId::Pldux),
                (0x04, 0x04, HandlerId::Ldixq),
                (0x05, 0x05, HandlerId::Lduxq),
                (0x06, 0x06, HandlerId::Pldixq),
                (0x07, 0x07, HandlerId::Plduxq),
                (0x08, 0x08, HandlerId::Ldi),
                (0x09, 0x09, HandlerId::Ldu),
                (0x0A, 0x0A, HandlerId::Pldi),
                (0x0B, 0x0B, HandlerId::Pldu),
                (0x0C, 0x0C, HandlerId::Ldiq),
                (0x0D, 0x0D, HandlerId::Lduq),
                (0x0E, 0x0E, HandlerId::Pldiq),
                (0x0F, 0x0F, HandlerId::Plduq),
                (0x10, 0x17, HandlerId::Plduz),
                (0x18, 0x18, HandlerId::Ldslicex),
                (0x19, 0x19, HandlerId::Pldslicex),
                (0x1A, 0x1A, HandlerId::Ldslicexq),
                (0x1B, 0x1B, HandlerId::Pldslicexq),
                (0x1C, 0x1C, HandlerId::Ldslice),
                (0x1D, 0x1D, HandlerId::Pldslice),
                (0x1E, 0x1E, HandlerId::Ldsliceq),
                (0x1F, 0x1F, HandlerId::Pldsliceq),
                (0x20, 0x20, HandlerId::Pldslicex),
                (0x21, 0x21, HandlerId::Sdskipfirst),
                (0x22, 0x22, HandlerId::Sdcutlast),
                (0x23, 0x23, HandlerId::Sdskiplast),
                (0x24, 0x24, HandlerId::Sdsubstr),
                (0x26, 0x26, HandlerId::Sdbeginsx),
                (0x27, 0x27, HandlerId::Sdbeginsxq),
                (0x28, 0x2B, HandlerId::Sdbegins),
                (0x2C, 0x2F, HandlerId::Sdbeginsq),
                (0x30, 0x30, HandlerId::Scutfirst),
                (0x31, 0x31, HandlerId::Sskipfirst),
                (0x32, 0x32, HandlerId::Scutlast),
                (0x33, 0x33, HandlerId::Sskiplast),
                (0x34, 0x34, HandlerId::Subslice),
                (0x36, 0x36, HandlerId::Split),
                (0x37, 0x37, HandlerId::Splitq),
                (0x39, 0x39, HandlerId::Xctos),
                (0x3A, 0x3A, HandlerId::Xload),
                (0x3B, 0x3B, HandlerId::Xloadq),
                (0x41, 0x41, HandlerId::Schkbits),
                (0x42, 0x42, HandlerId::Schkrefs),
                (0x43, 0x43, HandlerId::Schkbitrefs),
                (0x45, 0x45, HandlerId::Schkbitsq),
                (0x46, 0x46, HandlerId::Schkrefsq),
                (0x47, 0x47, HandlerId::Schkbitrefsq),
                (0x48, 0x48, HandlerId::Pldrefvar),
                (0x49, 0x49, HandlerId::Sbits),
                (0x4A, 0x4A, HandlerId::Srefs),
                (0x4B, 0x4B, HandlerId::Sbitrefs),
                (0x4C, 0x4C, HandlerId::Pldref),
                (0x4D, 0x4F, HandlerId::Pldrefidx),
                (0x50, 0x50, HandlerId::Ldile4),
                (0x51, 0x51, HandlerId::Ldule4),
                (0x52, 0x52, HandlerId::Ldile8),
                (0x53, 0x53, HandlerId::Ldule8),
                (0x54, 0x54, HandlerId::Pldile4),
                (0x55, 0x55, HandlerId::Pldule4),
                (0x56, 0x56, HandlerId::Pldile8),
                (0x57, 0x57, HandlerId::Pldule8),
                (0x58, 0x58, HandlerId::Ldile4q),
                (0x59, 0x59, HandlerId::Ldule4q),
                (0x5A, 0x5A, HandlerId::Ldile8q),
                (0x5B, 0x5B, HandlerId::Ldule8q),
                (0x5C, 0x5C, HandlerId::Pldile4q),
                (0x5D, 0x5D, HandlerId::Pldule4q),
                (0x5E, 0x5E, HandlerId::Pldile8q),
                (0x5F, 0x5F, HandlerId::Pldule8q),
                (0x60, 0x60, HandlerId::Ldzeroes),
                (0x61, 0x61, HandlerId::Ldones),
                (0x62, 0x62, HandlerId::Ldsame),
                (0x64, 0x64, HandlerId::Sdepth),
                (0x65, 0x65, HandlerId::Cdepth),
            ],
            subsets: vec![],
        },
        TableCase {
            prefix: vec![0xDB],
            entries: vec![
                (0x00, 0x0F, HandlerId::Callxargs),
                (0x10, 0x1F, HandlerId::Jmpxargs),
                (0x20, 0x2F, HandlerId::Retargs),
                (0x30, 0x30, HandlerId::Ret),
                (0x31, 0x31, HandlerId::Retalt),
                (0x32, 0x32, HandlerId::Retbool),
                (0x34, 0x34, HandlerId::Callcc),
                (0x35, 0x35, HandlerId::Jmpxdata),
                (0x36, 0x36, HandlerId::Callccargs),
                (0x38, 0x38, HandlerId::Callxva),
                (0x39, 0x39, HandlerId::Retva),
                (0x3A, 0x3A, HandlerId::Jmpxva),
                (0x3B, 0x3B, HandlerId::Callccva),
                (0x3C, 0x3C, HandlerId::Callref),
                (0x3D, 0x3D, HandlerId::Jmpref),
                (0x3E, 0x3E, HandlerId::Jmprefdata),
                (0x3F, 0x3F, HandlerId::Retdata),
            ],
            subsets: vec![],
        },
        TableCase {
            prefix: vec![0xE3],
            entries: vec![
                (0x00, 0x00, HandlerId::Ifref),
                (0x01, 0x01, HandlerId::Ifnotref),
                (0x02, 0x02, HandlerId::Ifjmpref),
                (0x03, 0x03, HandlerId::Ifnotjmpref),
                (0x04, 0x04, HandlerId::Condsel),
                (0x05, 0x05, HandlerId::Condselchk),
                (0x08, 0x08, HandlerId::Ifretalt),
                (0x09, 0x09, HandlerId::Ifnotretalt),
                (0x0D, 0x0D, HandlerId::Ifrefelse),
                (0x0E, 0x0E, HandlerId::Ifelseref),
                (0x0F, 0x0F, HandlerId::Ifrefelseref),
                (0x14, 0x14, HandlerId::RepeatBreak),
                (0x15, 0x15, HandlerId::RepeatendBreak),
                (0x16, 0x16, HandlerId::UntilBreak),
                (0x17, 0x17, HandlerId::UntilendBreak),
                (0x18, 0x18, HandlerId::WhileBreak),
                (0x19, 0x19, HandlerId::WhileendBreak),
                (0x1A, 0x1A, HandlerId::AgainBreak),
                (0x1B, 0x1B, HandlerId::AgainendBreak),
                (0x80, 0x9F, HandlerId::Ifbitjmp),
                (0xA0, 0xBF, HandlerId::Ifnbitjmp),
                (0xC0, 0xDF, HandlerId::Ifbitjmpref),
                (0xE0, 0xFE, HandlerId::Ifnbitjmpref),
                (0xFF, 0xFF, HandlerId::Ifnbitjmpref),
            ],
            subsets: vec![],
        },
        TableCase {
            prefix: vec![0xED],
            entries: vec![
                (0x00, 0x0F, HandlerId::Returnargs),
                (0x10, 0x10, HandlerId::Returnva),
                (0x11, 0x11, HandlerId::Setcontva),
                (0x12, 0x12, HandlerId::Setnumva),
                (0x1E, 0x1E, HandlerId::Bless),
                (0x1F, 0x1F, HandlerId::Blessva),
                (0x40, 0x4F, HandlerId::Pushctr),
                (0x50, 0x5F, HandlerId::Popctr),
                (0x60, 0x6F, HandlerId::Setcontctr),
                (0x70, 0x7F, HandlerId::Setretctr),
                (0x80, 0x8F, HandlerId::Setaltctr),
                (0x90, 0x9F, HandlerId::Popsave),
                (0xA0, 0xAF, HandlerId::Save),
                (0xB0, 0xBF, HandlerId::Savealt),
                (0xC0, 0xCF, HandlerId::Saveboth),
                (0xE0, 0xE0, HandlerId::Pushctrx),
                (0xE1, 0xE1, HandlerId::Popctrx),
                (0xE2, 0xE2, HandlerId::Setcontctrx),
                (0xF0, 0xF0, HandlerId::Compos),
                (0xF1, 0xF1, HandlerId::Composalt),
                (0xF2, 0xF2, HandlerId::Composboth),
                (0xF3, 0xF3, HandlerId::Atexit),
                (0xF4, 0xF4, HandlerId::Atexitalt),
                (0xF5, 0xF5, HandlerId::Setexitalt),
                (0xF6, 0xF6, HandlerId::Thenret),
                (0xF7, 0xF7, HandlerId::Thenretalt),
                (0xF8, 0xF8, HandlerId::Invert),
                (0xF9, 0xF9, HandlerId::Booleval),
                (0xFA, 0xFA, HandlerId::Samealt),
                (0xFB, 0xFB, HandlerId::SamealtSave),
            ],
            subsets: vec![],
        },
        TableCase {
            prefix: vec![0xF1],
            entries: vec![
                (0x00, 0x3F, HandlerId::CallLong),
                (0x40, 0x7F, HandlerId::Jmp),
                (0x80, 0xBF, HandlerId::Prepare),
            ],
            subsets: vec![],
        },
        TableCase {
            prefix: vec![0xF2],
            entries: vec![
                (0x00, 0x3F, HandlerId::ThrowShort),
                (0x40, 0x7F, HandlerId::ThrowifShort),
                (0x80, 0xBF, HandlerId::ThrowifnotShort),
                (0xC0, 0xC7, HandlerId::ThrowLong),
                (0xC8, 0xCF, HandlerId::Throwarg),
                (0xD0, 0xD7, HandlerId::ThrowifLong),
                (0xD8, 0xDF, HandlerId::Throwargif),
                (0xE0, 0xE7, HandlerId::ThrowifnotLong),
                (0xE8, 0xEF, HandlerId::Throwargifnot),
                (0xF0, 0xF0, HandlerId::Throwany),
                (0xF1, 0xF1, HandlerId::Throwargany),
                (0xF2, 0xF2, HandlerId::Throwanyif),
                (0xF3, 0xF3, HandlerId::Throwarganyif),
                (0xF4, 0xF4, HandlerId::Throwanyifnot),
                (0xF5, 0xF5, HandlerId::Throwarganyifnot),
                (0xFF, 0xFF, HandlerId::Try),
            ],
            subsets: vec![],
        },
        TableCase {
            prefix: vec![0xFA],
            entries: vec![
                (0x00, 0x00, HandlerId::Ldgrams),
                (0x01, 0x01, HandlerId::Ldvarint16),
                (0x02, 0x02, HandlerId::Stgrams),
                (0x03, 0x03, HandlerId::Stvarint16),
                (0x04, 0x04, HandlerId::Ldvaruint32),
                (0x05, 0x05, HandlerId::Ldvarint32),
                (0x06, 0x06, HandlerId::Stvaruint32),
                (0x07, 0x07, HandlerId::Stvarint32),
                (0x40, 0x40, HandlerId::Ldmsgaddr(Mode::Signaling)),
                (0x41, 0x41, HandlerId::Ldmsgaddr(Mode::Quiet)),
                (0x42, 0x42, HandlerId::Parsemsgaddr(Mode::Signaling)),
                (0x43, 0x43, HandlerId::Parsemsgaddr(Mode::Quiet)),
                (0x44, 0x44, HandlerId::RewriteStdAddr(Mode::Signaling)),
                (0x45, 0x45, HandlerId::RewriteStdAddr(Mode::Quiet)),
                (0x46, 0x46, HandlerId::RewriteVarAddr(Mode::Signaling)),
                (0x47, 0x47, HandlerId::RewriteVarAddr(Mode::Quiet)),
            ],
            subsets: vec![],
        },
        TableCase {
            prefix: vec![0xFB],
            entries: vec![
                (0x00, 0x00, HandlerId::Sendrawmsg),
                (0x02, 0x02, HandlerId::Rawreserve),
                (0x03, 0x03, HandlerId::Rawreservex),
                (0x04, 0x04, HandlerId::Setcode),
                (0x06, 0x06, HandlerId::Setlibcode),
                (0x07, 0x07, HandlerId::Changelib),
            ],
            subsets: vec![],
        },
        TableCase {
            prefix: vec![0xF4],
            entries: vec![
                (0x00, 0x00, HandlerId::Stdict),
                (0x01, 0x01, HandlerId::Skipdict),
                (0x02, 0x02, HandlerId::Lddicts),
                (0x03, 0x03, HandlerId::Plddicts),
                (0x04, 0x04, HandlerId::Lddict),
                (0x05, 0x05, HandlerId::Plddict),
                (0x06, 0x06, HandlerId::Lddictq),
                (0x07, 0x07, HandlerId::Plddictq),
                (0x0A, 0x0A, HandlerId::Dictget),
                (0x0B, 0x0B, HandlerId::Dictgetref),
                (0x0C, 0x0C, HandlerId::Dictiget),
                (0x0D, 0x0D, HandlerId::Dictigetref),
                (0x0E, 0x0E, HandlerId::Dictuget),
                (0x0F, 0x0F, HandlerId::Dictugetref),
                (0x12, 0x12, HandlerId::Dictset),
                (0x13, 0x13, HandlerId::Dictsetref),
                (0x14, 0x14, HandlerId::Dictiset),
                (0x15, 0x15, HandlerId::Dictisetref),
                (0x16, 0x16, HandlerId::Dictuset),
                (0x17, 0x17, HandlerId::Dictusetref),
                (0x1A, 0x1A, HandlerId::Dictsetget),
                (0x1B, 0x1B, HandlerId::Dictsetgetref),
                (0x1C, 0x1C, HandlerId::Dictisetget),
                (0x1D, 0x1D, HandlerId::Dictisetgetref),
                (0x1E, 0x1E, HandlerId::Dictusetget),
                (0x1F, 0x1F, HandlerId::Dictusetgetref),
                (0x22, 0x22, HandlerId::Dictreplace),
                (0x23, 0x23, HandlerId::Dictreplaceref),
                (0x24, 0x24, HandlerId::Dictireplace),
                (0x25, 0x25, HandlerId::Dictireplaceref),
                (0x26, 0x26, HandlerId::Dictureplace),
                (0x27, 0x27, HandlerId::Dictureplaceref),
                (0x2A, 0x2A, HandlerId::Dictreplaceget),
                (0x2B, 0x2B, HandlerId::Dictreplacegetref),
                (0x2C, 0x2C, HandlerId::Dictireplaceget),
                (0x2D, 0x2D, HandlerId::Dictireplacegetref),
                (0x2E, 0x2E, HandlerId::Dictureplaceget),
                (0x2F, 0x2F, HandlerId::Dictureplacegetref),
                (0x32, 0x32, HandlerId::Dictadd),
                (0x33, 0x33, HandlerId::Dictaddref),
                (0x34, 0x34, HandlerId::Dictiadd),
                (0x35, 0x35, HandlerId::Dictiaddref),
                (0x36, 0x36, HandlerId::Dictuadd),
                (0x37, 0x37, HandlerId::Dictuaddref),
                (0x3A, 0x3A, HandlerId::Dictaddget),
                (0x3B, 0x3B, HandlerId::Dictaddgetref),
                (0x3C, 0x3C, HandlerId::Dictiaddget),
                (0x3D, 0x3D, HandlerId::Dictiaddgetref),
                (0x3E, 0x3E, HandlerId::Dictuaddget),
                (0x3F, 0x3F, HandlerId::Dictuaddgetref),
                (0x41, 0x41, HandlerId::Dictsetb),
                (0x42, 0x42, HandlerId::Dictisetb),
                (0x43, 0x43, HandlerId::Dictusetb),
                (0x45, 0x45, HandlerId::Dictsetgetb),
                (0x46, 0x46, HandlerId::Dictisetgetb),
                (0x47, 0x47, HandlerId::Dictusetgetb),
                (0x49, 0x49, HandlerId::Dictreplaceb),
                (0x4A, 0x4A, HandlerId::Dictireplaceb),
                (0x4B, 0x4B, HandlerId::Dictureplaceb),
                (0x4D, 0x4D, HandlerId::Dictreplacegetb),
                (0x4E, 0x4E, HandlerId::Dictireplacegetb),
                (0x4F, 0x4F, HandlerId::Dictureplacegetb),
                (0x51, 0x51, HandlerId::Dictaddb),
                (0x52, 0x52, HandlerId::Dictiaddb),
                (0x53, 0x53, HandlerId::Dictuaddb),
                (0x55, 0x55, HandlerId::Dictaddgetb),
                (0x56, 0x56, HandlerId::Dictiaddgetb),
                (0x57, 0x57, HandlerId::Dictuaddgetb),
                (0x59, 0x59, HandlerId::Dictdel),
                (0x5A, 0x5A, HandlerId::Dictidel),
                (0x5B, 0x5B, HandlerId::Dictudel),
                (0x62, 0x62, HandlerId::Dictdelget),
                (0x63, 0x63, HandlerId::Dictdelgetref),
                (0x64, 0x64, HandlerId::Dictidelget),
                (0x65, 0x65, HandlerId::Dictidelgetref),
                (0x66, 0x66, HandlerId::Dictudelget),
                (0x67, 0x67, HandlerId::Dictudelgetref),
                (0x69, 0x69, HandlerId::Dictgetoptref),
                (0x6A, 0x6A, HandlerId::Dictigetoptref),
                (0x6B, 0x6B, HandlerId::Dictugetoptref),
                (0x6D, 0x6D, HandlerId::Dictsetgetoptref),
                (0x6E, 0x6E, HandlerId::Dictisetgetoptref),
                (0x6F, 0x6F, HandlerId::Dictusetgetoptref),
                (0x70, 0x70, HandlerId::Pfxdictset),
                (0x71, 0x71, HandlerId::Pfxdictreplace),
                (0x72, 0x72, HandlerId::Pfxdictadd),
                (0x73, 0x73, HandlerId::Pfxdictdel),
                (0x74, 0x74, HandlerId::Dictgetnext),
                (0x75, 0x75, HandlerId::Dictgetnexteq),
                (0x76, 0x76, HandlerId::Dictgetprev),
                (0x77, 0x77, HandlerId::Dictgetpreveq),
                (0x78, 0x78, HandlerId::Dictigetnext),
                (0x79, 0x79, HandlerId::Dictigetnexteq),
                (0x7A, 0x7A, HandlerId::Dictigetprev),
                (0x7B, 0x7B, HandlerId::Dictigetpreveq),
                (0x7C, 0x7C, HandlerId::Dictugetnext),
                (0x7D, 0x7D, HandlerId::Dictugetnexteq),
                (0x7E, 0x7E, HandlerId::Dictugetprev),
                (0x7F, 0x7F, HandlerId::Dictugetpreveq),
                (0x82, 0x82, HandlerId::Dictmin),
                (0x83, 0x83, HandlerId::Dictminref),
                (0x84, 0x84, HandlerId::Dictimin),
                (0x85, 0x85, HandlerId::Dictiminref),
                (0x86, 0x86, HandlerId::Dictumin),
                (0x87, 0x87, HandlerId::Dictuminref),
                (0x8A, 0x8A, HandlerId::Dictmax),
                (0x8B, 0x8B, HandlerId::Dictmaxref),
                (0x8C, 0x8C, HandlerId::Dictimax),
                (0x8D, 0x8D, HandlerId::Dictimaxref),
                (0x8E, 0x8E, HandlerId::Dictumax),
                (0x8F, 0x8F, HandlerId::Dictumaxref),
                (0x92, 0x92, HandlerId::Dictremmin),
                (0x93, 0x93, HandlerId::Dictremminref),
                (0x94, 0x94, HandlerId::Dictiremmin),
                (0x95, 0x95, HandlerId::Dictiremminref),
                (0x96, 0x96, HandlerId::Dicturemmin),
                (0x97, 0x97, HandlerId::Dicturemminref),
                (0x9A, 0x9A, HandlerId::Dictremmax),
                (0x9B, 0x9B, HandlerId::Dictremmaxref),
                (0x9C, 0x9C, HandlerId::Dictiremmax),
                (0x9D, 0x9D, HandlerId::Dictiremmaxref),
                (0x9E, 0x9E, HandlerId::Dicturemmax),
                (0x9F, 0x9F, HandlerId::Dicturemmaxref),
                (0xA0, 0xA0, HandlerId::Dictigetjmp),
                (0xA1, 0xA1, HandlerId::Dictugetjmp),
                (0xA2, 0xA2, HandlerId::Dictigetexec),
                (0xA3, 0xA3, HandlerId::Dictugetexec),
                (0xA4, 0xA7, HandlerId::Dictpushconst),
                (0xA8, 0xA8, HandlerId::Pfxdictgetq),
                (0xA9, 0xA9, HandlerId::Pfxdictget),
                (0xAA, 0xAA, HandlerId::Pfxdictgetjmp),
                (0xAB, 0xAB, HandlerId::Pfxdictgetexec),
                (0xAC, 0xAE, HandlerId::Pfxdictswitch),
                (0xAF, 0xAF, HandlerId::Pfxdictswitch),
                (0xB1, 0xB1, HandlerId::Subdictget),
                (0xB2, 0xB2, HandlerId::Subdictiget),
                (0xB3, 0xB3, HandlerId::Subdictuget),
                (0xB5, 0xB5, HandlerId::Subdictrpget),
                (0xB6, 0xB6, HandlerId::Subdictirpget),
                (0xB7, 0xB7, HandlerId::Subdicturpget),
                (0xBC, 0xBC, HandlerId::Dictigetjmpz),
                (0xBD, 0xBD, HandlerId::Dictugetjmpz),
                (0xBE, 0xBE, HandlerId::Dictigetexecz),
                (0xBF, 0xBF, HandlerId::Dictugetexecz),
            ],
            subsets: vec![],
        },
        TableCase {
            prefix: vec![0xF8],
            entries: vec![
                (0x00, 0x00, HandlerId::Accept),
                (0x01, 0x01, HandlerId::Setgaslimit),
                (0x02, 0x02, HandlerId::Buygas),
                (0x04, 0x04, HandlerId::Gramtogas),
                (0x05, 0x05, HandlerId::Gastogram),
                (0x0F, 0x0F, HandlerId::Commit),
                (0x10, 0x10, HandlerId::Randu256),
                (0x11, 0x11, HandlerId::Rand),
                (0x14, 0x14, HandlerId::Setrand),
                (0x15, 0x15, HandlerId::Addrand),
                (0x20, 0x20, HandlerId::Getparam),
                (0x21, 0x21, HandlerId::Getparam),
                (0x22, 0x22, HandlerId::Getparam),
                (0x23, 0x23, HandlerId::Now),
                (0x24, 0x24, HandlerId::Blocklt),
                (0x25, 0x25, HandlerId::Ltime),
                (0x26, 0x26, HandlerId::Randseed),
                (0x27, 0x27, HandlerId::Balance),
                (0x28, 0x28, HandlerId::MyAddr),
                (0x29, 0x29, HandlerId::ConfigRoot),
                (0x2A, 0x2A, HandlerId::MyCode),
                (0x30, 0x30, HandlerId::ConfigDict),
                (0x32, 0x32, HandlerId::ConfigRefParam),
                (0x33, 0x33, HandlerId::ConfigOptParam),
                (0x40, 0x40, HandlerId::Getglobvar),
                (0x41, 0x5E, HandlerId::Getglob),
                (0x5F, 0x5F, HandlerId::Getglob),
                (0x60, 0x60, HandlerId::Setglobvar),
                (0x61, 0x7E, HandlerId::Setglob),
                (0x7F, 0x7F, HandlerId::Setglob),
            ],
            subsets: vec![],
        },
        TableCase {
            prefix: vec![0xF9],
            entries: vec![
                (0x00, 0x00, HandlerId::Hashcu),
                (0x01, 0x01, HandlerId::Hashsu),
                (0x02, 0x02, HandlerId::Sha256u),
                (0x10, 0x10, HandlerId::Chksignu),
                (0x11, 0x11, HandlerId::Chksigns),
                (0x40, 0x40, HandlerId::Cdatasizeq),
                (0x41, 0x41, HandlerId::Cdatasize),
                (0x42, 0x42, HandlerId::Sdatasizeq),
                (0x43, 0x43, HandlerId::Sdatasize),
            ],
            subsets: vec![],
        },
        TableCase {
            prefix: vec![0xFE],
            entries: vec![
                (0x00, 0x00, HandlerId::DumpStack),
                (0x01, 0x0E, HandlerId::DumpStackTop),
                (0x10, 0x10, HandlerId::DumpHex),
                (0x11, 0x11, HandlerId::PrintHex),
                (0x12, 0x12, HandlerId::DumpBin),
                (0x13, 0x13, HandlerId::PrintBin),
                (0x14, 0x14, HandlerId::DumpStr),
                (0x15, 0x15, HandlerId::PrintStr),
                (0x1E, 0x1E, HandlerId::DebugOff),
                (0x1F, 0x1F, HandlerId::DebugOn),
                (0x20, 0x2E, HandlerId::DumpVar),
                (0x30, 0x3E, HandlerId::PrintVar),
                (0xF0, 0xFE, HandlerId::DumpString),
                (0xFF, 0xFF, HandlerId::DumpString),
            ],
            subsets: vec![],
        },
    ]
}

#[test]
fn reference_table_matches_published_encoding() {
    let t = Handlers::new_code_page_0();
    for case in reference_tables() {
        let mut expected: Vec<Option<HandlerId>> = vec![None; 256];
        for &(lo, hi, h) in &case.entries {
            let mut c = lo as usize;
            while c <= hi as usize {
                expected[c] = Some(h);
                c += 1;
            }
        }
        for c in 0..=255u8 {
            let mut bytes = case.prefix.clone();
            bytes.push(c);
            let got = resolve(&t, bytes);
            if case.subsets.contains(&c) {
                assert_eq!(got, Err(DecodeError::Truncated), "prefix {:02X?} byte {:02X}", case.prefix, c);
            } else {
                let want = expected[c as usize].unwrap_or(HandlerId::Unknown);
                assert_eq!(got, Ok(want), "prefix {:02X?} byte {:02X}", case.prefix, c);
            }
        }
    }
}
