//! The reference opcode table as a specification value: for every table of
//! the published code-page-zero encoding, the binding of each of its 256
//! byte values. `Handlers::matches_ref` relates a built table to this
//! model, and `ref_lookup` is dispatch read directly off the model, so a
//! table that matches the model is proved to dispatch exactly as the
//! published encoding says, on every input.

use vstd::prelude::*;

use crate::handlers::{HandlerId, Handlers, Lookup, Mode, Slot};

verus! {

/// The normative content of one byte value of a reference table.
pub enum RefSlot {
    /// No registration: resolves to the fallback handler.
    Vacant,
    /// A handler bound to this exact byte value.
    Bound(HandlerId),
    /// A nested reference table, reached by consuming one more byte.
    Subset(Seq<RefSlot>),
}

/// The reference binding of byte value `c` in the subset reached by the byte(s) 0xB7 0xB6.
pub open spec fn ref_slot_b7_b6(c: int) -> RefSlot {
    if c == 0x00 {
        RefSlot::Bound(HandlerId::Fitsx(Mode::Quiet))
    } else
    if c == 0x01 {
        RefSlot::Bound(HandlerId::Ufitsx(Mode::Quiet))
    } else
    if c == 0x02 {
        RefSlot::Bound(HandlerId::Bitsize(Mode::Quiet))
    } else
    if c == 0x03 {
        RefSlot::Bound(HandlerId::Ubitsize(Mode::Quiet))
    } else
    if c == 0x08 {
        RefSlot::Bound(HandlerId::Min(Mode::Quiet))
    } else
    if c == 0x09 {
        RefSlot::Bound(HandlerId::Max(Mode::Quiet))
    } else
    if c == 0x0A {
        RefSlot::Bound(HandlerId::Minmax(Mode::Quiet))
    } else
    if c == 0x0B {
        RefSlot::Bound(HandlerId::Abs(Mode::Quiet))
    } else {
        RefSlot::Vacant
    }
}

pub open spec fn ref_table_b7_b6() -> Seq<RefSlot> {
    Seq::new(256, |c: int| ref_slot_b7_b6(c))
}

/// The reference binding of byte value `c` in the subset reached by the byte(s) 0x54.
pub open spec fn ref_slot_54(c: int) -> RefSlot {
    if 0x00 <= c < 0x10 {
        RefSlot::Bound(HandlerId::Xchg3)
    } else
    if 0x10 <= c < 0x20 {
        RefSlot::Bound(HandlerId::Xc2pu)
    } else
    if 0x20 <= c < 0x30 {
        RefSlot::Bound(HandlerId::Xcpuxc)
    } else
    if 0x30 <= c < 0x40 {
        RefSlot::Bound(HandlerId::Xcpu2)
    } else
    if 0x40 <= c < 0x50 {
        RefSlot::Bound(HandlerId::Puxc2)
    } else
    if 0x50 <= c < 0x60 {
        RefSlot::Bound(HandlerId::Puxcpu)
    } else
    if 0x60 <= c < 0x70 {
        RefSlot::Bound(HandlerId::Pu2xc)
    } else
    if 0x70 <= c < 0x80 {
        RefSlot::Bound(HandlerId::Push3)
    } else {
        RefSlot::Vacant
    }
}

pub open spec fn ref_table_54() -> Seq<RefSlot> {
    Seq::new(256, |c: int| ref_slot_54(c))
}

/// The reference binding of byte value `c` in the subset reached by the byte(s) 0x5F.
pub open spec fn ref_slot_5f(c: int) -> RefSlot {
    if 0x00 <= c < 0x10 {
        RefSlot::Bound(HandlerId::Blkdrop)
    } else
    if 0x10 <= c < 0xFF {
        RefSlot::Bound(HandlerId::Blkpush)
    } else
    if c == 0xFF {
        RefSlot::Bound(HandlerId::Blkpush)
    } else {
        RefSlot::Vacant
    }
}

pub open spec fn ref_table_5f() -> Seq<RefSlot> {
    Seq::new(256, |c: int| ref_slot_5f(c))
}

/// The reference binding of byte value `c` in the subset reached by the byte(s) 0x6C.
pub open spec fn ref_slot_6c(c: int) -> RefSlot {
    if 0x10 <= c < 0xFF {
        RefSlot::Bound(HandlerId::Blkdrop2)
    } else
    if c == 0xFF {
        RefSlot::Bound(HandlerId::Blkdrop2)
    } else {
        RefSlot::Vacant
    }
}

pub open spec fn ref_table_6c() -> Seq<RefSlot> {
    Seq::new(256, |c: int| ref_slot_6c(c))
}

/// The reference binding of byte value `c` in the subset reached by the byte(s) 0x6F.
pub open spec fn ref_slot_6f(c: int) -> RefSlot {
    if 0x00 <= c < 0x10 {
        RefSlot::Bound(HandlerId::TupleCreate)
    } else
    if 0x10 <= c < 0x20 {
        RefSlot::Bound(HandlerId::TupleIndex)
    } else
    if 0x20 <= c < 0x30 {
        RefSlot::Bound(HandlerId::TupleUn)
    } else
    if 0x30 <= c < 0x40 {
        RefSlot::Bound(HandlerId::TupleUnpackfirst)
    } else
    if 0x40 <= c < 0x50 {
        RefSlot::Bound(HandlerId::TupleExplode)
    } else
    if 0x50 <= c < 0x60 {
        RefSlot::Bound(HandlerId::TupleSetindex)
    } else
    if 0x60 <= c < 0x70 {
        RefSlot::Bound(HandlerId::TupleIndexQuiet)
    } else
    if 0x70 <= c < 0x80 {
        RefSlot::Bound(HandlerId::TupleSetindexQuiet)
    } else
    if c == 0x80 {
        RefSlot::Bound(HandlerId::TupleCreatevar)
    } else
    if c == 0x81 {
        RefSlot::Bound(HandlerId::TupleIndexvar)
    } else
    if c == 0x82 {
        RefSlot::Bound(HandlerId::TupleUntuplevar)
    } else
    if c == 0x83 {
        RefSlot::Bound(HandlerId::TupleUnpackfirstvar)
    } else
    if c == 0x84 {
        RefSlot::Bound(HandlerId::TupleExplodevar)
    } else
    if c == 0x85 {
        RefSlot::Bound(HandlerId::TupleSetindexvar)
    } else
    if c == 0x86 {
        RefSlot::Bound(HandlerId::TupleIndexvarQuiet)
    } else
    if c == 0x87 {
        RefSlot::Bound(HandlerId::TupleSetindexvarQuiet)
    } else
    if c == 0x88 {
        RefSlot::Bound(HandlerId::TupleLen)
    } else
    if c == 0x89 {
        RefSlot::Bound(HandlerId::TupleLenQuiet)
    } else
    if c == 0x8A {
        RefSlot::Bound(HandlerId::Istuple)
    } else
    if c == 0x8B {
        RefSlot::Bound(HandlerId::TupleLast)
    } else
    if c == 0x8C {
        RefSlot::Bound(HandlerId::TuplePush)
    } else
    if c == 0x8D {
        RefSlot::Bound(HandlerId::TuplePop)
    } else
    if c == 0x90 {
        RefSlot::Bound(HandlerId::Zeroswapif)
    } else
    if c == 0x91 {
        RefSlot::Bound(HandlerId::Zeroswapifnot)
    } else
    if c == 0x92 {
        RefSlot::Bound(HandlerId::Zerorotrif)
    } else
    if c == 0x93 {
        RefSlot::Bound(HandlerId::Zerorotrifnot)
    } else
    if c == 0x94 {
        RefSlot::Bound(HandlerId::Zeroswapif2)
    } else
    if c == 0x95 {
        RefSlot::Bound(HandlerId::Zeroswapifnot2)
    } else
    if c == 0x96 {
        RefSlot::Bound(HandlerId::Zerorotrif2)
    } else
    if c == 0x97 {
        RefSlot::Bound(HandlerId::Zerorotrifnot2)
    } else
    if c == 0xA0 {
        RefSlot::Bound(HandlerId::Nullswapif)
    } else
    if c == 0xA1 {
        RefSlot::Bound(HandlerId::Nullswapifnot)
    } else
    if c == 0xA2 {
        RefSlot::Bound(HandlerId::Nullrotrif)
    } else
    if c == 0xA3 {
        RefSlot::Bound(HandlerId::Nullrotrifnot)
    } else
    if c == 0xA4 {
        RefSlot::Bound(HandlerId::Nullswapif2)
    } else
    if c == 0xA5 {
        RefSlot::Bound(HandlerId::Nullswapifnot2)
    } else
    if c == 0xA6 {
        RefSlot::Bound(HandlerId::Nullrotrif2)
    } else
    if c == 0xA7 {
        RefSlot::Bound(HandlerId::Nullrotrifnot2)
    } else
    if 0xB0 <= c < 0xC0 {
        RefSlot::Bound(HandlerId::TupleIndex2)
    } else
    if 0xC0 <= c < 0xFF {
        RefSlot::Bound(HandlerId::TupleIndex3)
    } else
    if c == 0xFF {
        RefSlot::Bound(HandlerId::TupleIndex3)
    } else {
        RefSlot::Vacant
    }
}

pub open spec fn ref_table_6f() -> Seq<RefSlot> {
    Seq::new(256, |c: int| ref_slot_6f(c))
}

/// The reference binding of byte value `c` in the subset reached by the byte(s) 0x83.
pub open spec fn ref_slot_83(c: int) -> RefSlot {
    if 0x00 <= c < 0xFF {
        RefSlot::Bound(HandlerId::Pushpow2)
    } else
    if c == 0xFF {
        RefSlot::Bound(HandlerId::Pushnan)
    } else {
        RefSlot::Vacant
    }
}

pub open spec fn ref_table_83() -> Seq<RefSlot> {
    Seq::new(256, |c: int| ref_slot_83(c))
}

/// The reference binding of byte value `c` in the subset reached by the byte(s) 0xB6.
pub open spec fn ref_slot_b6(c: int) -> RefSlot {
    if c == 0x00 {
        RefSlot::Bound(HandlerId::Fitsx(Mode::Signaling))
    } else
    if c == 0x01 {
        RefSlot::Bound(HandlerId::Ufitsx(Mode::Signaling))
    } else
    if c == 0x02 {
        RefSlot::Bound(HandlerId::Bitsize(Mode::Signaling))
    } else
    if c == 0x03 {
        RefSlot::Bound(HandlerId::Ubitsize(Mode::Signaling))
    } else
    if c == 0x08 {
        RefSlot::Bound(HandlerId::Min(Mode::Signaling))
    } else
    if c == 0x09 {
        RefSlot::Bound(HandlerId::Max(Mode::Signaling))
    } else
    if c == 0x0A {
        RefSlot::Bound(HandlerId::Minmax(Mode::Signaling))
    } else
    if c == 0x0B {
        RefSlot::Bound(HandlerId::Abs(Mode::Signaling))
    } else {
        RefSlot::Vacant
    }
}

pub open spec fn ref_table_b6() -> Seq<RefSlot> {
    Seq::new(256, |c: int| ref_slot_b6(c))
}

/// The reference binding of byte value `c` in the subset reached by the byte(s) 0xB7.
pub open spec fn ref_slot_b7(c: int) -> RefSlot {
    if c == 0xA0 {
        RefSlot::Bound(HandlerId::Add(Mode::Quiet))
    } else
    if c == 0xA1 {
        RefSlot::Bound(HandlerId::Sub(Mode::Quiet))
    } else
    if c == 0xA2 {
        RefSlot::Bound(HandlerId::Subr(Mode::Quiet))
    } else
    if c == 0xA3 {
        RefSlot::Bound(HandlerId::Negate(Mode::Quiet))
    } else
    if c == 0xA4 {
        RefSlot::Bound(HandlerId::Inc(Mode::Quiet))
    } else
    if c == 0xA5 {
        RefSlot::Bound(HandlerId::Dec(Mode::Quiet))
    } else
    if c == 0xA6 {
        RefSlot::Bound(HandlerId::Addconst(Mode::Quiet))
    } else
    if c == 0xA7 {
        RefSlot::Bound(HandlerId::Mulconst(Mode::Quiet))
    } else
    if c == 0xA8 {
        RefSlot::Bound(HandlerId::Mul(Mode::Quiet))
    } else
    if c == 0xA9 {
        RefSlot::Bound(HandlerId::Divmod(Mode::Quiet))
    } else
    if c == 0xAA {
        RefSlot::Bound(HandlerId::Lshift(Mode::Quiet))
    } else
    if c == 0xAB {
        RefSlot::Bound(HandlerId::Rshift(Mode::Quiet))
    } else
    if c == 0xAC {
        RefSlot::Bound(HandlerId::Lshift(Mode::Quiet))
    } else
    if c == 0xAD {
        RefSlot::Bound(HandlerId::Rshift(Mode::Quiet))
    } else
    if c == 0xAE {
        RefSlot::Bound(HandlerId::Pow2(Mode::Quiet))
    } else
    if c == 0xB0 {
        RefSlot::Bound(HandlerId::And(Mode::Quiet))
    } else
    if c == 0xB1 {
        RefSlot::Bound(HandlerId::Or(Mode::Quiet))
    } else
    if c == 0xB2 {
        RefSlot::Bound(HandlerId::Xor(Mode::Quiet))
    } else
    if c == 0xB3 {
        RefSlot::Bound(HandlerId::Not(Mode::Quiet))
    } else
    if c == 0xB4 {
        RefSlot::Bound(HandlerId::Fits(Mode::Quiet))
    } else
    if c == 0xB5 {
        RefSlot::Bound(HandlerId::Ufits(Mode::Quiet))
    } else
    if c == 0xB6 {
        RefSlot::Subset(ref_table_b7_b6())
    } else
    if c == 0xB8 {
        RefSlot::Bound(HandlerId::Sgn(Mode::Quiet))
    } else
    if c == 0xB9 {
        RefSlot::Bound(HandlerId::Less(Mode::Quiet))
    } else
    if c == 0xBA {
        RefSlot::Bound(HandlerId::Equal(Mode::Quiet))
    } else
    if c == 0xBB {
        RefSlot::Bound(HandlerId::Leq(Mode::Quiet))
    } else
    if c == 0xBC {
        RefSlot::Bound(HandlerId::Greater(Mode::Quiet))
    } else
    if c == 0xBD {
        RefSlot::Bound(HandlerId::Neq(Mode::Quiet))
    } else
    if c == 0xBE {
        RefSlot::Bound(HandlerId::Geq(Mode::Quiet))
    } else
    if c == 0xBF {
        RefSlot::Bound(HandlerId::Cmp(Mode::Quiet))
    } else
    if c == 0xC0 {
        RefSlot::Bound(HandlerId::Eqint(Mode::Quiet))
    } else
    if c == 0xC1 {
        RefSlot::Bound(HandlerId::Lessint(Mode::Quiet))
    } else
    if c == 0xC2 {
        RefSlot::Bound(HandlerId::Gtint(Mode::Quiet))
    } else
    if c == 0xC3 {
        RefSlot::Bound(HandlerId::Neqint(Mode::Quiet))
    } else {
        RefSlot::Vacant
    }
}

pub open spec fn ref_table_b7() -> Seq<RefSlot> {
    Seq::new(256, |c: int| ref_slot_b7(c))
}

/// The reference binding of byte value `c` in the subset reached by the byte(s) 0xC7.
pub open spec fn ref_slot_c7(c: int) -> RefSlot {
    if c == 0x00 {
        RefSlot::Bound(HandlerId::Sempty)
    } else
    if c == 0x01 {
        RefSlot::Bound(HandlerId::Sdempty)
    } else
    if c == 0x02 {
        RefSlot::Bound(HandlerId::Srempty)
    } else
    if c == 0x03 {
        RefSlot::Bound(HandlerId::Sdfirst)
    } else
    if c == 0x04 {
        RefSlot::Bound(HandlerId::Sdlexcmp)
    } else
    if c == 0x05 {
        RefSlot::Bound(HandlerId::Sdeq)
    } else
    if c == 0x08 {
        RefSlot::Bound(HandlerId::Sdpfx)
    } else
    if c == 0x09 {
        RefSlot::Bound(HandlerId::Sdpfxrev)
    } else
    if c == 0x0A {
        RefSlot::Bound(HandlerId::Sdppfx)
    } else
    if c == 0x0B {
        RefSlot::Bound(HandlerId::Sdppfxrev)
    } else
    if c == 0x0C {
        RefSlot::Bound(HandlerId::Sdsfx)
    } else
    if c == 0x0D {
        RefSlot::Bound(HandlerId::Sdsfxrev)
    } else
    if c == 0x0E {
        RefSlot::Bound(HandlerId::Sdpsfx)
    } else
    if c == 0x0F {
        RefSlot::Bound(HandlerId::Sdpsfxrev)
    } else
    if c == 0x10 {
        RefSlot::Bound(HandlerId::Sdcntlead0)
    } else
    if c == 0x11 {
        RefSlot::Bound(HandlerId::Sdcntlead1)
    } else
    if c == 0x12 {
        RefSlot::Bound(HandlerId::Sdcnttrail0)
    } else
    if c == 0x13 {
        RefSlot::Bound(HandlerId::Sdcnttrail1)
    } else {
        RefSlot::Vacant
    }
}

pub open spec fn ref_table_c7() -> Seq<RefSlot> {
    Seq::new(256, |c: int| ref_slot_c7(c))
}

/// The reference binding of byte value `c` in the subset reached by the byte(s) 0xCF.
pub open spec fn ref_slot_cf(c: int) -> RefSlot {
    if c == 0x00 {
        RefSlot::Bound(HandlerId::Stix)
    } else
    if c == 0x01 {
        RefSlot::Bound(HandlerId::Stux)
    } else
    if c == 0x02 {
        RefSlot::Bound(HandlerId::Stixr)
    } else
    if c == 0x03 {
        RefSlot::Bound(HandlerId::Stuxr)
    } else
    if c == 0x04 {
        RefSlot::Bound(HandlerId::Stixq)
    } else
    if c == 0x05 {
        RefSlot::Bound(HandlerId::Stuxq)
    } else
    if c == 0x06 {
        RefSlot::Bound(HandlerId::Stixrq)
    } else
    if c == 0x07 {
        RefSlot::Bound(HandlerId::Stuxrq)
    } else
    if c == 0x08 {
        RefSlot::Bound(HandlerId::Sti)
    } else
    if c == 0x09 {
        RefSlot::Bound(HandlerId::Stu)
    } else
    if c == 0x0A {
        RefSlot::Bound(HandlerId::Stir)
    } else
    if c == 0x0B {
        RefSlot::Bound(HandlerId::Stur)
    } else
    if c == 0x0C {
        RefSlot::Bound(HandlerId::Stiq)
    } else
    if c == 0x0D {
        RefSlot::Bound(HandlerId::Stuq)
    } else
    if c == 0x0E {
        RefSlot::Bound(HandlerId::Stirq)
    } else
    if c == 0x0F {
        RefSlot::Bound(HandlerId::Sturq)
    } else
    if c == 0x10 {
        RefSlot::Bound(HandlerId::Stref)
    } else
    if c == 0x11 {
        RefSlot::Bound(HandlerId::Stbref)
    } else
    if c == 0x12 {
        RefSlot::Bound(HandlerId::Stslice)
    } else
    if c == 0x13 {
        RefSlot::Bound(HandlerId::Stb)
    } else
    if c == 0x14 {
        RefSlot::Bound(HandlerId::Strefr)
    } else
    if c == 0x15 {
        RefSlot::Bound(HandlerId::Endcst)
    } else
    if c == 0x16 {
        RefSlot::Bound(HandlerId::Stslicer)
    } else
    if c == 0x17 {
        RefSlot::Bound(HandlerId::Stbr)
    } else
    if c == 0x18 {
        RefSlot::Bound(HandlerId::Strefq)
    } else
    if c == 0x19 {
        RefSlot::Bound(HandlerId::Stbrefq)
    } else
    if c == 0x1A {
        RefSlot::Bound(HandlerId::Stsliceq)
    } else
    if c == 0x1B {
        RefSlot::Bound(HandlerId::Stbq)
    } else
    if c == 0x1C {
        RefSlot::Bound(HandlerId::Strefrq)
    } else
    if c == 0x1D {
        RefSlot::Bound(HandlerId::Stbrefrq)
    } else
    if c == 0x1E {
        RefSlot::Bound(HandlerId::Stslicerq)
    } else
    if c == 0x1F {
        RefSlot::Bound(HandlerId::Stbrq)
    } else
    if c == 0x20 {
        RefSlot::Bound(HandlerId::Strefconst)
    } else
    if c == 0x21 {
        RefSlot::Bound(HandlerId::Stref2const)
    } else
    if c == 0x23 {
        RefSlot::Bound(HandlerId::Endxc)
    } else
    if c == 0x28 {
        RefSlot::Bound(HandlerId::Stile4)
    } else
    if c == 0x29 {
        RefSlot::Bound(HandlerId::Stule4)
    } else
    if c == 0x2A {
        RefSlot::Bound(HandlerId::Stile8)
    } else
    if c == 0x2B {
        RefSlot::Bound(HandlerId::Stule8)
    } else
    if c == 0x30 {
        RefSlot::Bound(HandlerId::Bdepth)
    } else
    if c == 0x31 {
        RefSlot::Bound(HandlerId::Bbits)
    } else
    if c == 0x32 {
        RefSlot::Bound(HandlerId::Brefs)
    } else
    if c == 0x33 {
        RefSlot::Bound(HandlerId::Bbitrefs)
    } else
    if c == 0x35 {
        RefSlot::Bound(HandlerId::Brembits)
    } else
    if c == 0x36 {
        RefSlot::Bound(HandlerId::Bremrefs)
    } else
    if c == 0x37 {
        RefSlot::Bound(HandlerId::Brembitrefs)
    } else
    if c == 0x38 {
        RefSlot::Bound(HandlerId::BchkbitsShort)
    } else
    if c == 0x39 {
        RefSlot::Bound(HandlerId::BchkbitsLong)
    } else
    if c == 0x3A {
        RefSlot::Bound(HandlerId::Bchkrefs)
    } else
    if c == 0x3B {
        RefSlot::Bound(HandlerId::Bchkbitrefs)
    } else
    if c == 0x3C {
        RefSlot::Bound(HandlerId::BchkbitsqShort)
    } else
    if c == 0x3D {
        RefSlot::Bound(HandlerId::BchkbitsqLong)
    } else
    if c == 0x3E {
        RefSlot::Bound(HandlerId::Bchkrefsq)
    } else
    if c == 0x3F {
        RefSlot::Bound(HandlerId::Bchkbitrefsq)
    } else
    if c == 0x40 {
        RefSlot::Bound(HandlerId::Stzeroes)
    } else
    if c == 0x41 {
        RefSlot::Bound(HandlerId::Stones)
    } else
    if c == 0x42 {
        RefSlot::Bound(HandlerId::Stsame)
    } else
    if 0x80 <= c < 0xFF {
        RefSlot::Bound(HandlerId::Stsliceconst)
    } else
    if c == 0xFF {
        RefSlot::Bound(HandlerId::Stsliceconst)
    } else {
        RefSlot::Vacant
    }
}

pub open spec fn ref_table_cf() -> Seq<RefSlot> {
    Seq::new(256, |c: int| ref_slot_cf(c))
}

/// The reference binding of byte value `c` in the subset reached by the byte(s) 0xD7.
pub open spec fn ref_slot_d7(c: int) -> RefSlot {
    if c == 0x00 {
        RefSlot::Bound(HandlerId::Ldix)
    } else
    if c == 0x01 {
        RefSlot::Bound(HandlerId::Ldux)
    } else
    if c == 0x02 {
        RefSlot::Bound(HandlerId::Pldix)
    } else
    if c == 0x03 {
        RefSlot::Bound(HandlerId::Pldux)
    } else
    if c == 0x04 {
        RefSlot::Bound(HandlerId::Ldixq)
    } else
    if c == 0x05 {
        RefSlot::Bound(HandlerId::Lduxq)
    } else
    if c == 0x06 {
        RefSlot::Bound(HandlerId::Pldixq)
    } else
    if c == 0x07 {
        RefSlot::Bound(HandlerId::Plduxq)
    } else
    if c == 0x08 {
        RefSlot::Bound(HandlerId::Ldi)
    } else
    if c == 0x09 {
        RefSlot::Bound(HandlerId::Ldu)
    } else
    if c == 0x0A {
        RefSlot::Bound(HandlerId::Pldi)
    } else
    if c == 0x0B {
        RefSlot::Bound(HandlerId::Pldu)
    } else
    if c == 0x0C {
        RefSlot::Bound(HandlerId::Ldiq)
    } else
    if c == 0x0D {
        RefSlot::Bound(HandlerId::Lduq)
    } else
    if c == 0x0E {
        RefSlot::Bound(HandlerId::Pldiq)
    } else
    if c == 0x0F {
        RefSlot::Bound(HandlerId::Plduq)
    } else
    if 0x10 <= c < 0x18 {
        RefSlot::Bound(HandlerId::Plduz)
    } else
    if c == 0x18 {
        RefSlot::Bound(HandlerId::Ldslicex)
    } else
    if c == 0x19 {
        RefSlot::Bound(HandlerId::Pldslicex)
    } else
    if c == 0x1A {
        RefSlot::Bound(HandlerId::Ldslicexq)
    } else
    if c == 0x1B {
        RefSlot::Bound(HandlerId::Pldslicexq)
    } else
    if c == 0x1C {
        RefSlot::Bound(HandlerId::Ldslice)
    } else
    if c == 0x1D {
        RefSlot::Bound(HandlerId::Pldslice)
    } else
    if c == 0x1E {
        RefSlot::Bound(HandlerId::Ldsliceq)
    } else
    if c == 0x1F {
        RefSlot::Bound(HandlerId::Pldsliceq)
    } else
    if c == 0x20 {
        RefSlot::Bound(HandlerId::Pldslicex)
    } else
    if c == 0x21 {
        RefSlot::Bound(HandlerId::Sdskipfirst)
    } else
    if c == 0x22 {
        RefSlot::Bound(HandlerId::Sdcutlast)
    } else
    if c == 0x23 {
        RefSlot::Bound(HandlerId::Sdskiplast)
    } else
    if c == 0x24 {
        RefSlot::Bound(HandlerId::Sdsubstr)
    } else
    if c == 0x26 {
        RefSlot::Bound(HandlerId::Sdbeginsx)
    } else
    if c == 0x27 {
        RefSlot::Bound(HandlerId::Sdbeginsxq)
    } else
    if 0x28 <= c < 0x2C {
        RefSlot::Bound(HandlerId::Sdbegins)
    } else
    if 0x2C <= c < 0x30 {
        RefSlot::Bound(HandlerId::Sdbeginsq)
    } else
    if c == 0x30 {
        RefSlot::Bound(HandlerId::Scutfirst)
    } else
    if c == 0x31 {
        RefSlot::Bound(HandlerId::Sskipfirst)
    } else
    if c == 0x32 {
        RefSlot::Bound(HandlerId::Scutlast)
    } else
    if c == 0x33 {
        RefSlot::Bound(HandlerId::Sskiplast)
    } else
    if c == 0x34 {
        RefSlot::Bound(HandlerId::Subslice)
    } else
    if c == 0x36 {
        RefSlot::Bound(HandlerId::Split)
    } else
    if c == 0x37 {
        RefSlot::Bound(HandlerId::Splitq)
    } else
    if c == 0x39 {
        RefSlot::Bound(HandlerId::Xctos)
    } else
    if c == 0x3A {
        RefSlot::Bound(HandlerId::Xload)
    } else
    if c == 0x3B {
        RefSlot::Bound(HandlerId::Xloadq)
    } else
    if c == 0x41 {
        RefSlot::Bound(HandlerId::Schkbits)
    } else
    if c == 0x42 {
        RefSlot::Bound(HandlerId::Schkrefs)
    } else
    if c == 0x43 {
        RefSlot::Bound(HandlerId::Schkbitrefs)
    } else
    if c == 0x45 {
        RefSlot::Bound(HandlerId::Schkbitsq)
    } else
    if c == 0x46 {
        RefSlot::Bound(HandlerId::Schkrefsq)
    } else
    if c == 0x47 {
        RefSlot::Bound(HandlerId::Schkbitrefsq)
    } else
    if c == 0x48 {
        RefSlot::Bound(HandlerId::Pldrefvar)
    } else
    if c == 0x49 {
        RefSlot::Bound(HandlerId::Sbits)
    } else
    if c == 0x4A {
        RefSlot::Bound(HandlerId::Srefs)
    } else
    if c == 0x4B {
        RefSlot::Bound(HandlerId::Sbitrefs)
    } else
    if c == 0x4C {
        RefSlot::Bound(HandlerId::Pldref)
    } else
    if 0x4D <= c < 0x50 {
        RefSlot::Bound(HandlerId::Pldrefidx)
    } else
    if c == 0x50 {
        RefSlot::Bound(HandlerId::Ldile4)
    } else
    if c == 0x51 {
        RefSlot::Bound(HandlerId::Ldule4)
    } else
    if c == 0x52 {
        RefSlot::Bound(HandlerId::Ldile8)
    } else
    if c == 0x53 {
        RefSlot::Bound(HandlerId::Ldule8)
    } else
    if c == 0x54 {
        RefSlot::Bound(HandlerId::Pldile4)
    } else
    if c == 0x55 {
        RefSlot::Bound(HandlerId::Pldule4)
    } else
    if c == 0x56 {
        RefSlot::Bound(HandlerId::Pldile8)
    } else
    if c == 0x57 {
        RefSlot::Bound(HandlerId::Pldule8)
    } else
    if c == 0x58 {
        RefSlot::Bound(HandlerId::Ldile4q)
    } else
    if c == 0x59 {
        RefSlot::Bound(HandlerId::Ldule4q)
    } else
    if c == 0x5A {
        RefSlot::Bound(HandlerId::Ldile8q)
    } else
    if c == 0x5B {
        RefSlot::Bound(HandlerId::Ldule8q)
    } else
    if c == 0x5C {
        RefSlot::Bound(HandlerId::Pldile4q)
    } else
    if c == 0x5D {
        RefSlot::Bound(HandlerId::Pldule4q)
    } else
    if c == 0x5E {
        RefSlot::Bound(HandlerId::Pldile8q)
    } else
    if c == 0x5F {
        RefSlot::Bound(HandlerId::Pldule8q)
    } else
    if c == 0x60 {
        RefSlot::Bound(HandlerId::Ldzeroes)
    } else
    if c == 0x61 {
        RefSlot::Bound(HandlerId::Ldones)
    } else
    if c == 0x62 {
        RefSlot::Bound(HandlerId::Ldsame)
    } else
    if c == 0x64 {
        RefSlot::Bound(HandlerId::Sdepth)
    } else
    if c == 0x65 {
        RefSlot::Bound(HandlerId::Cdepth)
    } else {
        RefSlot::Vacant
    }
}

pub open spec fn ref_table_d7() -> Seq<RefSlot> {
    Seq::new(256, |c: int| ref_slot_d7(c))
}

/// The reference binding of byte value `c` in the subset reached by the byte(s) 0xDB.
pub open spec fn ref_slot_db(c: int) -> RefSlot {
    if 0x00 <= c < 0x10 {
        RefSlot::Bound(HandlerId::Callxargs)
    } else
    if 0x10 <= c < 0x20 {
        RefSlot::Bound(HandlerId::Jmpxargs)
    } else
    if 0x20 <= c < 0x30 {
        RefSlot::Bound(HandlerId::Retargs)
    } else
    if c == 0x30 {
        RefSlot::Bound(HandlerId::Ret)
    } else
    if c == 0x31 {
        RefSlot::Bound(HandlerId::Retalt)
    } else
    if c == 0x32 {
        RefSlot::Bound(HandlerId::Retbool)
    } else
    if c == 0x34 {
        RefSlot::Bound(HandlerId::Callcc)
    } else
    if c == 0x35 {
        RefSlot::Bound(HandlerId::Jmpxdata)
    } else
    if c == 0x36 {
        RefSlot::Bound(HandlerId::Callccargs)
    } else
    if c == 0x38 {
        RefSlot::Bound(HandlerId::Callxva)
    } else
    if c == 0x39 {
        RefSlot::Bound(HandlerId::Retva)
    } else
    if c == 0x3A {
        RefSlot::Bound(HandlerId::Jmpxva)
    } else
    if c == 0x3B {
        RefSlot::Bound(HandlerId::Callccva)
    } else
    if c == 0x3C {
        RefSlot::Bound(HandlerId::Callref)
    } else
    if c == 0x3D {
        RefSlot::Bound(HandlerId::Jmpref)
    } else
    if c == 0x3E {
        RefSlot::Bound(HandlerId::Jmprefdata)
    } else
    if c == 0x3F {
        RefSlot::Bound(HandlerId::Retdata)
    } else {
        RefSlot::Vacant
    }
}

pub open spec fn ref_table_db() -> Seq<RefSlot> {
    Seq::new(256, |c: int| ref_slot_db(c))
}

/// The reference binding of byte value `c` in the subset reached by the byte(s) 0xE3.
pub open spec fn ref_slot_e3(c: int) -> RefSlot {
    if c == 0x00 {
        RefSlot::Bound(HandlerId::Ifref)
    } else
    if c == 0x01 {
        RefSlot::Bound(HandlerId::Ifnotref)
    } else
    if c == 0x02 {
        RefSlot::Bound(HandlerId::Ifjmpref)
    } else
    if c == 0x03 {
        RefSlot::Bound(HandlerId::Ifnotjmpref)
    } else
    if c == 0x04 {
        RefSlot::Bound(HandlerId::Condsel)
    } else
    if c == 0x05 {
        RefSlot::Bound(HandlerId::Condselchk)
    } else
    if c == 0x08 {
        RefSlot::Bound(HandlerId::Ifretalt)
    } else
    if c == 0x09 {
        RefSlot::Bound(HandlerId::Ifnotretalt)
    } else
    if c == 0x0D {
        RefSlot::Bound(HandlerId::Ifrefelse)
    } else
    if c == 0x0E {
        RefSlot::Bound(HandlerId::Ifelseref)
    } else
    if c == 0x0F {
        RefSlot::Bound(HandlerId::Ifrefelseref)
    } else
    if c == 0x14 {
        RefSlot::Bound(HandlerId::RepeatBreak)
    } else
    if c == 0x15 {
        RefSlot::Bound(HandlerId::RepeatendBreak)
    } else
    if c == 0x16 {
        RefSlot::Bound(HandlerId::UntilBreak)
    } else
    if c == 0x17 {
        RefSlot::Bound(HandlerId::UntilendBreak)
    } else
    if c == 0x18 {
        RefSlot::Bound(HandlerId::WhileBreak)
    } else
    if c == 0x19 {
        RefSlot::Bound(HandlerId::WhileendBreak)
    } else
    if c == 0x1A {
        RefSlot::Bound(HandlerId::AgainBreak)
    } else
    if c == 0x1B {
        RefSlot::Bound(HandlerId::AgainendBreak)
    } else
    if 0x80 <= c < 0xA0 {
        RefSlot::Bound(HandlerId::Ifbitjmp)
    } else
    if 0xA0 <= c < 0xC0 {
        RefSlot::Bound(HandlerId::Ifnbitjmp)
    } else
    if 0xC0 <= c < 0xE0 {
        RefSlot::Bound(HandlerId::Ifbitjmpref)
    } else
    if 0xE0 <= c < 0xFF {
        RefSlot::Bound(HandlerId::Ifnbitjmpref)
    } else
    if c == 0xFF {
        RefSlot::Bound(HandlerId::Ifnbitjmpref)
    } else {
        RefSlot::Vacant
    }
}

pub open spec fn ref_table_e3() -> Seq<RefSlot> {
    Seq::new(256, |c: int| ref_slot_e3(c))
}

/// The reference binding of byte value `c` in the subset reached by the byte(s) 0xED.
pub open spec fn ref_slot_ed(c: int) -> RefSlot {
    if 0x00 <= c < 0x10 {
        RefSlot::Bound(HandlerId::Returnargs)
    } else
    if c == 0x10 {
        RefSlot::Bound(HandlerId::Returnva)
    } else
    if c == 0x11 {
        RefSlot::Bound(HandlerId::Setcontva)
    } else
    if c == 0x12 {
        RefSlot::Bound(HandlerId::Setnumva)
    } else
    if c == 0x1E {
        RefSlot::Bound(HandlerId::Bless)
    } else
    if c == 0x1F {
        RefSlot::Bound(HandlerId::Blessva)
    } else
    if 0x40 <= c < 0x50 {
        RefSlot::Bound(HandlerId::Pushctr)
    } else
    if 0x50 <= c < 0x60 {
        RefSlot::Bound(HandlerId::Popctr)
    } else
    if 0x60 <= c < 0x70 {
        RefSlot::Bound(HandlerId::Setcontctr)
    } else
    if 0x70 <= c < 0x80 {
        RefSlot::Bound(HandlerId::Setretctr)
    } else
    if 0x80 <= c < 0x90 {
        RefSlot::Bound(HandlerId::Setaltctr)
    } else
    if 0x90 <= c < 0xA0 {
        RefSlot::Bound(HandlerId::Popsave)
    } else
    if 0xA0 <= c < 0xB0 {
        RefSlot::Bound(HandlerId::Save)
    } else
    if 0xB0 <= c < 0xC0 {
        RefSlot::Bound(HandlerId::Savealt)
    } else
    if 0xC0 <= c < 0xD0 {
        RefSlot::Bound(HandlerId::Saveboth)
    } else
    if c == 0xE0 {
        RefSlot::Bound(HandlerId::Pushctrx)
    } else
    if c == 0xE1 {
        RefSlot::Bound(HandlerId::Popctrx)
    } else
    if c == 0xE2 {
        RefSlot::Bound(HandlerId::Setcontctrx)
    } else
    if c == 0xF0 {
        RefSlot::Bound(HandlerId::Compos)
    } else
    if c == 0xF1 {
        RefSlot::Bound(HandlerId::Composalt)
    } else
    if c == 0xF2 {
        RefSlot::Bound(HandlerId::Composboth)
    } else
    if c == 0xF3 {
        RefSlot::Bound(HandlerId::Atexit)
    } else
    if c == 0xF4 {
        RefSlot::Bound(HandlerId::Atexitalt)
    } else
    if c == 0xF5 {
        RefSlot::Bound(HandlerId::Setexitalt)
    } else
    if c == 0xF6 {
        RefSlot::Bound(HandlerId::Thenret)
    } else
    if c == 0xF7 {
        RefSlot::Bound(HandlerId::Thenretalt)
    } else
    if c == 0xF8 {
        RefSlot::Bound(HandlerId::Invert)
    } else
    if c == 0xF9 {
        RefSlot::Bound(HandlerId::Booleval)
    } else
    if c == 0xFA {
        RefSlot::Bound(HandlerId::Samealt)
    } else
    if c == 0xFB {
        RefSlot::Bound(HandlerId::SamealtSave)
    } else {
        RefSlot::Vacant
    }
}

pub open spec fn ref_table_ed() -> Seq<RefSlot> {
    Seq::new(256, |c: int| ref_slot_ed(c))
}

/// The reference binding of byte value `c` in the subset reached by the byte(s) 0xF1.
pub open spec fn ref_slot_f1(c: int) -> RefSlot {
    if 0x00 <= c < 0x40 {
        RefSlot::Bound(HandlerId::CallLong)
    } else
    if 0x40 <= c < 0x80 {
        RefSlot::Bound(HandlerId::Jmp)
    } else
    if 0x80 <= c < 0xC0 {
        RefSlot::Bound(HandlerId::Prepare)
    } else {
        RefSlot::Vacant
    }
}

pub open spec fn ref_table_f1() -> Seq<RefSlot> {
    Seq::new(256, |c: int| ref_slot_f1(c))
}

/// The reference binding of byte value `c` in the subset reached by the byte(s) 0xF2.
pub open spec fn ref_slot_f2(c: int) -> RefSlot {
    if 0x00 <= c < 0x40 {
        RefSlot::Bound(HandlerId::ThrowShort)
    } else
    if 0x40 <= c < 0x80 {
        RefSlot::Bound(HandlerId::ThrowifShort)
    } else
    if 0x80 <= c < 0xC0 {
        RefSlot::Bound(HandlerId::ThrowifnotShort)
    } else
    if 0xC0 <= c < 0xC8 {
        RefSlot::Bound(HandlerId::ThrowLong)
    } else
    if 0xC8 <= c < 0xD0 {
        RefSlot::Bound(HandlerId::Throwarg)
    } else
    if 0xD0 <= c < 0xD8 {
        RefSlot::Bound(HandlerId::ThrowifLong)
    } else
    if 0xD8 <= c < 0xE0 {
        RefSlot::Bound(HandlerId::Throwargif)
    } else
    if 0xE0 <= c < 0xE8 {
        RefSlot::Bound(HandlerId::ThrowifnotLong)
    } else
    if 0xE8 <= c < 0xF0 {
        RefSlot::Bound(HandlerId::Throwargifnot)
    } else
    if c == 0xF0 {
        RefSlot::Bound(HandlerId::Throwany)
    } else
    if c == 0xF1 {
        RefSlot::Bound(HandlerId::Throwargany)
    } else
    if c == 0xF2 {
        RefSlot::Bound(HandlerId::Throwanyif)
    } else
    if c == 0xF3 {
        RefSlot::Bound(HandlerId::Throwarganyif)
    } else
    if c == 0xF4 {
        RefSlot::Bound(HandlerId::Throwanyifnot)
    } else
    if c == 0xF5 {
        RefSlot::Bound(HandlerId::Throwarganyifnot)
    } else
    if c == 0xFF {
        RefSlot::Bound(HandlerId::Try)
    } else {
        RefSlot::Vacant
    }
}

pub open spec fn ref_table_f2() -> Seq<RefSlot> {
    Seq::new(256, |c: int| ref_slot_f2(c))
}

/// The reference binding of byte value `c` in the subset reached by the byte(s) 0xF4.
pub open spec fn ref_slot_f4(c: int) -> RefSlot {
    if c == 0x00 {
        RefSlot::Bound(HandlerId::Stdict)
    } else
    if c == 0x01 {
        RefSlot::Bound(HandlerId::Skipdict)
    } else
    if c == 0x02 {
        RefSlot::Bound(HandlerId::Lddicts)
    } else
    if c == 0x03 {
        RefSlot::Bound(HandlerId::Plddicts)
    } else
    if c == 0x04 {
        RefSlot::Bound(HandlerId::Lddict)
    } else
    if c == 0x05 {
        RefSlot::Bound(HandlerId::Plddict)
    } else
    if c == 0x06 {
        RefSlot::Bound(HandlerId::Lddictq)
    } else
    if c == 0x07 {
        RefSlot::Bound(HandlerId::Plddictq)
    } else
    if c == 0x0A {
        RefSlot::Bound(HandlerId::Dictget)
    } else
    if c == 0x0B {
        RefSlot::Bound(HandlerId::Dictgetref)
    } else
    if c == 0x0C {
        RefSlot::Bound(HandlerId::Dictiget)
    } else
    if c == 0x0D {
        RefSlot::Bound(HandlerId::Dictigetref)
    } else
    if c == 0x0E {
        RefSlot::Bound(HandlerId::Dictuget)
    } else
    if c == 0x0F {
        RefSlot::Bound(HandlerId::Dictugetref)
    } else
    if c == 0x12 {
        RefSlot::Bound(HandlerId::Dictset)
    } else
    if c == 0x13 {
        RefSlot::Bound(HandlerId::Dictsetref)
    } else
    if c == 0x14 {
        RefSlot::Bound(HandlerId::Dictiset)
    } else
    if c == 0x15 {
        RefSlot::Bound(HandlerId::Dictisetref)
    } else
    if c == 0x16 {
        RefSlot::Bound(HandlerId::Dictuset)
    } else
    if c == 0x17 {
        RefSlot::Bound(HandlerId::Dictusetref)
    } else
    if c == 0x1A {
        RefSlot::Bound(HandlerId::Dictsetget)
    } else
    if c == 0x1B {
        RefSlot::Bound(HandlerId::Dictsetgetref)
    } else
    if c == 0x1C {
        RefSlot::Bound(HandlerId::Dictisetget)
    } else
    if c == 0x1D {
        RefSlot::Bound(HandlerId::Dictisetgetref)
    } else
    if c == 0x1E {
        RefSlot::Bound(HandlerId::Dictusetget)
    } else
    if c == 0x1F {
        RefSlot::Bound(HandlerId::Dictusetgetref)
    } else
    if c == 0x22 {
        RefSlot::Bound(HandlerId::Dictreplace)
    } else
    if c == 0x23 {
        RefSlot::Bound(HandlerId::Dictreplaceref)
    } else
    if c == 0x24 {
        RefSlot::Bound(HandlerId::Dictireplace)
    } else
    if c == 0x25 {
        RefSlot::Bound(HandlerId::Dictireplaceref)
    } else
    if c == 0x26 {
        RefSlot::Bound(HandlerId::Dictureplace)
    } else
    if c == 0x27 {
        RefSlot::Bound(HandlerId::Dictureplaceref)
    } else
    if c == 0x2A {
        RefSlot::Bound(HandlerId::Dictreplaceget)
    } else
    if c == 0x2B {
        RefSlot::Bound(HandlerId::Dictreplacegetref)
    } else
    if c == 0x2C {
        RefSlot::Bound(HandlerId::Dictireplaceget)
    } else
    if c == 0x2D {
        RefSlot::Bound(HandlerId::Dictireplacegetref)
    } else
    if c == 0x2E {
        RefSlot::Bound(HandlerId::Dictureplaceget)
    } else
    if c == 0x2F {
        RefSlot::Bound(HandlerId::Dictureplacegetref)
    } else
    if c == 0x32 {
        RefSlot::Bound(HandlerId::Dictadd)
    } else
    if c == 0x33 {
        RefSlot::Bound(HandlerId::Dictaddref)
    } else
    if c == 0x34 {
        RefSlot::Bound(HandlerId::Dictiadd)
    } else
    if c == 0x35 {
        RefSlot::Bound(HandlerId::Dictiaddref)
    } else
    if c == 0x36 {
        RefSlot::Bound(HandlerId::Dictuadd)
    } else
    if c == 0x37 {
        RefSlot::Bound(HandlerId::Dictuaddref)
    } else
    if c == 0x3A {
        RefSlot::Bound(HandlerId::Dictaddget)
    } else
    if c == 0x3B {
        RefSlot::Bound(HandlerId::Dictaddgetref)
    } else
    if c == 0x3C {
        RefSlot::Bound(HandlerId::Dictiaddget)
    } else
    if c == 0x3D {
        RefSlot::Bound(HandlerId::Dictiaddgetref)
    } else
    if c == 0x3E {
        RefSlot::Bound(HandlerId::Dictuaddget)
    } else
    if c == 0x3F {
        RefSlot::Bound(HandlerId::Dictuaddgetref)
    } else
    if c == 0x41 {
        RefSlot::Bound(HandlerId::Dictsetb)
    } else
    if c == 0x42 {
        RefSlot::Bound(HandlerId::Dictisetb)
    } else
    if c == 0x43 {
        RefSlot::Bound(HandlerId::Dictusetb)
    } else
    if c == 0x45 {
        RefSlot::Bound(HandlerId::Dictsetgetb)
    } else
    if c == 0x46 {
        RefSlot::Bound(HandlerId::Dictisetgetb)
    } else
    if c == 0x47 {
        RefSlot::Bound(HandlerId::Dictusetgetb)
    } else
    if c == 0x49 {
        RefSlot::Bound(HandlerId::Dictreplaceb)
    } else
    if c == 0x4A {
        RefSlot::Bound(HandlerId::Dictireplaceb)
    } else
    if c == 0x4B {
        RefSlot::Bound(HandlerId::Dictureplaceb)
    } else
    if c == 0x4D {
        RefSlot::Bound(HandlerId::Dictreplacegetb)
    } else
    if c == 0x4E {
        RefSlot::Bound(HandlerId::Dictireplacegetb)
    } else
    if c == 0x4F {
        RefSlot::Bound(HandlerId::Dictureplacegetb)
    } else
    if c == 0x51 {
        RefSlot::Bound(HandlerId::Dictaddb)
    } else
    if c == 0x52 {
        RefSlot::Bound(HandlerId::Dictiaddb)
    } else
    if c == 0x53 {
        RefSlot::Bound(HandlerId::Dictuaddb)
    } else
    if c == 0x55 {
        RefSlot::Bound(HandlerId::Dictaddgetb)
    } else
    if c == 0x56 {
        RefSlot::Bound(HandlerId::Dictiaddgetb)
    } else
    if c == 0x57 {
        RefSlot::Bound(HandlerId::Dictuaddgetb)
    } else
    if c == 0x59 {
        RefSlot::Bound(HandlerId::Dictdel)
    } else
    if c == 0x5A {
        RefSlot::Bound(HandlerId::Dictidel)
    } else
    if c == 0x5B {
        RefSlot::Bound(HandlerId::Dictudel)
    } else
    if c == 0x62 {
        RefSlot::Bound(HandlerId::Dictdelget)
    } else
    if c == 0x63 {
        RefSlot::Bound(HandlerId::Dictdelgetref)
    } else
    if c == 0x64 {
        RefSlot::Bound(HandlerId::Dictidelget)
    } else
    if c == 0x65 {
        RefSlot::Bound(HandlerId::Dictidelgetref)
    } else
    if c == 0x66 {
        RefSlot::Bound(HandlerId::Dictudelget)
    } else
    if c == 0x67 {
        RefSlot::Bound(HandlerId::Dictudelgetref)
    } else
    if c == 0x69 {
        RefSlot::Bound(HandlerId::Dictgetoptref)
    } else
    if c == 0x6A {
        RefSlot::Bound(HandlerId::Dictigetoptref)
    } else
    if c == 0x6B {
        RefSlot::Bound(HandlerId::Dictugetoptref)
    } else
    if c == 0x6D {
        RefSlot::Bound(HandlerId::Dictsetgetoptref)
    } else
    if c == 0x6E {
        RefSlot::Bound(HandlerId::Dictisetgetoptref)
    } else
    if c == 0x6F {
        RefSlot::Bound(HandlerId::Dictusetgetoptref)
    } else
    if c == 0x70 {
        RefSlot::Bound(HandlerId::Pfxdictset)
    } else
    if c == 0x71 {
        RefSlot::Bound(HandlerId::Pfxdictreplace)
    } else
    if c == 0x72 {
        RefSlot::Bound(HandlerId::Pfxdictadd)
    } else
    if c == 0x73 {
        RefSlot::Bound(HandlerId::Pfxdictdel)
    } else
    if c == 0x74 {
        RefSlot::Bound(HandlerId::Dictgetnext)
    } else
    if c == 0x75 {
        RefSlot::Bound(HandlerId::Dictgetnexteq)
    } else
    if c == 0x76 {
        RefSlot::Bound(HandlerId::Dictgetprev)
    } else
    if c == 0x77 {
        RefSlot::Bound(HandlerId::Dictgetpreveq)
    } else
    if c == 0x78 {
        RefSlot::Bound(HandlerId::Dictigetnext)
    } else
    if c == 0x79 {
        RefSlot::Bound(HandlerId::Dictigetnexteq)
    } else
    if c == 0x7A {
        RefSlot::Bound(HandlerId::Dictigetprev)
    } else
    if c == 0x7B {
        RefSlot::Bound(HandlerId::Dictigetpreveq)
    } else
    if c == 0x7C {
        RefSlot::Bound(HandlerId::Dictugetnext)
    } else
    if c == 0x7D {
        RefSlot::Bound(HandlerId::Dictugetnexteq)
    } else
    if c == 0x7E {
        RefSlot::Bound(HandlerId::Dictugetprev)
    } else
    if c == 0x7F {
        RefSlot::Bound(HandlerId::Dictugetpreveq)
    } else
    if c == 0x82 {
        RefSlot::Bound(HandlerId::Dictmin)
    } else
    if c == 0x83 {
        RefSlot::Bound(HandlerId::Dictminref)
    } else
    if c == 0x84 {
        RefSlot::Bound(HandlerId::Dictimin)
    } else
    if c == 0x85 {
        RefSlot::Bound(HandlerId::Dictiminref)
    } else
    if c == 0x86 {
        RefSlot::Bound(HandlerId::Dictumin)
    } else
    if c == 0x87 {
        RefSlot::Bound(HandlerId::Dictuminref)
    } else
    if c == 0x8A {
        RefSlot::Bound(HandlerId::Dictmax)
    } else
    if c == 0x8B {
        RefSlot::Bound(HandlerId::Dictmaxref)
    } else
    if c == 0x8C {
        RefSlot::Bound(HandlerId::Dictimax)
    } else
    if c == 0x8D {
        RefSlot::Bound(HandlerId::Dictimaxref)
    } else
    if c == 0x8E {
        RefSlot::Bound(HandlerId::Dictumax)
    } else
    if c == 0x8F {
        RefSlot::Bound(HandlerId::Dictumaxref)
    } else
    if c == 0x92 {
        RefSlot::Bound(HandlerId::Dictremmin)
    } else
    if c == 0x93 {
        RefSlot::Bound(HandlerId::Dictremminref)
    } else
    if c == 0x94 {
        RefSlot::Bound(HandlerId::Dictiremmin)
    } else
    if c == 0x95 {
        RefSlot::Bound(HandlerId::Dictiremminref)
    } else
    if c == 0x96 {
        RefSlot::Bound(HandlerId::Dicturemmin)
    } else
    if c == 0x97 {
        RefSlot::Bound(HandlerId::Dicturemminref)
    } else
    if c == 0x9A {
        RefSlot::Bound(HandlerId::Dictremmax)
    } else
    if c == 0x9B {
        RefSlot::Bound(HandlerId::Dictremmaxref)
    } else
    if c == 0x9C {
        RefSlot::Bound(HandlerId::Dictiremmax)
    } else
    if c == 0x9D {
        RefSlot::Bound(HandlerId::Dictiremmaxref)
    } else
    if c == 0x9E {
        RefSlot::Bound(HandlerId::Dicturemmax)
    } else
    if c == 0x9F {
        RefSlot::Bound(HandlerId::Dicturemmaxref)
    } else
    if c == 0xA0 {
        RefSlot::Bound(HandlerId::Dictigetjmp)
    } else
    if c == 0xA1 {
        RefSlot::Bound(HandlerId::Dictugetjmp)
    } else
    if c == 0xA2 {
        RefSlot::Bound(HandlerId::Dictigetexec)
    } else
    if c == 0xA3 {
        RefSlot::Bound(HandlerId::Dictugetexec)
    } else
    if 0xA4 <= c < 0xA8 {
        RefSlot::Bound(HandlerId::Dictpushconst)
    } else
    if c == 0xA8 {
        RefSlot::Bound(HandlerId::Pfxdictgetq)
    } else
    if c == 0xA9 {
        RefSlot::Bound(HandlerId::Pfxdictget)
    } else
    if c == 0xAA {
        RefSlot::Bound(HandlerId::Pfxdictgetjmp)
    } else
    if c == 0xAB {
        RefSlot::Bound(HandlerId::Pfxdictgetexec)
    } else
    if 0xAC <= c < 0xAF {
        RefSlot::Bound(HandlerId::Pfxdictswitch)
    } else
    if c == 0xAF {
        RefSlot::Bound(HandlerId::Pfxdictswitch)
    } else
    if c == 0xB1 {
        RefSlot::Bound(HandlerId::Subdictget)
    } else
    if c == 0xB2 {
        RefSlot::Bound(HandlerId::Subdictiget)
    } else
    if c == 0xB3 {
        RefSlot::Bound(HandlerId::Subdictuget)
    } else
    if c == 0xB5 {
        RefSlot::Bound(HandlerId::Subdictrpget)
    } else
    if c == 0xB6 {
        RefSlot::Bound(HandlerId::Subdictirpget)
    } else
    if c == 0xB7 {
        RefSlot::Bound(HandlerId::Subdicturpget)
    } else
    if c == 0xBC {
        RefSlot::Bound(HandlerId::Dictigetjmpz)
    } else
    if c == 0xBD {
        RefSlot::Bound(HandlerId::Dictugetjmpz)
    } else
    if c == 0xBE {
        RefSlot::Bound(HandlerId::Dictigetexecz)
    } else
    if c == 0xBF {
        RefSlot::Bound(HandlerId::Dictugetexecz)
    } else {
        RefSlot::Vacant
    }
}

pub open spec fn ref_table_f4() -> Seq<RefSlot> {
    Seq::new(256, |c: int| ref_slot_f4(c))
}

/// The reference binding of byte value `c` in the subset reached by the byte(s) 0xF8.
pub open spec fn ref_slot_f8(c: int) -> RefSlot {
    if c == 0x00 {
        RefSlot::Bound(HandlerId::Accept)
    } else
    if c == 0x01 {
        RefSlot::Bound(HandlerId::Setgaslimit)
    } else
    if c == 0x02 {
        RefSlot::Bound(HandlerId::Buygas)
    } else
    if c == 0x04 {
        RefSlot::Bound(HandlerId::Gramtogas)
    } else
    if c == 0x05 {
        RefSlot::Bound(HandlerId::Gastogram)
    } else
    if c == 0x0F {
        RefSlot::Bound(HandlerId::Commit)
    } else
    if c == 0x10 {
        RefSlot::Bound(HandlerId::Randu256)
    } else
    if c == 0x11 {
        RefSlot::Bound(HandlerId::Rand)
    } else
    if c == 0x14 {
        RefSlot::Bound(HandlerId::Setrand)
    } else
    if c == 0x15 {
        RefSlot::Bound(HandlerId::Addrand)
    } else
    if c == 0x20 {
        RefSlot::Bound(HandlerId::Getparam)
    } else
    if c == 0x21 {
        RefSlot::Bound(HandlerId::Getparam)
    } else
    if c == 0x22 {
        RefSlot::Bound(HandlerId::Getparam)
    } else
    if c == 0x23 {
        RefSlot::Bound(HandlerId::Now)
    } else
    if c == 0x24 {
        RefSlot::Bound(HandlerId::Blocklt)
    } else
    if c == 0x25 {
        RefSlot::Bound(HandlerId::Ltime)
    } else
    if c == 0x26 {
        RefSlot::Bound(HandlerId::Randseed)
    } else
    if c == 0x27 {
        RefSlot::Bound(HandlerId::Balance)
    } else
    if c == 0x28 {
        RefSlot::Bound(HandlerId::MyAddr)
    } else
    if c == 0x29 {
        RefSlot::Bound(HandlerId::ConfigRoot)
    } else
    if c == 0x2A {
        RefSlot::Bound(HandlerId::MyCode)
    } else
    if c == 0x30 {
        RefSlot::Bound(HandlerId::ConfigDict)
    } else
    if c == 0x32 {
        RefSlot::Bound(HandlerId::ConfigRefParam)
    } else
    if c == 0x33 {
        RefSlot::Bound(HandlerId::ConfigOptParam)
    } else
    if c == 0x40 {
        RefSlot::Bound(HandlerId::Getglobvar)
    } else
    if 0x41 <= c < 0x5F {
        RefSlot::Bound(HandlerId::Getglob)
    } else
    if c == 0x5F {
        RefSlot::Bound(HandlerId::Getglob)
    } else
    if c == 0x60 {
        RefSlot::Bound(HandlerId::Setglobvar)
    } else
    if 0x61 <= c < 0x7F {
        RefSlot::Bound(HandlerId::Setglob)
    } else
    if c == 0x7F {
        RefSlot::Bound(HandlerId::Setglob)
    } else {
        RefSlot::Vacant
    }
}

pub open spec fn ref_table_f8() -> Seq<RefSlot> {
    Seq::new(256, |c: int| ref_slot_f8(c))
}

/// The reference binding of byte value `c` in the subset reached by the byte(s) 0xF9.
pub open spec fn ref_slot_f9(c: int) -> RefSlot {
    if c == 0x00 {
        RefSlot::Bound(HandlerId::Hashcu)
    } else
    if c == 0x01 {
        RefSlot::Bound(HandlerId::Hashsu)
    } else
    if c == 0x02 {
        RefSlot::Bound(HandlerId::Sha256u)
    } else
    if c == 0x10 {
        RefSlot::Bound(HandlerId::Chksignu)
    } else
    if c == 0x11 {
        RefSlot::Bound(HandlerId::Chksigns)
    } else
    if c == 0x40 {
        RefSlot::Bound(HandlerId::Cdatasizeq)
    } else
    if c == 0x41 {
        RefSlot::Bound(HandlerId::Cdatasize)
    } else
    if c == 0x42 {
        RefSlot::Bound(HandlerId::Sdatasizeq)
    } else
    if c == 0x43 {
        RefSlot::Bound(HandlerId::Sdatasize)
    } else {
        RefSlot::Vacant
    }
}

pub open spec fn ref_table_f9() -> Seq<RefSlot> {
    Seq::new(256, |c: int| ref_slot_f9(c))
}

/// The reference binding of byte value `c` in the subset reached by the byte(s) 0xFA.
pub open spec fn ref_slot_fa(c: int) -> RefSlot {
    if c == 0x00 {
        RefSlot::Bound(HandlerId::Ldgrams)
    } else
    if c == 0x01 {
        RefSlot::Bound(HandlerId::Ldvarint16)
    } else
    if c == 0x02 {
        RefSlot::Bound(HandlerId::Stgrams)
    } else
    if c == 0x03 {
        RefSlot::Bound(HandlerId::Stvarint16)
    } else
    if c == 0x04 {
        RefSlot::Bound(HandlerId::Ldvaruint32)
    } else
    if c == 0x05 {
        RefSlot::Bound(HandlerId::Ldvarint32)
    } else
    if c == 0x06 {
        RefSlot::Bound(HandlerId::Stvaruint32)
    } else
    if c == 0x07 {
        RefSlot::Bound(HandlerId::Stvarint32)
    } else
    if c == 0x40 {
        RefSlot::Bound(HandlerId::Ldmsgaddr(Mode::Signaling))
    } else
    if c == 0x41 {
        RefSlot::Bound(HandlerId::Ldmsgaddr(Mode::Quiet))
    } else
    if c == 0x42 {
        RefSlot::Bound(HandlerId::Parsemsgaddr(Mode::Signaling))
    } else
    if c == 0x43 {
        RefSlot::Bound(HandlerId::Parsemsgaddr(Mode::Quiet))
    } else
    if c == 0x44 {
        RefSlot::Bound(HandlerId::RewriteStdAddr(Mode::Signaling))
    } else
    if c == 0x45 {
        RefSlot::Bound(HandlerId::RewriteStdAddr(Mode::Quiet))
    } else
    if c == 0x46 {
        RefSlot::Bound(HandlerId::RewriteVarAddr(Mode::Signaling))
    } else
    if c == 0x47 {
        RefSlot::Bound(HandlerId::RewriteVarAddr(Mode::Quiet))
    } else {
        RefSlot::Vacant
    }
}

pub open spec fn ref_table_fa() -> Seq<RefSlot> {
    Seq::new(256, |c: int| ref_slot_fa(c))
}

/// The reference binding of byte value `c` in the subset reached by the byte(s) 0xFB.
pub open spec fn ref_slot_fb(c: int) -> RefSlot {
    if c == 0x00 {
        RefSlot::Bound(HandlerId::Sendrawmsg)
    } else
    if c == 0x02 {
        RefSlot::Bound(HandlerId::Rawreserve)
    } else
    if c == 0x03 {
        RefSlot::Bound(HandlerId::Rawreservex)
    } else
    if c == 0x04 {
        RefSlot::Bound(HandlerId::Setcode)
    } else
    if c == 0x06 {
        RefSlot::Bound(HandlerId::Setlibcode)
    } else
    if c == 0x07 {
        RefSlot::Bound(HandlerId::Changelib)
    } else {
        RefSlot::Vacant
    }
}

pub open spec fn ref_table_fb() -> Seq<RefSlot> {
    Seq::new(256, |c: int| ref_slot_fb(c))
}

/// The reference binding of byte value `c` in the subset reached by the byte(s) 0xFE.
pub open spec fn ref_slot_fe(c: int) -> RefSlot {
    if c == 0x00 {
        RefSlot::Bound(HandlerId::DumpStack)
    } else
    if 0x01 <= c < 0x0F {
        RefSlot::Bound(HandlerId::DumpStackTop)
    } else
    if c == 0x10 {
        RefSlot::Bound(HandlerId::DumpHex)
    } else
    if c == 0x11 {
        RefSlot::Bound(HandlerId::PrintHex)
    } else
    if c == 0x12 {
        RefSlot::Bound(HandlerId::DumpBin)
    } else
    if c == 0x13 {
        RefSlot::Bound(HandlerId::PrintBin)
    } else
    if c == 0x14 {
        RefSlot::Bound(HandlerId::DumpStr)
    } else
    if c == 0x15 {
        RefSlot::Bound(HandlerId::PrintStr)
    } else
    if c == 0x1E {
        RefSlot::Bound(HandlerId::DebugOff)
    } else
    if c == 0x1F {
        RefSlot::Bound(HandlerId::DebugOn)
    } else
    if 0x20 <= c < 0x2F {
        RefSlot::Bound(HandlerId::DumpVar)
    } else
    if 0x30 <= c < 0x3F {
        RefSlot::Bound(HandlerId::PrintVar)
    } else
    if 0xF0 <= c < 0xFF {
        RefSlot::Bound(HandlerId::DumpString)
    } else
    if c == 0xFF {
        RefSlot::Bound(HandlerId::DumpString)
    } else {
        RefSlot::Vacant
    }
}

pub open spec fn ref_table_fe() -> Seq<RefSlot> {
    Seq::new(256, |c: int| ref_slot_fe(c))
}

/// The reference binding of byte value `c` in the subset reached by the byte(s) 0xFF.
pub open spec fn ref_slot_ff(c: int) -> RefSlot {
    if 0x00 <= c < 0xF0 {
        RefSlot::Bound(HandlerId::Setcp)
    } else
    if c == 0xF0 {
        RefSlot::Bound(HandlerId::Setcpx)
    } else
    if 0xF1 <= c < 0xFF {
        RefSlot::Bound(HandlerId::Setcp)
    } else
    if c == 0xFF {
        RefSlot::Bound(HandlerId::Setcp)
    } else {
        RefSlot::Vacant
    }
}

pub open spec fn ref_table_ff() -> Seq<RefSlot> {
    Seq::new(256, |c: int| ref_slot_ff(c))
}

/// The reference binding of byte value `c` in the top-level table.
pub open spec fn ref_slot_root(c: int) -> RefSlot {
    if c == 0xFF {
        RefSlot::Subset(ref_table_ff())
    } else
    if c == 0x00 {
        RefSlot::Bound(HandlerId::Nop)
    } else
    if 0x01 <= c < 0x10 {
        RefSlot::Bound(HandlerId::XchgSimple)
    } else
    if c == 0x10 {
        RefSlot::Bound(HandlerId::XchgStd)
    } else
    if c == 0x11 {
        RefSlot::Bound(HandlerId::XchgLong)
    } else
    if 0x12 <= c < 0x20 {
        RefSlot::Bound(HandlerId::XchgSimple)
    } else
    if 0x20 <= c < 0x30 {
        RefSlot::Bound(HandlerId::PushSimple)
    } else
    if 0x30 <= c < 0x40 {
        RefSlot::Bound(HandlerId::PopSimple)
    } else
    if 0x40 <= c < 0x50 {
        RefSlot::Bound(HandlerId::Xchg3)
    } else
    if c == 0x50 {
        RefSlot::Bound(HandlerId::Xchg2)
    } else
    if c == 0x51 {
        RefSlot::Bound(HandlerId::Xcpu)
    } else
    if c == 0x52 {
        RefSlot::Bound(HandlerId::Puxc)
    } else
    if c == 0x53 {
        RefSlot::Bound(HandlerId::Push2)
    } else
    if c == 0x54 {
        RefSlot::Subset(ref_table_54())
    } else
    if c == 0x55 {
        RefSlot::Bound(HandlerId::Blkswap)
    } else
    if c == 0x56 {
        RefSlot::Bound(HandlerId::Push)
    } else
    if c == 0x57 {
        RefSlot::Bound(HandlerId::Pop)
    } else
    if c == 0x58 {
        RefSlot::Bound(HandlerId::Rot)
    } else
    if c == 0x59 {
        RefSlot::Bound(HandlerId::Rotrev)
    } else
    if c == 0x5A {
        RefSlot::Bound(HandlerId::Swap2)
    } else
    if c == 0x5B {
        RefSlot::Bound(HandlerId::Drop2)
    } else
    if c == 0x5C {
        RefSlot::Bound(HandlerId::Dup2)
    } else
    if c == 0x5D {
        RefSlot::Bound(HandlerId::Over2)
    } else
    if c == 0x5E {
        RefSlot::Bound(HandlerId::Reverse)
    } else
    if c == 0x5F {
        RefSlot::Subset(ref_table_5f())
    } else
    if c == 0x60 {
        RefSlot::Bound(HandlerId::Pick)
    } else
    if c == 0x61 {
        RefSlot::Bound(HandlerId::Rollx)
    } else
    if c == 0x62 {
        RefSlot::Bound(HandlerId::Rollrevx)
    } else
    if c == 0x63 {
        RefSlot::Bound(HandlerId::Blkswx)
    } else
    if c == 0x64 {
        RefSlot::Bound(HandlerId::Revx)
    } else
    if c == 0x65 {
        RefSlot::Bound(HandlerId::Dropx)
    } else
    if c == 0x66 {
        RefSlot::Bound(HandlerId::Tuck)
    } else
    if c == 0x67 {
        RefSlot::Bound(HandlerId::Xchgx)
    } else
    if c == 0x68 {
        RefSlot::Bound(HandlerId::Depth)
    } else
    if c == 0x69 {
        RefSlot::Bound(HandlerId::Chkdepth)
    } else
    if c == 0x6A {
        RefSlot::Bound(HandlerId::Onlytopx)
    } else
    if c == 0x6B {
        RefSlot::Bound(HandlerId::Onlyx)
    } else
    if c == 0x6C {
        RefSlot::Subset(ref_table_6c())
    } else
    if c == 0x6D {
        RefSlot::Bound(HandlerId::Null)
    } else
    if c == 0x6E {
        RefSlot::Bound(HandlerId::Isnull)
    } else
    if c == 0x6F {
        RefSlot::Subset(ref_table_6f())
    } else
    if 0x70 <= c < 0x82 {
        RefSlot::Bound(HandlerId::Pushint)
    } else
    if c == 0x82 {
        RefSlot::Bound(HandlerId::PushintBig)
    } else
    if c == 0x83 {
        RefSlot::Subset(ref_table_83())
    } else
    if c == 0x84 {
        RefSlot::Bound(HandlerId::Pushpow2dec)
    } else
    if c == 0x85 {
        RefSlot::Bound(HandlerId::Pushnegpow2)
    } else
    if c == 0x88 {
        RefSlot::Bound(HandlerId::Pushref)
    } else
    if c == 0x89 {
        RefSlot::Bound(HandlerId::Pushrefslice)
    } else
    if c == 0x8A {
        RefSlot::Bound(HandlerId::Pushrefcont)
    } else
    if c == 0x8B {
        RefSlot::Bound(HandlerId::PushsliceShort)
    } else
    if c == 0x8C {
        RefSlot::Bound(HandlerId::PushsliceMid)
    } else
    if c == 0x8D {
        RefSlot::Bound(HandlerId::PushsliceLong)
    } else
    if 0x8E <= c < 0x90 {
        RefSlot::Bound(HandlerId::PushcontLong)
    } else
    if 0x90 <= c < 0xA0 {
        RefSlot::Bound(HandlerId::PushcontShort)
    } else
    if c == 0xA0 {
        RefSlot::Bound(HandlerId::Add(Mode::Signaling))
    } else
    if c == 0xA1 {
        RefSlot::Bound(HandlerId::Sub(Mode::Signaling))
    } else
    if c == 0xA2 {
        RefSlot::Bound(HandlerId::Subr(Mode::Signaling))
    } else
    if c == 0xA3 {
        RefSlot::Bound(HandlerId::Negate(Mode::Signaling))
    } else
    if c == 0xA4 {
        RefSlot::Bound(HandlerId::Inc(Mode::Signaling))
    } else
    if c == 0xA5 {
        RefSlot::Bound(HandlerId::Dec(Mode::Signaling))
    } else
    if c == 0xA6 {
        RefSlot::Bound(HandlerId::Addconst(Mode::Signaling))
    } else
    if c == 0xA7 {
        RefSlot::Bound(HandlerId::Mulconst(Mode::Signaling))
    } else
    if c == 0xA8 {
        RefSlot::Bound(HandlerId::Mul(Mode::Signaling))
    } else
    if c == 0xA9 {
        RefSlot::Bound(HandlerId::Divmod(Mode::Signaling))
    } else
    if c == 0xAA {
        RefSlot::Bound(HandlerId::Lshift(Mode::Signaling))
    } else
    if c == 0xAB {
        RefSlot::Bound(HandlerId::Rshift(Mode::Signaling))
    } else
    if c == 0xAC {
        RefSlot::Bound(HandlerId::Lshift(Mode::Signaling))
    } else
    if c == 0xAD {
        RefSlot::Bound(HandlerId::Rshift(Mode::Signaling))
    } else
    if c == 0xAE {
        RefSlot::Bound(HandlerId::Pow2(Mode::Signaling))
    } else
    if c == 0xB0 {
        RefSlot::Bound(HandlerId::And(Mode::Signaling))
    } else
    if c == 0xB1 {
        RefSlot::Bound(HandlerId::Or(Mode::Signaling))
    } else
    if c == 0xB2 {
        RefSlot::Bound(HandlerId::Xor(Mode::Signaling))
    } else
    if c == 0xB3 {
        RefSlot::Bound(HandlerId::Not(Mode::Signaling))
    } else
    if c == 0xB4 {
        RefSlot::Bound(HandlerId::Fits(Mode::Signaling))
    } else
    if c == 0xB5 {
        RefSlot::Bound(HandlerId::Ufits(Mode::Signaling))
    } else
    if c == 0xB6 {
        RefSlot::Subset(ref_table_b6())
    } else
    if c == 0xB7 {
        RefSlot::Subset(ref_table_b7())
    } else
    if c == 0xB8 {
        RefSlot::Bound(HandlerId::Sgn(Mode::Signaling))
    } else
    if c == 0xB9 {
        RefSlot::Bound(HandlerId::Less(Mode::Signaling))
    } else
    if c == 0xBA {
        RefSlot::Bound(HandlerId::Equal(Mode::Signaling))
    } else
    if c == 0xBB {
        RefSlot::Bound(HandlerId::Leq(Mode::Signaling))
    } else
    if c == 0xBC {
        RefSlot::Bound(HandlerId::Greater(Mode::Signaling))
    } else
    if c == 0xBD {
        RefSlot::Bound(HandlerId::Neq(Mode::Signaling))
    } else
    if c == 0xBE {
        RefSlot::Bound(HandlerId::Geq(Mode::Signaling))
    } else
    if c == 0xBF {
        RefSlot::Bound(HandlerId::Cmp(Mode::Signaling))
    } else
    if c == 0xC0 {
        RefSlot::Bound(HandlerId::Eqint(Mode::Signaling))
    } else
    if c == 0xC1 {
        RefSlot::Bound(HandlerId::Lessint(Mode::Signaling))
    } else
    if c == 0xC2 {
        RefSlot::Bound(HandlerId::Gtint(Mode::Signaling))
    } else
    if c == 0xC3 {
        RefSlot::Bound(HandlerId::Neqint(Mode::Signaling))
    } else
    if c == 0xC4 {
        RefSlot::Bound(HandlerId::Isnan)
    } else
    if c == 0xC5 {
        RefSlot::Bound(HandlerId::Chknan)
    } else
    if c == 0xC7 {
        RefSlot::Subset(ref_table_c7())
    } else
    if c == 0xC8 {
        RefSlot::Bound(HandlerId::Newc)
    } else
    if c == 0xC9 {
        RefSlot::Bound(HandlerId::Endc)
    } else
    if c == 0xCA {
        RefSlot::Bound(HandlerId::Sti)
    } else
    if c == 0xCB {
        RefSlot::Bound(HandlerId::Stu)
    } else
    if c == 0xCC {
        RefSlot::Bound(HandlerId::Stref)
    } else
    if c == 0xCD {
        RefSlot::Bound(HandlerId::Endcst)
    } else
    if c == 0xCE {
        RefSlot::Bound(HandlerId::Stslice)
    } else
    if c == 0xCF {
        RefSlot::Subset(ref_table_cf())
    } else
    if c == 0xD0 {
        RefSlot::Bound(HandlerId::Ctos)
    } else
    if c == 0xD1 {
        RefSlot::Bound(HandlerId::Ends)
    } else
    if c == 0xD2 {
        RefSlot::Bound(HandlerId::Ldi)
    } else
    if c == 0xD3 {
        RefSlot::Bound(HandlerId::Ldu)
    } else
    if c == 0xD4 {
        RefSlot::Bound(HandlerId::Ldref)
    } else
    if c == 0xD5 {
        RefSlot::Bound(HandlerId::Ldrefrtos)
    } else
    if c == 0xD6 {
        RefSlot::Bound(HandlerId::Ldslice)
    } else
    if c == 0xD7 {
        RefSlot::Subset(ref_table_d7())
    } else
    if c == 0xD8 {
        RefSlot::Bound(HandlerId::Callx)
    } else
    if c == 0xD9 {
        RefSlot::Bound(HandlerId::Jmpx)
    } else
    if c == 0xDA {
        RefSlot::Bound(HandlerId::Callxargs)
    } else
    if c == 0xDB {
        RefSlot::Subset(ref_table_db())
    } else
    if c == 0xDE {
        RefSlot::Bound(HandlerId::If)
    } else
    if c == 0xDC {
        RefSlot::Bound(HandlerId::Ifret)
    } else
    if c == 0xDD {
        RefSlot::Bound(HandlerId::Ifnotret)
    } else
    if c == 0xDF {
        RefSlot::Bound(HandlerId::Ifnot)
    } else
    if c == 0xE0 {
        RefSlot::Bound(HandlerId::Ifjmp)
    } else
    if c == 0xE1 {
        RefSlot::Bound(HandlerId::Ifnotjmp)
    } else
    if c == 0xE2 {
        RefSlot::Bound(HandlerId::Ifelse)
    } else
    if c == 0xE3 {
        RefSlot::Subset(ref_table_e3())
    } else
    if c == 0xE4 {
        RefSlot::Bound(HandlerId::Repeat)
    } else
    if c == 0xE5 {
        RefSlot::Bound(HandlerId::Repeatend)
    } else
    if c == 0xE6 {
        RefSlot::Bound(HandlerId::Until)
    } else
    if c == 0xE7 {
        RefSlot::Bound(HandlerId::Untilend)
    } else
    if c == 0xE8 {
        RefSlot::Bound(HandlerId::While)
    } else
    if c == 0xE9 {
        RefSlot::Bound(HandlerId::Whileend)
    } else
    if c == 0xEA {
        RefSlot::Bound(HandlerId::Again)
    } else
    if c == 0xEB {
        RefSlot::Bound(HandlerId::Againend)
    } else
    if c == 0xEC {
        RefSlot::Bound(HandlerId::Setcontargs)
    } else
    if c == 0xED {
        RefSlot::Subset(ref_table_ed())
    } else
    if c == 0xEE {
        RefSlot::Bound(HandlerId::Blessargs)
    } else
    if c == 0xF0 {
        RefSlot::Bound(HandlerId::CallShort)
    } else
    if c == 0xF1 {
        RefSlot::Subset(ref_table_f1())
    } else
    if c == 0xF2 {
        RefSlot::Subset(ref_table_f2())
    } else
    if c == 0xF3 {
        RefSlot::Bound(HandlerId::Tryargs)
    } else
    if c == 0xFA {
        RefSlot::Subset(ref_table_fa())
    } else
    if c == 0xFB {
        RefSlot::Subset(ref_table_fb())
    } else
    if c == 0xF4 {
        RefSlot::Subset(ref_table_f4())
    } else
    if c == 0xF8 {
        RefSlot::Subset(ref_table_f8())
    } else
    if c == 0xF9 {
        RefSlot::Subset(ref_table_f9())
    } else
    if c == 0xFE {
        RefSlot::Subset(ref_table_fe())
    } else {
        RefSlot::Vacant
    }
}

pub open spec fn ref_table_root() -> Seq<RefSlot> {
    Seq::new(256, |c: int| ref_slot_root(c))
}

impl Handlers {
    /// This table realises the reference table `t`: slot by slot, a vacant
    /// reference slot is vacant, a bound one is bound to the same handler,
    /// and a subset one refers to an owned table that realises the nested
    /// reference table in turn.
    pub open spec fn matches_ref(self, t: Seq<RefSlot>) -> bool
        decreases t,
    {
        &&& t.len() == 256
        &&& self.spec_slots().len() == 256
        &&& forall|c: int|
            0 <= c < 256 ==> match #[trigger] t[c] {
                RefSlot::Vacant => self.spec_slot(c) is Vacant,
                RefSlot::Bound(x) => self.spec_slot(c) == Slot::Bound(x),
                RefSlot::Subset(sub) => self.spec_slot(c) matches Slot::Subset(i)
                    && i < self.spec_subsets().len() && self.spec_subsets()[i as int].matches_ref(
                    sub,
                ),
            }
    }

    /// One slot of `matches_ref`, spelled on its own: byte value `c` of
    /// this table realises the reference binding `r`.
    pub open spec fn slot_matches(self, r: RefSlot, c: int) -> bool {
        match r {
            RefSlot::Vacant => self.spec_slot(c) is Vacant,
            RefSlot::Bound(x) => self.spec_slot(c) == Slot::Bound(x),
            RefSlot::Subset(sub) => self.spec_slot(c) matches Slot::Subset(i)
                && i < self.spec_subsets().len() && self.spec_subsets()[i as int].matches_ref(sub),
        }
    }
}

/// Dispatch read directly off a reference table: the first byte selects a
/// reference slot; a bound slot (or a vacant one, through the fallback)
/// ends the walk, a subset recurses with the rest of the input.
pub open spec fn ref_lookup(t: Seq<RefSlot>, input: Seq<u8>) -> Lookup
    decreases input.len(),
{
    if input.len() == 0 {
        Lookup::Short(0)
    } else {
        match t[input[0] as int] {
            RefSlot::Vacant => Lookup::Found(HandlerId::Unknown, 1),
            RefSlot::Bound(h) => Lookup::Found(h, 1),
            RefSlot::Subset(sub) => match ref_lookup(sub, input.skip(1)) {
                Lookup::Found(h, d) => Lookup::Found(h, (d + 1) as nat),
                Lookup::Short(d) => Lookup::Short((d + 1) as nat),
            },
        }
    }
}

/// A table realises a reference table as soon as each of its 256 slots
/// does: the slot-by-slot form is what a builder establishes one
/// registration at a time.
pub proof fn lemma_matches_ref_from_slots(h: Handlers, t: Seq<RefSlot>)
    requires
        t.len() == 256,
        h.spec_slots().len() == 256,
        forall|c: int| 0 <= c < 256 ==> #[trigger] h.slot_matches(t[c], c),
    ensures
        h.matches_ref(t),
{
    assert forall|c: int|
        0 <= c < 256 implies match #[trigger] t[c] {
            RefSlot::Vacant => h.spec_slot(c) is Vacant,
            RefSlot::Bound(x) => h.spec_slot(c) == Slot::Bound(x),
            RefSlot::Subset(sub) => h.spec_slot(c) matches Slot::Subset(i)
                && i < h.spec_subsets().len() && h.spec_subsets()[i as int].matches_ref(sub),
        } by {
        assert(h.slot_matches(t[c], c));
    }
}

/// A table that realises a reference table dispatches exactly as the
/// reference table says, on every input: which bytes are direct, which open
/// a subset, every boundary and every handler identity carry over.
pub proof fn lemma_lookup_follows_reference(h: Handlers, t: Seq<RefSlot>, input: Seq<u8>)
    requires
        h.matches_ref(t),
    ensures
        crate::handlers::lookup(h, input) == ref_lookup(t, input),
    decreases input.len(),
{
    if input.len() > 0 {
        let c = input[0] as int;
        assert(0 <= c < 256);
        assert(h.slot_matches(t[c], c));
        match t[c] {
            RefSlot::Subset(sub) => {
                match h.spec_slot(c) {
                    Slot::Subset(i) => {
                        lemma_lookup_follows_reference(
                            h.spec_subsets()[i as int],
                            sub,
                            input.skip(1),
                        );
                    },
                    _ => {
                        assert(false);
                    },
                }
            },
            _ => {},
        }
    }
}

/// Any two tables that realise the same reference table dispatch
/// identically on every input; in particular, two constructions of the
/// reference code page are interchangeable.
pub proof fn lemma_matching_tables_dispatch_alike(
    h1: Handlers,
    h2: Handlers,
    t: Seq<RefSlot>,
    input: Seq<u8>,
)
    requires
        h1.matches_ref(t),
        h2.matches_ref(t),
    ensures
        crate::handlers::lookup(h1, input) == crate::handlers::lookup(h2, input),
{
    lemma_lookup_follows_reference(h1, t, input);
    lemma_lookup_follows_reference(h2, t, input);
}

} // verus!
