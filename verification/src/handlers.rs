//! The opcode table and its dispatch engine. A table has one slot per byte
//! value; a slot is vacant, bound to a handler, or owns a nested table that
//! is reached by consuming one more byte. Tables are populated once, through
//! registration calls that refuse to reassign a slot, and read forever after.

use vstd::prelude::*;

use crate::DecodeError;
use crate::cursor::Cursor;
use crate::cursor::lemma_peek_bytes_step;

verus! {

/// How an instruction family surfaces an exceptional condition: a signaling
/// instruction raises an error, its quiet twin encodes it as a sentinel
/// value. The two instantiations of a family are distinct handler
/// identities and occupy distinct table slots.
#[derive(Clone, Copy, Debug, PartialEq, Eq, Structural)]
pub enum Mode {
    Signaling,
    Quiet,
}

/// The identity of one decode routine. The table binds byte values to these
/// identities; the routines themselves (operand extraction, rendering) live
/// with the caller. `Unknown` is the fallback identity that every
/// unregistered byte value resolves to.
#[derive(Clone, Copy, Debug, PartialEq, Eq, Structural)]
pub enum HandlerId {
    /// The fallback for a byte value with no registration.
    Unknown,
    Accept,
    Addrand,
    Again,
    AgainBreak,
    Againend,
    AgainendBreak,
    Atexit,
    Atexitalt,
    Balance,
    Bbitrefs,
    Bbits,
    Bchkbitrefs,
    Bchkbitrefsq,
    BchkbitsLong,
    BchkbitsShort,
    BchkbitsqLong,
    BchkbitsqShort,
    Bchkrefs,
    Bchkrefsq,
    Bdepth,
    Bless,
    Blessargs,
    Blessva,
    Blkdrop,
    Blkdrop2,
    Blkpush,
    Blkswap,
    Blkswx,
    Blocklt,
    Booleval,
    Brefs,
    Brembitrefs,
    Brembits,
    Bremrefs,
    Buygas,
    CallLong,
    CallShort,
    Callcc,
    Callccargs,
    Callccva,
    Callref,
    Callx,
    Callxargs,
    Callxva,
    Cdatasize,
    Cdatasizeq,
    Cdepth,
    Changelib,
    Chkdepth,
    Chknan,
    Chksigns,
    Chksignu,
    Commit,
    Compos,
    Composalt,
    Composboth,
    Condsel,
    Condselchk,
    ConfigDict,
    ConfigOptParam,
    ConfigRefParam,
    ConfigRoot,
    Ctos,
    DebugOff,
    DebugOn,
    Depth,
    Dictadd,
    Dictaddb,
    Dictaddget,
    Dictaddgetb,
    Dictaddgetref,
    Dictaddref,
    Dictdel,
    Dictdelget,
    Dictdelgetref,
    Dictget,
    Dictgetnext,
    Dictgetnexteq,
    Dictgetoptref,
    Dictgetprev,
    Dictgetpreveq,
    Dictgetref,
    Dictiadd,
    Dictiaddb,
    Dictiaddget,
    Dictiaddgetb,
    Dictiaddgetref,
    Dictiaddref,
    Dictidel,
    Dictidelget,
    Dictidelgetref,
    Dictiget,
    Dictigetexec,
    Dictigetexecz,
    Dictigetjmp,
    Dictigetjmpz,
    Dictigetnext,
    Dictigetnexteq,
    Dictigetoptref,
    Dictigetprev,
    Dictigetpreveq,
    Dictigetref,
    Dictimax,
    Dictimaxref,
    Dictimin,
    Dictiminref,
    Dictiremmax,
    Dictiremmaxref,
    Dictiremmin,
    Dictiremminref,
    Dictireplace,
    Dictireplaceb,
    Dictireplaceget,
    Dictireplacegetb,
    Dictireplacegetref,
    Dictireplaceref,
    Dictiset,
    Dictisetb,
    Dictisetget,
    Dictisetgetb,
    Dictisetgetoptref,
    Dictisetgetref,
    Dictisetref,
    Dictmax,
    Dictmaxref,
    Dictmin,
    Dictminref,
    Dictpushconst,
    Dictremmax,
    Dictremmaxref,
    Dictremmin,
    Dictremminref,
    Dictreplace,
    Dictreplaceb,
    Dictreplaceget,
    Dictreplacegetb,
    Dictreplacegetref,
    Dictreplaceref,
    Dictset,
    Dictsetb,
    Dictsetget,
    Dictsetgetb,
    Dictsetgetoptref,
    Dictsetgetref,
    Dictsetref,
    Dictuadd,
    Dictuaddb,
    Dictuaddget,
    Dictuaddgetb,
    Dictuaddgetref,
    Dictuaddref,
    Dictudel,
    Dictudelget,
    Dictudelgetref,
    Dictuget,
    Dictugetexec,
    Dictugetexecz,
    Dictugetjmp,
    Dictugetjmpz,
    Dictugetnext,
    Dictugetnexteq,
    Dictugetoptref,
    Dictugetprev,
    Dictugetpreveq,
    Dictugetref,
    Dictumax,
    Dictumaxref,
    Dictumin,
    Dictuminref,
    Dicturemmax,
    Dicturemmaxref,
    Dicturemmin,
    Dicturemminref,
    Dictureplace,
    Dictureplaceb,
    Dictureplaceget,
    Dictureplacegetb,
    Dictureplacegetref,
    Dictureplaceref,
    Dictuset,
    Dictusetb,
    Dictusetget,
    Dictusetgetb,
    Dictusetgetoptref,
    Dictusetgetref,
    Dictusetref,
    Drop2,
    Dropx,
    DumpBin,
    DumpHex,
    DumpStack,
    DumpStackTop,
    DumpStr,
    DumpString,
    DumpVar,
    Dup2,
    Endc,
    Endcst,
    Ends,
    Endxc,
    Gastogram,
    Getglob,
    Getglobvar,
    Getparam,
    Gramtogas,
    Hashcu,
    Hashsu,
    If,
    Ifbitjmp,
    Ifbitjmpref,
    Ifelse,
    Ifelseref,
    Ifjmp,
    Ifjmpref,
    Ifnbitjmp,
    Ifnbitjmpref,
    Ifnot,
    Ifnotjmp,
    Ifnotjmpref,
    Ifnotref,
    Ifnotret,
    Ifnotretalt,
    Ifref,
    Ifrefelse,
    Ifrefelseref,
    Ifret,
    Ifretalt,
    Invert,
    Isnan,
    Isnull,
    Istuple,
    Jmp,
    Jmpref,
    Jmprefdata,
    Jmpx,
    Jmpxargs,
    Jmpxdata,
    Jmpxva,
    Lddict,
    Lddictq,
    Lddicts,
    Ldgrams,
    Ldi,
    Ldile4,
    Ldile4q,
    Ldile8,
    Ldile8q,
    Ldiq,
    Ldix,
    Ldixq,
    Ldones,
    Ldref,
    Ldrefrtos,
    Ldsame,
    Ldslice,
    Ldsliceq,
    Ldslicex,
    Ldslicexq,
    Ldu,
    Ldule4,
    Ldule4q,
    Ldule8,
    Ldule8q,
    Lduq,
    Ldux,
    Lduxq,
    Ldvarint16,
    Ldvarint32,
    Ldvaruint32,
    Ldzeroes,
    Ltime,
    MyAddr,
    MyCode,
    Newc,
    Nop,
    Now,
    Null,
    Nullrotrif,
    Nullrotrif2,
    Nullrotrifnot,
    Nullrotrifnot2,
    Nullswapif,
    Nullswapif2,
    Nullswapifnot,
    Nullswapifnot2,
    Onlytopx,
    Onlyx,
    Over2,
    Pfxdictadd,
    Pfxdictdel,
    Pfxdictget,
    Pfxdictgetexec,
    Pfxdictgetjmp,
    Pfxdictgetq,
    Pfxdictreplace,
    Pfxdictset,
    Pfxdictswitch,
    Pick,
    Plddict,
    Plddictq,
    Plddicts,
    Pldi,
    Pldile4,
    Pldile4q,
    Pldile8,
    Pldile8q,
    Pldiq,
    Pldix,
    Pldixq,
    Pldref,
    Pldrefidx,
    Pldrefvar,
    Pldslice,
    Pldsliceq,
    Pldslicex,
    Pldslicexq,
    Pldu,
    Pldule4,
    Pldule4q,
    Pldule8,
    Pldule8q,
    Plduq,
    Pldux,
    Plduxq,
    Plduz,
    Pop,
    PopSimple,
    Popctr,
    Popctrx,
    Popsave,
    Prepare,
    PrintBin,
    PrintHex,
    PrintStr,
    PrintVar,
    Pu2xc,
    Push,
    Push2,
    Push3,
    PushSimple,
    PushcontLong,
    PushcontShort,
    Pushctr,
    Pushctrx,
    Pushint,
    PushintBig,
    Pushnan,
    Pushnegpow2,
    Pushpow2,
    Pushpow2dec,
    Pushref,
    Pushrefcont,
    Pushrefslice,
    PushsliceLong,
    PushsliceMid,
    PushsliceShort,
    Puxc,
    Puxc2,
    Puxcpu,
    Rand,
    Randseed,
    Randu256,
    Rawreserve,
    Rawreservex,
    Repeat,
    RepeatBreak,
    Repeatend,
    RepeatendBreak,
    Ret,
    Retalt,
    Retargs,
    Retbool,
    Retdata,
    Returnargs,
    Returnva,
    Retva,
    Reverse,
    Revx,
    Rollrevx,
    Rollx,
    Rot,
    Rotrev,
    Samealt,
    SamealtSave,
    Save,
    Savealt,
    Saveboth,
    Sbitrefs,
    Sbits,
    Schkbitrefs,
    Schkbitrefsq,
    Schkbits,
    Schkbitsq,
    Schkrefs,
    Schkrefsq,
    Scutfirst,
    Scutlast,
    Sdatasize,
    Sdatasizeq,
    Sdbegins,
    Sdbeginsq,
    Sdbeginsx,
    Sdbeginsxq,
    Sdcntlead0,
    Sdcntlead1,
    Sdcnttrail0,
    Sdcnttrail1,
    Sdcutlast,
    Sdempty,
    Sdepth,
    Sdeq,
    Sdfirst,
    Sdlexcmp,
    Sdpfx,
    Sdpfxrev,
    Sdppfx,
    Sdppfxrev,
    Sdpsfx,
    Sdpsfxrev,
    Sdsfx,
    Sdsfxrev,
    Sdskipfirst,
    Sdskiplast,
    Sdsubstr,
    Sempty,
    Sendrawmsg,
    Setaltctr,
    Setcode,
    Setcontargs,
    Setcontctr,
    Setcontctrx,
    Setcontva,
    Setcp,
    Setcpx,
    Setexitalt,
    Setgaslimit,
    Setglob,
    Setglobvar,
    Setlibcode,
    Setnumva,
    Setrand,
    Setretctr,
    Sha256u,
    Skipdict,
    Split,
    Splitq,
    Srefs,
    Srempty,
    Sskipfirst,
    Sskiplast,
    Stb,
    Stbq,
    Stbr,
    Stbref,
    Stbrefq,
    Stbrefrq,
    Stbrq,
    Stdict,
    Stgrams,
    Sti,
    Stile4,
    Stile8,
    Stiq,
    Stir,
    Stirq,
    Stix,
    Stixq,
    Stixr,
    Stixrq,
    Stones,
    Stref,
    Stref2const,
    Strefconst,
    Strefq,
    Strefr,
    Strefrq,
    Stsame,
    Stslice,
    Stsliceconst,
    Stsliceq,
    Stslicer,
    Stslicerq,
    Stu,
    Stule4,
    Stule8,
    Stuq,
    Stur,
    Sturq,
    Stux,
    Stuxq,
    Stuxr,
    Stuxrq,
    Stvarint16,
    Stvarint32,
    Stvaruint32,
    Stzeroes,
    Subdictget,
    Subdictiget,
    Subdictirpget,
    Subdictrpget,
    Subdictuget,
    Subdicturpget,
    Subslice,
    Swap2,
    Thenret,
    Thenretalt,
    ThrowLong,
    ThrowShort,
    Throwany,
    Throwanyif,
    Throwanyifnot,
    Throwarg,
    Throwargany,
    Throwarganyif,
    Throwarganyifnot,
    Throwargif,
    Throwargifnot,
    ThrowifLong,
    ThrowifShort,
    ThrowifnotLong,
    ThrowifnotShort,
    Try,
    Tryargs,
    Tuck,
    TupleCreate,
    TupleCreatevar,
    TupleExplode,
    TupleExplodevar,
    TupleIndex,
    TupleIndex2,
    TupleIndex3,
    TupleIndexQuiet,
    TupleIndexvar,
    TupleIndexvarQuiet,
    TupleLast,
    TupleLen,
    TupleLenQuiet,
    TuplePop,
    TuplePush,
    TupleSetindex,
    TupleSetindexQuiet,
    TupleSetindexvar,
    TupleSetindexvarQuiet,
    TupleUn,
    TupleUnpackfirst,
    TupleUnpackfirstvar,
    TupleUntuplevar,
    Until,
    UntilBreak,
    Untilend,
    UntilendBreak,
    While,
    WhileBreak,
    Whileend,
    WhileendBreak,
    Xc2pu,
    Xchg2,
    Xchg3,
    XchgLong,
    XchgSimple,
    XchgStd,
    Xchgx,
    Xcpu,
    Xcpu2,
    Xcpuxc,
    Xctos,
    Xload,
    Xloadq,
    Zerorotrif,
    Zerorotrif2,
    Zerorotrifnot,
    Zerorotrifnot2,
    Zeroswapif,
    Zeroswapif2,
    Zeroswapifnot,
    Zeroswapifnot2,
    Abs(Mode),
    Add(Mode),
    Addconst(Mode),
    And(Mode),
    Bitsize(Mode),
    Cmp(Mode),
    Dec(Mode),
    Divmod(Mode),
    Eqint(Mode),
    Equal(Mode),
    Fits(Mode),
    Fitsx(Mode),
    Geq(Mode),
    Greater(Mode),
    Gtint(Mode),
    Inc(Mode),
    Ldmsgaddr(Mode),
    Leq(Mode),
    Less(Mode),
    Lessint(Mode),
    Lshift(Mode),
    Max(Mode),
    Min(Mode),
    Minmax(Mode),
    Mul(Mode),
    Mulconst(Mode),
    Negate(Mode),
    Neq(Mode),
    Neqint(Mode),
    Not(Mode),
    Or(Mode),
    Parsemsgaddr(Mode),
    Pow2(Mode),
    RewriteStdAddr(Mode),
    RewriteVarAddr(Mode),
    Rshift(Mode),
    Sgn(Mode),
    Sub(Mode),
    Subr(Mode),
    Ubitsize(Mode),
    Ufits(Mode),
    Ufitsx(Mode),
    Xor(Mode),
}

/// One byte-index position of a table.
#[derive(Clone, Copy, Debug, PartialEq, Eq, Structural)]
pub enum Slot {
    /// Never assigned; resolves to `HandlerId::Unknown`.
    Vacant,
    /// A handler bound to this exact byte value.
    Bound(HandlerId),
    /// A nested table, stored in the owner's subset list at this index.
    Subset(usize),
}

/// A construction-time conflict: the slot for the named byte value already
/// held a binding other than the fallback.
#[derive(Clone, Copy, Debug, PartialEq, Eq, Structural)]
pub enum BuildError {
    Occupied(u8),
}

/// What walking a table against an input byte sequence yields: a handler
/// after consuming that many bytes, or a truncated stream after consuming
/// that many bytes.
pub enum Lookup {
    Found(HandlerId, nat),
    Short(nat),
}

/// An opcode table: one slot for each of the 256 byte values, plus the
/// nested tables its `Subset` slots refer to.
pub struct Handlers {
    slots: Vec<Slot>,
    subsets: Vec<Handlers>,
}

/// Walks `t` along `input`: the first byte selects a slot; a bound slot (or
/// a vacant one, through the fallback) ends the walk, a subset slot recurses
/// into its nested table with the rest of the input.
pub open spec fn lookup(t: Handlers, input: Seq<u8>) -> Lookup
    decreases input.len(),
{
    if input.len() == 0 {
        Lookup::Short(0)
    } else {
        match t.spec_slot(input[0] as int) {
            Slot::Vacant => Lookup::Found(HandlerId::Unknown, 1),
            Slot::Bound(h) => Lookup::Found(h, 1),
            Slot::Subset(i) => match lookup(t.spec_subsets()[i as int], input.skip(1)) {
                Lookup::Found(h, d) => Lookup::Found(h, d + 1),
                Lookup::Short(d) => Lookup::Short(d + 1),
            },
        }
    }
}

impl Handlers {
    pub closed spec fn spec_slots(self) -> Seq<Slot> {
        self.slots@
    }

    pub closed spec fn spec_subsets(self) -> Seq<Handlers> {
        self.subsets@
    }

    #[verifier::inline]
    pub open spec fn spec_slot(self, code: int) -> Slot {
        self.spec_slots()[code]
    }

    /// Every table has exactly 256 slots, every subset index is in range,
    /// and every nested table is well formed in turn.
    pub open spec fn wf(self) -> bool
        decreases self,
    {
        &&& self.spec_slots().len() == 256
        &&& forall|c: int|
            0 <= c < 256 ==> ((#[trigger] self.spec_slot(c)) matches Slot::Subset(i)
                ==> i < self.spec_subsets().len())
        &&& forall|j: int|
            0 <= j < self.spec_subsets().len() ==> (#[trigger] self.spec_subsets()[j]).wf()
    }

    /// A registration may claim `code` only while its slot still holds the
    /// fallback: either vacant, or explicitly bound to `Unknown`.
    pub open spec fn can_bind(self, code: int) -> bool {
        self.spec_slot(code) is Vacant || self.spec_slot(code) == Slot::Bound(HandlerId::Unknown)
    }

    /// A table with all 256 slots vacant and no subsets.
    pub fn new() -> (r: Handlers)
        ensures
            r.wf(),
            r.spec_subsets().len() == 0,
            forall|c: int| 0 <= c < 256 ==> (#[trigger] r.spec_slot(c)) is Vacant,
    {
        let mut slots: Vec<Slot> = Vec::new();
        let mut i: usize = 0;
        while i < 256
            invariant
                i <= 256,
                slots@.len() == i,
                forall|c: int| 0 <= c < i ==> (#[trigger] slots@[c]) is Vacant,
            decreases 256 - i,
        {
            slots.push(Slot::Vacant);
            i = i + 1;
        }
        Handlers { slots, subsets: Vec::new() }
    }

    /// The reference opcode table for code page zero, transcribed from the
    /// published instruction-set encoding. Registration of the whole table
    /// is proved conflict-free, and the result is proved to realise the
    /// reference model slot for slot, so it dispatches exactly as the
    /// model says on every input.
    pub fn new_code_page_0() -> (r: Handlers)
        ensures
            r.wf(),
            r.matches_ref(crate::reference::ref_table_root()),
            forall|input: Seq<u8>| #[trigger] lookup(r, input) == crate::reference::ref_lookup(
                crate::reference::ref_table_root(),
                input,
            ),
            lookup(r, Seq::<u8>::empty()) == Lookup::Short(0nat),
            lookup(r, seq![0x00u8]) == Lookup::Found(HandlerId::Nop, 1nat),
            lookup(r, seq![0x54u8, 0x05u8]) == Lookup::Found(HandlerId::Xchg3, 2nat),
            lookup(r, seq![0xA0u8]) == Lookup::Found(HandlerId::Add(Mode::Signaling), 1nat),
            lookup(r, seq![0xB7u8, 0xA0u8]) == Lookup::Found(HandlerId::Add(Mode::Quiet), 2nat),
            lookup(r, seq![0xFFu8, 0xFFu8]) == Lookup::Found(HandlerId::Setcp, 2nat),
    {
        let t = match Self::build_code_page_0() {
            Ok(t) => t,
            Err(_) => {
                // Unreachable: registration of the reference table is
                // proved conflict-free.
                proof {
                    assert(false);
                }
                Handlers::new()
            },
        };
        proof {
            assert forall|input: Seq<u8>| #[trigger] lookup(t, input) == crate::reference::ref_lookup(
                crate::reference::ref_table_root(),
                input,
            ) by {
                crate::reference::lemma_lookup_follows_reference(t, crate::reference::ref_table_root(), input);
            };
            reveal_with_fuel(lookup, 3);
            reveal_with_fuel(crate::reference::ref_lookup, 3);
            assert(crate::reference::ref_table_root()[0x00] == crate::reference::ref_slot_root(0x00));
            assert(crate::reference::ref_table_root()[0x54] == crate::reference::ref_slot_root(0x54));
            assert(crate::reference::ref_table_root()[0xA0] == crate::reference::ref_slot_root(0xA0));
            assert(crate::reference::ref_table_root()[0xB7] == crate::reference::ref_slot_root(0xB7));
            assert(crate::reference::ref_table_root()[0xFF] == crate::reference::ref_slot_root(0xFF));
            assert(crate::reference::ref_table_54()[0x05] == crate::reference::ref_slot_54(0x05));
            assert(crate::reference::ref_table_b7()[0xA0] == crate::reference::ref_slot_b7(0xA0));
            assert(crate::reference::ref_table_ff()[0xFF] == crate::reference::ref_slot_ff(0xFF));
            assert(seq![0x54u8, 0x05u8].skip(1) =~= seq![0x05u8]);
            assert(seq![0xB7u8, 0xA0u8].skip(1) =~= seq![0xA0u8]);
            assert(seq![0xFFu8, 0xFFu8].skip(1) =~= seq![0xFFu8]);
            assert(lookup(t, seq![0x00u8]) == crate::reference::ref_lookup(crate::reference::ref_table_root(), seq![0x00u8]));
            assert(crate::reference::ref_lookup(crate::reference::ref_table_root(), seq![0x00u8]) == Lookup::Found(HandlerId::Nop, 1nat));
            assert(lookup(t, seq![0x54u8, 0x05u8]) == crate::reference::ref_lookup(crate::reference::ref_table_root(), seq![0x54u8, 0x05u8]));
            assert(crate::reference::ref_lookup(crate::reference::ref_table_root(), seq![0x54u8, 0x05u8]) == Lookup::Found(HandlerId::Xchg3, 2nat));
            assert(lookup(t, seq![0xA0u8]) == crate::reference::ref_lookup(crate::reference::ref_table_root(), seq![0xA0u8]));
            assert(crate::reference::ref_lookup(crate::reference::ref_table_root(), seq![0xA0u8]) == Lookup::Found(HandlerId::Add(Mode::Signaling), 1nat));
            assert(lookup(t, seq![0xB7u8, 0xA0u8]) == crate::reference::ref_lookup(crate::reference::ref_table_root(), seq![0xB7u8, 0xA0u8]));
            assert(crate::reference::ref_lookup(crate::reference::ref_table_root(), seq![0xB7u8, 0xA0u8]) == Lookup::Found(HandlerId::Add(Mode::Quiet), 2nat));
            assert(lookup(t, seq![0xFFu8, 0xFFu8]) == crate::reference::ref_lookup(crate::reference::ref_table_root(), seq![0xFFu8, 0xFFu8]));
            assert(crate::reference::ref_lookup(crate::reference::ref_table_root(), seq![0xFFu8, 0xFFu8]) == Lookup::Found(HandlerId::Setcp, 2nat));
        }
        t
    }

    #[verifier::rlimit(100)]
    fn build_code_page_0() -> (r: Result<Handlers, BuildError>)
        ensures
            r is Ok,
            r matches Ok(t) ==> t.wf() && t.matches_ref(crate::reference::ref_table_root()),
    {
        let mut t = Handlers::new();
        t.add_code_page_0_part_stack()?;
        let ghost t_01 = t;
        t.add_code_page_0_tuple()?;
        let ghost t_02 = t;
        t.add_code_page_0_part_constant()?;
        let ghost t_03 = t;
        t.add_code_page_0_arithmetic()?;
        let ghost t_04 = t;
        t.add_code_page_0_comparsion()?;
        let ghost t_05 = t;
        t.add_code_page_0_cell()?;
        let ghost t_06 = t;
        t.add_code_page_0_control_flow()?;
        let ghost t_07 = t;
        t.add_code_page_0_exceptions()?;
        let ghost t_08 = t;
        t.add_code_page_0_dictionaries()?;
        let ghost t_09 = t;
        t.add_code_page_0_gas_rand_config()?;
        let ghost t_10 = t;
        t.add_code_page_0_blockchain()?;
        let ghost t_11 = t;
        t.add_code_page_0_crypto()?;
        let ghost t_12 = t;
        t.add_code_page_0_debug()?;
        let ghost t_13 = t;
        let mut s_ff = Handlers::new();
        proof { lemma_free_range_binds_whole_range(s_ff, 0x00, 0xF0); }
        s_ff.set_range(0x00, 0xF0, HandlerId::Setcp)?;
        s_ff.set(0xF0, HandlerId::Setcpx)?;
        proof { lemma_free_range_binds_whole_range(s_ff, 0xF1, 0xFF); }
        s_ff.set_range(0xF1, 0xFF, HandlerId::Setcp)?;
        s_ff.set(0xFF, HandlerId::Setcp)?;
        proof {
            assert forall|c: int| 0 <= c < 256 implies #[trigger] s_ff.slot_matches(
                crate::reference::ref_slot_ff(c),
                c,
            ) by {
                assert(s_ff.wf());
            };
            assert forall|c: int| 0 <= c < 256 implies #[trigger] s_ff.slot_matches(
                crate::reference::ref_table_ff()[c],
                c,
            ) by {
                assert(crate::reference::ref_table_ff()[c] == crate::reference::ref_slot_ff(c));
                assert(s_ff.slot_matches(crate::reference::ref_slot_ff(c), c));
            };
            crate::reference::lemma_matches_ref_from_slots(s_ff, crate::reference::ref_table_ff());
        }
        let ghost g_ff = s_ff;
        let gi_ff = t.subsets.len();
        t.add_subset(0xFF, s_ff)?;
        proof {
            assert(t.spec_slot(0xFF) == Slot::Subset(gi_ff));
            assert(gi_ff < t.spec_subsets().len());
            assert(t.spec_subsets()[gi_ff as int] == g_ff);
            assert(g_ff.matches_ref(crate::reference::ref_table_ff()));
            assert(t.slot_matches(crate::reference::ref_slot_root(0xFF), 0xFF));
            assert forall|c: int| 0 <= c < 256 implies #[trigger] t.slot_matches(
                crate::reference::ref_slot_root(c),
                c,
            ) by {
                if 0x00 <= c <= 0x6C {
                    assert(t_01.slot_matches(crate::reference::ref_slot_root(c), c));
                    assert(t.spec_slot(c) == t_01.spec_slot(c));
                    match t_01.spec_slot(c) {
                        Slot::Subset(i) => {
                            assert(i < t_01.spec_subsets().len());
                            assert(t.spec_subsets()[i as int] == t_01.spec_subsets()[i as int]);
                        },
                        _ => {},
                    }
                } else if 0x6D <= c <= 0x6F {
                    assert(t_02.slot_matches(crate::reference::ref_slot_root(c), c));
                    assert(t.spec_slot(c) == t_02.spec_slot(c));
                    match t_02.spec_slot(c) {
                        Slot::Subset(i) => {
                            assert(i < t_02.spec_subsets().len());
                            assert(t.spec_subsets()[i as int] == t_02.spec_subsets()[i as int]);
                        },
                        _ => {},
                    }
                } else if 0x70 <= c <= 0x9F {
                    assert(t_03.slot_matches(crate::reference::ref_slot_root(c), c));
                    assert(t.spec_slot(c) == t_03.spec_slot(c));
                    match t_03.spec_slot(c) {
                        Slot::Subset(i) => {
                            assert(i < t_03.spec_subsets().len());
                            assert(t.spec_subsets()[i as int] == t_03.spec_subsets()[i as int]);
                        },
                        _ => {},
                    }
                } else if 0xA0 <= c <= 0xB7 {
                    assert(t_04.slot_matches(crate::reference::ref_slot_root(c), c));
                    assert(t.spec_slot(c) == t_04.spec_slot(c));
                    match t_04.spec_slot(c) {
                        Slot::Subset(i) => {
                            assert(i < t_04.spec_subsets().len());
                            assert(t.spec_subsets()[i as int] == t_04.spec_subsets()[i as int]);
                        },
                        _ => {},
                    }
                } else if 0xB8 <= c <= 0xC7 {
                    assert(t_05.slot_matches(crate::reference::ref_slot_root(c), c));
                    assert(t.spec_slot(c) == t_05.spec_slot(c));
                    match t_05.spec_slot(c) {
                        Slot::Subset(i) => {
                            assert(i < t_05.spec_subsets().len());
                            assert(t.spec_subsets()[i as int] == t_05.spec_subsets()[i as int]);
                        },
                        _ => {},
                    }
                } else if 0xC8 <= c <= 0xD7 {
                    assert(t_06.slot_matches(crate::reference::ref_slot_root(c), c));
                    assert(t.spec_slot(c) == t_06.spec_slot(c));
                    match t_06.spec_slot(c) {
                        Slot::Subset(i) => {
                            assert(i < t_06.spec_subsets().len());
                            assert(t.spec_subsets()[i as int] == t_06.spec_subsets()[i as int]);
                        },
                        _ => {},
                    }
                } else if 0xD8 <= c <= 0xF1 {
                    assert(t_07.slot_matches(crate::reference::ref_slot_root(c), c));
                    assert(t.spec_slot(c) == t_07.spec_slot(c));
                    match t_07.spec_slot(c) {
                        Slot::Subset(i) => {
                            assert(i < t_07.spec_subsets().len());
                            assert(t.spec_subsets()[i as int] == t_07.spec_subsets()[i as int]);
                        },
                        _ => {},
                    }
                } else if 0xF2 <= c <= 0xF3 {
                    assert(t_08.slot_matches(crate::reference::ref_slot_root(c), c));
                    assert(t.spec_slot(c) == t_08.spec_slot(c));
                    match t_08.spec_slot(c) {
                        Slot::Subset(i) => {
                            assert(i < t_08.spec_subsets().len());
                            assert(t.spec_subsets()[i as int] == t_08.spec_subsets()[i as int]);
                        },
                        _ => {},
                    }
                } else if 0xF4 <= c <= 0xF4 {
                    assert(t_09.slot_matches(crate::reference::ref_slot_root(c), c));
                    assert(t.spec_slot(c) == t_09.spec_slot(c));
                    match t_09.spec_slot(c) {
                        Slot::Subset(i) => {
                            assert(i < t_09.spec_subsets().len());
                            assert(t.spec_subsets()[i as int] == t_09.spec_subsets()[i as int]);
                        },
                        _ => {},
                    }
                } else if 0xF8 <= c <= 0xF8 {
                    assert(t_10.slot_matches(crate::reference::ref_slot_root(c), c));
                    assert(t.spec_slot(c) == t_10.spec_slot(c));
                    match t_10.spec_slot(c) {
                        Slot::Subset(i) => {
                            assert(i < t_10.spec_subsets().len());
                            assert(t.spec_subsets()[i as int] == t_10.spec_subsets()[i as int]);
                        },
                        _ => {},
                    }
                } else if 0xFA <= c <= 0xFB {
                    assert(t_11.slot_matches(crate::reference::ref_slot_root(c), c));
                    assert(t.spec_slot(c) == t_11.spec_slot(c));
                    match t_11.spec_slot(c) {
                        Slot::Subset(i) => {
                            assert(i < t_11.spec_subsets().len());
                            assert(t.spec_subsets()[i as int] == t_11.spec_subsets()[i as int]);
                        },
                        _ => {},
                    }
                } else if 0xF9 <= c <= 0xF9 {
                    assert(t_12.slot_matches(crate::reference::ref_slot_root(c), c));
                    assert(t.spec_slot(c) == t_12.spec_slot(c));
                    match t_12.spec_slot(c) {
                        Slot::Subset(i) => {
                            assert(i < t_12.spec_subsets().len());
                            assert(t.spec_subsets()[i as int] == t_12.spec_subsets()[i as int]);
                        },
                        _ => {},
                    }
                } else if 0xFE <= c <= 0xFE {
                    assert(t_13.slot_matches(crate::reference::ref_slot_root(c), c));
                    assert(t.spec_slot(c) == t_13.spec_slot(c));
                    match t_13.spec_slot(c) {
                        Slot::Subset(i) => {
                            assert(i < t_13.spec_subsets().len());
                            assert(t.spec_subsets()[i as int] == t_13.spec_subsets()[i as int]);
                        },
                        _ => {},
                    }
                } else if c == 0xFF {
                    assert(t.slot_matches(crate::reference::ref_slot_root(0xFF), 0xFF));
                } else {
                    assert(t.spec_slot(c) is Vacant);
                }
            };
            assert forall|c: int| 0 <= c < 256 implies #[trigger] t.slot_matches(
                crate::reference::ref_table_root()[c],
                c,
            ) by {
                assert(crate::reference::ref_table_root()[c] == crate::reference::ref_slot_root(c));
                assert(t.slot_matches(crate::reference::ref_slot_root(c), c));
            };
            crate::reference::lemma_matches_ref_from_slots(t, crate::reference::ref_table_root());
        }
        Ok(t)
    }

    /// Binds `handler` to the byte value `code`; refuses a slot that is
    /// already bound or already a subset.
    pub fn set(&mut self, code: u8, handler: HandlerId) -> (r: Result<(), BuildError>)
        requires
            old(self).wf(),
        ensures
            final(self).wf(),
            r is Ok <==> old(self).can_bind(code as int),
            r is Ok ==> final(self).spec_slots()
                == old(self).spec_slots().update(code as int, Slot::Bound(handler)),
            final(self).spec_subsets() == old(self).spec_subsets(),
            r is Err ==> *final(self) == *old(self)
                && r == Err::<(), BuildError>(BuildError::Occupied(code)),
    {
        let free = match self.slots[code as usize] {
            Slot::Vacant => true,
            Slot::Bound(h) => matches!(h, HandlerId::Unknown),
            Slot::Subset(_) => false,
        };
        if free {
            self.slots[code as usize] = Slot::Bound(handler);
            proof {
                lemma_wf_after_slot_update(*old(self), *self, code as int);
            }
            Ok(())
        } else {
            Err(BuildError::Occupied(code))
        }
    }

    /// Binds `handler` to every byte value in the half-open range
    /// `lo..hi`, in ascending order; a conflict stops the walk at the first
    /// conflicting byte, leaving the earlier ones bound.
    pub fn set_range(&mut self, lo: u8, hi: u8, handler: HandlerId) -> (r: Result<
        (),
        BuildError,
    >)
        requires
            old(self).wf(),
        ensures
            final(self).wf(),
            final(self).spec_subsets() == old(self).spec_subsets(),
            ({
                let j = first_blocked(*old(self), lo as int, hi as int);
                &&& (r is Ok <==> j == hi as int)
                &&& (r is Err ==> lo as int <= j < hi as int && r == Err::<(), BuildError>(
                    BuildError::Occupied(j as u8),
                ))
                &&& (forall|i: int|
                    lo as int <= i < j ==> (#[trigger] final(self).spec_slot(i)) == Slot::Bound(
                        handler,
                    ))
                &&& (forall|i: int|
                    0 <= i < 256 && !(lo as int <= i < j) ==> (#[trigger] final(self).spec_slot(i))
                        == old(self).spec_slot(i))
            }),
    {
        let ghost t0 = *old(self);
        let mut c = lo;
        if lo >= hi {
            assert(first_blocked(t0, lo as int, hi as int) == hi as int);
            return Ok(());
        }
        #[verifier::loop_isolation(false)]
        while c < hi
            invariant
                lo <= c <= hi,
                self.wf(),
                self.spec_subsets() == t0.spec_subsets(),
                forall|i: int| lo as int <= i < c as int ==> t0.can_bind(i),
                forall|i: int|
                    lo as int <= i < c as int ==> (#[trigger] self.spec_slot(i)) == Slot::Bound(
                        handler,
                    ),
                forall|i: int|
                    0 <= i < 256 && !(lo as int <= i < c as int) ==> (#[trigger] self.spec_slot(i))
                        == t0.spec_slot(i),
            decreases hi as int - c as int,
        {
            let ghost prev = *self;
            let step = self.set(c, handler);
            if step.is_err() {
                proof {
                    assert(!t0.can_bind(c as int));
                    lemma_first_blocked_at(t0, lo as int, c as int, hi as int);
                }
                return Err(BuildError::Occupied(c));
            }
            proof {
                assert(self.spec_slots() == prev.spec_slots().update(
                    c as int,
                    Slot::Bound(handler),
                ));
                assert forall|i: int|
                    lo as int <= i <= c as int implies (#[trigger] self.spec_slot(i))
                        == Slot::Bound(handler) by {
                    assert(self.spec_slot(i) == prev.spec_slots().update(
                        c as int,
                        Slot::Bound(handler),
                    )[i]);
                    if i < c as int {
                        assert(self.spec_slot(i) == prev.spec_slots()[i]);
                        assert(prev.spec_slot(i) == Slot::Bound(handler));
                    }
                }
                assert forall|i: int|
                    0 <= i < 256 && !(lo as int <= i <= c as int) implies (
                    #[trigger] self.spec_slot(i)) == t0.spec_slot(i) by {
                    assert(self.spec_slot(i) == prev.spec_slots().update(
                        c as int,
                        Slot::Bound(handler),
                    )[i]);
                    assert(self.spec_slot(i) == prev.spec_slots()[i]);
                    assert(prev.spec_slot(i) == t0.spec_slot(i));
                }
            }
            c = c + 1;
        }
        proof {
            lemma_first_blocked_at(t0, lo as int, hi as int, hi as int);
        }
        Ok(())
    }

    /// Hands ownership of a fully built nested table to this one, bound to
    /// the byte value `code`; refuses a slot that is already bound or
    /// already a subset.
    pub fn add_subset(&mut self, code: u8, subset: Handlers) -> (r: Result<(), BuildError>)
        requires
            old(self).wf(),
            subset.wf(),
        ensures
            final(self).wf(),
            r is Ok <==> old(self).can_bind(code as int),
            r is Ok ==> final(self).spec_slots() == old(self).spec_slots().update(
                code as int,
                Slot::Subset(old(self).spec_subsets().len() as usize),
            ) && final(self).spec_subsets() == old(self).spec_subsets().push(subset),
            r is Err ==> *final(self) == *old(self)
                && r == Err::<(), BuildError>(BuildError::Occupied(code)),
    {
        let free = match self.slots[code as usize] {
            Slot::Vacant => true,
            Slot::Bound(h) => matches!(h, HandlerId::Unknown),
            Slot::Subset(_) => false,
        };
        if free {
            let idx = self.subsets.len();
            self.slots[code as usize] = Slot::Subset(idx);
            self.subsets.push(subset);
            proof {
                assert forall|c2: int| 0 <= c2 < 256 implies ((#[trigger] self.spec_slot(c2))
                    matches Slot::Subset(ii) ==> ii < self.spec_subsets().len()) by {
                    if c2 != code as int {
                        assert(self.spec_slot(c2) == old(self).spec_slot(c2));
                        assert(old(self).spec_slot(c2) matches Slot::Subset(ii) ==> ii < old(
                            self,
                        ).spec_subsets().len());
                    }
                }
                assert forall|j: int|
                    0 <= j < self.spec_subsets().len() implies (#[trigger] self.spec_subsets()[j]).wf() by {
                    if j < old(self).spec_subsets().len() {
                        assert(self.spec_subsets()[j] == old(self).spec_subsets()[j]);
                        assert(old(self).spec_subsets()[j].wf());
                    } else {
                        assert(self.spec_subsets()[j] == subset);
                    }
                }
            }
            Ok(())
        } else {
            Err(BuildError::Occupied(code))
        }
    }


    #[verifier::rlimit(100)]
    fn fill_cf_1(t: &mut Handlers) -> (r: Result<(), BuildError>)
        requires
            old(t).wf(),
            forall|c: int| 0x00 <= c <= 0x29 ==> (#[trigger] old(t).spec_slot(c)) is Vacant,
        ensures
            final(t).wf(),
            r is Ok,
            forall|c: int|
                0 <= c < 256 && !(0x00 <= c <= 0x29) ==> (#[trigger] final(t).spec_slot(c))
                    == old(t).spec_slot(c),
            final(t).spec_subsets() == old(t).spec_subsets(),
            forall|c: int|
                0x00 <= c <= 0x29 ==> #[trigger] final(t).slot_matches(
                    crate::reference::ref_slot_cf(c),
                    c,
                ),
    {
        t.set(0x00, HandlerId::Stix)?;
        t.set(0x01, HandlerId::Stux)?;
        t.set(0x02, HandlerId::Stixr)?;
        t.set(0x03, HandlerId::Stuxr)?;
        t.set(0x04, HandlerId::Stixq)?;
        t.set(0x05, HandlerId::Stuxq)?;
        t.set(0x06, HandlerId::Stixrq)?;
        t.set(0x07, HandlerId::Stuxrq)?;
        t.set(0x08, HandlerId::Sti)?;
        t.set(0x09, HandlerId::Stu)?;
        t.set(0x0A, HandlerId::Stir)?;
        t.set(0x0B, HandlerId::Stur)?;
        t.set(0x0C, HandlerId::Stiq)?;
        t.set(0x0D, HandlerId::Stuq)?;
        t.set(0x0E, HandlerId::Stirq)?;
        t.set(0x0F, HandlerId::Sturq)?;
        t.set(0x10, HandlerId::Stref)?;
        t.set(0x11, HandlerId::Stbref)?;
        t.set(0x12, HandlerId::Stslice)?;
        t.set(0x13, HandlerId::Stb)?;
        t.set(0x14, HandlerId::Strefr)?;
        t.set(0x15, HandlerId::Endcst)?;
        t.set(0x16, HandlerId::Stslicer)?;
        t.set(0x17, HandlerId::Stbr)?;
        t.set(0x18, HandlerId::Strefq)?;
        t.set(0x19, HandlerId::Stbrefq)?;
        t.set(0x1A, HandlerId::Stsliceq)?;
        t.set(0x1B, HandlerId::Stbq)?;
        t.set(0x1C, HandlerId::Strefrq)?;
        t.set(0x1D, HandlerId::Stbrefrq)?;
        t.set(0x1E, HandlerId::Stslicerq)?;
        t.set(0x1F, HandlerId::Stbrq)?;
        t.set(0x20, HandlerId::Strefconst)?;
        t.set(0x21, HandlerId::Stref2const)?;
        t.set(0x23, HandlerId::Endxc)?;
        t.set(0x28, HandlerId::Stile4)?;
        t.set(0x29, HandlerId::Stule4)?;
        Ok(())
    }
    #[verifier::rlimit(100)]
    fn fill_cf_2(t: &mut Handlers) -> (r: Result<(), BuildError>)
        requires
            old(t).wf(),
            forall|c: int| 0x2A <= c <= 0xFF ==> (#[trigger] old(t).spec_slot(c)) is Vacant,
        ensures
            final(t).wf(),
            r is Ok,
            forall|c: int|
                0 <= c < 256 && !(0x2A <= c <= 0xFF) ==> (#[trigger] final(t).spec_slot(c))
                    == old(t).spec_slot(c),
            final(t).spec_subsets() == old(t).spec_subsets(),
            forall|c: int|
                0x2A <= c <= 0xFF ==> #[trigger] final(t).slot_matches(
                    crate::reference::ref_slot_cf(c),
                    c,
                ),
    {
        t.set(0x2A, HandlerId::Stile8)?;
        t.set(0x2B, HandlerId::Stule8)?;
        t.set(0x30, HandlerId::Bdepth)?;
        t.set(0x31, HandlerId::Bbits)?;
        t.set(0x32, HandlerId::Brefs)?;
        t.set(0x33, HandlerId::Bbitrefs)?;
        t.set(0x35, HandlerId::Brembits)?;
        t.set(0x36, HandlerId::Bremrefs)?;
        t.set(0x37, HandlerId::Brembitrefs)?;
        t.set(0x38, HandlerId::BchkbitsShort)?;
        t.set(0x39, HandlerId::BchkbitsLong)?;
        t.set(0x3A, HandlerId::Bchkrefs)?;
        t.set(0x3B, HandlerId::Bchkbitrefs)?;
        t.set(0x3C, HandlerId::BchkbitsqShort)?;
        t.set(0x3D, HandlerId::BchkbitsqLong)?;
        t.set(0x3E, HandlerId::Bchkrefsq)?;
        t.set(0x3F, HandlerId::Bchkbitrefsq)?;
        t.set(0x40, HandlerId::Stzeroes)?;
        t.set(0x41, HandlerId::Stones)?;
        t.set(0x42, HandlerId::Stsame)?;
        proof { lemma_free_range_binds_whole_range(*t, 0x80, 0xFF); }
        t.set_range(0x80, 0xFF, HandlerId::Stsliceconst)?;
        t.set(0xFF, HandlerId::Stsliceconst)?;
        Ok(())
    }
    #[verifier::rlimit(100)]
    fn fill_d7_1(t: &mut Handlers) -> (r: Result<(), BuildError>)
        requires
            old(t).wf(),
            forall|c: int| 0x00 <= c <= 0x32 ==> (#[trigger] old(t).spec_slot(c)) is Vacant,
        ensures
            final(t).wf(),
            r is Ok,
            forall|c: int|
                0 <= c < 256 && !(0x00 <= c <= 0x32) ==> (#[trigger] final(t).spec_slot(c))
                    == old(t).spec_slot(c),
            final(t).spec_subsets() == old(t).spec_subsets(),
            forall|c: int|
                0x00 <= c <= 0x32 ==> #[trigger] final(t).slot_matches(
                    crate::reference::ref_slot_d7(c),
                    c,
                ),
    {
        t.set(0x00, HandlerId::Ldix)?;
        t.set(0x01, HandlerId::Ldux)?;
        t.set(0x02, HandlerId::Pldix)?;
        t.set(0x03, HandlerId::Pldux)?;
        t.set(0x04, HandlerId::Ldixq)?;
        t.set(0x05, HandlerId::Lduxq)?;
        t.set(0x06, HandlerId::Pldixq)?;
        t.set(0x07, HandlerId::Plduxq)?;
        t.set(0x08, HandlerId::Ldi)?;
        t.set(0x09, HandlerId::Ldu)?;
        t.set(0x0A, HandlerId::Pldi)?;
        t.set(0x0B, HandlerId::Pldu)?;
        t.set(0x0C, HandlerId::Ldiq)?;
        t.set(0x0D, HandlerId::Lduq)?;
        t.set(0x0E, HandlerId::Pldiq)?;
        t.set(0x0F, HandlerId::Plduq)?;
        proof { lemma_free_range_binds_whole_range(*t, 0x10, 0x18); }
        t.set_range(0x10, 0x18, HandlerId::Plduz)?;
        t.set(0x18, HandlerId::Ldslicex)?;
        t.set(0x19, HandlerId::Pldslicex)?;
        t.set(0x1A, HandlerId::Ldslicexq)?;
        t.set(0x1B, HandlerId::Pldslicexq)?;
        t.set(0x1C, HandlerId::Ldslice)?;
        t.set(0x1D, HandlerId::Pldslice)?;
        t.set(0x1E, HandlerId::Ldsliceq)?;
        t.set(0x1F, HandlerId::Pldsliceq)?;
        t.set(0x20, HandlerId::Pldslicex)?;
        t.set(0x21, HandlerId::Sdskipfirst)?;
        t.set(0x22, HandlerId::Sdcutlast)?;
        t.set(0x23, HandlerId::Sdskiplast)?;
        t.set(0x24, HandlerId::Sdsubstr)?;
        t.set(0x26, HandlerId::Sdbeginsx)?;
        t.set(0x27, HandlerId::Sdbeginsxq)?;
        proof { lemma_free_range_binds_whole_range(*t, 0x28, 0x2C); }
        t.set_range(0x28, 0x2C, HandlerId::Sdbegins)?;
        proof { lemma_free_range_binds_whole_range(*t, 0x2C, 0x30); }
        t.set_range(0x2C, 0x30, HandlerId::Sdbeginsq)?;
        t.set(0x30, HandlerId::Scutfirst)?;
        t.set(0x31, HandlerId::Sskipfirst)?;
        t.set(0x32, HandlerId::Scutlast)?;
        Ok(())
    }
    #[verifier::rlimit(100)]
    fn fill_d7_2(t: &mut Handlers) -> (r: Result<(), BuildError>)
        requires
            old(t).wf(),
            forall|c: int| 0x33 <= c <= 0x61 ==> (#[trigger] old(t).spec_slot(c)) is Vacant,
        ensures
            final(t).wf(),
            r is Ok,
            forall|c: int|
                0 <= c < 256 && !(0x33 <= c <= 0x61) ==> (#[trigger] final(t).spec_slot(c))
                    == old(t).spec_slot(c),
            final(t).spec_subsets() == old(t).spec_subsets(),
            forall|c: int|
                0x33 <= c <= 0x61 ==> #[trigger] final(t).slot_matches(
                    crate::reference::ref_slot_d7(c),
                    c,
                ),
    {
        t.set(0x33, HandlerId::Sskiplast)?;
        t.set(0x34, HandlerId::Subslice)?;
        t.set(0x36, HandlerId::Split)?;
        t.set(0x37, HandlerId::Splitq)?;
        t.set(0x39, HandlerId::Xctos)?;
        t.set(0x3A, HandlerId::Xload)?;
        t.set(0x3B, HandlerId::Xloadq)?;
        t.set(0x41, HandlerId::Schkbits)?;
        t.set(0x42, HandlerId::Schkrefs)?;
        t.set(0x43, HandlerId::Schkbitrefs)?;
        t.set(0x45, HandlerId::Schkbitsq)?;
        t.set(0x46, HandlerId::Schkrefsq)?;
        t.set(0x47, HandlerId::Schkbitrefsq)?;
        t.set(0x48, HandlerId::Pldrefvar)?;
        t.set(0x49, HandlerId::Sbits)?;
        t.set(0x4A, HandlerId::Srefs)?;
        t.set(0x4B, HandlerId::Sbitrefs)?;
        t.set(0x4C, HandlerId::Pldref)?;
        proof { lemma_free_range_binds_whole_range(*t, 0x4D, 0x50); }
        t.set_range(0x4D, 0x50, HandlerId::Pldrefidx)?;
        t.set(0x50, HandlerId::Ldile4)?;
        t.set(0x51, HandlerId::Ldule4)?;
        t.set(0x52, HandlerId::Ldile8)?;
        t.set(0x53, HandlerId::Ldule8)?;
        t.set(0x54, HandlerId::Pldile4)?;
        t.set(0x55, HandlerId::Pldule4)?;
        t.set(0x56, HandlerId::Pldile8)?;
        t.set(0x57, HandlerId::Pldule8)?;
        t.set(0x58, HandlerId::Ldile4q)?;
        t.set(0x59, HandlerId::Ldule4q)?;
        t.set(0x5A, HandlerId::Ldile8q)?;
        t.set(0x5B, HandlerId::Ldule8q)?;
        t.set(0x5C, HandlerId::Pldile4q)?;
        t.set(0x5D, HandlerId::Pldule4q)?;
        t.set(0x5E, HandlerId::Pldile8q)?;
        t.set(0x5F, HandlerId::Pldule8q)?;
        t.set(0x60, HandlerId::Ldzeroes)?;
        t.set(0x61, HandlerId::Ldones)?;
        Ok(())
    }
    #[verifier::rlimit(100)]
    fn fill_d7_3(t: &mut Handlers) -> (r: Result<(), BuildError>)
        requires
            old(t).wf(),
            forall|c: int| 0x62 <= c <= 0x65 ==> (#[trigger] old(t).spec_slot(c)) is Vacant,
        ensures
            final(t).wf(),
            r is Ok,
            forall|c: int|
                0 <= c < 256 && !(0x62 <= c <= 0x65) ==> (#[trigger] final(t).spec_slot(c))
                    == old(t).spec_slot(c),
            final(t).spec_subsets() == old(t).spec_subsets(),
            forall|c: int|
                0x62 <= c <= 0x65 ==> #[trigger] final(t).slot_matches(
                    crate::reference::ref_slot_d7(c),
                    c,
                ),
    {
        t.set(0x62, HandlerId::Ldsame)?;
        t.set(0x64, HandlerId::Sdepth)?;
        t.set(0x65, HandlerId::Cdepth)?;
        Ok(())
    }
    #[verifier::rlimit(100)]
    fn fill_f4_1(t: &mut Handlers) -> (r: Result<(), BuildError>)
        requires
            old(t).wf(),
            forall|c: int| 0x00 <= c <= 0x2E ==> (#[trigger] old(t).spec_slot(c)) is Vacant,
        ensures
            final(t).wf(),
            r is Ok,
            forall|c: int|
                0 <= c < 256 && !(0x00 <= c <= 0x2E) ==> (#[trigger] final(t).spec_slot(c))
                    == old(t).spec_slot(c),
            final(t).spec_subsets() == old(t).spec_subsets(),
            forall|c: int|
                0x00 <= c <= 0x2E ==> #[trigger] final(t).slot_matches(
                    crate::reference::ref_slot_f4(c),
                    c,
                ),
    {
        t.set(0x00, HandlerId::Stdict)?;
        t.set(0x01, HandlerId::Skipdict)?;
        t.set(0x02, HandlerId::Lddicts)?;
        t.set(0x03, HandlerId::Plddicts)?;
        t.set(0x04, HandlerId::Lddict)?;
        t.set(0x05, HandlerId::Plddict)?;
        t.set(0x06, HandlerId::Lddictq)?;
        t.set(0x07, HandlerId::Plddictq)?;
        t.set(0x0A, HandlerId::Dictget)?;
        t.set(0x0B, HandlerId::Dictgetref)?;
        t.set(0x0C, HandlerId::Dictiget)?;
        t.set(0x0D, HandlerId::Dictigetref)?;
        t.set(0x0E, HandlerId::Dictuget)?;
        t.set(0x0F, HandlerId::Dictugetref)?;
        t.set(0x12, HandlerId::Dictset)?;
        t.set(0x13, HandlerId::Dictsetref)?;
        t.set(0x14, HandlerId::Dictiset)?;
        t.set(0x15, HandlerId::Dictisetref)?;
        t.set(0x16, HandlerId::Dictuset)?;
        t.set(0x17, HandlerId::Dictusetref)?;
        t.set(0x1A, HandlerId::Dictsetget)?;
        t.set(0x1B, HandlerId::Dictsetgetref)?;
        t.set(0x1C, HandlerId::Dictisetget)?;
        t.set(0x1D, HandlerId::Dictisetgetref)?;
        t.set(0x1E, HandlerId::Dictusetget)?;
        t.set(0x1F, HandlerId::Dictusetgetref)?;
        t.set(0x22, HandlerId::Dictreplace)?;
        t.set(0x23, HandlerId::Dictreplaceref)?;
        t.set(0x24, HandlerId::Dictireplace)?;
        t.set(0x25, HandlerId::Dictireplaceref)?;
        t.set(0x26, HandlerId::Dictureplace)?;
        t.set(0x27, HandlerId::Dictureplaceref)?;
        t.set(0x2A, HandlerId::Dictreplaceget)?;
        t.set(0x2B, HandlerId::Dictreplacegetref)?;
        t.set(0x2C, HandlerId::Dictireplaceget)?;
        t.set(0x2D, HandlerId::Dictireplacegetref)?;
        t.set(0x2E, HandlerId::Dictureplaceget)?;
        Ok(())
    }
    #[verifier::rlimit(100)]
    fn fill_f4_2(t: &mut Handlers) -> (r: Result<(), BuildError>)
        requires
            old(t).wf(),
            forall|c: int| 0x2F <= c <= 0x64 ==> (#[trigger] old(t).spec_slot(c)) is Vacant,
        ensures
            final(t).wf(),
            r is Ok,
            forall|c: int|
                0 <= c < 256 && !(0x2F <= c <= 0x64) ==> (#[trigger] final(t).spec_slot(c))
                    == old(t).spec_slot(c),
            final(t).spec_subsets() == old(t).spec_subsets(),
            forall|c: int|
                0x2F <= c <= 0x64 ==> #[trigger] final(t).slot_matches(
                    crate::reference::ref_slot_f4(c),
                    c,
                ),
    {
        t.set(0x2F, HandlerId::Dictureplacegetref)?;
        t.set(0x32, HandlerId::Dictadd)?;
        t.set(0x33, HandlerId::Dictaddref)?;
        t.set(0x34, HandlerId::Dictiadd)?;
        t.set(0x35, HandlerId::Dictiaddref)?;
        t.set(0x36, HandlerId::Dictuadd)?;
        t.set(0x37, HandlerId::Dictuaddref)?;
        t.set(0x3A, HandlerId::Dictaddget)?;
        t.set(0x3B, HandlerId::Dictaddgetref)?;
        t.set(0x3C, HandlerId::Dictiaddget)?;
        t.set(0x3D, HandlerId::Dictiaddgetref)?;
        t.set(0x3E, HandlerId::Dictuaddget)?;
        t.set(0x3F, HandlerId::Dictuaddgetref)?;
        t.set(0x41, HandlerId::Dictsetb)?;
        t.set(0x42, HandlerId::Dictisetb)?;
        t.set(0x43, HandlerId::Dictusetb)?;
        t.set(0x45, HandlerId::Dictsetgetb)?;
        t.set(0x46, HandlerId::Dictisetgetb)?;
        t.set(0x47, HandlerId::Dictusetgetb)?;
        t.set(0x49, HandlerId::Dictreplaceb)?;
        t.set(0x4A, HandlerId::Dictireplaceb)?;
        t.set(0x4B, HandlerId::Dictureplaceb)?;
        t.set(0x4D, HandlerId::Dictreplacegetb)?;
        t.set(0x4E, HandlerId::Dictireplacegetb)?;
        t.set(0x4F, HandlerId::Dictureplacegetb)?;
        t.set(0x51, HandlerId::Dictaddb)?;
        t.set(0x52, HandlerId::Dictiaddb)?;
        t.set(0x53, HandlerId::Dictuaddb)?;
        t.set(0x55, HandlerId::Dictaddgetb)?;
        t.set(0x56, HandlerId::Dictiaddgetb)?;
        t.set(0x57, HandlerId::Dictuaddgetb)?;
        t.set(0x59, HandlerId::Dictdel)?;
        t.set(0x5A, HandlerId::Dictidel)?;
        t.set(0x5B, HandlerId::Dictudel)?;
        t.set(0x62, HandlerId::Dictdelget)?;
        t.set(0x63, HandlerId::Dictdelgetref)?;
        t.set(0x64, HandlerId::Dictidelget)?;
        Ok(())
    }
    #[verifier::rlimit(100)]
    fn fill_f4_3(t: &mut Handlers) -> (r: Result<(), BuildError>)
        requires
            old(t).wf(),
            forall|c: int| 0x65 <= c <= 0x8F ==> (#[trigger] old(t).spec_slot(c)) is Vacant,
        ensures
            final(t).wf(),
            r is Ok,
            forall|c: int|
                0 <= c < 256 && !(0x65 <= c <= 0x8F) ==> (#[trigger] final(t).spec_slot(c))
                    == old(t).spec_slot(c),
            final(t).spec_subsets() == old(t).spec_subsets(),
            forall|c: int|
                0x65 <= c <= 0x8F ==> #[trigger] final(t).slot_matches(
                    crate::reference::ref_slot_f4(c),
                    c,
                ),
    {
        t.set(0x65, HandlerId::Dictidelgetref)?;
        t.set(0x66, HandlerId::Dictudelget)?;
        t.set(0x67, HandlerId::Dictudelgetref)?;
        t.set(0x69, HandlerId::Dictgetoptref)?;
        t.set(0x6A, HandlerId::Dictigetoptref)?;
        t.set(0x6B, HandlerId::Dictugetoptref)?;
        t.set(0x6D, HandlerId::Dictsetgetoptref)?;
        t.set(0x6E, HandlerId::Dictisetgetoptref)?;
        t.set(0x6F, HandlerId::Dictusetgetoptref)?;
        t.set(0x70, HandlerId::Pfxdictset)?;
        t.set(0x71, HandlerId::Pfxdictreplace)?;
        t.set(0x72, HandlerId::Pfxdictadd)?;
        t.set(0x73, HandlerId::Pfxdictdel)?;
        t.set(0x74, HandlerId::Dictgetnext)?;
        t.set(0x75, HandlerId::Dictgetnexteq)?;
        t.set(0x76, HandlerId::Dictgetprev)?;
        t.set(0x77, HandlerId::Dictgetpreveq)?;
        t.set(0x78, HandlerId::Dictigetnext)?;
        t.set(0x79, HandlerId::Dictigetnexteq)?;
        t.set(0x7A, HandlerId::Dictigetprev)?;
        t.set(0x7B, HandlerId::Dictigetpreveq)?;
        t.set(0x7C, HandlerId::Dictugetnext)?;
        t.set(0x7D, HandlerId::Dictugetnexteq)?;
        t.set(0x7E, HandlerId::Dictugetprev)?;
        t.set(0x7F, HandlerId::Dictugetpreveq)?;
        t.set(0x82, HandlerId::Dictmin)?;
        t.set(0x83, HandlerId::Dictminref)?;
        t.set(0x84, HandlerId::Dictimin)?;
        t.set(0x85, HandlerId::Dictiminref)?;
        t.set(0x86, HandlerId::Dictumin)?;
        t.set(0x87, HandlerId::Dictuminref)?;
        t.set(0x8A, HandlerId::Dictmax)?;
        t.set(0x8B, HandlerId::Dictmaxref)?;
        t.set(0x8C, HandlerId::Dictimax)?;
        t.set(0x8D, HandlerId::Dictimaxref)?;
        t.set(0x8E, HandlerId::Dictumax)?;
        t.set(0x8F, HandlerId::Dictumaxref)?;
        Ok(())
    }
    #[verifier::rlimit(100)]
    fn fill_f4_4(t: &mut Handlers) -> (r: Result<(), BuildError>)
        requires
            old(t).wf(),
            forall|c: int| 0x92 <= c <= 0xBF ==> (#[trigger] old(t).spec_slot(c)) is Vacant,
        ensures
            final(t).wf(),
            r is Ok,
            forall|c: int|
                0 <= c < 256 && !(0x92 <= c <= 0xBF) ==> (#[trigger] final(t).spec_slot(c))
                    == old(t).spec_slot(c),
            final(t).spec_subsets() == old(t).spec_subsets(),
            forall|c: int|
                0x92 <= c <= 0xBF ==> #[trigger] final(t).slot_matches(
                    crate::reference::ref_slot_f4(c),
                    c,
                ),
    {
        t.set(0x92, HandlerId::Dictremmin)?;
        t.set(0x93, HandlerId::Dictremminref)?;
        t.set(0x94, HandlerId::Dictiremmin)?;
        t.set(0x95, HandlerId::Dictiremminref)?;
        t.set(0x96, HandlerId::Dicturemmin)?;
        t.set(0x97, HandlerId::Dicturemminref)?;
        t.set(0x9A, HandlerId::Dictremmax)?;
        t.set(0x9B, HandlerId::Dictremmaxref)?;
        t.set(0x9C, HandlerId::Dictiremmax)?;
        t.set(0x9D, HandlerId::Dictiremmaxref)?;
        t.set(0x9E, HandlerId::Dicturemmax)?;
        t.set(0x9F, HandlerId::Dicturemmaxref)?;
        t.set(0xA0, HandlerId::Dictigetjmp)?;
        t.set(0xA1, HandlerId::Dictugetjmp)?;
        t.set(0xA2, HandlerId::Dictigetexec)?;
        t.set(0xA3, HandlerId::Dictugetexec)?;
        proof { lemma_free_range_binds_whole_range(*t, 0xA4, 0xA8); }
        t.set_range(0xA4, 0xA8, HandlerId::Dictpushconst)?;
        t.set(0xA8, HandlerId::Pfxdictgetq)?;
        t.set(0xA9, HandlerId::Pfxdictget)?;
        t.set(0xAA, HandlerId::Pfxdictgetjmp)?;
        t.set(0xAB, HandlerId::Pfxdictgetexec)?;
        proof { lemma_free_range_binds_whole_range(*t, 0xAC, 0xAF); }
        t.set_range(0xAC, 0xAF, HandlerId::Pfxdictswitch)?;
        t.set(0xAF, HandlerId::Pfxdictswitch)?;
        t.set(0xB1, HandlerId::Subdictget)?;
        t.set(0xB2, HandlerId::Subdictiget)?;
        t.set(0xB3, HandlerId::Subdictuget)?;
        t.set(0xB5, HandlerId::Subdictrpget)?;
        t.set(0xB6, HandlerId::Subdictirpget)?;
        t.set(0xB7, HandlerId::Subdicturpget)?;
        t.set(0xBC, HandlerId::Dictigetjmpz)?;
        t.set(0xBD, HandlerId::Dictugetjmpz)?;
        t.set(0xBE, HandlerId::Dictigetexecz)?;
        t.set(0xBF, HandlerId::Dictugetexecz)?;
        Ok(())
    }

    #[verifier::rlimit(100)]
    fn add_code_page_0_part_stack(&mut self) -> (r: Result<(), BuildError>)
        requires
            old(self).wf(),
            forall|c: int| 0x00 <= c <= 0x6C ==> (#[trigger] old(self).spec_slot(c)) is Vacant,
        ensures
            final(self).wf(),
            r is Ok,
            forall|c: int|
                0 <= c < 256 && !(0x00 <= c <= 0x6C) ==> (#[trigger] final(self).spec_slot(c))
                    == old(self).spec_slot(c),
            old(self).spec_subsets().len() <= final(self).spec_subsets().len(),
            forall|j: int|
                0 <= j < old(self).spec_subsets().len() ==> (#[trigger] final(self).spec_subsets()[j])
                    == old(self).spec_subsets()[j],
            forall|c: int|
                0x00 <= c <= 0x6C ==> #[trigger] final(self).slot_matches(
                    crate::reference::ref_slot_root(c),
                    c,
                ),
    {
        self.set(0x00, HandlerId::Nop)?;
        proof { lemma_free_range_binds_whole_range(*self, 0x01, 0x10); }
        self.set_range(0x01, 0x10, HandlerId::XchgSimple)?;
        self.set(0x10, HandlerId::XchgStd)?;
        self.set(0x11, HandlerId::XchgLong)?;
        proof { lemma_free_range_binds_whole_range(*self, 0x12, 0x20); }
        self.set_range(0x12, 0x20, HandlerId::XchgSimple)?;
        proof { lemma_free_range_binds_whole_range(*self, 0x20, 0x30); }
        self.set_range(0x20, 0x30, HandlerId::PushSimple)?;
        proof { lemma_free_range_binds_whole_range(*self, 0x30, 0x40); }
        self.set_range(0x30, 0x40, HandlerId::PopSimple)?;
        proof { lemma_free_range_binds_whole_range(*self, 0x40, 0x50); }
        self.set_range(0x40, 0x50, HandlerId::Xchg3)?;
        self.set(0x50, HandlerId::Xchg2)?;
        self.set(0x51, HandlerId::Xcpu)?;
        self.set(0x52, HandlerId::Puxc)?;
        self.set(0x53, HandlerId::Push2)?;
        let mut s_54 = Handlers::new();
        proof { lemma_free_range_binds_whole_range(s_54, 0x00, 0x10); }
        s_54.set_range(0x00, 0x10, HandlerId::Xchg3)?;
        proof { lemma_free_range_binds_whole_range(s_54, 0x10, 0x20); }
        s_54.set_range(0x10, 0x20, HandlerId::Xc2pu)?;
        proof { lemma_free_range_binds_whole_range(s_54, 0x20, 0x30); }
        s_54.set_range(0x20, 0x30, HandlerId::Xcpuxc)?;
        proof { lemma_free_range_binds_whole_range(s_54, 0x30, 0x40); }
        s_54.set_range(0x30, 0x40, HandlerId::Xcpu2)?;
        proof { lemma_free_range_binds_whole_range(s_54, 0x40, 0x50); }
        s_54.set_range(0x40, 0x50, HandlerId::Puxc2)?;
        proof { lemma_free_range_binds_whole_range(s_54, 0x50, 0x60); }
        s_54.set_range(0x50, 0x60, HandlerId::Puxcpu)?;
        proof { lemma_free_range_binds_whole_range(s_54, 0x60, 0x70); }
        s_54.set_range(0x60, 0x70, HandlerId::Pu2xc)?;
        proof { lemma_free_range_binds_whole_range(s_54, 0x70, 0x80); }
        s_54.set_range(0x70, 0x80, HandlerId::Push3)?;
        proof {
            assert forall|c: int| 0 <= c < 256 implies #[trigger] s_54.slot_matches(
                crate::reference::ref_slot_54(c),
                c,
            ) by {
                assert(s_54.wf());
            };
            assert forall|c: int| 0 <= c < 256 implies #[trigger] s_54.slot_matches(
                crate::reference::ref_table_54()[c],
                c,
            ) by {
                assert(crate::reference::ref_table_54()[c] == crate::reference::ref_slot_54(c));
                assert(s_54.slot_matches(crate::reference::ref_slot_54(c), c));
            };
            crate::reference::lemma_matches_ref_from_slots(s_54, crate::reference::ref_table_54());
        }
        let ghost g_54 = s_54;
        let gi_54 = self.subsets.len();
        self.add_subset(0x54, s_54)?;
        self.set(0x55, HandlerId::Blkswap)?;
        self.set(0x56, HandlerId::Push)?;
        self.set(0x57, HandlerId::Pop)?;
        self.set(0x58, HandlerId::Rot)?;
        self.set(0x59, HandlerId::Rotrev)?;
        self.set(0x5A, HandlerId::Swap2)?;
        self.set(0x5B, HandlerId::Drop2)?;
        self.set(0x5C, HandlerId::Dup2)?;
        self.set(0x5D, HandlerId::Over2)?;
        self.set(0x5E, HandlerId::Reverse)?;
        let mut s_5f = Handlers::new();
        proof { lemma_free_range_binds_whole_range(s_5f, 0x00, 0x10); }
        s_5f.set_range(0x00, 0x10, HandlerId::Blkdrop)?;
        proof { lemma_free_range_binds_whole_range(s_5f, 0x10, 0xFF); }
        s_5f.set_range(0x10, 0xFF, HandlerId::Blkpush)?;
        s_5f.set(0xFF, HandlerId::Blkpush)?;
        proof {
            assert forall|c: int| 0 <= c < 256 implies #[trigger] s_5f.slot_matches(
                crate::reference::ref_slot_5f(c),
                c,
            ) by {
                assert(s_5f.wf());
            };
            assert forall|c: int| 0 <= c < 256 implies #[trigger] s_5f.slot_matches(
                crate::reference::ref_table_5f()[c],
                c,
            ) by {
                assert(crate::reference::ref_table_5f()[c] == crate::reference::ref_slot_5f(c));
                assert(s_5f.slot_matches(crate::reference::ref_slot_5f(c), c));
            };
            crate::reference::lemma_matches_ref_from_slots(s_5f, crate::reference::ref_table_5f());
        }
        let ghost g_5f = s_5f;
        let gi_5f = self.subsets.len();
        self.add_subset(0x5F, s_5f)?;
        self.set(0x60, HandlerId::Pick)?;
        self.set(0x61, HandlerId::Rollx)?;
        self.set(0x62, HandlerId::Rollrevx)?;
        self.set(0x63, HandlerId::Blkswx)?;
        self.set(0x64, HandlerId::Revx)?;
        self.set(0x65, HandlerId::Dropx)?;
        self.set(0x66, HandlerId::Tuck)?;
        self.set(0x67, HandlerId::Xchgx)?;
        self.set(0x68, HandlerId::Depth)?;
        self.set(0x69, HandlerId::Chkdepth)?;
        self.set(0x6A, HandlerId::Onlytopx)?;
        self.set(0x6B, HandlerId::Onlyx)?;
        let mut s_6c = Handlers::new();
        proof { lemma_free_range_binds_whole_range(s_6c, 0x10, 0xFF); }
        s_6c.set_range(0x10, 0xFF, HandlerId::Blkdrop2)?;
        s_6c.set(0xFF, HandlerId::Blkdrop2)?;
        proof {
            assert forall|c: int| 0 <= c < 256 implies #[trigger] s_6c.slot_matches(
                crate::reference::ref_slot_6c(c),
                c,
            ) by {
                assert(s_6c.wf());
            };
            assert forall|c: int| 0 <= c < 256 implies #[trigger] s_6c.slot_matches(
                crate::reference::ref_table_6c()[c],
                c,
            ) by {
                assert(crate::reference::ref_table_6c()[c] == crate::reference::ref_slot_6c(c));
                assert(s_6c.slot_matches(crate::reference::ref_slot_6c(c), c));
            };
            crate::reference::lemma_matches_ref_from_slots(s_6c, crate::reference::ref_table_6c());
        }
        let ghost g_6c = s_6c;
        let gi_6c = self.subsets.len();
        self.add_subset(0x6C, s_6c)?;
        proof {
            assert(self.spec_slot(0x54) == Slot::Subset(gi_54));
            assert(gi_54 < self.spec_subsets().len());
            assert(self.spec_subsets()[gi_54 as int] == g_54);
            assert(g_54.matches_ref(crate::reference::ref_table_54()));
            assert(self.slot_matches(crate::reference::ref_slot_root(0x54), 0x54));
            assert(self.spec_slot(0x5F) == Slot::Subset(gi_5f));
            assert(gi_5f < self.spec_subsets().len());
            assert(self.spec_subsets()[gi_5f as int] == g_5f);
            assert(g_5f.matches_ref(crate::reference::ref_table_5f()));
            assert(self.slot_matches(crate::reference::ref_slot_root(0x5F), 0x5F));
            assert(self.spec_slot(0x6C) == Slot::Subset(gi_6c));
            assert(gi_6c < self.spec_subsets().len());
            assert(self.spec_subsets()[gi_6c as int] == g_6c);
            assert(g_6c.matches_ref(crate::reference::ref_table_6c()));
            assert(self.slot_matches(crate::reference::ref_slot_root(0x6C), 0x6C));
        }
        Ok(())
    }

    #[verifier::rlimit(100)]
    fn add_code_page_0_tuple(&mut self) -> (r: Result<(), BuildError>)
        requires
            old(self).wf(),
            forall|c: int| 0x6D <= c <= 0x6F ==> (#[trigger] old(self).spec_slot(c)) is Vacant,
        ensures
            final(self).wf(),
            r is Ok,
            forall|c: int|
                0 <= c < 256 && !(0x6D <= c <= 0x6F) ==> (#[trigger] final(self).spec_slot(c))
                    == old(self).spec_slot(c),
            old(self).spec_subsets().len() <= final(self).spec_subsets().len(),
            forall|j: int|
                0 <= j < old(self).spec_subsets().len() ==> (#[trigger] final(self).spec_subsets()[j])
                    == old(self).spec_subsets()[j],
            forall|c: int|
                0x6D <= c <= 0x6F ==> #[trigger] final(self).slot_matches(
                    crate::reference::ref_slot_root(c),
                    c,
                ),
    {
        self.set(0x6D, HandlerId::Null)?;
        self.set(0x6E, HandlerId::Isnull)?;
        let mut s_6f = Handlers::new();
        proof { lemma_free_range_binds_whole_range(s_6f, 0x00, 0x10); }
        s_6f.set_range(0x00, 0x10, HandlerId::TupleCreate)?;
        proof { lemma_free_range_binds_whole_range(s_6f, 0x10, 0x20); }
        s_6f.set_range(0x10, 0x20, HandlerId::TupleIndex)?;
        proof { lemma_free_range_binds_whole_range(s_6f, 0x20, 0x30); }
        s_6f.set_range(0x20, 0x30, HandlerId::TupleUn)?;
        proof { lemma_free_range_binds_whole_range(s_6f, 0x30, 0x40); }
        s_6f.set_range(0x30, 0x40, HandlerId::TupleUnpackfirst)?;
        proof { lemma_free_range_binds_whole_range(s_6f, 0x40, 0x50); }
        s_6f.set_range(0x40, 0x50, HandlerId::TupleExplode)?;
        proof { lemma_free_range_binds_whole_range(s_6f, 0x50, 0x60); }
        s_6f.set_range(0x50, 0x60, HandlerId::TupleSetindex)?;
        proof { lemma_free_range_binds_whole_range(s_6f, 0x60, 0x70); }
        s_6f.set_range(0x60, 0x70, HandlerId::TupleIndexQuiet)?;
        proof { lemma_free_range_binds_whole_range(s_6f, 0x70, 0x80); }
        s_6f.set_range(0x70, 0x80, HandlerId::TupleSetindexQuiet)?;
        s_6f.set(0x80, HandlerId::TupleCreatevar)?;
        s_6f.set(0x81, HandlerId::TupleIndexvar)?;
        s_6f.set(0x82, HandlerId::TupleUntuplevar)?;
        s_6f.set(0x83, HandlerId::TupleUnpackfirstvar)?;
        s_6f.set(0x84, HandlerId::TupleExplodevar)?;
        s_6f.set(0x85, HandlerId::TupleSetindexvar)?;
        s_6f.set(0x86, HandlerId::TupleIndexvarQuiet)?;
        s_6f.set(0x87, HandlerId::TupleSetindexvarQuiet)?;
        s_6f.set(0x88, HandlerId::TupleLen)?;
        s_6f.set(0x89, HandlerId::TupleLenQuiet)?;
        s_6f.set(0x8A, HandlerId::Istuple)?;
        s_6f.set(0x8B, HandlerId::TupleLast)?;
        s_6f.set(0x8C, HandlerId::TuplePush)?;
        s_6f.set(0x8D, HandlerId::TuplePop)?;
        s_6f.set(0x90, HandlerId::Zeroswapif)?;
        s_6f.set(0x91, HandlerId::Zeroswapifnot)?;
        s_6f.set(0x92, HandlerId::Zerorotrif)?;
        s_6f.set(0x93, HandlerId::Zerorotrifnot)?;
        s_6f.set(0x94, HandlerId::Zeroswapif2)?;
        s_6f.set(0x95, HandlerId::Zeroswapifnot2)?;
        s_6f.set(0x96, HandlerId::Zerorotrif2)?;
        s_6f.set(0x97, HandlerId::Zerorotrifnot2)?;
        s_6f.set(0xA0, HandlerId::Nullswapif)?;
        s_6f.set(0xA1, HandlerId::Nullswapifnot)?;
        s_6f.set(0xA2, HandlerId::Nullrotrif)?;
        s_6f.set(0xA3, HandlerId::Nullrotrifnot)?;
        s_6f.set(0xA4, HandlerId::Nullswapif2)?;
        s_6f.set(0xA5, HandlerId::Nullswapifnot2)?;
        s_6f.set(0xA6, HandlerId::Nullrotrif2)?;
        s_6f.set(0xA7, HandlerId::Nullrotrifnot2)?;
        proof { lemma_free_range_binds_whole_range(s_6f, 0xB0, 0xC0); }
        s_6f.set_range(0xB0, 0xC0, HandlerId::TupleIndex2)?;
        proof { lemma_free_range_binds_whole_range(s_6f, 0xC0, 0xFF); }
        s_6f.set_range(0xC0, 0xFF, HandlerId::TupleIndex3)?;
        s_6f.set(0xFF, HandlerId::TupleIndex3)?;
        proof {
            assert forall|c: int| 0 <= c < 256 implies #[trigger] s_6f.slot_matches(
                crate::reference::ref_slot_6f(c),
                c,
            ) by {
                assert(s_6f.wf());
            };
            assert forall|c: int| 0 <= c < 256 implies #[trigger] s_6f.slot_matches(
                crate::reference::ref_table_6f()[c],
                c,
            ) by {
                assert(crate::reference::ref_table_6f()[c] == crate::reference::ref_slot_6f(c));
                assert(s_6f.slot_matches(crate::reference::ref_slot_6f(c), c));
            };
            crate::reference::lemma_matches_ref_from_slots(s_6f, crate::reference::ref_table_6f());
        }
        let ghost g_6f = s_6f;
        let gi_6f = self.subsets.len();
        self.add_subset(0x6F, s_6f)?;
        proof {
            assert(self.spec_slot(0x6F) == Slot::Subset(gi_6f));
            assert(gi_6f < self.spec_subsets().len());
            assert(self.spec_subsets()[gi_6f as int] == g_6f);
            assert(g_6f.matches_ref(crate::reference::ref_table_6f()));
            assert(self.slot_matches(crate::reference::ref_slot_root(0x6F), 0x6F));
        }
        Ok(())
    }

    #[verifier::rlimit(100)]
    fn add_code_page_0_part_constant(&mut self) -> (r: Result<(), BuildError>)
        requires
            old(self).wf(),
            forall|c: int| 0x70 <= c <= 0x9F ==> (#[trigger] old(self).spec_slot(c)) is Vacant,
        ensures
            final(self).wf(),
            r is Ok,
            forall|c: int|
                0 <= c < 256 && !(0x70 <= c <= 0x9F) ==> (#[trigger] final(self).spec_slot(c))
                    == old(self).spec_slot(c),
            old(self).spec_subsets().len() <= final(self).spec_subsets().len(),
            forall|j: int|
                0 <= j < old(self).spec_subsets().len() ==> (#[trigger] final(self).spec_subsets()[j])
                    == old(self).spec_subsets()[j],
            forall|c: int|
                0x70 <= c <= 0x9F ==> #[trigger] final(self).slot_matches(
                    crate::reference::ref_slot_root(c),
                    c,
                ),
    {
        proof { lemma_free_range_binds_whole_range(*self, 0x70, 0x82); }
        self.set_range(0x70, 0x82, HandlerId::Pushint)?;
        self.set(0x82, HandlerId::PushintBig)?;
        let mut s_83 = Handlers::new();
        proof { lemma_free_range_binds_whole_range(s_83, 0x00, 0xFF); }
        s_83.set_range(0x00, 0xFF, HandlerId::Pushpow2)?;
        s_83.set(0xFF, HandlerId::Pushnan)?;
        proof {
            assert forall|c: int| 0 <= c < 256 implies #[trigger] s_83.slot_matches(
                crate::reference::ref_slot_83(c),
                c,
            ) by {
                assert(s_83.wf());
            };
            assert forall|c: int| 0 <= c < 256 implies #[trigger] s_83.slot_matches(
                crate::reference::ref_table_83()[c],
                c,
            ) by {
                assert(crate::reference::ref_table_83()[c] == crate::reference::ref_slot_83(c));
                assert(s_83.slot_matches(crate::reference::ref_slot_83(c), c));
            };
            crate::reference::lemma_matches_ref_from_slots(s_83, crate::reference::ref_table_83());
        }
        let ghost g_83 = s_83;
        let gi_83 = self.subsets.len();
        self.add_subset(0x83, s_83)?;
        self.set(0x84, HandlerId::Pushpow2dec)?;
        self.set(0x85, HandlerId::Pushnegpow2)?;
        self.set(0x88, HandlerId::Pushref)?;
        self.set(0x89, HandlerId::Pushrefslice)?;
        self.set(0x8A, HandlerId::Pushrefcont)?;
        self.set(0x8B, HandlerId::PushsliceShort)?;
        self.set(0x8C, HandlerId::PushsliceMid)?;
        self.set(0x8D, HandlerId::PushsliceLong)?;
        proof { lemma_free_range_binds_whole_range(*self, 0x8E, 0x90); }
        self.set_range(0x8E, 0x90, HandlerId::PushcontLong)?;
        proof { lemma_free_range_binds_whole_range(*self, 0x90, 0xA0); }
        self.set_range(0x90, 0xA0, HandlerId::PushcontShort)?;
        proof {
            assert(self.spec_slot(0x83) == Slot::Subset(gi_83));
            assert(gi_83 < self.spec_subsets().len());
            assert(self.spec_subsets()[gi_83 as int] == g_83);
            assert(g_83.matches_ref(crate::reference::ref_table_83()));
            assert(self.slot_matches(crate::reference::ref_slot_root(0x83), 0x83));
        }
        Ok(())
    }

    #[verifier::rlimit(100)]
    fn add_code_page_0_arithmetic(&mut self) -> (r: Result<(), BuildError>)
        requires
            old(self).wf(),
            forall|c: int| 0xA0 <= c <= 0xB7 ==> (#[trigger] old(self).spec_slot(c)) is Vacant,
        ensures
            final(self).wf(),
            r is Ok,
            forall|c: int|
                0 <= c < 256 && !(0xA0 <= c <= 0xB7) ==> (#[trigger] final(self).spec_slot(c))
                    == old(self).spec_slot(c),
            old(self).spec_subsets().len() <= final(self).spec_subsets().len(),
            forall|j: int|
                0 <= j < old(self).spec_subsets().len() ==> (#[trigger] final(self).spec_subsets()[j])
                    == old(self).spec_subsets()[j],
            forall|c: int|
                0xA0 <= c <= 0xB7 ==> #[trigger] final(self).slot_matches(
                    crate::reference::ref_slot_root(c),
                    c,
                ),
    {
        self.set(0xA0, HandlerId::Add(Mode::Signaling))?;
        self.set(0xA1, HandlerId::Sub(Mode::Signaling))?;
        self.set(0xA2, HandlerId::Subr(Mode::Signaling))?;
        self.set(0xA3, HandlerId::Negate(Mode::Signaling))?;
        self.set(0xA4, HandlerId::Inc(Mode::Signaling))?;
        self.set(0xA5, HandlerId::Dec(Mode::Signaling))?;
        self.set(0xA6, HandlerId::Addconst(Mode::Signaling))?;
        self.set(0xA7, HandlerId::Mulconst(Mode::Signaling))?;
        self.set(0xA8, HandlerId::Mul(Mode::Signaling))?;
        self.set(0xA9, HandlerId::Divmod(Mode::Signaling))?;
        self.set(0xAA, HandlerId::Lshift(Mode::Signaling))?;
        self.set(0xAB, HandlerId::Rshift(Mode::Signaling))?;
        self.set(0xAC, HandlerId::Lshift(Mode::Signaling))?;
        self.set(0xAD, HandlerId::Rshift(Mode::Signaling))?;
        self.set(0xAE, HandlerId::Pow2(Mode::Signaling))?;
        self.set(0xB0, HandlerId::And(Mode::Signaling))?;
        self.set(0xB1, HandlerId::Or(Mode::Signaling))?;
        self.set(0xB2, HandlerId::Xor(Mode::Signaling))?;
        self.set(0xB3, HandlerId::Not(Mode::Signaling))?;
        self.set(0xB4, HandlerId::Fits(Mode::Signaling))?;
        self.set(0xB5, HandlerId::Ufits(Mode::Signaling))?;
        let mut s_b6 = Handlers::new();
        s_b6.set(0x00, HandlerId::Fitsx(Mode::Signaling))?;
        s_b6.set(0x01, HandlerId::Ufitsx(Mode::Signaling))?;
        s_b6.set(0x02, HandlerId::Bitsize(Mode::Signaling))?;
        s_b6.set(0x03, HandlerId::Ubitsize(Mode::Signaling))?;
        s_b6.set(0x08, HandlerId::Min(Mode::Signaling))?;
        s_b6.set(0x09, HandlerId::Max(Mode::Signaling))?;
        s_b6.set(0x0A, HandlerId::Minmax(Mode::Signaling))?;
        s_b6.set(0x0B, HandlerId::Abs(Mode::Signaling))?;
        proof {
            assert forall|c: int| 0 <= c < 256 implies #[trigger] s_b6.slot_matches(
                crate::reference::ref_slot_b6(c),
                c,
            ) by {
                assert(s_b6.wf());
            };
            assert forall|c: int| 0 <= c < 256 implies #[trigger] s_b6.slot_matches(
                crate::reference::ref_table_b6()[c],
                c,
            ) by {
                assert(crate::reference::ref_table_b6()[c] == crate::reference::ref_slot_b6(c));
                assert(s_b6.slot_matches(crate::reference::ref_slot_b6(c), c));
            };
            crate::reference::lemma_matches_ref_from_slots(s_b6, crate::reference::ref_table_b6());
        }
        let ghost g_b6 = s_b6;
        let gi_b6 = self.subsets.len();
        self.add_subset(0xB6, s_b6)?;
        let mut s_b7 = Handlers::new();
        s_b7.set(0xA0, HandlerId::Add(Mode::Quiet))?;
        s_b7.set(0xA1, HandlerId::Sub(Mode::Quiet))?;
        s_b7.set(0xA2, HandlerId::Subr(Mode::Quiet))?;
        s_b7.set(0xA3, HandlerId::Negate(Mode::Quiet))?;
        s_b7.set(0xA4, HandlerId::Inc(Mode::Quiet))?;
        s_b7.set(0xA5, HandlerId::Dec(Mode::Quiet))?;
        s_b7.set(0xA6, HandlerId::Addconst(Mode::Quiet))?;
        s_b7.set(0xA7, HandlerId::Mulconst(Mode::Quiet))?;
        s_b7.set(0xA8, HandlerId::Mul(Mode::Quiet))?;
        s_b7.set(0xA9, HandlerId::Divmod(Mode::Quiet))?;
        s_b7.set(0xAA, HandlerId::Lshift(Mode::Quiet))?;
        s_b7.set(0xAB, HandlerId::Rshift(Mode::Quiet))?;
        s_b7.set(0xAC, HandlerId::Lshift(Mode::Quiet))?;
        s_b7.set(0xAD, HandlerId::Rshift(Mode::Quiet))?;
        s_b7.set(0xAE, HandlerId::Pow2(Mode::Quiet))?;
        s_b7.set(0xB0, HandlerId::And(Mode::Quiet))?;
        s_b7.set(0xB1, HandlerId::Or(Mode::Quiet))?;
        s_b7.set(0xB2, HandlerId::Xor(Mode::Quiet))?;
        s_b7.set(0xB3, HandlerId::Not(Mode::Quiet))?;
        s_b7.set(0xB4, HandlerId::Fits(Mode::Quiet))?;
        s_b7.set(0xB5, HandlerId::Ufits(Mode::Quiet))?;
        let mut s_b7_b6 = Handlers::new();
        s_b7_b6.set(0x00, HandlerId::Fitsx(Mode::Quiet))?;
        s_b7_b6.set(0x01, HandlerId::Ufitsx(Mode::Quiet))?;
        s_b7_b6.set(0x02, HandlerId::Bitsize(Mode::Quiet))?;
        s_b7_b6.set(0x03, HandlerId::Ubitsize(Mode::Quiet))?;
        s_b7_b6.set(0x08, HandlerId::Min(Mode::Quiet))?;
        s_b7_b6.set(0x09, HandlerId::Max(Mode::Quiet))?;
        s_b7_b6.set(0x0A, HandlerId::Minmax(Mode::Quiet))?;
        s_b7_b6.set(0x0B, HandlerId::Abs(Mode::Quiet))?;
        proof {
            assert forall|c: int| 0 <= c < 256 implies #[trigger] s_b7_b6.slot_matches(
                crate::reference::ref_slot_b7_b6(c),
                c,
            ) by {
                assert(s_b7_b6.wf());
            };
            assert forall|c: int| 0 <= c < 256 implies #[trigger] s_b7_b6.slot_matches(
                crate::reference::ref_table_b7_b6()[c],
                c,
            ) by {
                assert(crate::reference::ref_table_b7_b6()[c] == crate::reference::ref_slot_b7_b6(c));
                assert(s_b7_b6.slot_matches(crate::reference::ref_slot_b7_b6(c), c));
            };
            crate::reference::lemma_matches_ref_from_slots(s_b7_b6, crate::reference::ref_table_b7_b6());
        }
        let ghost g_b7_b6 = s_b7_b6;
        let gi_b7_b6 = s_b7.subsets.len();
        s_b7.add_subset(0xB6, s_b7_b6)?;
        s_b7.set(0xB8, HandlerId::Sgn(Mode::Quiet))?;
        s_b7.set(0xB9, HandlerId::Less(Mode::Quiet))?;
        s_b7.set(0xBA, HandlerId::Equal(Mode::Quiet))?;
        s_b7.set(0xBB, HandlerId::Leq(Mode::Quiet))?;
        s_b7.set(0xBC, HandlerId::Greater(Mode::Quiet))?;
        s_b7.set(0xBD, HandlerId::Neq(Mode::Quiet))?;
        s_b7.set(0xBE, HandlerId::Geq(Mode::Quiet))?;
        s_b7.set(0xBF, HandlerId::Cmp(Mode::Quiet))?;
        s_b7.set(0xC0, HandlerId::Eqint(Mode::Quiet))?;
        s_b7.set(0xC1, HandlerId::Lessint(Mode::Quiet))?;
        s_b7.set(0xC2, HandlerId::Gtint(Mode::Quiet))?;
        s_b7.set(0xC3, HandlerId::Neqint(Mode::Quiet))?;
        proof {
            assert(s_b7.spec_slot(0xB6) == Slot::Subset(gi_b7_b6));
            assert(gi_b7_b6 < s_b7.spec_subsets().len());
            assert(s_b7.spec_subsets()[gi_b7_b6 as int] == g_b7_b6);
            assert(g_b7_b6.matches_ref(crate::reference::ref_table_b7_b6()));
            assert(s_b7.slot_matches(crate::reference::ref_slot_b7(0xB6), 0xB6));
            assert forall|c: int| 0 <= c < 256 implies #[trigger] s_b7.slot_matches(
                crate::reference::ref_slot_b7(c),
                c,
            ) by {
                assert(s_b7.wf());
            };
            assert forall|c: int| 0 <= c < 256 implies #[trigger] s_b7.slot_matches(
                crate::reference::ref_table_b7()[c],
                c,
            ) by {
                assert(crate::reference::ref_table_b7()[c] == crate::reference::ref_slot_b7(c));
                assert(s_b7.slot_matches(crate::reference::ref_slot_b7(c), c));
            };
            crate::reference::lemma_matches_ref_from_slots(s_b7, crate::reference::ref_table_b7());
        }
        let ghost g_b7 = s_b7;
        let gi_b7 = self.subsets.len();
        self.add_subset(0xB7, s_b7)?;
        proof {
            assert(self.spec_slot(0xB6) == Slot::Subset(gi_b6));
            assert(gi_b6 < self.spec_subsets().len());
            assert(self.spec_subsets()[gi_b6 as int] == g_b6);
            assert(g_b6.matches_ref(crate::reference::ref_table_b6()));
            assert(self.slot_matches(crate::reference::ref_slot_root(0xB6), 0xB6));
            assert(self.spec_slot(0xB7) == Slot::Subset(gi_b7));
            assert(gi_b7 < self.spec_subsets().len());
            assert(self.spec_subsets()[gi_b7 as int] == g_b7);
            assert(g_b7.matches_ref(crate::reference::ref_table_b7()));
            assert(self.slot_matches(crate::reference::ref_slot_root(0xB7), 0xB7));
        }
        Ok(())
    }

    #[verifier::rlimit(100)]
    fn add_code_page_0_comparsion(&mut self) -> (r: Result<(), BuildError>)
        requires
            old(self).wf(),
            forall|c: int| 0xB8 <= c <= 0xC7 ==> (#[trigger] old(self).spec_slot(c)) is Vacant,
        ensures
            final(self).wf(),
            r is Ok,
            forall|c: int|
                0 <= c < 256 && !(0xB8 <= c <= 0xC7) ==> (#[trigger] final(self).spec_slot(c))
                    == old(self).spec_slot(c),
            old(self).spec_subsets().len() <= final(self).spec_subsets().len(),
            forall|j: int|
                0 <= j < old(self).spec_subsets().len() ==> (#[trigger] final(self).spec_subsets()[j])
                    == old(self).spec_subsets()[j],
            forall|c: int|
                0xB8 <= c <= 0xC7 ==> #[trigger] final(self).slot_matches(
                    crate::reference::ref_slot_root(c),
                    c,
                ),
    {
        self.set(0xB8, HandlerId::Sgn(Mode::Signaling))?;
        self.set(0xB9, HandlerId::Less(Mode::Signaling))?;
        self.set(0xBA, HandlerId::Equal(Mode::Signaling))?;
        self.set(0xBB, HandlerId::Leq(Mode::Signaling))?;
        self.set(0xBC, HandlerId::Greater(Mode::Signaling))?;
        self.set(0xBD, HandlerId::Neq(Mode::Signaling))?;
        self.set(0xBE, HandlerId::Geq(Mode::Signaling))?;
        self.set(0xBF, HandlerId::Cmp(Mode::Signaling))?;
        self.set(0xC0, HandlerId::Eqint(Mode::Signaling))?;
        self.set(0xC1, HandlerId::Lessint(Mode::Signaling))?;
        self.set(0xC2, HandlerId::Gtint(Mode::Signaling))?;
        self.set(0xC3, HandlerId::Neqint(Mode::Signaling))?;
        self.set(0xC4, HandlerId::Isnan)?;
        self.set(0xC5, HandlerId::Chknan)?;
        let mut s_c7 = Handlers::new();
        s_c7.set(0x00, HandlerId::Sempty)?;
        s_c7.set(0x01, HandlerId::Sdempty)?;
        s_c7.set(0x02, HandlerId::Srempty)?;
        s_c7.set(0x03, HandlerId::Sdfirst)?;
        s_c7.set(0x04, HandlerId::Sdlexcmp)?;
        s_c7.set(0x05, HandlerId::Sdeq)?;
        s_c7.set(0x08, HandlerId::Sdpfx)?;
        s_c7.set(0x09, HandlerId::Sdpfxrev)?;
        s_c7.set(0x0A, HandlerId::Sdppfx)?;
        s_c7.set(0x0B, HandlerId::Sdppfxrev)?;
        s_c7.set(0x0C, HandlerId::Sdsfx)?;
        s_c7.set(0x0D, HandlerId::Sdsfxrev)?;
        s_c7.set(0x0E, HandlerId::Sdpsfx)?;
        s_c7.set(0x0F, HandlerId::Sdpsfxrev)?;
        s_c7.set(0x10, HandlerId::Sdcntlead0)?;
        s_c7.set(0x11, HandlerId::Sdcntlead1)?;
        s_c7.set(0x12, HandlerId::Sdcnttrail0)?;
        s_c7.set(0x13, HandlerId::Sdcnttrail1)?;
        proof {
            assert forall|c: int| 0 <= c < 256 implies #[trigger] s_c7.slot_matches(
                crate::reference::ref_slot_c7(c),
                c,
            ) by {
                assert(s_c7.wf());
            };
            assert forall|c: int| 0 <= c < 256 implies #[trigger] s_c7.slot_matches(
                crate::reference::ref_table_c7()[c],
                c,
            ) by {
                assert(crate::reference::ref_table_c7()[c] == crate::reference::ref_slot_c7(c));
                assert(s_c7.slot_matches(crate::reference::ref_slot_c7(c), c));
            };
            crate::reference::lemma_matches_ref_from_slots(s_c7, crate::reference::ref_table_c7());
        }
        let ghost g_c7 = s_c7;
        let gi_c7 = self.subsets.len();
        self.add_subset(0xC7, s_c7)?;
        proof {
            assert(self.spec_slot(0xC7) == Slot::Subset(gi_c7));
            assert(gi_c7 < self.spec_subsets().len());
            assert(self.spec_subsets()[gi_c7 as int] == g_c7);
            assert(g_c7.matches_ref(crate::reference::ref_table_c7()));
            assert(self.slot_matches(crate::reference::ref_slot_root(0xC7), 0xC7));
        }
        Ok(())
    }

    #[verifier::rlimit(100)]
    fn add_code_page_0_cell(&mut self) -> (r: Result<(), BuildError>)
        requires
            old(self).wf(),
            forall|c: int| 0xC8 <= c <= 0xD7 ==> (#[trigger] old(self).spec_slot(c)) is Vacant,
        ensures
            final(self).wf(),
            r is Ok,
            forall|c: int|
                0 <= c < 256 && !(0xC8 <= c <= 0xD7) ==> (#[trigger] final(self).spec_slot(c))
                    == old(self).spec_slot(c),
            old(self).spec_subsets().len() <= final(self).spec_subsets().len(),
            forall|j: int|
                0 <= j < old(self).spec_subsets().len() ==> (#[trigger] final(self).spec_subsets()[j])
                    == old(self).spec_subsets()[j],
            forall|c: int|
                0xC8 <= c <= 0xD7 ==> #[trigger] final(self).slot_matches(
                    crate::reference::ref_slot_root(c),
                    c,
                ),
    {
        self.set(0xC8, HandlerId::Newc)?;
        self.set(0xC9, HandlerId::Endc)?;
        self.set(0xCA, HandlerId::Sti)?;
        self.set(0xCB, HandlerId::Stu)?;
        self.set(0xCC, HandlerId::Stref)?;
        self.set(0xCD, HandlerId::Endcst)?;
        self.set(0xCE, HandlerId::Stslice)?;
        let mut s_cf = Handlers::new();
        Self::fill_cf_1(&mut s_cf)?;
        let ghost t_cf_1 = s_cf;
        Self::fill_cf_2(&mut s_cf)?;
        let ghost t_cf_2 = s_cf;
        proof {
            assert forall|c: int| 0 <= c < 256 implies #[trigger] s_cf.slot_matches(
                crate::reference::ref_slot_cf(c),
                c,
            ) by {
                if 0x00 <= c <= 0x29 {
                    assert(t_cf_1.slot_matches(crate::reference::ref_slot_cf(c), c));
                    assert(s_cf.spec_slot(c) == t_cf_1.spec_slot(c));
                } else if 0x2A <= c <= 0xFF {
                    assert(t_cf_2.slot_matches(crate::reference::ref_slot_cf(c), c));
                    assert(s_cf.spec_slot(c) == t_cf_2.spec_slot(c));
                } else {
                    assert(s_cf.spec_slot(c) is Vacant);
                }
            };
            assert forall|c: int| 0 <= c < 256 implies #[trigger] s_cf.slot_matches(
                crate::reference::ref_table_cf()[c],
                c,
            ) by {
                assert(crate::reference::ref_table_cf()[c] == crate::reference::ref_slot_cf(c));
                assert(s_cf.slot_matches(crate::reference::ref_slot_cf(c), c));
            };
            crate::reference::lemma_matches_ref_from_slots(s_cf, crate::reference::ref_table_cf());
        }
        let ghost g_cf = s_cf;
        let gi_cf = self.subsets.len();
        self.add_subset(0xCF, s_cf)?;
        self.set(0xD0, HandlerId::Ctos)?;
        self.set(0xD1, HandlerId::Ends)?;
        self.set(0xD2, HandlerId::Ldi)?;
        self.set(0xD3, HandlerId::Ldu)?;
        self.set(0xD4, HandlerId::Ldref)?;
        self.set(0xD5, HandlerId::Ldrefrtos)?;
        self.set(0xD6, HandlerId::Ldslice)?;
        let mut s_d7 = Handlers::new();
        Self::fill_d7_1(&mut s_d7)?;
        let ghost t_d7_1 = s_d7;
        Self::fill_d7_2(&mut s_d7)?;
        let ghost t_d7_2 = s_d7;
        Self::fill_d7_3(&mut s_d7)?;
        let ghost t_d7_3 = s_d7;
        proof {
            assert forall|c: int| 0 <= c < 256 implies #[trigger] s_d7.slot_matches(
                crate::reference::ref_slot_d7(c),
                c,
            ) by {
                if 0x00 <= c <= 0x32 {
                    assert(t_d7_1.slot_matches(crate::reference::ref_slot_d7(c), c));
                    assert(s_d7.spec_slot(c) == t_d7_1.spec_slot(c));
                } else if 0x33 <= c <= 0x61 {
                    assert(t_d7_2.slot_matches(crate::reference::ref_slot_d7(c), c));
                    assert(s_d7.spec_slot(c) == t_d7_2.spec_slot(c));
                } else if 0x62 <= c <= 0x65 {
                    assert(t_d7_3.slot_matches(crate::reference::ref_slot_d7(c), c));
                    assert(s_d7.spec_slot(c) == t_d7_3.spec_slot(c));
                } else {
                    assert(s_d7.spec_slot(c) is Vacant);
                }
            };
            assert forall|c: int| 0 <= c < 256 implies #[trigger] s_d7.slot_matches(
                crate::reference::ref_table_d7()[c],
                c,
            ) by {
                assert(crate::reference::ref_table_d7()[c] == crate::reference::ref_slot_d7(c));
                assert(s_d7.slot_matches(crate::reference::ref_slot_d7(c), c));
            };
            crate::reference::lemma_matches_ref_from_slots(s_d7, crate::reference::ref_table_d7());
        }
        let ghost g_d7 = s_d7;
        let gi_d7 = self.subsets.len();
        self.add_subset(0xD7, s_d7)?;
        proof {
            assert(self.spec_slot(0xCF) == Slot::Subset(gi_cf));
            assert(gi_cf < self.spec_subsets().len());
            assert(self.spec_subsets()[gi_cf as int] == g_cf);
            assert(g_cf.matches_ref(crate::reference::ref_table_cf()));
            assert(self.slot_matches(crate::reference::ref_slot_root(0xCF), 0xCF));
            assert(self.spec_slot(0xD7) == Slot::Subset(gi_d7));
            assert(gi_d7 < self.spec_subsets().len());
            assert(self.spec_subsets()[gi_d7 as int] == g_d7);
            assert(g_d7.matches_ref(crate::reference::ref_table_d7()));
            assert(self.slot_matches(crate::reference::ref_slot_root(0xD7), 0xD7));
        }
        Ok(())
    }

    #[verifier::rlimit(100)]
    fn add_code_page_0_control_flow(&mut self) -> (r: Result<(), BuildError>)
        requires
            old(self).wf(),
            forall|c: int| 0xD8 <= c <= 0xF1 ==> (#[trigger] old(self).spec_slot(c)) is Vacant,
        ensures
            final(self).wf(),
            r is Ok,
            forall|c: int|
                0 <= c < 256 && !(0xD8 <= c <= 0xF1) ==> (#[trigger] final(self).spec_slot(c))
                    == old(self).spec_slot(c),
            old(self).spec_subsets().len() <= final(self).spec_subsets().len(),
            forall|j: int|
                0 <= j < old(self).spec_subsets().len() ==> (#[trigger] final(self).spec_subsets()[j])
                    == old(self).spec_subsets()[j],
            forall|c: int|
                0xD8 <= c <= 0xF1 ==> #[trigger] final(self).slot_matches(
                    crate::reference::ref_slot_root(c),
                    c,
                ),
    {
        self.set(0xD8, HandlerId::Callx)?;
        self.set(0xD9, HandlerId::Jmpx)?;
        self.set(0xDA, HandlerId::Callxargs)?;
        let mut s_db = Handlers::new();
        proof { lemma_free_range_binds_whole_range(s_db, 0x00, 0x10); }
        s_db.set_range(0x00, 0x10, HandlerId::Callxargs)?;
        proof { lemma_free_range_binds_whole_range(s_db, 0x10, 0x20); }
        s_db.set_range(0x10, 0x20, HandlerId::Jmpxargs)?;
        proof { lemma_free_range_binds_whole_range(s_db, 0x20, 0x30); }
        s_db.set_range(0x20, 0x30, HandlerId::Retargs)?;
        s_db.set(0x30, HandlerId::Ret)?;
        s_db.set(0x31, HandlerId::Retalt)?;
        s_db.set(0x32, HandlerId::Retbool)?;
        s_db.set(0x34, HandlerId::Callcc)?;
        s_db.set(0x35, HandlerId::Jmpxdata)?;
        s_db.set(0x36, HandlerId::Callccargs)?;
        s_db.set(0x38, HandlerId::Callxva)?;
        s_db.set(0x39, HandlerId::Retva)?;
        s_db.set(0x3A, HandlerId::Jmpxva)?;
        s_db.set(0x3B, HandlerId::Callccva)?;
        s_db.set(0x3C, HandlerId::Callref)?;
        s_db.set(0x3D, HandlerId::Jmpref)?;
        s_db.set(0x3E, HandlerId::Jmprefdata)?;
        s_db.set(0x3F, HandlerId::Retdata)?;
        proof {
            assert forall|c: int| 0 <= c < 256 implies #[trigger] s_db.slot_matches(
                crate::reference::ref_slot_db(c),
                c,
            ) by {
                assert(s_db.wf());
            };
            assert forall|c: int| 0 <= c < 256 implies #[trigger] s_db.slot_matches(
                crate::reference::ref_table_db()[c],
                c,
            ) by {
                assert(crate::reference::ref_table_db()[c] == crate::reference::ref_slot_db(c));
                assert(s_db.slot_matches(crate::reference::ref_slot_db(c), c));
            };
            crate::reference::lemma_matches_ref_from_slots(s_db, crate::reference::ref_table_db());
        }
        let ghost g_db = s_db;
        let gi_db = self.subsets.len();
        self.add_subset(0xDB, s_db)?;
        self.set(0xDE, HandlerId::If)?;
        self.set(0xDC, HandlerId::Ifret)?;
        self.set(0xDD, HandlerId::Ifnotret)?;
        self.set(0xDF, HandlerId::Ifnot)?;
        self.set(0xE0, HandlerId::Ifjmp)?;
        self.set(0xE1, HandlerId::Ifnotjmp)?;
        self.set(0xE2, HandlerId::Ifelse)?;
        let mut s_e3 = Handlers::new();
        s_e3.set(0x00, HandlerId::Ifref)?;
        s_e3.set(0x01, HandlerId::Ifnotref)?;
        s_e3.set(0x02, HandlerId::Ifjmpref)?;
        s_e3.set(0x03, HandlerId::Ifnotjmpref)?;
        s_e3.set(0x04, HandlerId::Condsel)?;
        s_e3.set(0x05, HandlerId::Condselchk)?;
        s_e3.set(0x08, HandlerId::Ifretalt)?;
        s_e3.set(0x09, HandlerId::Ifnotretalt)?;
        s_e3.set(0x0D, HandlerId::Ifrefelse)?;
        s_e3.set(0x0E, HandlerId::Ifelseref)?;
        s_e3.set(0x0F, HandlerId::Ifrefelseref)?;
        s_e3.set(0x14, HandlerId::RepeatBreak)?;
        s_e3.set(0x15, HandlerId::RepeatendBreak)?;
        s_e3.set(0x16, HandlerId::UntilBreak)?;
        s_e3.set(0x17, HandlerId::UntilendBreak)?;
        s_e3.set(0x18, HandlerId::WhileBreak)?;
        s_e3.set(0x19, HandlerId::WhileendBreak)?;
        s_e3.set(0x1A, HandlerId::AgainBreak)?;
        s_e3.set(0x1B, HandlerId::AgainendBreak)?;
        proof { lemma_free_range_binds_whole_range(s_e3, 0x80, 0xA0); }
        s_e3.set_range(0x80, 0xA0, HandlerId::Ifbitjmp)?;
        proof { lemma_free_range_binds_whole_range(s_e3, 0xA0, 0xC0); }
        s_e3.set_range(0xA0, 0xC0, HandlerId::Ifnbitjmp)?;
        proof { lemma_free_range_binds_whole_range(s_e3, 0xC0, 0xE0); }
        s_e3.set_range(0xC0, 0xE0, HandlerId::Ifbitjmpref)?;
        proof { lemma_free_range_binds_whole_range(s_e3, 0xE0, 0xFF); }
        s_e3.set_range(0xE0, 0xFF, HandlerId::Ifnbitjmpref)?;
        s_e3.set(0xFF, HandlerId::Ifnbitjmpref)?;
        proof {
            assert forall|c: int| 0 <= c < 256 implies #[trigger] s_e3.slot_matches(
                crate::reference::ref_slot_e3(c),
                c,
            ) by {
                assert(s_e3.wf());
            };
            assert forall|c: int| 0 <= c < 256 implies #[trigger] s_e3.slot_matches(
                crate::reference::ref_table_e3()[c],
                c,
            ) by {
                assert(crate::reference::ref_table_e3()[c] == crate::reference::ref_slot_e3(c));
                assert(s_e3.slot_matches(crate::reference::ref_slot_e3(c), c));
            };
            crate::reference::lemma_matches_ref_from_slots(s_e3, crate::reference::ref_table_e3());
        }
        let ghost g_e3 = s_e3;
        let gi_e3 = self.subsets.len();
        self.add_subset(0xE3, s_e3)?;
        self.set(0xE4, HandlerId::Repeat)?;
        self.set(0xE5, HandlerId::Repeatend)?;
        self.set(0xE6, HandlerId::Until)?;
        self.set(0xE7, HandlerId::Untilend)?;
        self.set(0xE8, HandlerId::While)?;
        self.set(0xE9, HandlerId::Whileend)?;
        self.set(0xEA, HandlerId::Again)?;
        self.set(0xEB, HandlerId::Againend)?;
        self.set(0xEC, HandlerId::Setcontargs)?;
        let mut s_ed = Handlers::new();
        proof { lemma_free_range_binds_whole_range(s_ed, 0x00, 0x10); }
        s_ed.set_range(0x00, 0x10, HandlerId::Returnargs)?;
        s_ed.set(0x10, HandlerId::Returnva)?;
        s_ed.set(0x11, HandlerId::Setcontva)?;
        s_ed.set(0x12, HandlerId::Setnumva)?;
        s_ed.set(0x1E, HandlerId::Bless)?;
        s_ed.set(0x1F, HandlerId::Blessva)?;
        proof { lemma_free_range_binds_whole_range(s_ed, 0x40, 0x50); }
        s_ed.set_range(0x40, 0x50, HandlerId::Pushctr)?;
        proof { lemma_free_range_binds_whole_range(s_ed, 0x50, 0x60); }
        s_ed.set_range(0x50, 0x60, HandlerId::Popctr)?;
        proof { lemma_free_range_binds_whole_range(s_ed, 0x60, 0x70); }
        s_ed.set_range(0x60, 0x70, HandlerId::Setcontctr)?;
        proof { lemma_free_range_binds_whole_range(s_ed, 0x70, 0x80); }
        s_ed.set_range(0x70, 0x80, HandlerId::Setretctr)?;
        proof { lemma_free_range_binds_whole_range(s_ed, 0x80, 0x90); }
        s_ed.set_range(0x80, 0x90, HandlerId::Setaltctr)?;
        proof { lemma_free_range_binds_whole_range(s_ed, 0x90, 0xA0); }
        s_ed.set_range(0x90, 0xA0, HandlerId::Popsave)?;
        proof { lemma_free_range_binds_whole_range(s_ed, 0xA0, 0xB0); }
        s_ed.set_range(0xA0, 0xB0, HandlerId::Save)?;
        proof { lemma_free_range_binds_whole_range(s_ed, 0xB0, 0xC0); }
        s_ed.set_range(0xB0, 0xC0, HandlerId::Savealt)?;
        proof { lemma_free_range_binds_whole_range(s_ed, 0xC0, 0xD0); }
        s_ed.set_range(0xC0, 0xD0, HandlerId::Saveboth)?;
        s_ed.set(0xE0, HandlerId::Pushctrx)?;
        s_ed.set(0xE1, HandlerId::Popctrx)?;
        s_ed.set(0xE2, HandlerId::Setcontctrx)?;
        s_ed.set(0xF0, HandlerId::Compos)?;
        s_ed.set(0xF1, HandlerId::Composalt)?;
        s_ed.set(0xF2, HandlerId::Composboth)?;
        s_ed.set(0xF3, HandlerId::Atexit)?;
        s_ed.set(0xF4, HandlerId::Atexitalt)?;
        s_ed.set(0xF5, HandlerId::Setexitalt)?;
        s_ed.set(0xF6, HandlerId::Thenret)?;
        s_ed.set(0xF7, HandlerId::Thenretalt)?;
        s_ed.set(0xF8, HandlerId::Invert)?;
        s_ed.set(0xF9, HandlerId::Booleval)?;
        s_ed.set(0xFA, HandlerId::Samealt)?;
        s_ed.set(0xFB, HandlerId::SamealtSave)?;
        proof {
            assert forall|c: int| 0 <= c < 256 implies #[trigger] s_ed.slot_matches(
                crate::reference::ref_slot_ed(c),
                c,
            ) by {
                assert(s_ed.wf());
            };
            assert forall|c: int| 0 <= c < 256 implies #[trigger] s_ed.slot_matches(
                crate::reference::ref_table_ed()[c],
                c,
            ) by {
                assert(crate::reference::ref_table_ed()[c] == crate::reference::ref_slot_ed(c));
                assert(s_ed.slot_matches(crate::reference::ref_slot_ed(c), c));
            };
            crate::reference::lemma_matches_ref_from_slots(s_ed, crate::reference::ref_table_ed());
        }
        let ghost g_ed = s_ed;
        let gi_ed = self.subsets.len();
        self.add_subset(0xED, s_ed)?;
        self.set(0xEE, HandlerId::Blessargs)?;
        self.set(0xF0, HandlerId::CallShort)?;
        let mut s_f1 = Handlers::new();
        proof { lemma_free_range_binds_whole_range(s_f1, 0x00, 0x40); }
        s_f1.set_range(0x00, 0x40, HandlerId::CallLong)?;
        proof { lemma_free_range_binds_whole_range(s_f1, 0x40, 0x80); }
        s_f1.set_range(0x40, 0x80, HandlerId::Jmp)?;
        proof { lemma_free_range_binds_whole_range(s_f1, 0x80, 0xC0); }
        s_f1.set_range(0x80, 0xC0, HandlerId::Prepare)?;
        proof {
            assert forall|c: int| 0 <= c < 256 implies #[trigger] s_f1.slot_matches(
                crate::reference::ref_slot_f1(c),
                c,
            ) by {
                assert(s_f1.wf());
            };
            assert forall|c: int| 0 <= c < 256 implies #[trigger] s_f1.slot_matches(
                crate::reference::ref_table_f1()[c],
                c,
            ) by {
                assert(crate::reference::ref_table_f1()[c] == crate::reference::ref_slot_f1(c));
                assert(s_f1.slot_matches(crate::reference::ref_slot_f1(c), c));
            };
            crate::reference::lemma_matches_ref_from_slots(s_f1, crate::reference::ref_table_f1());
        }
        let ghost g_f1 = s_f1;
        let gi_f1 = self.subsets.len();
        self.add_subset(0xF1, s_f1)?;
        proof {
            assert(self.spec_slot(0xDB) == Slot::Subset(gi_db));
            assert(gi_db < self.spec_subsets().len());
            assert(self.spec_subsets()[gi_db as int] == g_db);
            assert(g_db.matches_ref(crate::reference::ref_table_db()));
            assert(self.slot_matches(crate::reference::ref_slot_root(0xDB), 0xDB));
            assert(self.spec_slot(0xE3) == Slot::Subset(gi_e3));
            assert(gi_e3 < self.spec_subsets().len());
            assert(self.spec_subsets()[gi_e3 as int] == g_e3);
            assert(g_e3.matches_ref(crate::reference::ref_table_e3()));
            assert(self.slot_matches(crate::reference::ref_slot_root(0xE3), 0xE3));
            assert(self.spec_slot(0xED) == Slot::Subset(gi_ed));
            assert(gi_ed < self.spec_subsets().len());
            assert(self.spec_subsets()[gi_ed as int] == g_ed);
            assert(g_ed.matches_ref(crate::reference::ref_table_ed()));
            assert(self.slot_matches(crate::reference::ref_slot_root(0xED), 0xED));
            assert(self.spec_slot(0xF1) == Slot::Subset(gi_f1));
            assert(gi_f1 < self.spec_subsets().len());
            assert(self.spec_subsets()[gi_f1 as int] == g_f1);
            assert(g_f1.matches_ref(crate::reference::ref_table_f1()));
            assert(self.slot_matches(crate::reference::ref_slot_root(0xF1), 0xF1));
        }
        Ok(())
    }

    #[verifier::rlimit(100)]
    fn add_code_page_0_exceptions(&mut self) -> (r: Result<(), BuildError>)
        requires
            old(self).wf(),
            forall|c: int| 0xF2 <= c <= 0xF3 ==> (#[trigger] old(self).spec_slot(c)) is Vacant,
        ensures
            final(self).wf(),
            r is Ok,
            forall|c: int|
                0 <= c < 256 && !(0xF2 <= c <= 0xF3) ==> (#[trigger] final(self).spec_slot(c))
                    == old(self).spec_slot(c),
            old(self).spec_subsets().len() <= final(self).spec_subsets().len(),
            forall|j: int|
                0 <= j < old(self).spec_subsets().len() ==> (#[trigger] final(self).spec_subsets()[j])
                    == old(self).spec_subsets()[j],
            forall|c: int|
                0xF2 <= c <= 0xF3 ==> #[trigger] final(self).slot_matches(
                    crate::reference::ref_slot_root(c),
                    c,
                ),
    {
        let mut s_f2 = Handlers::new();
        proof { lemma_free_range_binds_whole_range(s_f2, 0x00, 0x40); }
        s_f2.set_range(0x00, 0x40, HandlerId::ThrowShort)?;
        proof { lemma_free_range_binds_whole_range(s_f2, 0x40, 0x80); }
        s_f2.set_range(0x40, 0x80, HandlerId::ThrowifShort)?;
        proof { lemma_free_range_binds_whole_range(s_f2, 0x80, 0xC0); }
        s_f2.set_range(0x80, 0xC0, HandlerId::ThrowifnotShort)?;
        proof { lemma_free_range_binds_whole_range(s_f2, 0xC0, 0xC8); }
        s_f2.set_range(0xC0, 0xC8, HandlerId::ThrowLong)?;
        proof { lemma_free_range_binds_whole_range(s_f2, 0xC8, 0xD0); }
        s_f2.set_range(0xC8, 0xD0, HandlerId::Throwarg)?;
        proof { lemma_free_range_binds_whole_range(s_f2, 0xD0, 0xD8); }
        s_f2.set_range(0xD0, 0xD8, HandlerId::ThrowifLong)?;
        proof { lemma_free_range_binds_whole_range(s_f2, 0xD8, 0xE0); }
        s_f2.set_range(0xD8, 0xE0, HandlerId::Throwargif)?;
        proof { lemma_free_range_binds_whole_range(s_f2, 0xE0, 0xE8); }
        s_f2.set_range(0xE0, 0xE8, HandlerId::ThrowifnotLong)?;
        proof { lemma_free_range_binds_whole_range(s_f2, 0xE8, 0xF0); }
        s_f2.set_range(0xE8, 0xF0, HandlerId::Throwargifnot)?;
        s_f2.set(0xF0, HandlerId::Throwany)?;
        s_f2.set(0xF1, HandlerId::Throwargany)?;
        s_f2.set(0xF2, HandlerId::Throwanyif)?;
        s_f2.set(0xF3, HandlerId::Throwarganyif)?;
        s_f2.set(0xF4, HandlerId::Throwanyifnot)?;
        s_f2.set(0xF5, HandlerId::Throwarganyifnot)?;
        s_f2.set(0xFF, HandlerId::Try)?;
        proof {
            assert forall|c: int| 0 <= c < 256 implies #[trigger] s_f2.slot_matches(
                crate::reference::ref_slot_f2(c),
                c,
            ) by {
                assert(s_f2.wf());
            };
            assert forall|c: int| 0 <= c < 256 implies #[trigger] s_f2.slot_matches(
                crate::reference::ref_table_f2()[c],
                c,
            ) by {
                assert(crate::reference::ref_table_f2()[c] == crate::reference::ref_slot_f2(c));
                assert(s_f2.slot_matches(crate::reference::ref_slot_f2(c), c));
            };
            crate::reference::lemma_matches_ref_from_slots(s_f2, crate::reference::ref_table_f2());
        }
        let ghost g_f2 = s_f2;
        let gi_f2 = self.subsets.len();
        self.add_subset(0xF2, s_f2)?;
        self.set(0xF3, HandlerId::Tryargs)?;
        proof {
            assert(self.spec_slot(0xF2) == Slot::Subset(gi_f2));
            assert(gi_f2 < self.spec_subsets().len());
            assert(self.spec_subsets()[gi_f2 as int] == g_f2);
            assert(g_f2.matches_ref(crate::reference::ref_table_f2()));
            assert(self.slot_matches(crate::reference::ref_slot_root(0xF2), 0xF2));
        }
        Ok(())
    }

    #[verifier::rlimit(100)]
    fn add_code_page_0_dictionaries(&mut self) -> (r: Result<(), BuildError>)
        requires
            old(self).wf(),
            forall|c: int| 0xF4 <= c <= 0xF4 ==> (#[trigger] old(self).spec_slot(c)) is Vacant,
        ensures
            final(self).wf(),
            r is Ok,
            forall|c: int|
                0 <= c < 256 && !(0xF4 <= c <= 0xF4) ==> (#[trigger] final(self).spec_slot(c))
                    == old(self).spec_slot(c),
            old(self).spec_subsets().len() <= final(self).spec_subsets().len(),
            forall|j: int|
                0 <= j < old(self).spec_subsets().len() ==> (#[trigger] final(self).spec_subsets()[j])
                    == old(self).spec_subsets()[j],
            forall|c: int|
                0xF4 <= c <= 0xF4 ==> #[trigger] final(self).slot_matches(
                    crate::reference::ref_slot_root(c),
                    c,
                ),
    {
        let mut s_f4 = Handlers::new();
        Self::fill_f4_1(&mut s_f4)?;
        let ghost t_f4_1 = s_f4;
        Self::fill_f4_2(&mut s_f4)?;
        let ghost t_f4_2 = s_f4;
        Self::fill_f4_3(&mut s_f4)?;
        let ghost t_f4_3 = s_f4;
        Self::fill_f4_4(&mut s_f4)?;
        let ghost t_f4_4 = s_f4;
        proof {
            assert forall|c: int| 0 <= c < 256 implies #[trigger] s_f4.slot_matches(
                crate::reference::ref_slot_f4(c),
                c,
            ) by {
                if 0x00 <= c <= 0x2E {
                    assert(t_f4_1.slot_matches(crate::reference::ref_slot_f4(c), c));
                    assert(s_f4.spec_slot(c) == t_f4_1.spec_slot(c));
                } else if 0x2F <= c <= 0x64 {
                    assert(t_f4_2.slot_matches(crate::reference::ref_slot_f4(c), c));
                    assert(s_f4.spec_slot(c) == t_f4_2.spec_slot(c));
                } else if 0x65 <= c <= 0x8F {
                    assert(t_f4_3.slot_matches(crate::reference::ref_slot_f4(c), c));
                    assert(s_f4.spec_slot(c) == t_f4_3.spec_slot(c));
                } else if 0x92 <= c <= 0xBF {
                    assert(t_f4_4.slot_matches(crate::reference::ref_slot_f4(c), c));
                    assert(s_f4.spec_slot(c) == t_f4_4.spec_slot(c));
                } else {
                    assert(s_f4.spec_slot(c) is Vacant);
                }
            };
            assert forall|c: int| 0 <= c < 256 implies #[trigger] s_f4.slot_matches(
                crate::reference::ref_table_f4()[c],
                c,
            ) by {
                assert(crate::reference::ref_table_f4()[c] == crate::reference::ref_slot_f4(c));
                assert(s_f4.slot_matches(crate::reference::ref_slot_f4(c), c));
            };
            crate::reference::lemma_matches_ref_from_slots(s_f4, crate::reference::ref_table_f4());
        }
        let ghost g_f4 = s_f4;
        let gi_f4 = self.subsets.len();
        self.add_subset(0xF4, s_f4)?;
        proof {
            assert(self.spec_slot(0xF4) == Slot::Subset(gi_f4));
            assert(gi_f4 < self.spec_subsets().len());
            assert(self.spec_subsets()[gi_f4 as int] == g_f4);
            assert(g_f4.matches_ref(crate::reference::ref_table_f4()));
            assert(self.slot_matches(crate::reference::ref_slot_root(0xF4), 0xF4));
        }
        Ok(())
    }

    #[verifier::rlimit(100)]
    fn add_code_page_0_gas_rand_config(&mut self) -> (r: Result<(), BuildError>)
        requires
            old(self).wf(),
            forall|c: int| 0xF8 <= c <= 0xF8 ==> (#[trigger] old(self).spec_slot(c)) is Vacant,
        ensures
            final(self).wf(),
            r is Ok,
            forall|c: int|
                0 <= c < 256 && !(0xF8 <= c <= 0xF8) ==> (#[trigger] final(self).spec_slot(c))
                    == old(self).spec_slot(c),
            old(self).spec_subsets().len() <= final(self).spec_subsets().len(),
            forall|j: int|
                0 <= j < old(self).spec_subsets().len() ==> (#[trigger] final(self).spec_subsets()[j])
                    == old(self).spec_subsets()[j],
            forall|c: int|
                0xF8 <= c <= 0xF8 ==> #[trigger] final(self).slot_matches(
                    crate::reference::ref_slot_root(c),
                    c,
                ),
    {
        let mut s_f8 = Handlers::new();
        s_f8.set(0x00, HandlerId::Accept)?;
        s_f8.set(0x01, HandlerId::Setgaslimit)?;
        s_f8.set(0x02, HandlerId::Buygas)?;
        s_f8.set(0x04, HandlerId::Gramtogas)?;
        s_f8.set(0x05, HandlerId::Gastogram)?;
        s_f8.set(0x0F, HandlerId::Commit)?;
        s_f8.set(0x10, HandlerId::Randu256)?;
        s_f8.set(0x11, HandlerId::Rand)?;
        s_f8.set(0x14, HandlerId::Setrand)?;
        s_f8.set(0x15, HandlerId::Addrand)?;
        s_f8.set(0x20, HandlerId::Getparam)?;
        s_f8.set(0x21, HandlerId::Getparam)?;
        s_f8.set(0x22, HandlerId::Getparam)?;
        s_f8.set(0x23, HandlerId::Now)?;
        s_f8.set(0x24, HandlerId::Blocklt)?;
        s_f8.set(0x25, HandlerId::Ltime)?;
        s_f8.set(0x26, HandlerId::Randseed)?;
        s_f8.set(0x27, HandlerId::Balance)?;
        s_f8.set(0x28, HandlerId::MyAddr)?;
        s_f8.set(0x29, HandlerId::ConfigRoot)?;
        s_f8.set(0x2A, HandlerId::MyCode)?;
        s_f8.set(0x30, HandlerId::ConfigDict)?;
        s_f8.set(0x32, HandlerId::ConfigRefParam)?;
        s_f8.set(0x33, HandlerId::ConfigOptParam)?;
        s_f8.set(0x40, HandlerId::Getglobvar)?;
        proof { lemma_free_range_binds_whole_range(s_f8, 0x41, 0x5F); }
        s_f8.set_range(0x41, 0x5F, HandlerId::Getglob)?;
        s_f8.set(0x5F, HandlerId::Getglob)?;
        s_f8.set(0x60, HandlerId::Setglobvar)?;
        proof { lemma_free_range_binds_whole_range(s_f8, 0x61, 0x7F); }
        s_f8.set_range(0x61, 0x7F, HandlerId::Setglob)?;
        s_f8.set(0x7F, HandlerId::Setglob)?;
        proof {
            assert forall|c: int| 0 <= c < 256 implies #[trigger] s_f8.slot_matches(
                crate::reference::ref_slot_f8(c),
                c,
            ) by {
                assert(s_f8.wf());
            };
            assert forall|c: int| 0 <= c < 256 implies #[trigger] s_f8.slot_matches(
                crate::reference::ref_table_f8()[c],
                c,
            ) by {
                assert(crate::reference::ref_table_f8()[c] == crate::reference::ref_slot_f8(c));
                assert(s_f8.slot_matches(crate::reference::ref_slot_f8(c), c));
            };
            crate::reference::lemma_matches_ref_from_slots(s_f8, crate::reference::ref_table_f8());
        }
        let ghost g_f8 = s_f8;
        let gi_f8 = self.subsets.len();
        self.add_subset(0xF8, s_f8)?;
        proof {
            assert(self.spec_slot(0xF8) == Slot::Subset(gi_f8));
            assert(gi_f8 < self.spec_subsets().len());
            assert(self.spec_subsets()[gi_f8 as int] == g_f8);
            assert(g_f8.matches_ref(crate::reference::ref_table_f8()));
            assert(self.slot_matches(crate::reference::ref_slot_root(0xF8), 0xF8));
        }
        Ok(())
    }

    #[verifier::rlimit(100)]
    fn add_code_page_0_blockchain(&mut self) -> (r: Result<(), BuildError>)
        requires
            old(self).wf(),
            forall|c: int| 0xFA <= c <= 0xFB ==> (#[trigger] old(self).spec_slot(c)) is Vacant,
        ensures
            final(self).wf(),
            r is Ok,
            forall|c: int|
                0 <= c < 256 && !(0xFA <= c <= 0xFB) ==> (#[trigger] final(self).spec_slot(c))
                    == old(self).spec_slot(c),
            old(self).spec_subsets().len() <= final(self).spec_subsets().len(),
            forall|j: int|
                0 <= j < old(self).spec_subsets().len() ==> (#[trigger] final(self).spec_subsets()[j])
                    == old(self).spec_subsets()[j],
            forall|c: int|
                0xFA <= c <= 0xFB ==> #[trigger] final(self).slot_matches(
                    crate::reference::ref_slot_root(c),
                    c,
                ),
    {
        let mut s_fa = Handlers::new();
        s_fa.set(0x00, HandlerId::Ldgrams)?;
        s_fa.set(0x01, HandlerId::Ldvarint16)?;
        s_fa.set(0x02, HandlerId::Stgrams)?;
        s_fa.set(0x03, HandlerId::Stvarint16)?;
        s_fa.set(0x04, HandlerId::Ldvaruint32)?;
        s_fa.set(0x05, HandlerId::Ldvarint32)?;
        s_fa.set(0x06, HandlerId::Stvaruint32)?;
        s_fa.set(0x07, HandlerId::Stvarint32)?;
        s_fa.set(0x40, HandlerId::Ldmsgaddr(Mode::Signaling))?;
        s_fa.set(0x41, HandlerId::Ldmsgaddr(Mode::Quiet))?;
        s_fa.set(0x42, HandlerId::Parsemsgaddr(Mode::Signaling))?;
        s_fa.set(0x43, HandlerId::Parsemsgaddr(Mode::Quiet))?;
        s_fa.set(0x44, HandlerId::RewriteStdAddr(Mode::Signaling))?;
        s_fa.set(0x45, HandlerId::RewriteStdAddr(Mode::Quiet))?;
        s_fa.set(0x46, HandlerId::RewriteVarAddr(Mode::Signaling))?;
        s_fa.set(0x47, HandlerId::RewriteVarAddr(Mode::Quiet))?;
        proof {
            assert forall|c: int| 0 <= c < 256 implies #[trigger] s_fa.slot_matches(
                crate::reference::ref_slot_fa(c),
                c,
            ) by {
                assert(s_fa.wf());
            };
            assert forall|c: int| 0 <= c < 256 implies #[trigger] s_fa.slot_matches(
                crate::reference::ref_table_fa()[c],
                c,
            ) by {
                assert(crate::reference::ref_table_fa()[c] == crate::reference::ref_slot_fa(c));
                assert(s_fa.slot_matches(crate::reference::ref_slot_fa(c), c));
            };
            crate::reference::lemma_matches_ref_from_slots(s_fa, crate::reference::ref_table_fa());
        }
        let ghost g_fa = s_fa;
        let gi_fa = self.subsets.len();
        self.add_subset(0xFA, s_fa)?;
        let mut s_fb = Handlers::new();
        s_fb.set(0x00, HandlerId::Sendrawmsg)?;
        s_fb.set(0x02, HandlerId::Rawreserve)?;
        s_fb.set(0x03, HandlerId::Rawreservex)?;
        s_fb.set(0x04, HandlerId::Setcode)?;
        s_fb.set(0x06, HandlerId::Setlibcode)?;
        s_fb.set(0x07, HandlerId::Changelib)?;
        proof {
            assert forall|c: int| 0 <= c < 256 implies #[trigger] s_fb.slot_matches(
                crate::reference::ref_slot_fb(c),
                c,
            ) by {
                assert(s_fb.wf());
            };
            assert forall|c: int| 0 <= c < 256 implies #[trigger] s_fb.slot_matches(
                crate::reference::ref_table_fb()[c],
                c,
            ) by {
                assert(crate::reference::ref_table_fb()[c] == crate::reference::ref_slot_fb(c));
                assert(s_fb.slot_matches(crate::reference::ref_slot_fb(c), c));
            };
            crate::reference::lemma_matches_ref_from_slots(s_fb, crate::reference::ref_table_fb());
        }
        let ghost g_fb = s_fb;
        let gi_fb = self.subsets.len();
        self.add_subset(0xFB, s_fb)?;
        proof {
            assert(self.spec_slot(0xFA) == Slot::Subset(gi_fa));
            assert(gi_fa < self.spec_subsets().len());
            assert(self.spec_subsets()[gi_fa as int] == g_fa);
            assert(g_fa.matches_ref(crate::reference::ref_table_fa()));
            assert(self.slot_matches(crate::reference::ref_slot_root(0xFA), 0xFA));
            assert(self.spec_slot(0xFB) == Slot::Subset(gi_fb));
            assert(gi_fb < self.spec_subsets().len());
            assert(self.spec_subsets()[gi_fb as int] == g_fb);
            assert(g_fb.matches_ref(crate::reference::ref_table_fb()));
            assert(self.slot_matches(crate::reference::ref_slot_root(0xFB), 0xFB));
        }
        Ok(())
    }

    #[verifier::rlimit(100)]
    fn add_code_page_0_crypto(&mut self) -> (r: Result<(), BuildError>)
        requires
            old(self).wf(),
            forall|c: int| 0xF9 <= c <= 0xF9 ==> (#[trigger] old(self).spec_slot(c)) is Vacant,
        ensures
            final(self).wf(),
            r is Ok,
            forall|c: int|
                0 <= c < 256 && !(0xF9 <= c <= 0xF9) ==> (#[trigger] final(self).spec_slot(c))
                    == old(self).spec_slot(c),
            old(self).spec_subsets().len() <= final(self).spec_subsets().len(),
            forall|j: int|
                0 <= j < old(self).spec_subsets().len() ==> (#[trigger] final(self).spec_subsets()[j])
                    == old(self).spec_subsets()[j],
            forall|c: int|
                0xF9 <= c <= 0xF9 ==> #[trigger] final(self).slot_matches(
                    crate::reference::ref_slot_root(c),
                    c,
                ),
    {
        let mut s_f9 = Handlers::new();
        s_f9.set(0x00, HandlerId::Hashcu)?;
        s_f9.set(0x01, HandlerId::Hashsu)?;
        s_f9.set(0x02, HandlerId::Sha256u)?;
        s_f9.set(0x10, HandlerId::Chksignu)?;
        s_f9.set(0x11, HandlerId::Chksigns)?;
        s_f9.set(0x40, HandlerId::Cdatasizeq)?;
        s_f9.set(0x41, HandlerId::Cdatasize)?;
        s_f9.set(0x42, HandlerId::Sdatasizeq)?;
        s_f9.set(0x43, HandlerId::Sdatasize)?;
        proof {
            assert forall|c: int| 0 <= c < 256 implies #[trigger] s_f9.slot_matches(
                crate::reference::ref_slot_f9(c),
                c,
            ) by {
                assert(s_f9.wf());
            };
            assert forall|c: int| 0 <= c < 256 implies #[trigger] s_f9.slot_matches(
                crate::reference::ref_table_f9()[c],
                c,
            ) by {
                assert(crate::reference::ref_table_f9()[c] == crate::reference::ref_slot_f9(c));
                assert(s_f9.slot_matches(crate::reference::ref_slot_f9(c), c));
            };
            crate::reference::lemma_matches_ref_from_slots(s_f9, crate::reference::ref_table_f9());
        }
        let ghost g_f9 = s_f9;
        let gi_f9 = self.subsets.len();
        self.add_subset(0xF9, s_f9)?;
        proof {
            assert(self.spec_slot(0xF9) == Slot::Subset(gi_f9));
            assert(gi_f9 < self.spec_subsets().len());
            assert(self.spec_subsets()[gi_f9 as int] == g_f9);
            assert(g_f9.matches_ref(crate::reference::ref_table_f9()));
            assert(self.slot_matches(crate::reference::ref_slot_root(0xF9), 0xF9));
        }
        Ok(())
    }

    #[verifier::rlimit(100)]
    fn add_code_page_0_debug(&mut self) -> (r: Result<(), BuildError>)
        requires
            old(self).wf(),
            forall|c: int| 0xFE <= c <= 0xFE ==> (#[trigger] old(self).spec_slot(c)) is Vacant,
        ensures
            final(self).wf(),
            r is Ok,
            forall|c: int|
                0 <= c < 256 && !(0xFE <= c <= 0xFE) ==> (#[trigger] final(self).spec_slot(c))
                    == old(self).spec_slot(c),
            old(self).spec_subsets().len() <= final(self).spec_subsets().len(),
            forall|j: int|
                0 <= j < old(self).spec_subsets().len() ==> (#[trigger] final(self).spec_subsets()[j])
                    == old(self).spec_subsets()[j],
            forall|c: int|
                0xFE <= c <= 0xFE ==> #[trigger] final(self).slot_matches(
                    crate::reference::ref_slot_root(c),
                    c,
                ),
    {
        let mut s_fe = Handlers::new();
        s_fe.set(0x00, HandlerId::DumpStack)?;
        proof { lemma_free_range_binds_whole_range(s_fe, 0x01, 0x0F); }
        s_fe.set_range(0x01, 0x0F, HandlerId::DumpStackTop)?;
        s_fe.set(0x10, HandlerId::DumpHex)?;
        s_fe.set(0x11, HandlerId::PrintHex)?;
        s_fe.set(0x12, HandlerId::DumpBin)?;
        s_fe.set(0x13, HandlerId::PrintBin)?;
        s_fe.set(0x14, HandlerId::DumpStr)?;
        s_fe.set(0x15, HandlerId::PrintStr)?;
        s_fe.set(0x1E, HandlerId::DebugOff)?;
        s_fe.set(0x1F, HandlerId::DebugOn)?;
        proof { lemma_free_range_binds_whole_range(s_fe, 0x20, 0x2F); }
        s_fe.set_range(0x20, 0x2F, HandlerId::DumpVar)?;
        proof { lemma_free_range_binds_whole_range(s_fe, 0x30, 0x3F); }
        s_fe.set_range(0x30, 0x3F, HandlerId::PrintVar)?;
        proof { lemma_free_range_binds_whole_range(s_fe, 0xF0, 0xFF); }
        s_fe.set_range(0xF0, 0xFF, HandlerId::DumpString)?;
        s_fe.set(0xFF, HandlerId::DumpString)?;
        proof {
            assert forall|c: int| 0 <= c < 256 implies #[trigger] s_fe.slot_matches(
                crate::reference::ref_slot_fe(c),
                c,
            ) by {
                assert(s_fe.wf());
            };
            assert forall|c: int| 0 <= c < 256 implies #[trigger] s_fe.slot_matches(
                crate::reference::ref_table_fe()[c],
                c,
            ) by {
                assert(crate::reference::ref_table_fe()[c] == crate::reference::ref_slot_fe(c));
                assert(s_fe.slot_matches(crate::reference::ref_slot_fe(c), c));
            };
            crate::reference::lemma_matches_ref_from_slots(s_fe, crate::reference::ref_table_fe());
        }
        let ghost g_fe = s_fe;
        let gi_fe = self.subsets.len();
        self.add_subset(0xFE, s_fe)?;
        proof {
            assert(self.spec_slot(0xFE) == Slot::Subset(gi_fe));
            assert(gi_fe < self.spec_subsets().len());
            assert(self.spec_subsets()[gi_fe as int] == g_fe);
            assert(g_fe.matches_ref(crate::reference::ref_table_fe()));
            assert(self.slot_matches(crate::reference::ref_slot_root(0xFE), 0xFE));
        }
        Ok(())
    }

    /// Reads one byte from `cursor` and resolves it against this table:
    /// directly for a bound or vacant slot, recursively for a subset slot,
    /// so an N-level opcode consumes exactly N bytes before its handler
    /// runs. A truncated stream is reported as an error, with the cursor
    /// left after the bytes the walk consumed.
    pub fn get_handler(&self, cursor: &mut Cursor) -> (r: Result<HandlerId, DecodeError>)
        requires
            self.wf(),
            old(cursor).wf(),
        ensures
            final(cursor).wf(),
            final(cursor).spec_data() == old(cursor).spec_data(),
            final(cursor).spec_end() == old(cursor).spec_end(),
            match lookup(*self, old(cursor).peek_bytes()) {
                Lookup::Found(h, d) => r == Ok::<HandlerId, DecodeError>(h)
                    && final(cursor).spec_pos() == old(cursor).spec_pos() + 8 * d,
                Lookup::Short(d) => r == Err::<HandlerId, DecodeError>(DecodeError::Truncated)
                    && final(cursor).spec_pos() == old(cursor).spec_pos() + 8 * d,
            },
        decreases old(cursor).spec_remaining(),
    {
        let ghost peek0 = old(cursor).peek_bytes();
        let cmd = match cursor.get_next_byte() {
            Ok(b) => b,
            Err(e) => {
                proof {
                    assert(peek0.len() == 0);
                }
                return Err(e);
            },
        };
        proof {
            lemma_peek_bytes_step(*old(cursor), *cursor);
        }
        match self.slots[cmd as usize] {
            Slot::Vacant => Ok(HandlerId::Unknown),
            Slot::Bound(h) => Ok(h),
            Slot::Subset(i) => {
                assert(self.spec_slot(cmd as int) == Slot::Subset(i));
                let ghost peek_mid = cursor.peek_bytes();
                proof {
                    assert(peek_mid == peek0.skip(1));
                    assert(peek0.len() >= 1);
                    assert(peek0[0] == cmd);
                }
                let sub = &self.subsets[i];
                let r = sub.get_handler(cursor);
                r
            },
        }
    }
}

/// The first byte value in `lo..hi` that `t` cannot bind, or `hi` when the
/// whole range is free.
pub open spec fn first_blocked(t: Handlers, lo: int, hi: int) -> int
    decreases hi - lo,
{
    if lo >= hi {
        hi
    } else if !t.can_bind(lo) {
        lo
    } else {
        first_blocked(t, lo + 1, hi)
    }
}

/// Updating one slot to a non-subset binding preserves well-formedness.
proof fn lemma_wf_after_slot_update(t0: Handlers, t1: Handlers, code: int)
    requires
        t0.wf(),
        0 <= code < 256,
        t1.spec_slots().len() == 256,
        !(t1.spec_slot(code) is Subset),
        forall|c: int| 0 <= c < 256 && c != code ==> t1.spec_slot(c) == t0.spec_slot(c),
        t1.spec_subsets() == t0.spec_subsets(),
    ensures
        t1.wf(),
{
    assert forall|c2: int| 0 <= c2 < 256 implies ((#[trigger] t1.spec_slot(c2))
        matches Slot::Subset(ii) ==> ii < t1.spec_subsets().len()) by {
        if c2 != code {
            assert(t1.spec_slot(c2) == t0.spec_slot(c2));
            assert(t0.spec_slot(c2) matches Slot::Subset(ii) ==> ii < t0.spec_subsets().len());
        }
    }
    assert forall|j: int|
        0 <= j < t1.spec_subsets().len() implies (#[trigger] t1.spec_subsets()[j]).wf() by {
        assert(t1.spec_subsets()[j] == t0.spec_subsets()[j]);
        assert(t0.spec_subsets()[j].wf());
    }
}

proof fn lemma_first_blocked_at(t: Handlers, lo: int, j: int, hi: int)
    requires
        lo <= j <= hi,
        forall|i: int| lo <= i < j ==> t.can_bind(i),
        j < hi ==> !t.can_bind(j),
    ensures
        first_blocked(t, lo, hi) == j,
    decreases j - lo,
{
    if lo < j {
        lemma_first_blocked_at(t, lo + 1, j, hi);
    }
}

/// Dispatching never guesses: a byte value whose slot is vacant resolves to
/// the fallback handler after consuming exactly that one byte.
pub proof fn lemma_unregistered_byte_falls_back(t: Handlers, input: Seq<u8>)
    requires
        t.wf(),
        input.len() >= 1,
        t.spec_slot(input[0] as int) is Vacant,
    ensures
        lookup(t, input) == Lookup::Found(HandlerId::Unknown, 1nat),
{
}

/// A byte value with a direct binding dispatches to exactly the bound
/// handler, whatever input follows, after consuming exactly that one byte.
pub proof fn lemma_bound_byte_dispatches(t: Handlers, input: Seq<u8>, h: HandlerId)
    requires
        t.wf(),
        input.len() >= 1,
        t.spec_slot(input[0] as int) == Slot::Bound(h),
    ensures
        lookup(t, input) == Lookup::Found(h, 1nat),
{
}

/// A byte value bound to a subset routes the rest of the input through the
/// nested table, never through any top-level binding, and each level of
/// routing consumes exactly one byte.
pub proof fn lemma_subset_routes_through_nested_table(t: Handlers, input: Seq<u8>, i: usize)
    requires
        t.wf(),
        input.len() >= 1,
        t.spec_slot(input[0] as int) == Slot::Subset(i),
    ensures
        lookup(t, input) == match lookup(t.spec_subsets()[i as int], input.skip(1)) {
            Lookup::Found(h, d) => Lookup::Found(h, (d + 1) as nat),
            Lookup::Short(d) => Lookup::Short((d + 1) as nat),
        },
{
}

/// An empty input yields a truncated-stream outcome at once: no byte is
/// consumed and no handler is selected.
pub proof fn lemma_empty_input_is_truncated(t: Handlers)
    ensures
        lookup(t, Seq::<u8>::empty()) == Lookup::Short(0nat),
{
}

/// Once a slot holds a binding other than the fallback, or a subset, no
/// registration can claim it again: a second `set`, an overlapping
/// `set_range`, or an `add_subset` on it reports the conflict instead.
pub proof fn lemma_occupied_slot_refuses_registration(t: Handlers, code: int)
    requires
        t.spec_slot(code) matches Slot::Bound(h) ==> h != HandlerId::Unknown,
        !(t.spec_slot(code) is Vacant),
    ensures
        !t.can_bind(code),
{
}

/// A range registration over `lo..hi` on a table where that whole range is
/// still free binds every byte value in it and succeeds; the byte value
/// `hi` itself is not part of the range.
pub proof fn lemma_free_range_binds_whole_range(t: Handlers, lo: int, hi: int)
    requires
        forall|i: int| lo <= i < hi ==> t.can_bind(i),
    ensures
        first_blocked(t, lo, hi) == hi,
    decreases hi - lo,
{
    if lo < hi {
        lemma_free_range_binds_whole_range(t, lo + 1, hi);
    }
}

} // verus!
