//! Data model for one instruction-level diff and the display tokens emitted
//! for it, together with the ghost-level token type that the contracts speak
//! of.

use vstd::prelude::*;

verus! {

/// Diff highlight annotation for a single instruction argument; the index is
/// an opaque color-group number for the consumer.
#[derive(Clone, Copy, Debug, PartialEq, Eq, Structural)]
pub struct ArgDiff {
    pub idx: usize,
}

/// Branch-link record: this instruction is one end of a branch arrow; the
/// index is an opaque color-group number for the consumer.
#[derive(Clone, Copy, Debug, PartialEq, Eq, Structural)]
pub struct BranchLink {
    pub branch_idx: usize,
}

/// Target of a relocation: a symbol name together with the signed addend of
/// the reference.
#[derive(Clone, Debug)]
pub struct Symbol {
    pub name: String,
    pub addend: i64,
}

/// Ghost value of a [`Symbol`]: the name as a character sequence.
pub struct SymbolV {
    pub name: Seq<char>,
    pub addend: i64,
}

impl View for Symbol {
    type V = SymbolV;

    open spec fn view(&self) -> SymbolV {
        SymbolV { name: self.name@, addend: self.addend }
    }
}

impl Symbol {
    /// Deep copy whose ghost value equals the original's.
    pub fn dup(&self) -> (r: Symbol)
        ensures
            r == *self,
    {
        Symbol { name: self.name.clone(), addend: self.addend }
    }
}

/// Architecture-specific relocation kind tag.
#[derive(Clone, Copy, Debug, PartialEq, Eq, Structural)]
pub enum RelocKind {
    PpcAddr16Lo,
    PpcAddr16Hi,
    PpcAddr16Ha,
    PpcEmbSda21,
    PpcRel24,
    PpcRel14,
    MipsHi16,
    MipsLo16,
    MipsGot16,
    MipsCall16,
    MipsGpRel16,
    Mips26,
    MipsGpRel32,
    Absolute,
}

/// One relocation record: its kind and the symbol reference it patches in.
#[derive(Clone, Debug)]
pub struct Relocation {
    pub kind: RelocKind,
    pub target: Symbol,
}

impl Relocation {
    /// Deep copy whose ghost value equals the original's.
    pub fn dup(&self) -> (r: Relocation)
        ensures
            r == *self,
    {
        Relocation { kind: self.kind, target: self.target.dup() }
    }
}

/// One instruction argument.
#[derive(Clone, Debug)]
pub enum Argument {
    /// A plain value, rendered as-is.
    Arg(String),
    /// A value that is immediately followed by a parenthesized base term.
    ArgWithBase(String),
    /// A reference to the instruction's relocation.
    Reloc,
    /// A relocation reference immediately followed by a parenthesized base
    /// term.
    RelocWithBase,
    /// A signed displacement relative to the instruction's own address.
    BranchOffset(i32),
}

/// One decoded instruction.
#[derive(Clone, Debug)]
pub struct Instruction {
    /// Absolute address of the instruction.
    pub address: u32,
    /// Source line number, when known.
    pub line: Option<u32>,
    /// Mnemonic text.
    pub mnemonic: String,
    /// Numeric opcode identifier, used by consumers for coloring.
    pub op: u8,
    /// Ordered argument list.
    pub args: Vec<Argument>,
    /// The relocation referenced by `Reloc`/`RelocWithBase` arguments, when
    /// any argument references one.
    pub reloc: Option<Relocation>,
}

/// One instruction plus its diff context.
#[derive(Clone, Debug)]
pub struct InstructionDiff {
    /// The decoded instruction; absent when the line could not be decoded or
    /// matched.
    pub ins: Option<Instruction>,
    /// Per-argument diff annotations, indexed in lockstep with the argument
    /// list; a missing entry means no highlighting for that argument.
    pub arg_diff: Vec<Option<ArgDiff>>,
    /// Branch link whose arrow points at this instruction, when any.
    pub branch_from: Option<BranchLink>,
    /// Branch link whose arrow leaves this instruction, when any.
    pub branch_to: Option<BranchLink>,
}

/// One display token, as handed to the consumer's sink.
#[derive(Clone, Debug)]
pub enum DiffText {
    /// Basic text.
    Basic(String),
    /// Colored text; the index is an opaque color group.
    BasicColor(String, usize),
    /// Source line number.
    Line(usize),
    /// Instruction address, relative to the base address.
    Address(u32),
    /// Instruction mnemonic with its opcode identifier.
    Opcode(String, u8),
    /// Instruction argument with its optional diff annotation.
    Argument(String, Option<ArgDiff>),
    /// Branch target address, relative to the base address.
    BranchTarget(u32),
    /// Symbol reference of a relocation.
    Symbol(Symbol),
    /// Number of spaces.
    Spacing(usize),
    /// End of line.
    Eol,
}

/// Ghost value of a [`DiffText`] token: text payloads become character
/// sequences.
pub enum TokenV {
    Basic(Seq<char>),
    BasicColor(Seq<char>, usize),
    Line(usize),
    Address(u32),
    Opcode(Seq<char>, u8),
    Argument(Seq<char>, Option<ArgDiff>),
    BranchTarget(u32),
    Symbol(SymbolV),
    Spacing(usize),
    Eol,
}

impl View for DiffText {
    type V = TokenV;

    open spec fn view(&self) -> TokenV {
        match self {
            DiffText::Basic(s) => TokenV::Basic(s@),
            DiffText::BasicColor(s, c) => TokenV::BasicColor(s@, *c),
            DiffText::Line(l) => TokenV::Line(*l),
            DiffText::Address(a) => TokenV::Address(*a),
            DiffText::Opcode(s, o) => TokenV::Opcode(s@, *o),
            DiffText::Argument(s, d) => TokenV::Argument(s@, *d),
            DiffText::BranchTarget(a) => TokenV::BranchTarget(*a),
            DiffText::Symbol(s) => TokenV::Symbol(s@),
            DiffText::Spacing(n) => TokenV::Spacing(*n),
            DiffText::Eol => TokenV::Eol,
        }
    }
}

impl DiffText {
    /// Deep copy whose ghost value equals the original's.
    pub fn dup(&self) -> (r: DiffText)
        ensures
            r@ == self@,
    {
        match self {
            DiffText::Basic(s) => DiffText::Basic(s.clone()),
            DiffText::BasicColor(s, c) => DiffText::BasicColor(s.clone(), *c),
            DiffText::Line(l) => DiffText::Line(*l),
            DiffText::Address(a) => DiffText::Address(*a),
            DiffText::Opcode(s, o) => DiffText::Opcode(s.clone(), *o),
            DiffText::Argument(s, d) => DiffText::Argument(s.clone(), *d),
            DiffText::BranchTarget(a) => DiffText::BranchTarget(*a),
            DiffText::Symbol(s) => DiffText::Symbol(s.dup()),
            DiffText::Spacing(n) => DiffText::Spacing(*n),
            DiffText::Eol => DiffText::Eol,
        }
    }
}

/// Error surfaced by the emitter.
#[derive(Clone, Copy, Debug, PartialEq, Eq, Structural)]
pub enum EmitError {
    /// The token sink reported a failure; emission stopped at that token.
    SinkFailure,
    /// A relocation kind with no defined textual representation was
    /// encountered.
    UnsupportedRelocation,
    /// A relocation-tagged argument was found on an instruction that carries
    /// no relocation record.
    PreconditionViolation,
}

/// Ghost value of a token list: the sequence of the tokens' ghost values.
pub open spec fn tokens_view(s: Seq<DiffText>) -> Seq<TokenV> {
    s.map_values(|t: DiffText| t@)
}

pub broadcast proof fn lemma_tokens_view_push(s: Seq<DiffText>, t: DiffText)
    ensures
        #[trigger] tokens_view(s.push(t)) == tokens_view(s).push(t@),
{
    assert(tokens_view(s.push(t)) =~= tokens_view(s).push(t@));
}

} // verus!
