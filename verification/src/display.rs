//! The token emitter: the full ordered token stream of one instruction-diff
//! line, specified token by token and emitted either as a vector or through
//! a consumer-supplied sink.

use vstd::arithmetic::div_mod::lemma_mod_add_multiples_vanish;
use vstd::arithmetic::div_mod::lemma_mod_sub_multiples_vanish;
use vstd::arithmetic::div_mod::lemma_small_mod;
use vstd::prelude::*;

use crate::model::ArgDiff;
use crate::model::Argument;
use crate::model::DiffText;
use crate::model::EmitError;
use crate::model::Instruction;
use crate::model::InstructionDiff;
use crate::model::Relocation;
use crate::model::TokenV;
use crate::model::tokens_view;
use crate::reloc::push_reloc;
use crate::reloc::reloc_supported;
use crate::reloc::spec_reloc_supported;
use crate::reloc::spec_reloc_tokens;
use crate::sink::TokenSink;
use crate::sink::feed_tokens;

verus! {

broadcast use crate::model::lemma_tokens_view_push;

/// Tokens and failure of the argument section up to some argument index,
/// with the still-open base parenthesis, if any.
pub struct ArgsOut {
    pub tokens: Seq<TokenV>,
    pub err: Option<EmitError>,
    pub pending: bool,
}

/// Tokens and failure of a whole emission.
pub struct EmitOut {
    pub tokens: Seq<TokenV>,
    pub err: Option<EmitError>,
}

/// The diff annotation shown for argument `i`: the entry of the annotation
/// list at `i`, or none when the list is shorter.
pub open spec fn spec_annotation(d: InstructionDiff, i: int) -> Option<ArgDiff> {
    if 0 <= i < d.arg_diff@.len() {
        d.arg_diff@[i]
    } else {
        Option::None
    }
}

/// The separator tokens in front of argument `i`: one space before the
/// first argument, a comma between arguments, and nothing directly after an
/// opened base parenthesis.
pub open spec fn spec_sep_tokens(i: int, pending: bool) -> Seq<TokenV> {
    if i == 0 {
        seq![TokenV::Spacing(1)]
    } else if !pending {
        seq![TokenV::Basic(", "@)]
    } else {
        seq![]
    }
}

/// The display-relative branch target: the signed offset added to the
/// instruction's address minus the base address, reinterpreted as an
/// unsigned 32-bit value.
pub open spec fn spec_branch_target(offset: i32, addr: u32, base: u32) -> u32 {
    ((offset + addr - base) % 0x1_0000_0000) as u32
}

/// Whether an argument can be rendered: a relocation-tagged argument needs
/// the instruction to carry a relocation record of a supported kind.
pub open spec fn spec_arg_ok(arg: Argument, reloc: Option<Relocation>) -> bool {
    match arg {
        Argument::Reloc | Argument::RelocWithBase => match reloc {
            Option::Some(r) => spec_reloc_supported(r.kind),
            Option::None => false,
        },
        _ => true,
    }
}

/// The error reported for a relocation-tagged argument that cannot be
/// rendered: the relocation record is missing, or its kind has no textual
/// form.
pub open spec fn spec_arg_err(reloc: Option<Relocation>) -> EmitError {
    match reloc {
        Option::None => EmitError::PreconditionViolation,
        Option::Some(_) => EmitError::UnsupportedRelocation,
    }
}

/// The tokens of one argument (separators and base parentheses aside).
pub open spec fn spec_arg_tokens(
    arg: Argument,
    ann: Option<ArgDiff>,
    reloc: Option<Relocation>,
    addr: u32,
    base: u32,
) -> Seq<TokenV> {
    match arg {
        Argument::Arg(v) => seq![TokenV::Argument(v@, ann)],
        Argument::ArgWithBase(v) => seq![TokenV::Argument(v@, ann), TokenV::Basic("("@)],
        Argument::Reloc => match reloc {
            Option::Some(r) => spec_reloc_tokens(r),
            Option::None => seq![],
        },
        Argument::RelocWithBase => (match reloc {
            Option::Some(r) => spec_reloc_tokens(r),
            Option::None => seq![],
        }).push(TokenV::Basic("("@)),
        Argument::BranchOffset(o) => seq![
            TokenV::BranchTarget(spec_branch_target(o, addr, base)),
        ],
    }
}

/// Whether an argument opens a base parenthesis that the next tokens close.
pub open spec fn spec_arg_pending(arg: Argument) -> bool {
    match arg {
        Argument::ArgWithBase(_) | Argument::RelocWithBase => true,
        _ => false,
    }
}

/// The argument section after the first `n` arguments: its tokens, the
/// first failure, if any, and whether a base parenthesis is still open.
/// Emission stops at the first argument that cannot be rendered, keeping
/// the separator tokens already emitted for it.
pub open spec fn spec_args_out(ins: Instruction, d: InstructionDiff, base: u32, n: int) -> ArgsOut
    decreases n,
{
    if n <= 0 {
        ArgsOut { tokens: seq![], err: Option::None, pending: false }
    } else {
        let prev = spec_args_out(ins, d, base, n - 1);
        if prev.err is Some {
            prev
        } else {
            let i = n - 1;
            let arg = ins.args@[i];
            let sep = spec_sep_tokens(i, prev.pending);
            if !spec_arg_ok(arg, ins.reloc) {
                ArgsOut {
                    tokens: prev.tokens + sep,
                    err: Option::Some(spec_arg_err(ins.reloc)),
                    pending: false,
                }
            } else {
                let at = spec_arg_tokens(arg, spec_annotation(d, i), ins.reloc, ins.address, base);
                let close: Seq<TokenV> = if prev.pending {
                    seq![TokenV::Basic(")"@)]
                } else {
                    seq![]
                };
                ArgsOut {
                    tokens: prev.tokens + sep + at + close,
                    err: Option::None,
                    pending: spec_arg_pending(arg),
                }
            }
        }
    }
}

/// The tokens in front of the argument section: the source line when known,
/// the display-relative address, the incoming-branch marker or its spacing,
/// and the opcode.
pub open spec fn spec_pre_tokens(ins: Instruction, d: InstructionDiff, base: u32) -> Seq<TokenV> {
    (match ins.line {
        Option::Some(l) => seq![TokenV::Line(l as usize)],
        Option::None => seq![],
    }) + seq![TokenV::Address((ins.address - base) as u32)] + (match d.branch_from {
        Option::Some(b) => seq![TokenV::BasicColor(" ~> "@, b.branch_idx)],
        Option::None => seq![TokenV::Spacing(4)],
    }) + seq![TokenV::Opcode(ins.mnemonic@, ins.op)]
}

/// The tokens after the argument section: the close of a still-open base
/// parenthesis, the outgoing-branch marker when present, and the end of
/// line.
pub open spec fn spec_tail_tokens(d: InstructionDiff, pending: bool) -> Seq<TokenV> {
    (if pending {
        seq![TokenV::Basic(")"@)]
    } else {
        seq![]
    }) + (match d.branch_to {
        Option::Some(b) => seq![TokenV::BasicColor(" ~>"@, b.branch_idx)],
        Option::None => seq![],
    }) + seq![TokenV::Eol]
}

/// The full emission for one instruction diff: the ordered token sequence,
/// and the failure that cut it short, if any. A record with no decoded
/// instruction yields exactly one end-of-line token.
pub open spec fn spec_emit(d: InstructionDiff, base: u32) -> EmitOut {
    match d.ins {
        Option::None => EmitOut { tokens: seq![TokenV::Eol], err: Option::None },
        Option::Some(ins) => {
            let a = spec_args_out(ins, d, base, ins.args@.len() as int);
            if a.err is Some {
                EmitOut { tokens: spec_pre_tokens(ins, d, base) + a.tokens, err: a.err }
            } else {
                EmitOut {
                    tokens: spec_pre_tokens(ins, d, base) + a.tokens + spec_tail_tokens(
                        d,
                        a.pending,
                    ),
                    err: Option::None,
                }
            }
        },
    }
}

/// The number of tokens argument `i` contributes: its separators, its own
/// tokens, and — for an argument that opens a base parenthesis — the one
/// matching close parenthesis emitted after the following argument or at
/// the end of the instruction.
pub open spec fn spec_arg_count(ins: Instruction, d: InstructionDiff, base: u32, i: int) -> int {
    spec_sep_tokens(i, spec_args_out(ins, d, base, i).pending).len() + spec_arg_tokens(
        ins.args@[i],
        spec_annotation(d, i),
        ins.reloc,
        ins.address,
        base,
    ).len() + if spec_arg_pending(ins.args@[i]) {
        1int
    } else {
        0int
    }
}

/// The token count of the argument section over the first `n` arguments,
/// close parentheses included.
pub open spec fn spec_args_count(ins: Instruction, d: InstructionDiff, base: u32, n: int) -> int
    decreases n,
{
    if n <= 0 {
        0
    } else {
        spec_args_count(ins, d, base, n - 1) + spec_arg_count(ins, d, base, n - 1)
    }
}

/// Once the argument section has failed, processing further arguments
/// changes nothing.
pub proof fn lemma_args_err_stable(ins: Instruction, d: InstructionDiff, base: u32, n: int, m: int)
    requires
        0 <= n <= m,
        spec_args_out(ins, d, base, n).err is Some,
    ensures
        spec_args_out(ins, d, base, m) == spec_args_out(ins, d, base, n),
    decreases m - n,
{
    if m > n {
        lemma_args_err_stable(ins, d, base, n, m - 1);
    }
}

/// The argument section never fails with a sink error: only the sink
/// itself reports one.
pub proof fn lemma_args_err_not_sink(ins: Instruction, d: InstructionDiff, base: u32, n: int)
    ensures
        spec_args_out(ins, d, base, n).err != Option::Some(EmitError::SinkFailure),
    decreases n,
{
    if n > 0 {
        lemma_args_err_not_sink(ins, d, base, n - 1);
    }
}

/// The diff annotation shown for argument `i`.
fn annotation(d: &InstructionDiff, i: usize) -> (r: Option<ArgDiff>)
    ensures
        r == spec_annotation(*d, i as int),
{
    if i < d.arg_diff.len() {
        d.arg_diff[i]
    } else {
        None
    }
}

/// The display-relative branch target, computed without overflow.
fn branch_target(offset: i32, addr: u32, base: u32) -> (r: u32)
    ensures
        r == spec_branch_target(offset, addr, base),
{
    let mut t: i64 = (offset as i64) + (addr as i64) - (base as i64);
    let ghost t0: int = offset + addr - base;
    let m: i64 = 0x1_0000_0000;
    if t < 0 {
        proof {
            lemma_mod_add_multiples_vanish(t as int, m as int);
        }
        t = t + m;
    }
    if t < 0 {
        proof {
            lemma_mod_add_multiples_vanish(t as int, m as int);
        }
        t = t + m;
    }
    if t >= m {
        proof {
            lemma_mod_sub_multiples_vanish(t - m, m as int);
        }
        t = t - m;
    }
    proof {
        lemma_small_mod(t as nat, m as nat);
        assert(t0 % (m as int) == t as int);
    }
    t as u32
}

/// Produces the full ordered token stream for one instruction diff: the
/// emitted tokens in display order, and the failure that cut emission
/// short, if any. This is the pull-style entry point; the token sequence
/// and the reported failure are exactly those of [`spec_emit`].
#[verifier::rlimit(60)]
pub fn emit_tokens(d: &InstructionDiff, base_addr: u32) -> (r: (Vec<DiffText>, Option<EmitError>))
    requires
        d.ins matches Some(i) ==> base_addr <= i.address,
    ensures
        tokens_view(r.0@) == spec_emit(*d, base_addr).tokens,
        r.1 == spec_emit(*d, base_addr).err,
{
    let mut out: Vec<DiffText> = Vec::new();
    let ins = match &d.ins {
        None => {
            let ghost start = out@;
            out.push(DiffText::Eol);
            proof {
                crate::model::lemma_tokens_view_push(start, DiffText::Eol);
                assert(tokens_view(out@) =~= spec_emit(*d, base_addr).tokens);
            }
            return (out, None);
        },
        Some(ins) => ins,
    };
    if let Some(line) = ins.line {
        out.push(DiffText::Line(line as usize));
    }
    out.push(DiffText::Address(ins.address - base_addr));
    match &d.branch_from {
        Some(b) => out.push(DiffText::BasicColor(" ~> ".to_owned(), b.branch_idx)),
        None => out.push(DiffText::Spacing(4)),
    }
    out.push(DiffText::Opcode(ins.mnemonic.clone(), ins.op));
    let ghost pre = spec_pre_tokens(*ins, *d, base_addr);
    proof {
        assert(tokens_view(out@) =~= pre);
    }
    let nargs = ins.args.len();
    let mut pending = false;
    let mut i: usize = 0;
    while i < nargs
        invariant
            nargs == ins.args@.len(),
            0 <= i <= nargs,
            d.ins == Option::Some(*ins),
            base_addr <= ins.address,
            pre == spec_pre_tokens(*ins, *d, base_addr),
            spec_args_out(*ins, *d, base_addr, i as int).err is None,
            pending == spec_args_out(*ins, *d, base_addr, i as int).pending,
            tokens_view(out@) == pre + spec_args_out(*ins, *d, base_addr, i as int).tokens,
        decreases nargs - i,
    {
        let ghost st = spec_args_out(*ins, *d, base_addr, i as int);
        let ghost sep = spec_sep_tokens(i as int, pending);
        if i == 0 {
            out.push(DiffText::Spacing(1));
        } else if !pending {
            out.push(DiffText::Basic(", ".to_owned()));
        }
        proof {
            assert(tokens_view(out@) =~= pre + st.tokens + sep);
        }
        let mut new_pending = false;
        match &ins.args[i] {
            Argument::Arg(v) => {
                let ann = annotation(d, i);
                out.push(DiffText::Argument(v.clone(), ann));
            },
            Argument::ArgWithBase(v) => {
                let ann = annotation(d, i);
                out.push(DiffText::Argument(v.clone(), ann));
                out.push(DiffText::Basic("(".to_owned()));
                new_pending = true;
            },
            Argument::Reloc => {
                match &ins.reloc {
                    None => {
                        proof {
                            assert(spec_args_out(*ins, *d, base_addr, i + 1).err
                                == Option::Some(EmitError::PreconditionViolation));
                            lemma_args_err_stable(*ins, *d, base_addr, i + 1, nargs as int);
                        }
                        return (out, Some(EmitError::PreconditionViolation));
                    },
                    Some(r) => {
                        if !reloc_supported(r.kind) {
                            proof {
                                assert(spec_args_out(*ins, *d, base_addr, i + 1).err
                                    == Option::Some(EmitError::UnsupportedRelocation));
                                lemma_args_err_stable(*ins, *d, base_addr, i + 1, nargs as int);
                            }
                            return (out, Some(EmitError::UnsupportedRelocation));
                        }
                        push_reloc(&mut out, r);
                    },
                }
            },
            Argument::RelocWithBase => {
                match &ins.reloc {
                    None => {
                        proof {
                            assert(spec_args_out(*ins, *d, base_addr, i + 1).err
                                == Option::Some(EmitError::PreconditionViolation));
                            lemma_args_err_stable(*ins, *d, base_addr, i + 1, nargs as int);
                        }
                        return (out, Some(EmitError::PreconditionViolation));
                    },
                    Some(r) => {
                        if !reloc_supported(r.kind) {
                            proof {
                                assert(spec_args_out(*ins, *d, base_addr, i + 1).err
                                    == Option::Some(EmitError::UnsupportedRelocation));
                                lemma_args_err_stable(*ins, *d, base_addr, i + 1, nargs as int);
                            }
                            return (out, Some(EmitError::UnsupportedRelocation));
                        }
                        push_reloc(&mut out, r);
                        out.push(DiffText::Basic("(".to_owned()));
                        new_pending = true;
                    },
                }
            },
            Argument::BranchOffset(o) => {
                let target = branch_target(*o, ins.address, base_addr);
                out.push(DiffText::BranchTarget(target));
            },
        }
        if pending {
            out.push(DiffText::Basic(")".to_owned()));
        }
        proof {
            assert(tokens_view(out@) =~= pre + spec_args_out(
                *ins,
                *d,
                base_addr,
                i + 1,
            ).tokens);
        }
        pending = new_pending;
        i = i + 1;
    }
    if pending {
        out.push(DiffText::Basic(")".to_owned()));
    }
    if let Some(b) = &d.branch_to {
        out.push(DiffText::BasicColor(" ~>".to_owned(), b.branch_idx));
    }
    out.push(DiffText::Eol);
    proof {
        assert(tokens_view(out@) =~= spec_emit(*d, base_addr).tokens);
    }
    (out, None)
}

/// Emits the full ordered token stream for one instruction diff to the
/// consumer's sink, one token at a time, stopping at the first failure.
///
/// On success the sink has received exactly the tokens of [`spec_emit`], in
/// order. A relocation failure is reported after the tokens in front of it
/// have been delivered; a sink refusal stops emission at the refused token,
/// leaving a prefix delivered.
pub fn display_diff<S: TokenSink>(ins_diff: &InstructionDiff, base_addr: u32, cb: &mut S) -> (r:
    Result<(), EmitError>)
    requires
        ins_diff.ins matches Some(i) ==> base_addr <= i.address,
    ensures
        ({
            let out = spec_emit(*ins_diff, base_addr);
            &&& (r is Ok ==> out.err is None && final(cb).sunk() == old(cb).sunk() + out.tokens
                && final(cb).failed() == old(cb).failed())
            &&& (r == Err::<(), EmitError>(EmitError::SinkFailure) ==> final(cb).failed()
                && exists|k: int|
                    0 <= k < out.tokens.len() && final(cb).sunk() == old(cb).sunk()
                        + out.tokens.take(k))
            &&& (r == Err::<(), EmitError>(EmitError::UnsupportedRelocation) ==> out.err
                == Option::Some(EmitError::UnsupportedRelocation) && final(cb).sunk() == old(
                cb,
            ).sunk() + out.tokens && final(cb).failed() == old(cb).failed())
            &&& (r == Err::<(), EmitError>(EmitError::PreconditionViolation) ==> out.err
                == Option::Some(EmitError::PreconditionViolation) && final(cb).sunk() == old(
                cb,
            ).sunk() + out.tokens && final(cb).failed() == old(cb).failed())
            &&& (r is Err ==> r == Err::<(), EmitError>(EmitError::SinkFailure) || out.err
                == Option::Some(r->Err_0))
        }),
{
    proof {
        match &ins_diff.ins {
            Option::Some(insg) => lemma_args_err_not_sink(
                *insg,
                *ins_diff,
                base_addr,
                insg.args@.len() as int,
            ),
            Option::None => {},
        }
    }
    let (toks, err) = emit_tokens(ins_diff, base_addr);
    match feed_tokens(cb, &toks) {
        Err(()) => Err(EmitError::SinkFailure),
        Ok(()) => match err {
            None => Ok(()),
            Some(e) => Err(e),
        },
    }
}

} // verus!

