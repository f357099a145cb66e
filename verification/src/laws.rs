//! Library-wide laws, stated and proved over the token-sequence
//! specifications that the emitters' contracts use.

use vstd::prelude::*;

use crate::display::spec_args_count;
use crate::display::spec_args_out;
use crate::display::spec_arg_ok;
use crate::display::spec_emit;
use crate::hex::spec_hex;
use crate::model::Argument;
use crate::model::Instruction;
use crate::model::InstructionDiff;
use crate::model::Relocation;
use crate::model::RelocKind;
use crate::model::TokenV;
use crate::reloc::spec_reloc_name_tokens;
use crate::reloc::spec_reloc_supported;

verus! {

/// A diff record with no decoded instruction is rendered as exactly one
/// end-of-line token, and never fails.
pub proof fn lemma_no_instruction_eol(d: InstructionDiff, base: u32)
    requires
        d.ins is None,
    ensures
        spec_emit(d, base).tokens =~= seq![TokenV::Eol],
        spec_emit(d, base).err is None,
{
}

/// The token count of the argument section, close parentheses included,
/// is the sum of the arguments' individual contributions; in particular
/// every argument that opens a base parenthesis contributes exactly one
/// matching close parenthesis.
pub proof fn lemma_args_token_count(ins: Instruction, d: InstructionDiff, base: u32, n: int)
    requires
        0 <= n,
        spec_args_out(ins, d, base, n).err is None,
    ensures
        spec_args_out(ins, d, base, n).tokens.len() + (if spec_args_out(ins, d, base, n).pending {
            1int
        } else {
            0int
        }) == spec_args_count(ins, d, base, n),
    decreases n,
{
    if n > 0 {
        assert(spec_args_out(ins, d, base, n - 1).err is None) by {
            if spec_args_out(ins, d, base, n - 1).err is Some {
                assert(spec_args_out(ins, d, base, n) == spec_args_out(ins, d, base, n - 1));
            }
        }
        lemma_args_token_count(ins, d, base, n - 1);
    }
}

/// On a successful emission the token count is: the address token, one
/// line token when a source line is present, the incoming-branch marker or
/// its spacing, the opcode, the argument section's tokens, the
/// outgoing-branch marker when present, and the end-of-line token.
pub proof fn lemma_token_count(ins: Instruction, d: InstructionDiff, base: u32)
    requires
        d.ins == Option::Some(ins),
        spec_emit(d, base).err is None,
    ensures
        spec_emit(d, base).tokens.len() == 1 + (if ins.line is Some {
            1int
        } else {
            0int
        }) + 1 + 1 + spec_args_count(ins, d, base, ins.args@.len() as int) + (if d.branch_to
            is Some {
            1int
        } else {
            0int
        }) + 1,
{
    let n = ins.args@.len() as int;
    assert(spec_args_out(ins, d, base, n).err is None);
    lemma_args_token_count(ins, d, base, n);
}

/// A symbol reference carries a `+0x…` suffix token for a positive addend,
/// a `-0x…` suffix token for a negative one, and no addend token at all
/// for an addend of zero.
pub proof fn lemma_addend_suffix(reloc: Relocation)
    ensures
        reloc.target.addend > 0 ==> spec_reloc_name_tokens(reloc) =~= seq![
            TokenV::Symbol(reloc.target@),
            TokenV::Basic("+0x"@ + spec_hex(reloc.target.addend as nat)),
        ],
        reloc.target.addend < 0 ==> spec_reloc_name_tokens(reloc) =~= seq![
            TokenV::Symbol(reloc.target@),
            TokenV::Basic("-0x"@ + spec_hex((-(reloc.target.addend as int)) as nat)),
        ],
        reloc.target.addend == 0 ==> spec_reloc_name_tokens(reloc) =~= seq![
            TokenV::Symbol(reloc.target@),
        ],
{
}

/// The architecture display table is total: every relocation kind has a
/// defined textual form, except the one 32-bit gp-relative kind.
pub proof fn lemma_reloc_style_total(k: RelocKind)
    ensures
        spec_reloc_supported(k) <==> k != RelocKind::MipsGpRel32,
{
}

/// The unsupported 32-bit gp-relative kind fails for every symbol and
/// every addend: no relocation argument of that kind can be rendered.
pub proof fn lemma_gp_rel32_always_fails(reloc: Relocation)
    requires
        reloc.kind == RelocKind::MipsGpRel32,
    ensures
        !spec_reloc_supported(reloc.kind),
        !spec_arg_ok(Argument::Reloc, Option::Some(reloc)),
        !spec_arg_ok(Argument::RelocWithBase, Option::Some(reloc)),
{
}

/// Emission is deterministic: identical inputs yield the identical token
/// sequence and the identical outcome, whatever sinks consume them.
pub proof fn lemma_emit_deterministic(d1: InstructionDiff, d2: InstructionDiff, base: u32)
    requires
        d1 == d2,
    ensures
        spec_emit(d1, base) == spec_emit(d2, base),
{
}

} // verus!
