//! Relocation display: the architecture-specific wrapper syntax around a
//! relocation's symbolic reference, and the addend suffix.

use vstd::prelude::*;
use vstd::string::StringExecFns;

use crate::hex::push_hex_digits;
use crate::hex::spec_hex;
use crate::model::DiffText;
use crate::model::EmitError;
use crate::model::Relocation;
use crate::model::RelocKind;
use crate::model::TokenV;
use crate::model::tokens_view;
use crate::sink::TokenSink;
use crate::sink::feed_tokens;

verus! {

/// How a relocation kind is displayed: bare symbol, symbol with a literal
/// suffix, symbol wrapped in a literal prefix and a closing parenthesis, a
/// fixed sentinel for unresolved relocations, or no defined form at all.
pub enum RelocStyle {
    Bare,
    Suffix(String),
    PrefixWrap(String),
    Unsupported,
    Sentinel,
}

/// Ghost value of a [`RelocStyle`]: literal payloads become character
/// sequences.
pub enum RelocStyleV {
    Bare,
    Suffix(Seq<char>),
    PrefixWrap(Seq<char>),
    Unsupported,
    Sentinel,
}

impl View for RelocStyle {
    type V = RelocStyleV;

    open spec fn view(&self) -> RelocStyleV {
        match self {
            RelocStyle::Bare => RelocStyleV::Bare,
            RelocStyle::Suffix(s) => RelocStyleV::Suffix(s@),
            RelocStyle::PrefixWrap(s) => RelocStyleV::PrefixWrap(s@),
            RelocStyle::Unsupported => RelocStyleV::Unsupported,
            RelocStyle::Sentinel => RelocStyleV::Sentinel,
        }
    }
}

/// The display style of each relocation kind. The table is total: every kind
/// maps to exactly one style, and the emitter never branches on the
/// architecture itself.
pub open spec fn spec_reloc_style(k: RelocKind) -> RelocStyleV {
    match k {
        RelocKind::PpcAddr16Lo => RelocStyleV::Suffix("@l"@),
        RelocKind::PpcAddr16Hi => RelocStyleV::Suffix("@h"@),
        RelocKind::PpcAddr16Ha => RelocStyleV::Suffix("@ha"@),
        RelocKind::PpcEmbSda21 => RelocStyleV::Suffix("@sda21"@),
        RelocKind::PpcRel24 => RelocStyleV::Bare,
        RelocKind::PpcRel14 => RelocStyleV::Bare,
        RelocKind::MipsHi16 => RelocStyleV::PrefixWrap("%hi("@),
        RelocKind::MipsLo16 => RelocStyleV::PrefixWrap("%lo("@),
        RelocKind::MipsGot16 => RelocStyleV::PrefixWrap("%got("@),
        RelocKind::MipsCall16 => RelocStyleV::PrefixWrap("%call16("@),
        RelocKind::MipsGpRel16 => RelocStyleV::PrefixWrap("%gp_rel("@),
        RelocKind::Mips26 => RelocStyleV::Bare,
        RelocKind::MipsGpRel32 => RelocStyleV::Unsupported,
        RelocKind::Absolute => RelocStyleV::Sentinel,
    }
}

/// Whether a relocation kind has a defined textual form.
pub open spec fn spec_reloc_supported(k: RelocKind) -> bool {
    !(spec_reloc_style(k) is Unsupported)
}

/// The display style of a relocation kind.
pub fn reloc_style(k: RelocKind) -> (r: RelocStyle)
    ensures
        r@ == spec_reloc_style(k),
{
    match k {
        RelocKind::PpcAddr16Lo => RelocStyle::Suffix("@l".to_owned()),
        RelocKind::PpcAddr16Hi => RelocStyle::Suffix("@h".to_owned()),
        RelocKind::PpcAddr16Ha => RelocStyle::Suffix("@ha".to_owned()),
        RelocKind::PpcEmbSda21 => RelocStyle::Suffix("@sda21".to_owned()),
        RelocKind::PpcRel24 => RelocStyle::Bare,
        RelocKind::PpcRel14 => RelocStyle::Bare,
        RelocKind::MipsHi16 => RelocStyle::PrefixWrap("%hi(".to_owned()),
        RelocKind::MipsLo16 => RelocStyle::PrefixWrap("%lo(".to_owned()),
        RelocKind::MipsGot16 => RelocStyle::PrefixWrap("%got(".to_owned()),
        RelocKind::MipsCall16 => RelocStyle::PrefixWrap("%call16(".to_owned()),
        RelocKind::MipsGpRel16 => RelocStyle::PrefixWrap("%gp_rel(".to_owned()),
        RelocKind::Mips26 => RelocStyle::Bare,
        RelocKind::MipsGpRel32 => RelocStyle::Unsupported,
        RelocKind::Absolute => RelocStyle::Sentinel,
    }
}

/// Whether a relocation kind has a defined textual form, read off the
/// display table.
pub fn reloc_supported(k: RelocKind) -> (r: bool)
    ensures
        r == spec_reloc_supported(k),
{
    !matches!(reloc_style(k), RelocStyle::Unsupported)
}

/// The addend-suffix tokens of a symbol reference: `+0x…` for a positive
/// addend, `-0x…` for a negative one, nothing for zero.
pub open spec fn spec_addend_tokens(addend: i64) -> Seq<TokenV> {
    if addend > 0 {
        seq![TokenV::Basic("+0x"@ + spec_hex(addend as nat))]
    } else if addend < 0 {
        seq![TokenV::Basic("-0x"@ + spec_hex((-(addend as int)) as nat))]
    } else {
        seq![]
    }
}

/// The tokens of a relocation's bare symbolic reference: the symbol, then
/// the addend suffix.
pub open spec fn spec_reloc_name_tokens(reloc: Relocation) -> Seq<TokenV> {
    seq![TokenV::Symbol(reloc.target@)] + spec_addend_tokens(reloc.target.addend)
}

/// The tokens of a relocation reference in its kind's display style; empty
/// for the unsupported kind, for which the formatter fails instead.
pub open spec fn spec_reloc_tokens(reloc: Relocation) -> Seq<TokenV> {
    match spec_reloc_style(reloc.kind) {
        RelocStyleV::Bare => spec_reloc_name_tokens(reloc),
        RelocStyleV::Suffix(s) => spec_reloc_name_tokens(reloc).push(TokenV::Basic(s)),
        RelocStyleV::PrefixWrap(s) => seq![TokenV::Basic(s)] + spec_reloc_name_tokens(reloc)
            + seq![TokenV::Basic(")"@)],
        RelocStyleV::Unsupported => seq![],
        RelocStyleV::Sentinel => seq![TokenV::Basic("[INVALID]"@)],
    }
}

/// The magnitude of a nonzero addend as an unsigned value.
fn addend_magnitude(addend: i64) -> (r: u64)
    requires
        addend != 0,
    ensures
        addend > 0 ==> r as int == addend as int,
        addend < 0 ==> r as int == -(addend as int),
{
    if addend > 0 {
        addend as u64
    } else if addend == i64::MIN {
        0x8000_0000_0000_0000u64
    } else {
        (-addend) as u64
    }
}

/// Appends the tokens of a relocation's bare symbolic reference to `out`.
pub(crate) fn push_reloc_name(out: &mut Vec<DiffText>, reloc: &Relocation)
    ensures
        tokens_view(final(out)@) =~= tokens_view(old(out)@) + spec_reloc_name_tokens(*reloc),
{
    out.push(DiffText::Symbol(reloc.target.dup()));
    let addend = reloc.target.addend;
    if addend > 0 {
        let mut s = "+0x".to_owned();
        push_hex_digits(addend_magnitude(addend), &mut s);
        out.push(DiffText::Basic(s));
    } else if addend < 0 {
        let mut s = "-0x".to_owned();
        push_hex_digits(addend_magnitude(addend), &mut s);
        out.push(DiffText::Basic(s));
    }
    proof {
        assert(tokens_view(out@) =~= tokens_view(old(out)@) + spec_reloc_name_tokens(*reloc));
    }
}

/// Appends the tokens of a relocation reference in its kind's style to
/// `out`.
pub(crate) fn push_reloc(out: &mut Vec<DiffText>, reloc: &Relocation)
    requires
        spec_reloc_supported(reloc.kind),
    ensures
        tokens_view(final(out)@) =~= tokens_view(old(out)@) + spec_reloc_tokens(*reloc),
{
    match reloc_style(reloc.kind) {
        RelocStyle::Bare => {
            push_reloc_name(out, reloc);
        },
        RelocStyle::Suffix(s) => {
            push_reloc_name(out, reloc);
            let ghost mid = out@;
            let tok = DiffText::Basic(s);
            let ghost tokg = tok;
            out.push(tok);
            proof {
                crate::model::lemma_tokens_view_push(mid, tokg);
            }
        },
        RelocStyle::PrefixWrap(s) => {
            let ghost start = out@;
            let tok = DiffText::Basic(s);
            let ghost tokg = tok;
            out.push(tok);
            proof {
                crate::model::lemma_tokens_view_push(start, tokg);
            }
            push_reloc_name(out, reloc);
            let ghost mid = out@;
            let close = DiffText::Basic(")".to_owned());
            let ghost closeg = close;
            out.push(close);
            proof {
                crate::model::lemma_tokens_view_push(mid, closeg);
            }
        },
        RelocStyle::Unsupported => {
            proof {
                assert(false);
            }
        },
        RelocStyle::Sentinel => {
            let ghost start = out@;
            let tok = DiffText::Basic("[INVALID]".to_owned());
            let ghost tokg = tok;
            out.push(tok);
            proof {
                crate::model::lemma_tokens_view_push(start, tokg);
            }
        },
    }
    proof {
        assert(tokens_view(out@) =~= tokens_view(old(out)@) + spec_reloc_tokens(*reloc));
    }
}

/// Emits a relocation's bare symbolic reference — the symbol and its addend
/// suffix — to the sink.
pub fn display_reloc_name<S: TokenSink>(reloc: &Relocation, cb: &mut S) -> (r: Result<
    (),
    EmitError,
>)
    ensures
        r is Ok ==> final(cb).sunk() == old(cb).sunk() + spec_reloc_name_tokens(*reloc)
            && final(cb).failed() == old(cb).failed(),
        r is Err ==> r == Err::<(), EmitError>(EmitError::SinkFailure) && final(cb).failed()
            && exists|k: int|
            0 <= k < spec_reloc_name_tokens(*reloc).len() && final(cb).sunk() == old(cb).sunk()
                + spec_reloc_name_tokens(*reloc).take(k),
{
    let mut toks: Vec<DiffText> = Vec::new();
    push_reloc_name(&mut toks, reloc);
    match feed_tokens(cb, &toks) {
        Ok(()) => Ok(()),
        Err(()) => Err(EmitError::SinkFailure),
    }
}

/// Emits a relocation reference in its kind's display style to the sink;
/// fails with [`EmitError::UnsupportedRelocation`], emitting nothing, when
/// the kind has no defined textual form.
pub fn display_reloc<S: TokenSink>(reloc: &Relocation, cb: &mut S) -> (r: Result<(), EmitError>)
    ensures
        r is Ok ==> spec_reloc_supported(reloc.kind) && final(cb).sunk() == old(cb).sunk()
            + spec_reloc_tokens(*reloc) && final(cb).failed() == old(cb).failed(),
        r == Err::<(), EmitError>(EmitError::UnsupportedRelocation) <==> !spec_reloc_supported(
            reloc.kind,
        ),
        r == Err::<(), EmitError>(EmitError::UnsupportedRelocation) ==> final(cb).sunk()
            == old(cb).sunk() && final(cb).failed() == old(cb).failed(),
        r == Err::<(), EmitError>(EmitError::SinkFailure) ==> final(cb).failed() && exists|k: int|
            0 <= k < spec_reloc_tokens(*reloc).len() && final(cb).sunk() == old(cb).sunk()
                + spec_reloc_tokens(*reloc).take(k),
        r is Err ==> r == Err::<(), EmitError>(EmitError::UnsupportedRelocation)
            || r == Err::<(), EmitError>(EmitError::SinkFailure),
{
    if !reloc_supported(reloc.kind) {
        return Err(EmitError::UnsupportedRelocation);
    }
    let mut toks: Vec<DiffText> = Vec::new();
    push_reloc(&mut toks, reloc);
    match feed_tokens(cb, &toks) {
        Ok(()) => Ok(()),
        Err(()) => Err(EmitError::SinkFailure),
    }
}

} // verus!
