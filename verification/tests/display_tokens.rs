use diff_display::DiffText;
use diff_display::EmitError;
use diff_display::TokenSink;
use diff_display::VecSink;
use diff_display::display_diff;
use diff_display::display_reloc;
use diff_display::display_reloc_name;
use diff_display::emit_tokens;
use diff_display::model::ArgDiff;
use diff_display::model::Argument;
use diff_display::model::BranchLink;
use diff_display::model::Instruction;
use diff_display::model::InstructionDiff;
use diff_display::model::RelocKind;
use diff_display::model::Relocation;
use diff_display::model::Symbol;

fn sym(name: &str, addend: i64) -> Symbol {
    Symbol { name: name.to_string(), addend }
}

fn reloc(kind: RelocKind, name: &str, addend: i64) -> Relocation {
    Relocation { kind, target: sym(name, addend) }
}

fn plain_ins(address: u32, mnemonic: &str, op: u8, args: Vec<Argument>) -> Instruction {
    Instruction { address, line: None, mnemonic: mnemonic.to_string(), op, args, reloc: None }
}

fn plain_diff(ins: Instruction) -> InstructionDiff {
    InstructionDiff { ins: Some(ins), arg_diff: Vec::new(), branch_from: None, branch_to: None }
}

fn dbg(tokens: &[DiffText]) -> String {
    format!("{:?}", tokens)
}

/// A sink that accepts a fixed number of tokens and refuses the next one.
struct FailingSink {
    limit: usize,
    calls: usize,
    got: Vec<DiffText>,
}

impl TokenSink for FailingSink {
    // The two ghost functions of the trait are never called at runtime.
    fn sunk(&self) -> vstd::seq::Seq<diff_display::model::TokenV> {
        unreachable!()
    }

    fn failed(&self) -> bool {
        unreachable!()
    }

    fn push_token(&mut self, t: DiffText) -> Result<(), ()> {
        self.calls += 1;
        if self.got.len() == self.limit {
            Err(())
        } else {
            self.got.push(t);
            Ok(())
        }
    }
}

#[test]
fn no_instruction_emits_eol() {
    let d = InstructionDiff { ins: None, arg_diff: Vec::new(), branch_from: None, branch_to: None };
    let mut sink = VecSink::new();
    let r = display_diff(&d, 0, &mut sink);
    assert!(r.is_ok());
    assert_eq!(sink.tokens.len(), 1);
    assert!(matches!(sink.tokens[0], DiffText::Eol));
}

#[test]
fn full_line_token_order() {
    let ins = Instruction {
        address: 0x1000,
        line: Some(42),
        mnemonic: "lwz".to_string(),
        op: 32,
        args: vec![
            Argument::Arg("r3".to_string()),
            Argument::ArgWithBase("0x8".to_string()),
            Argument::Arg("r4".to_string()),
        ],
        reloc: None,
    };
    let d = InstructionDiff {
        ins: Some(ins),
        arg_diff: vec![None, Some(ArgDiff { idx: 2 }), None],
        branch_from: Some(BranchLink { branch_idx: 7 }),
        branch_to: Some(BranchLink { branch_idx: 9 }),
    };
    let mut sink = VecSink::new();
    let r = display_diff(&d, 0x400, &mut sink);
    assert!(r.is_ok());
    let expected = vec![
        DiffText::Line(42),
        DiffText::Address(0xC00),
        DiffText::BasicColor(" ~> ".to_string(), 7),
        DiffText::Opcode("lwz".to_string(), 32),
        DiffText::Spacing(1),
        DiffText::Argument("r3".to_string(), None),
        DiffText::Basic(", ".to_string()),
        DiffText::Argument("0x8".to_string(), Some(ArgDiff { idx: 2 })),
        DiffText::Basic("(".to_string()),
        DiffText::Argument("r4".to_string(), None),
        DiffText::Basic(")".to_string()),
        DiffText::BasicColor(" ~>".to_string(), 9),
        DiffText::Eol,
    ];
    assert_eq!(dbg(&sink.tokens), dbg(&expected));
}

#[test]
fn token_count_formula() {
    // 1 line + 1 address + 1 marker + 1 opcode
    // + (1 spacing + 1 arg) + (1 comma + 1 arg + 1 open) + (1 arg + 1 close)
    // + 1 branch-out + 1 eol = 13
    let ins = Instruction {
        address: 0x1000,
        line: Some(1),
        mnemonic: "lwz".to_string(),
        op: 32,
        args: vec![
            Argument::Arg("r3".to_string()),
            Argument::ArgWithBase("0x8".to_string()),
            Argument::Arg("r4".to_string()),
        ],
        reloc: None,
    };
    let d = InstructionDiff {
        ins: Some(ins),
        arg_diff: Vec::new(),
        branch_from: None,
        branch_to: Some(BranchLink { branch_idx: 0 }),
    };
    let (toks, err) = emit_tokens(&d, 0);
    assert!(err.is_none());
    assert_eq!(toks.len(), 13);
}

#[test]
fn addend_positive_formatting() {
    let mut sink = VecSink::new();
    let r = display_reloc_name(&reloc(RelocKind::PpcRel24, "foo", 0x10), &mut sink);
    assert!(r.is_ok());
    assert_eq!(sink.tokens.len(), 2);
    match &sink.tokens[1] {
        DiffText::Basic(s) => assert_eq!(s, "+0x10"),
        _ => panic!("expected an addend suffix"),
    }
}

#[test]
fn addend_negative_formatting() {
    let mut sink = VecSink::new();
    let r = display_reloc_name(&reloc(RelocKind::PpcRel24, "foo", -0x4), &mut sink);
    assert!(r.is_ok());
    assert_eq!(sink.tokens.len(), 2);
    match &sink.tokens[1] {
        DiffText::Basic(s) => assert_eq!(s, "-0x4"),
        _ => panic!("expected an addend suffix"),
    }
}

#[test]
fn addend_zero_no_suffix() {
    let mut sink = VecSink::new();
    let r = display_reloc_name(&reloc(RelocKind::PpcRel24, "foo", 0), &mut sink);
    assert!(r.is_ok());
    assert_eq!(sink.tokens.len(), 1);
    match &sink.tokens[0] {
        DiffText::Symbol(s) => assert_eq!(s.name, "foo"),
        _ => panic!("expected a symbol token"),
    }
}

#[test]
fn addend_large_uppercase_hex() {
    let mut sink = VecSink::new();
    display_reloc_name(&reloc(RelocKind::PpcRel24, "foo", 0xDEADBEEF), &mut sink).unwrap();
    match &sink.tokens[1] {
        DiffText::Basic(s) => assert_eq!(s, "+0xDEADBEEF"),
        _ => panic!("expected an addend suffix"),
    }
}

#[test]
fn addend_most_negative() {
    let mut sink = VecSink::new();
    display_reloc_name(&reloc(RelocKind::PpcRel24, "foo", i64::MIN), &mut sink).unwrap();
    match &sink.tokens[1] {
        DiffText::Basic(s) => assert_eq!(s, "-0x8000000000000000"),
        _ => panic!("expected an addend suffix"),
    }
}

#[test]
fn branch_offset_arithmetic() {
    let ins = plain_ins(0x1000, "b", 18, vec![Argument::BranchOffset(-0x20)]);
    let d = plain_diff(ins);
    let (toks, err) = emit_tokens(&d, 0);
    assert!(err.is_none());
    let expected = vec![
        DiffText::Address(0x1000),
        DiffText::Spacing(4),
        DiffText::Opcode("b".to_string(), 18),
        DiffText::Spacing(1),
        DiffText::BranchTarget(0xFE0),
        DiffText::Eol,
    ];
    assert_eq!(dbg(&toks), dbg(&expected));
}

#[test]
fn ppc_addr16lo_suffix() {
    let mut sink = VecSink::new();
    display_reloc(&reloc(RelocKind::PpcAddr16Lo, "foo", 0), &mut sink).unwrap();
    let expected = vec![
        DiffText::Symbol(sym("foo", 0)),
        DiffText::Basic("@l".to_string()),
    ];
    assert_eq!(dbg(&sink.tokens), dbg(&expected));
}

#[test]
fn ppc_suffix_table() {
    for (kind, suffix) in [
        (RelocKind::PpcAddr16Hi, "@h"),
        (RelocKind::PpcAddr16Ha, "@ha"),
        (RelocKind::PpcEmbSda21, "@sda21"),
    ] {
        let mut sink = VecSink::new();
        display_reloc(&reloc(kind, "foo", 0), &mut sink).unwrap();
        assert_eq!(sink.tokens.len(), 2);
        match &sink.tokens[1] {
            DiffText::Basic(s) => assert_eq!(s, suffix),
            _ => panic!("expected a suffix token"),
        }
    }
}

#[test]
fn mips_hi16_wrap() {
    let mut sink = VecSink::new();
    display_reloc(&reloc(RelocKind::MipsHi16, "bar", 4), &mut sink).unwrap();
    let expected = vec![
        DiffText::Basic("%hi(".to_string()),
        DiffText::Symbol(sym("bar", 4)),
        DiffText::Basic("+0x4".to_string()),
        DiffText::Basic(")".to_string()),
    ];
    assert_eq!(dbg(&sink.tokens), dbg(&expected));
}

#[test]
fn mips_prefix_table() {
    for (kind, prefix) in [
        (RelocKind::MipsLo16, "%lo("),
        (RelocKind::MipsGot16, "%got("),
        (RelocKind::MipsCall16, "%call16("),
        (RelocKind::MipsGpRel16, "%gp_rel("),
    ] {
        let mut sink = VecSink::new();
        display_reloc(&reloc(kind, "bar", 0), &mut sink).unwrap();
        assert_eq!(sink.tokens.len(), 3);
        match &sink.tokens[0] {
            DiffText::Basic(s) => assert_eq!(s, prefix),
            _ => panic!("expected a prefix token"),
        }
        match &sink.tokens[2] {
            DiffText::Basic(s) => assert_eq!(s, ")"),
            _ => panic!("expected a close token"),
        }
    }
}

#[test]
fn bare_kinds_emit_name_only() {
    for kind in [RelocKind::PpcRel24, RelocKind::PpcRel14, RelocKind::Mips26] {
        let mut sink = VecSink::new();
        display_reloc(&reloc(kind, "target", 0), &mut sink).unwrap();
        assert_eq!(sink.tokens.len(), 1);
        assert!(matches!(&sink.tokens[0], DiffText::Symbol(_)));
    }
}

#[test]
fn absolute_kind_emits_sentinel() {
    let mut sink = VecSink::new();
    display_reloc(&reloc(RelocKind::Absolute, "whatever", 99), &mut sink).unwrap();
    assert_eq!(sink.tokens.len(), 1);
    match &sink.tokens[0] {
        DiffText::Basic(s) => assert_eq!(s, "[INVALID]"),
        _ => panic!("expected the sentinel token"),
    }
}

#[test]
fn gp_rel32_always_unsupported() {
    for (name, addend) in [("a", 0i64), ("b", 5), ("c", -77), ("d", i64::MAX)] {
        let mut sink = VecSink::new();
        let r = display_reloc(&reloc(RelocKind::MipsGpRel32, name, addend), &mut sink);
        assert_eq!(r, Err(EmitError::UnsupportedRelocation));
        assert!(sink.tokens.is_empty());
    }
}

#[test]
fn unsupported_reloc_mid_instruction() {
    let ins = Instruction {
        address: 0x20,
        line: None,
        mnemonic: "lw".to_string(),
        op: 35,
        args: vec![Argument::Arg("r2".to_string()), Argument::Reloc],
        reloc: Some(reloc(RelocKind::MipsGpRel32, "gp_sym", 0)),
    };
    let d = plain_diff(ins);
    let (toks, err) = emit_tokens(&d, 0);
    assert_eq!(err, Some(EmitError::UnsupportedRelocation));
    // Tokens up to and including the separator in front of the failing
    // argument were produced.
    let expected = vec![
        DiffText::Address(0x20),
        DiffText::Spacing(4),
        DiffText::Opcode("lw".to_string(), 35),
        DiffText::Spacing(1),
        DiffText::Argument("r2".to_string(), None),
        DiffText::Basic(", ".to_string()),
    ];
    assert_eq!(dbg(&toks), dbg(&expected));
}

#[test]
fn missing_reloc_is_explicit_error() {
    let ins = plain_ins(0x20, "lw", 35, vec![Argument::Reloc]);
    let d = plain_diff(ins);
    let (toks, err) = emit_tokens(&d, 0);
    assert_eq!(err, Some(EmitError::PreconditionViolation));
    assert_eq!(toks.len(), 4);
    let mut sink = VecSink::new();
    let r = display_diff(&d, 0, &mut sink);
    assert_eq!(r, Err(EmitError::PreconditionViolation));
    assert_eq!(sink.tokens.len(), 4);
}

#[test]
fn reloc_with_base_wraps_in_parens() {
    let ins = Instruction {
        address: 0x40,
        line: None,
        mnemonic: "lwz".to_string(),
        op: 32,
        args: vec![
            Argument::Arg("r3".to_string()),
            Argument::RelocWithBase,
            Argument::Arg("r13".to_string()),
        ],
        reloc: Some(reloc(RelocKind::PpcAddr16Lo, "data", 8)),
    };
    let d = plain_diff(ins);
    let (toks, err) = emit_tokens(&d, 0);
    assert!(err.is_none());
    let expected = vec![
        DiffText::Address(0x40),
        DiffText::Spacing(4),
        DiffText::Opcode("lwz".to_string(), 32),
        DiffText::Spacing(1),
        DiffText::Argument("r3".to_string(), None),
        DiffText::Basic(", ".to_string()),
        DiffText::Symbol(sym("data", 8)),
        DiffText::Basic("+0x8".to_string()),
        DiffText::Basic("@l".to_string()),
        DiffText::Basic("(".to_string()),
        DiffText::Argument("r13".to_string(), None),
        DiffText::Basic(")".to_string()),
        DiffText::Eol,
    ];
    assert_eq!(dbg(&toks), dbg(&expected));
}

#[test]
fn trailing_base_paren_closed_at_line_end() {
    let ins = plain_ins(
        0x10,
        "op",
        1,
        vec![Argument::Arg("x".to_string()), Argument::ArgWithBase("y".to_string())],
    );
    let d = plain_diff(ins);
    let (toks, err) = emit_tokens(&d, 0);
    assert!(err.is_none());
    let expected = vec![
        DiffText::Address(0x10),
        DiffText::Spacing(4),
        DiffText::Opcode("op".to_string(), 1),
        DiffText::Spacing(1),
        DiffText::Argument("x".to_string(), None),
        DiffText::Basic(", ".to_string()),
        DiffText::Argument("y".to_string(), None),
        DiffText::Basic("(".to_string()),
        DiffText::Basic(")".to_string()),
        DiffText::Eol,
    ];
    assert_eq!(dbg(&toks), dbg(&expected));
}

#[test]
fn emission_is_idempotent() {
    let ins = Instruction {
        address: 0x1000,
        line: Some(3),
        mnemonic: "addi".to_string(),
        op: 14,
        args: vec![Argument::Arg("r1".to_string()), Argument::Reloc],
        reloc: Some(reloc(RelocKind::PpcAddr16Ha, "sym", -0x10)),
    };
    let d = InstructionDiff {
        ins: Some(ins),
        arg_diff: vec![Some(ArgDiff { idx: 1 }), None],
        branch_from: None,
        branch_to: None,
    };
    let mut first = VecSink::new();
    let mut second = VecSink::new();
    let r1 = display_diff(&d, 0x100, &mut first);
    let r2 = display_diff(&d, 0x100, &mut second);
    assert!(r1.is_ok());
    assert!(r2.is_ok());
    assert_eq!(dbg(&first.tokens), dbg(&second.tokens));
}

#[test]
fn pull_and_push_styles_agree() {
    let ins = plain_ins(0x80, "nop", 0, Vec::new());
    let d = plain_diff(ins);
    let (toks, err) = emit_tokens(&d, 0);
    assert!(err.is_none());
    let mut sink = VecSink::new();
    display_diff(&d, 0, &mut sink).unwrap();
    assert_eq!(dbg(&toks), dbg(&sink.tokens));
}

#[test]
fn sink_failure_stops_after_exact_prefix() {
    let ins = plain_ins(
        0x100,
        "add",
        4,
        vec![Argument::Arg("r1".to_string()), Argument::Arg("r2".to_string())],
    );
    let d = plain_diff(ins);
    let (full, err) = emit_tokens(&d, 0);
    assert!(err.is_none());
    assert_eq!(full.len(), 8);
    let limit: usize = 3;
    let mut sink = FailingSink { limit, calls: 0, got: Vec::new() };
    let r = display_diff(&d, 0, &mut sink);
    assert_eq!(r, Err(EmitError::SinkFailure));
    // Exactly `limit` tokens were delivered — the prefix of the full
    // stream — and no sink call follows the refused one.
    assert_eq!(sink.got.len(), limit);
    assert_eq!(dbg(&sink.got), dbg(&full[..limit]));
    assert_eq!(sink.calls, limit + 1);
}

#[test]
fn sink_failure_on_first_token() {
    let d = InstructionDiff { ins: None, arg_diff: Vec::new(), branch_from: None, branch_to: None };
    let mut sink = FailingSink { limit: 0, calls: 0, got: Vec::new() };
    let r = display_diff(&d, 0, &mut sink);
    assert_eq!(r, Err(EmitError::SinkFailure));
    assert!(sink.got.is_empty());
    assert_eq!(sink.calls, 1);
}

#[test]
fn incoming_branch_marker_replaces_spacing() {
    let ins = plain_ins(0x10, "bl", 18, Vec::new());
    let d = InstructionDiff {
        ins: Some(ins),
        arg_diff: Vec::new(),
        branch_from: Some(BranchLink { branch_idx: 3 }),
        branch_to: None,
    };
    let (toks, err) = emit_tokens(&d, 0);
    assert!(err.is_none());
    let expected = vec![
        DiffText::Address(0x10),
        DiffText::BasicColor(" ~> ".to_string(), 3),
        DiffText::Opcode("bl".to_string(), 18),
        DiffText::Eol,
    ];
    assert_eq!(dbg(&toks), dbg(&expected));
}

#[test]
fn annotations_track_argument_positions() {
    let ins = plain_ins(
        0,
        "or",
        31,
        vec![Argument::Arg("r1".to_string()), Argument::Arg("r2".to_string())],
    );
    let d = InstructionDiff {
        ins: Some(ins),
        arg_diff: vec![Some(ArgDiff { idx: 5 })],
        branch_from: None,
        branch_to: None,
    };
    let (toks, err) = emit_tokens(&d, 0);
    assert!(err.is_none());
    match &toks[4] {
        DiffText::Argument(v, ann) => {
            assert_eq!(v, "r1");
            assert_eq!(*ann, Some(ArgDiff { idx: 5 }));
        },
        _ => panic!("expected the first argument"),
    }
    // The annotation list is shorter than the argument list: the second
    // argument has no highlighting.
    match &toks[6] {
        DiffText::Argument(v, ann) => {
            assert_eq!(v, "r2");
            assert_eq!(*ann, None);
        },
        _ => panic!("expected the second argument"),
    }
}
