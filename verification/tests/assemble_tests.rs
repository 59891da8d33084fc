use graph_dsl::ast::{CacheIndexExpr, CacheIndexValue, Ident, Node, OpAttrValue, OpSetting, Section};
use graph_dsl::codegen::memory::{DType, ScalarValue};
use graph_dsl::codegen::node::NodeInstr;
use graph_dsl::codegen::{compile, expand, Instr};
use graph_dsl::parsers::sections::parse_graph;
use graph_dsl::token::{Punct, Token};
use graph_dsl::validation::ops::{accumulate, fill, relu, AttrValue, OpAttrs};

fn lex(src: &str) -> Vec<Token> {
    let mut toks = Vec::new();
    let cs: Vec<char> = src.chars().collect();
    let mut i = 0;
    while i < cs.len() {
        let c = cs[i];
        if c.is_whitespace() {
            i += 1;
            continue;
        }
        if c.is_ascii_alphabetic() || c == '_' {
            let mut s = String::new();
            while i < cs.len() && (cs[i].is_ascii_alphanumeric() || cs[i] == '_') {
                s.push(cs[i]);
                i += 1;
            }
            toks.push(Token::Ident(s));
        } else if c.is_ascii_digit() {
            let mut s = String::new();
            while i < cs.len() && cs[i].is_ascii_digit() {
                s.push(cs[i]);
                i += 1;
            }
            if i + 1 < cs.len() && cs[i] == '.' && cs[i + 1].is_ascii_digit() {
                s.push('.');
                i += 1;
                while i < cs.len() && cs[i].is_ascii_digit() {
                    s.push(cs[i]);
                    i += 1;
                }
                toks.push(Token::Float(s));
            } else {
                toks.push(Token::Int(s));
            }
        } else if c == '"' {
            i += 1;
            let mut s = String::new();
            while i < cs.len() && cs[i] != '"' {
                s.push(cs[i]);
                i += 1;
            }
            i += 1;
            toks.push(Token::Str(s));
        } else {
            let p = match c {
                ':' => Punct::Colon,
                ';' => Punct::Semi,
                ',' => Punct::Comma,
                '@' => Punct::At,
                '*' => Punct::Star,
                '=' => Punct::Equals,
                '-' => Punct::Minus,
                '.' => {
                    if i + 1 < cs.len() && cs[i + 1] == '.' {
                        i += 1;
                        Punct::DotDot
                    } else {
                        Punct::Dot
                    }
                }
                '>' => {
                    assert!(i + 1 < cs.len() && cs[i + 1] == '>', "lone `>` in test source");
                    i += 1;
                    Punct::Shr
                }
                '(' => Punct::OpenParen,
                ')' => Punct::CloseParen,
                '{' => Punct::OpenBrace,
                '}' => Punct::CloseBrace,
                '[' => Punct::OpenBracket,
                ']' => Punct::CloseBracket,
                other => panic!("unexpected character in test source: {}", other),
            };
            i += 1;
            toks.push(Token::Punct(p));
        }
    }
    toks
}

fn compile_src(src: &str) -> Result<Vec<Instr>, graph_dsl::error::ParseError> {
    compile(&lex(src))
}

#[test]
fn compiles_var_and_block_instructions() {
    let instrs = compile_src(
        r#"
        dynamic {
            x: f32[B*D, 4] @init(1.25) @ref("w.0") @pattern("gauss") @fixed(i=2);
        }
        block entry {
            cache.increment state;
            cache.increment 2 state;
            return;
        }
        "#,
    )
    .expect("compile");
    assert_eq!(instrs.len(), 5);
    match &instrs[0] {
        Instr::AddVar(v) => {
            assert_eq!(v.name, "x");
            assert!(matches!(v.dtype, DType::F32));
            assert_eq!(v.dims, vec!["B*D".to_string(), "4".to_string()]);
            match &v.init {
                Some(ScalarValue::F32(f)) => {
                    assert_eq!(f.text, "1.25");
                    assert!(!f.negative);
                    assert!(!f.infinite);
                }
                other => panic!("unexpected init {:?}", other),
            }
            assert_eq!(v.ref_name.as_deref(), Some("w.0"));
            assert_eq!(v.fixed, vec![("i".to_string(), 2usize)]);
        }
        other => panic!("unexpected instruction {:?}", other),
    }
    assert!(matches!(&instrs[1], Instr::AddBlock(name) if name == "entry"));
    match &instrs[2] {
        Instr::AddNode { block, node } => {
            assert_eq!(block, "entry");
            assert!(matches!(node, NodeInstr::CacheIncrement { amount: 1, .. }));
        }
        other => panic!("unexpected instruction {:?}", other),
    }
    assert!(matches!(&instrs[3], Instr::AddNode { node: NodeInstr::CacheIncrement { amount: 2, .. }, .. }));
    assert!(matches!(&instrs[4], Instr::AddNode { node: NodeInstr::Return, .. }));
}

#[test]
fn int_init_accepts_bounds_and_rejects_beyond() {
    let table: &[(&str, i128, i128)] = &[
        ("i8", -128, 127),
        ("i16", -32768, 32767),
        ("i32", -2147483648, 2147483647),
        ("i64", -9223372036854775808, 9223372036854775807),
        ("u8", 0, 255),
        ("u16", 0, 65535),
        ("u32", 0, 4294967295),
        ("u64", 0, 18446744073709551615),
        ("bool", 0, 1),
        ("bitset", 0, 255),
        ("i4", -8, 7),
        ("i2", -2, 1),
        ("i1", -1, 0),
        ("u4", 0, 15),
        ("u2", 0, 3),
        ("u1", 0, 1),
        ("t2", -1, 1),
        ("t1", -1, 1),
    ];
    for (dtype, min, max) in table {
        for v in [*min, *max] {
            let src = format!("dynamic {{ x: {} @init({}); }}", dtype, v);
            assert!(compile_src(&src).is_ok(), "{} should accept {}", dtype, v);
        }
        for v in [*min - 1, *max + 1] {
            let src = format!("dynamic {{ x: {} @init({}); }}", dtype, v);
            let err = compile_src(&src).err().unwrap_or_else(|| {
                panic!("{} should reject {}", dtype, v)
            });
            assert!(
                err.msg.contains(&format!("{} init", dtype)),
                "unexpected message for {} with {}: {}",
                dtype,
                v,
                err.msg
            );
        }
    }
}

#[test]
fn cache_slice_entries_are_normalized() {
    let graph = parse_graph(&lex(
        r#"
        block entry {
            cache.read table[1, .., 2.., ..3, 4..5, -6] >> out;
            return;
        }
        "#,
    ))
    .expect("parse");
    let block = match &graph.sections[0] {
        Section::Block(block) => block,
        _ => panic!("expected block"),
    };
    let src = match &block.nodes[0] {
        Node::CacheRead { src, .. } => src,
        _ => panic!("expected cache read"),
    };
    assert!(src.bracketed);
    assert_eq!(src.indices.len(), 6);
    assert!(matches!(src.indices[0], CacheIndexExpr::Single(CacheIndexValue::Lit(1))));
    assert!(matches!(src.indices[1], CacheIndexExpr::Slice { start: None, end: None }));
    assert!(matches!(
        src.indices[2],
        CacheIndexExpr::Slice { start: Some(CacheIndexValue::Lit(2)), end: None }
    ));
    assert!(matches!(
        src.indices[3],
        CacheIndexExpr::Slice { start: None, end: Some(CacheIndexValue::Lit(3)) }
    ));
    assert!(matches!(
        src.indices[4],
        CacheIndexExpr::Slice { start: Some(CacheIndexValue::Lit(4)), end: Some(CacheIndexValue::Lit(5)) }
    ));
    assert!(matches!(src.indices[5], CacheIndexExpr::Single(CacheIndexValue::Lit(-6))));
}

#[test]
fn elided_trailing_index_becomes_open_slice() {
    let graph = parse_graph(&lex("block b { cache.reset t[1,]; return; }")).expect("parse");
    let block = match &graph.sections[0] {
        Section::Block(block) => block,
        _ => panic!("expected block"),
    };
    let target = match &block.nodes[0] {
        Node::CacheReset { target } => target,
        _ => panic!("expected cache reset"),
    };
    assert_eq!(target.indices.len(), 2);
    assert!(matches!(target.indices[0], CacheIndexExpr::Single(CacheIndexValue::Lit(1))));
    assert!(matches!(target.indices[1], CacheIndexExpr::Slice { start: None, end: None }));
}

#[test]
fn nested_loop_assembles_nested_instruction() {
    let instrs = compile_src(
        r#"
        block entry {
            loop outer (i in 0..4) {
                loop inner (j in 1..N) {
                    return;
                }
            }
        }
        "#,
    )
    .expect("compile");
    assert_eq!(instrs.len(), 2);
    let node = match &instrs[1] {
        Instr::AddNode { node, .. } => node,
        other => panic!("unexpected instruction {:?}", other),
    };
    match node {
        NodeInstr::Loop { name, index, start, end, body } => {
            assert_eq!(name, "outer");
            assert_eq!(index, "i");
            assert_eq!(start, "0");
            assert_eq!(end, "4");
            assert_eq!(body.len(), 1);
            match &body[0] {
                NodeInstr::Loop { name, start, end, body, .. } => {
                    assert_eq!(name, "inner");
                    assert_eq!(start, "1");
                    assert_eq!(end, "N");
                    assert_eq!(body.len(), 1);
                    assert!(matches!(body[0], NodeInstr::Return));
                }
                other => panic!("expected nested loop, got {:?}", other),
            }
        }
        other => panic!("expected loop instruction, got {:?}", other),
    }
}

#[test]
fn op_settings_resolve_generically() {
    let instrs = compile_src(
        r#"
        block entry {
            op add(x, y[0, k], acc=i32, tag="fast", clamp_max=inf) >> out;
        }
        "#,
    )
    .expect("compile");
    let node = match &instrs[1] {
        Instr::AddNode { node, .. } => node,
        other => panic!("unexpected instruction {:?}", other),
    };
    match node {
        NodeInstr::Op { op, attrs, inputs, output } => {
            assert_eq!(op, "add");
            assert_eq!(inputs, &vec!["x".to_string(), "y[0,k]".to_string()]);
            assert_eq!(output, "out");
            match attrs {
                OpAttrs::Generic(items) => {
                    assert_eq!(items.len(), 3);
                    assert_eq!(items[0].name, "acc");
                    assert!(matches!(items[0].value, AttrValue::DType(DType::I32)));
                    assert_eq!(items[1].name, "tag");
                    assert!(matches!(&items[1].value, AttrValue::Str(s) if s == "fast"));
                    assert_eq!(items[2].name, "clamp_max");
                    match &items[2].value {
                        AttrValue::Double(f) => assert!(f.infinite && !f.negative),
                        other => panic!("expected double, got {:?}", other),
                    }
                }
                other => panic!("expected generic attrs, got {:?}", other),
            }
        }
        other => panic!("expected op instruction, got {:?}", other),
    }
}

#[test]
fn duplicate_setting_is_rejected() {
    let err = compile_src("block b { op f(x, a=1, a=2) >> y; }").err().expect("error");
    assert!(err.msg.contains("duplicate setting: a"), "{}", err.msg);
}

#[test]
fn dtype_and_init_kind_errors() {
    let err = compile_src("dynamic { x: q7; }").err().expect("error");
    assert!(err.msg.contains("unsupported dtype"));

    let err = compile_src("dynamic { x: i8 @init(1.5); }").err().expect("error");
    assert!(err.msg.contains("float init requires f8/bf16/f16/f32/f64 dtype"));

    let err = compile_src("dynamic { x: f32 @init(3); }").err().expect("error");
    assert!(err.msg.contains("integer init requires integer/bool/bitset dtype"));

    let err = compile_src("dynamic { x: i8 @init(true); }").err().expect("error");
    assert!(err.msg.contains("bool init requires bool dtype"));

    let err = compile_src("dynamic { x: i8 @init(99999999999999999999999999999999999999999); }")
        .err()
        .expect("error");
    assert!(err.msg.contains("number too large to fit in target type"));

    let err = compile_src("dynamic { x: bool @init(-1.5); }").err().expect("error");
    assert!(err.msg.contains("float init requires"));

    let err = compile_src("dynamic { x: f32 @init(-true); }").err().expect("error");
    assert!(err.msg.contains("boolean init cannot be negative"));
}

#[test]
fn prefix_and_attr_list_rules() {
    let err = parse_graph(&lex("dynamic { x(): f32; }")).err().expect("error");
    assert!(err.msg.contains("prefix table must declare at least one index"));

    let err = parse_graph(&lex("dynamic { x: f32 @fixed(); }")).err().expect("error");
    assert!(err.msg.contains("@fixed requires at least one entry"));

    let err = parse_graph(&lex("dynamic { x: f32 @table @table; }")).err().expect("error");
    assert!(err.msg.contains("duplicate @table attribute"));

    let err = parse_graph(&lex("dynamic { x: f32 @shiny; }")).err().expect("error");
    assert!(err.msg.contains("unsupported attribute"));

    let err = parse_graph(&lex("block b { yield; }")).err().expect("error");
    assert!(err.msg.contains("yield expects at least one variable"));

    let err = parse_graph(&lex("block b { await; }")).err().expect("error");
    assert!(err.msg.contains("await expects at least one variable"));

    let err = parse_graph(&lex("block b { x[] >> y; }")).err().expect("error");
    assert!(err.msg.contains("unsupported node"));

    let err = parse_graph(&lex("block b { transfer x[] >> y; }")).err().expect("error");
    assert!(err.msg.contains("prefix access must include at least one index"));
}

#[test]
fn ref_accepts_bare_identifier() {
    let graph = parse_graph(&lex("constant { w: f32 @ref(weights); }")).expect("parse");
    let vars = match &graph.sections[0] {
        Section::Memory(section) => &section.vars,
        _ => panic!("expected memory section"),
    };
    assert_eq!(vars[0].ref_name.as_deref(), Some("weights"));
}

fn setting(name: &str, value: OpAttrValue) -> OpSetting {
    OpSetting { name: Ident { text: name.to_string(), pos: 0 }, value }
}

fn op_ident() -> Ident {
    Ident { text: "acc_op".to_string(), pos: 0 }
}

#[test]
fn accumulate_builder_shapes() {
    let r = accumulate::build_attrs(&op_ident(), &vec![]).expect("empty settings");
    assert!(matches!(r, OpAttrs::Empty));

    let settings = vec![setting("acc", OpAttrValue::Var(Ident { text: "i32".to_string(), pos: 3 }))];
    let r = accumulate::build_attrs(&op_ident(), &settings).expect("acc dtype");
    assert!(matches!(r, OpAttrs::Accumulate { dtype: DType::I32 }));

    let settings = vec![setting("acc", OpAttrValue::Int(3))];
    let err = accumulate::build_attrs(&op_ident(), &settings).err().expect("error");
    assert!(err.msg.contains("acc setting expects a dtype identifier like i32"));

    let settings = vec![setting("gain", OpAttrValue::Int(3))];
    let err = accumulate::build_attrs(&op_ident(), &settings).err().expect("error");
    assert!(err.msg.contains("unrecognized setting: gain"));
}

#[test]
fn fill_builder_defaults_to_zero() {
    let r = fill::build_attrs(&op_ident(), &vec![]).expect("empty settings");
    match r {
        OpAttrs::Fill { value: AttrValue::Double(f) } => {
            assert_eq!(f.text, "0.0");
            assert!(!f.negative && !f.infinite);
        }
        other => panic!("unexpected attrs {:?}", other),
    }

    let settings = vec![setting("value", OpAttrValue::Int(7))];
    let r = fill::build_attrs(&op_ident(), &settings).expect("value setting");
    assert!(matches!(r, OpAttrs::Fill { value: AttrValue::Int(7) }));
}

#[test]
fn relu_builder_defaults_to_zero_and_infinity() {
    let r = relu::build_attrs(&op_ident(), &vec![]).expect("empty settings");
    match r {
        OpAttrs::Relu { alpha: AttrValue::Double(a), clamp_max: AttrValue::Double(c) } => {
            assert_eq!(a.text, "0.0");
            assert!(!a.infinite);
            assert!(c.infinite && !c.negative);
        }
        other => panic!("unexpected attrs {:?}", other),
    }

    let settings = vec![
        setting("alpha", OpAttrValue::Double(graph_dsl::ast::FloatLit {
            text: "0.1".to_string(),
            negative: false,
            infinite: false,
        })),
        setting("gain", OpAttrValue::Int(1)),
    ];
    let err = relu::build_attrs(&op_ident(), &settings).err().expect("error");
    assert!(err.msg.contains("unrecognized setting: gain"));
}

#[test]
fn expand_matches_parse_then_assemble() {
    let toks = lex("dynamic { x: u4 @init(15); } block b { barrier; }");
    let graph = parse_graph(&toks).expect("parse");
    let a = expand(&graph).expect("expand");
    let b = compile(&toks).expect("compile");
    assert_eq!(a.len(), b.len());
    match (&a[0], &b[0]) {
        (Instr::AddVar(x), Instr::AddVar(y)) => {
            assert!(matches!(x.init, Some(ScalarValue::U4(15))));
            assert!(matches!(y.init, Some(ScalarValue::U4(15))));
        }
        _ => panic!("expected AddVar"),
    }
}

#[test]
fn attr_value_sign_rules() {
    let err = compile_src("block b { op f(x, a=-inf) >> y; }").err().expect("error");
    assert!(err.msg.contains("unexpected '-' before identifier"));

    let err = compile_src("block b { op f(x, a=-true) >> y; }").err().expect("error");
    assert!(err.msg.contains("unexpected '-' before bool literal"));

    let err = compile_src("block b { op f(x, a=-\"tag\") >> y; }").err().expect("error");
    assert!(err.msg.contains("unexpected '-' before string literal"));

    let err = compile_src("block b { op f(x, a=;) >> y; }").err().expect("error");
    assert!(err.msg.contains("expected literal or identifier for op setting"));
}

#[test]
fn remaining_duplicate_attributes_are_rejected() {
    let err = parse_graph(&lex("constant { w: f32 @ref(\"a\") @ref(\"b\"); }"))
        .err()
        .expect("error");
    assert!(err.msg.contains("duplicate @ref attribute"));

    let err = parse_graph(&lex("constant { w: f32 @pattern(\"a\") @pattern(\"b\"); }"))
        .err()
        .expect("error");
    assert!(err.msg.contains("duplicate @pattern attribute"));

    let err = parse_graph(&lex("constant { w: f32 @auto_dim(i) @auto_dim(j); }"))
        .err()
        .expect("error");
    assert!(err.msg.contains("duplicate @auto_dim attribute"));

    let err = parse_graph(&lex("constant { w: f32 @fixed(i=1) @fixed(j=2); }"))
        .err()
        .expect("error");
    assert!(err.msg.contains("duplicate @fixed attribute"));

    let err = parse_graph(&lex("constant { w: f32 @pattern(bare); }")).err().expect("error");
    assert!(err.msg.contains("expected string literal for pattern"));
}

#[test]
fn oversized_literals_are_rejected() {
    let err = parse_graph(&lex("block b { cache.increment 99999999999999999999 t; }"))
        .err()
        .expect("error");
    assert!(err.msg.contains("number too large to fit in target type"));

    let err = parse_graph(&lex("block b { cache.reset t[99999999999999999999]; }"))
        .err()
        .expect("error");
    assert!(err.msg.contains("number too large to fit in target type"));

    let err = compile_src("dynamic { x: f32 @fixed(i=99999999999999999999999); }")
        .err()
        .expect("error");
    assert!(err.msg.contains("number too large to fit in target type"));
}

#[test]
fn yield_rejects_trailing_comma() {
    let err = parse_graph(&lex("block b { yield a, ; }")).err().expect("error");
    assert!(err.msg.contains("expected identifier"));

    let graph = parse_graph(&lex("block b { yield a, c; await d; }")).expect("parse");
    let block = match &graph.sections[0] {
        Section::Block(block) => block,
        _ => panic!("expected block"),
    };
    match &block.nodes[0] {
        Node::Yield { vars } => assert_eq!(vars, &vec!["a".to_string(), "c".to_string()]),
        _ => panic!("expected yield"),
    }
    match &block.nodes[1] {
        Node::Await { vars } => assert_eq!(vars, &vec!["d".to_string()]),
        _ => panic!("expected await"),
    }
}

#[test]
fn op_output_accepts_indexed_reference() {
    let instrs = compile_src("block b { op f(x) >> out[0, k]; }").expect("compile");
    match &instrs[1] {
        Instr::AddNode { node: NodeInstr::Op { output, .. }, .. } => {
            assert_eq!(output, "out[0,k]");
        }
        other => panic!("unexpected instruction {:?}", other),
    }
}
