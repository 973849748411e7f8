use typstc::func::{
    body_nope, drain_unused_arguments, Arg, FuncArgs, FuncHeader, NoMeta, ParseFunc, Value,
};
use typstc::geom::Size;
use typstc::layout::{Command, LayoutContext, Model};
use typstc::library::{HiderFunc, SpacingFunc, SpacingTarget};
use typstc::style::{LayoutStyle, PageStyle, TextStyle};
use typstc::syntax::{ParseContext, Parser, Span, Spanned, SyntaxModel, SyntaxNode};
use typstc::{Feedback, Pass};

/// A parser that turns the whole body into a single text node.
struct TextParser;

impl Parser for TextParser {
    fn parse(&mut self, offset: u64, text: &str) -> Pass<SyntaxModel> {
        let end = offset + text.len() as u64;
        let node = Spanned {
            v: SyntaxNode::Text(text.to_string()),
            span: Span { start: offset, end },
        };
        Pass {
            output: SyntaxModel { nodes: vec![node] },
            feedback: Feedback { errors: Vec::new(), decorations: Vec::new() },
        }
    }
}

/// A parser that always reports one error of its own.
struct GrumpyParser;

impl Parser for GrumpyParser {
    fn parse(&mut self, offset: u64, text: &str) -> Pass<SyntaxModel> {
        let end = offset + text.len() as u64;
        Pass {
            output: SyntaxModel { nodes: Vec::new() },
            feedback: Feedback {
                errors: vec![Spanned {
                    v: "bad markup".to_string(),
                    span: Span { start: offset, end },
                }],
                decorations: Vec::new(),
            },
        }
    }
}

fn span(a: u64, b: u64) -> Span {
    Span::new(a, b)
}

fn pos_arg(v: Value, a: u64, b: u64) -> Arg {
    Arg { key: None, value: Spanned { v, span: span(a, b) }, span: span(a, b) }
}

fn named_arg(key: &str, v: Value, a: u64, b: u64) -> Arg {
    Arg {
        key: Some(Spanned { v: key.to_string(), span: span(a, a + 1) }),
        value: Spanned { v, span: span(a + 2, b) },
        span: span(a, b),
    }
}

fn header(args: Vec<Arg>) -> FuncHeader {
    FuncHeader {
        name: Spanned { v: "f".to_string(), span: span(0, 1) },
        args: FuncArgs::new(args),
    }
}

fn body(text: &str, a: u64, b: u64) -> Option<Spanned<String>> {
    Some(Spanned { v: text.to_string(), span: span(a, b) })
}

fn mk_ctx() -> LayoutContext {
    LayoutContext {
        style: LayoutStyle {
            page: PageStyle { size: Size::new(600, 800) },
            text: TextStyle { font_size: 11, word_spacing: 2, line_spacing: 4, par_spacing: 8 },
        },
    }
}

#[test]
fn hider_consumes_positional_bool() {
    let mut ctx = ParseContext { parser: TextParser };
    let p = HiderFunc::parse(header(vec![pos_arg(Value::Bool(true), 3, 7)]), None, &mut ctx, NoMeta);
    assert!(p.feedback.errors.is_empty());
    assert!(p.feedback.decorations.is_empty());
    assert_eq!(p.output.body, None);
}

#[test]
fn hider_consumes_named_bool() {
    let mut ctx = ParseContext { parser: TextParser };
    let p = HiderFunc::parse(
        header(vec![named_arg("hidden", Value::Bool(true), 3, 14)]),
        None,
        &mut ctx,
        NoMeta,
    );
    assert!(p.feedback.errors.is_empty());
    assert_eq!(p.output.body, None);
}

#[test]
fn unconsumed_argument_reported() {
    let mut ctx = ParseContext { parser: TextParser };
    let p = SpacingFunc::parse(
        header(vec![named_arg("hidden", Value::Bool(true), 3, 14)]),
        None,
        &mut ctx,
        SpacingTarget::Word,
    );
    assert_eq!(p.feedback.errors.len(), 2);
    assert_eq!(p.feedback.errors[0].v, "missing argument: spacing");
    assert_eq!(p.feedback.errors[0].span, span(0, 1));
    assert_eq!(p.feedback.errors[1].v, "unexpected argument");
    assert_eq!(p.feedback.errors[1].span, span(3, 14));
    assert_eq!(p.output.spacing, None);
}

#[test]
fn leftover_arguments_reported_in_order() {
    let mut ctx = ParseContext { parser: TextParser };
    let p = HiderFunc::parse(
        header(vec![
            pos_arg(Value::Bool(false), 2, 3),
            pos_arg(Value::Int(1), 5, 6),
            named_arg("x", Value::Str("y".to_string()), 8, 12),
        ]),
        None,
        &mut ctx,
        NoMeta,
    );
    assert_eq!(p.feedback.errors.len(), 2);
    assert_eq!(p.feedback.errors[0].v, "unexpected argument");
    assert_eq!(p.feedback.errors[0].span, span(5, 6));
    assert_eq!(p.feedback.errors[1].v, "unexpected argument");
    assert_eq!(p.feedback.errors[1].span, span(8, 12));
}

#[test]
fn nope_policy_reports_body_once() {
    let mut ctx = ParseContext { parser: TextParser };
    let p = SpacingFunc::parse(
        header(vec![pos_arg(Value::Int(7), 3, 4)]),
        body("content", 9, 16),
        &mut ctx,
        SpacingTarget::Line,
    );
    assert_eq!(p.feedback.errors.len(), 1);
    assert_eq!(p.feedback.errors[0].v, "unexpected body");
    assert_eq!(p.feedback.errors[0].span, span(9, 16));
    assert_eq!(p.output, SpacingFunc { target: SpacingTarget::Line, spacing: Some(7) });
}

#[test]
fn opt_policy_leaves_slot_empty_without_body() {
    let mut ctx = ParseContext { parser: TextParser };
    let p = HiderFunc::parse(header(vec![pos_arg(Value::Bool(false), 3, 8)]), None, &mut ctx, NoMeta);
    assert_eq!(p.output.body, None);
    assert!(p.feedback.errors.is_empty());
}

#[test]
fn hider_parses_body() {
    let mut ctx = ParseContext { parser: TextParser };
    let p = HiderFunc::parse(
        header(vec![pos_arg(Value::Bool(false), 3, 8)]),
        body("Hi", 10, 12),
        &mut ctx,
        NoMeta,
    );
    assert!(p.feedback.errors.is_empty());
    let model = p.output.body.expect("body should be kept");
    assert_eq!(model.nodes.len(), 1);
    assert_eq!(model.nodes[0].v, SyntaxNode::Text("Hi".to_string()));
    assert_eq!(model.nodes[0].span, span(10, 12));
}

#[test]
fn hider_hides_body() {
    let mut ctx = ParseContext { parser: TextParser };
    let p = HiderFunc::parse(
        header(vec![pos_arg(Value::Bool(true), 3, 7)]),
        body("Hi", 9, 11),
        &mut ctx,
        NoMeta,
    );
    assert!(p.feedback.errors.is_empty());
    assert_eq!(p.output.body, None);
}

#[test]
fn missing_bool_defaults_to_visible() {
    let mut ctx = ParseContext { parser: TextParser };
    let p = HiderFunc::parse(header(Vec::new()), body("Hi", 8, 10), &mut ctx, NoMeta);
    assert_eq!(p.feedback.errors.len(), 1);
    assert_eq!(p.feedback.errors[0].v, "missing argument: hidden");
    assert_eq!(p.feedback.errors[0].span, span(0, 1));
    assert!(p.output.body.is_some());
}

#[test]
fn wrong_type_reported() {
    let mut ctx = ParseContext { parser: TextParser };
    let p = HiderFunc::parse(
        header(vec![pos_arg(Value::Int(3), 4, 5)]),
        None,
        &mut ctx,
        NoMeta,
    );
    assert_eq!(p.feedback.errors.len(), 1);
    assert_eq!(p.feedback.errors[0].v, "expected boolean");
    assert_eq!(p.feedback.errors[0].span, span(4, 5));
    assert_eq!(p.output.body, None);
}

#[test]
fn parser_feedback_comes_first() {
    let mut ctx = ParseContext { parser: GrumpyParser };
    let p = HiderFunc::parse(
        header(vec![pos_arg(Value::Bool(false), 2, 3), pos_arg(Value::Int(9), 5, 6)]),
        body("???", 9, 12),
        &mut ctx,
        NoMeta,
    );
    assert_eq!(p.feedback.errors.len(), 2);
    assert_eq!(p.feedback.errors[0].v, "bad markup");
    assert_eq!(p.feedback.errors[0].span, span(9, 12));
    assert_eq!(p.feedback.errors[1].v, "unexpected argument");
    assert_eq!(p.feedback.errors[1].span, span(5, 6));
}

#[test]
fn wrong_type_for_integer_reported() {
    let mut ctx = ParseContext { parser: TextParser };
    let p = SpacingFunc::parse(
        header(vec![pos_arg(Value::Bool(true), 4, 8)]),
        None,
        &mut ctx,
        SpacingTarget::Paragraph,
    );
    assert_eq!(p.feedback.errors.len(), 1);
    assert_eq!(p.feedback.errors[0].v, "expected integer");
    assert_eq!(p.feedback.errors[0].span, span(4, 8));
    assert_eq!(p.output.spacing, None);
}

#[test]
fn take_pos_skips_named_arguments() {
    let mut args = FuncArgs::new(vec![
        named_arg("k", Value::Int(1), 2, 6),
        pos_arg(Value::Int(2), 8, 9),
        pos_arg(Value::Int(3), 11, 12),
    ]);
    let first = args.take_pos().expect("a positional argument is present");
    assert_eq!(first.v, Value::Int(2));
    assert_eq!(args.len(), 2);
    let second = args.take_pos().expect("another positional argument is present");
    assert_eq!(second.v, Value::Int(3));
    assert_eq!(args.take_pos(), None);
    assert_eq!(args.len(), 1);
}

#[test]
fn take_key_finds_named_argument() {
    let mut args = FuncArgs::new(vec![
        named_arg("a", Value::Int(1), 2, 6),
        named_arg("b", Value::Int(2), 8, 12),
    ]);
    let b = args.take_key(&"b".to_string()).expect("the named argument is present");
    assert_eq!(b.v, Value::Int(2));
    assert_eq!(args.take_key(&"b".to_string()), None);
    assert_eq!(args.len(), 1);
}

#[test]
fn drain_reports_every_leftover() {
    let mut feedback = Feedback::new();
    drain_unused_arguments(
        header(vec![pos_arg(Value::Int(1), 2, 3), named_arg("k", Value::Int(2), 5, 9)]),
        &mut feedback,
    );
    assert_eq!(feedback.errors.len(), 2);
    assert_eq!(feedback.errors[0].v, "unexpected argument");
    assert_eq!(feedback.errors[0].span, span(2, 3));
    assert_eq!(feedback.errors[1].span, span(5, 9));
}

#[test]
fn body_nope_is_silent_without_body() {
    let mut feedback = Feedback::new();
    body_nope(None, &mut feedback);
    assert!(feedback.errors.is_empty());
}

#[test]
fn hider_layout_emits_body() {
    let model = SyntaxModel {
        nodes: vec![Spanned { v: SyntaxNode::Space, span: span(1, 2) }],
    };
    let f = HiderFunc { body: Some(model.clone()) };
    let p = f.layout(mk_ctx());
    assert_eq!(p.output, vec![Command::LayoutSyntaxModel(model)]);
    assert!(p.feedback.errors.is_empty());
}

#[test]
fn hider_layout_hidden_emits_nothing() {
    let f = HiderFunc { body: None };
    let p = f.layout(mk_ctx());
    assert!(p.output.is_empty());
    assert!(p.feedback.errors.is_empty());
}

#[test]
fn spacing_layout_sets_targeted_spacing() {
    let f = SpacingFunc { target: SpacingTarget::Line, spacing: Some(7) };
    let p = f.layout(mk_ctx());
    let expected = TextStyle { font_size: 11, word_spacing: 2, line_spacing: 7, par_spacing: 8 };
    assert_eq!(p.output, vec![Command::SetTextStyle(expected)]);
}

#[test]
fn spacing_layout_silent_without_amount() {
    let f = SpacingFunc { target: SpacingTarget::Word, spacing: None };
    let p = f.layout(mk_ctx());
    assert!(p.output.is_empty());
}

#[test]
fn spacing_meta_distinguishes_functions() {
    let mut ctx = ParseContext { parser: TextParser };
    let h = |amount: u64| header(vec![pos_arg(Value::Int(amount), 3, 4)]);
    let word = SpacingFunc::parse(h(5), None, &mut ctx, SpacingTarget::Word);
    let par = SpacingFunc::parse(h(5), None, &mut ctx, SpacingTarget::Paragraph);
    assert_eq!(word.output.target, SpacingTarget::Word);
    assert_eq!(par.output.target, SpacingTarget::Paragraph);
    assert_eq!(word.output.spacing, par.output.spacing);
}
