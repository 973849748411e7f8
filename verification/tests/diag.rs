use typstc::syntax::{Decoration, Span, Spanned};
use typstc::{Feedback, Pass};

fn err(msg: &str, a: u64, b: u64) -> Spanned<String> {
    Spanned::new(msg.to_string(), Span::new(a, b))
}

fn deco(d: Decoration, a: u64, b: u64) -> Spanned<Decoration> {
    Spanned { v: d, span: Span { start: a, end: b } }
}

#[test]
fn extend_appends_in_order() {
    let mut a = Feedback::new();
    a.errors.push(err("first", 0, 1));
    let mut b = Feedback::new();
    b.errors.push(err("second", 2, 3));
    b.decorations.push(deco(Decoration::Strong, 4, 5));
    a.extend(b);
    assert_eq!(a.errors.len(), 2);
    assert_eq!(a.errors[0].v, "first");
    assert_eq!(a.errors[1].v, "second");
    assert_eq!(a.decorations.len(), 1);
    assert_eq!(a.decorations[0].v, Decoration::Strong);
}

#[test]
fn extend_is_associative() {
    let make = |msg: &str, d: Decoration| {
        let mut f = Feedback::new();
        f.errors.push(err(msg, 0, 1));
        f.decorations.push(deco(d, 2, 3));
        f
    };
    let mut left = make("a", Decoration::Strong);
    let mut ab = left.clone();
    ab = {
        ab.extend(make("b", Decoration::Emph));
        ab
    };
    let mut left_total = ab;
    left_total.extend(make("c", Decoration::Monospace));

    let mut bc = make("b", Decoration::Emph);
    bc.extend(make("c", Decoration::Monospace));
    left = make("a", Decoration::Strong);
    let mut right_total = left;
    right_total.extend(bc);

    assert_eq!(left_total, right_total);
    assert_eq!(left_total.errors[0].v, "a");
    assert_eq!(left_total.errors[1].v, "b");
    assert_eq!(left_total.errors[2].v, "c");
}

#[test]
fn pass_keeps_output_despite_errors() {
    let mut f = Feedback::new();
    f.errors.push(err("advisory", 0, 4));
    let p = Pass::new(41u64, f);
    assert_eq!(p.output, 41);
    assert_eq!(p.feedback.errors.len(), 1);
}

#[test]
fn fresh_feedback_is_empty() {
    let f = Feedback::new();
    assert!(f.errors.is_empty());
    assert!(f.decorations.is_empty());
}
