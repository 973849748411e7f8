use typstc::geom::{Linear, Size};

#[test]
fn resolve_absolute_is_constant() {
    let l = Linear { abs: 30, rat: 0 };
    assert_eq!(l.resolve(100), 30);
    assert_eq!(l.resolve(0), 30);
    assert_eq!(l.resolve(7), 30);
}

#[test]
fn resolve_ratio_scales_reference() {
    let l = Linear { abs: 0, rat: 500 };
    assert_eq!(l.resolve(200), 100);
    assert_eq!(l.resolve(400), 200);
    assert_eq!(l.resolve(0), 0);
}

#[test]
fn resolve_mixed_adds_both_parts() {
    let l = Linear { abs: 10, rat: 250 };
    assert_eq!(l.resolve(400), 110);
}

#[test]
fn resolve_rounds_down() {
    let l = Linear { abs: 0, rat: 500 };
    assert_eq!(l.resolve(1), 0);
    assert_eq!(l.resolve(3), 1);
}

#[test]
fn resolve_additivity_holds_only_without_rounding() {
    let l = Linear { abs: 0, rat: 500 };
    assert_eq!(l.resolve(2), 1);
    assert_eq!(l.resolve(1) + l.resolve(1), 0);
    assert_eq!(l.resolve(4), l.resolve(2) + l.resolve(2));
}

#[test]
fn resolve_saturates_at_max() {
    let l = Linear { abs: u64::MAX, rat: 1000 };
    assert_eq!(l.resolve(u64::MAX), u64::MAX);
}

#[test]
fn linear_constructors() {
    assert_eq!(Linear::from_abs(12), Linear { abs: 12, rat: 0 });
    assert_eq!(Linear::from_rat(750), Linear { abs: 0, rat: 750 });
}

#[test]
fn size_pairs_components() {
    let s = Size::new(3, 4);
    assert_eq!(s.width, 3);
    assert_eq!(s.height, 4);
}
