use typstc::geom::{Linear, Size};
use typstc::layout::fixed::NodeFixed;
use typstc::layout::{Area, Areas, Layout, LayoutContext, Node};
use typstc::style::{LayoutStyle, PageStyle, TextStyle};

fn ctx() -> LayoutContext {
    LayoutContext {
        style: LayoutStyle {
            page: PageStyle { size: Size::new(600, 800) },
            text: TextStyle { font_size: 11, word_spacing: 2, line_spacing: 4, par_spacing: 8 },
        },
    }
}

#[test]
fn once_region_is_fully_available() {
    let s = Size::new(120, 80);
    let a = Areas::once(s);
    assert_eq!(a.current(), Area { full: s, rem: s });
    assert_eq!(a.successor_count(), 0);
}

#[test]
fn zero_size_region_is_legal() {
    let a = Areas::once(Size::new(0, 0));
    let mut c = ctx();
    let l = Node::Filler.layout(&mut c, &a);
    assert_eq!(l.size, Size::new(0, 0));
}

#[test]
fn unset_dimensions_take_remaining() {
    let areas = Areas::new(
        Area { full: Size::new(100, 100), rem: Size::new(40, 30) },
        Vec::new(),
    );
    let f = NodeFixed { width: None, height: None, child: Box::new(Node::Filler) };
    let mut c = ctx();
    assert_eq!(f.layout(&mut c, &areas).size, Size::new(40, 30));
}

#[test]
fn set_width_resolves_against_full() {
    let f = NodeFixed {
        width: Some(Linear { abs: 0, rat: 500 }),
        height: None,
        child: Box::new(Node::Filler),
    };
    let mut c = ctx();
    let narrow = Areas::new(
        Area { full: Size::new(200, 100), rem: Size::new(10, 60) },
        Vec::new(),
    );
    let wide = Areas::new(
        Area { full: Size::new(200, 100), rem: Size::new(180, 60) },
        Vec::new(),
    );
    assert_eq!(f.layout(&mut c, &narrow).size, Size::new(100, 60));
    assert_eq!(f.layout(&mut c, &wide).size, Size::new(100, 60));
}

#[test]
fn fixed_round_trip_matches_direct_child_layout() {
    let f = NodeFixed {
        width: Some(Linear { abs: 50, rat: 0 }),
        height: Some(Linear { abs: 20, rat: 100 }),
        child: Box::new(Node::Filler),
    };
    let outer = Areas::once(Size::new(200, 100));
    let mut c = ctx();
    let through_fixed = f.layout(&mut c, &outer);
    let resolved = Size::new(50, 30);
    let direct = Node::Filler.layout(&mut c, &Areas::once(resolved));
    assert_eq!(through_fixed, direct);
    assert_eq!(through_fixed.size, resolved);
}

#[test]
fn nested_fixed_reframes_twice() {
    let inner = NodeFixed {
        width: Some(Linear { abs: 0, rat: 500 }),
        height: None,
        child: Box::new(Node::Filler),
    };
    let outer = NodeFixed {
        width: Some(Linear { abs: 100, rat: 0 }),
        height: Some(Linear { abs: 50, rat: 0 }),
        child: Box::new(Node::Fixed(inner)),
    };
    let mut c = ctx();
    let l = outer.layout(&mut c, &Areas::once(Size::new(400, 400)));
    assert_eq!(l.size, Size::new(50, 50));
}

#[test]
fn node_from_erases_fixed() {
    let f = NodeFixed {
        width: Some(Linear { abs: 7, rat: 0 }),
        height: None,
        child: Box::new(Node::Filler),
    };
    let n = Node::from(f.clone());
    assert_eq!(n, Node::Fixed(f));
}

#[test]
fn node_clone_equals_original() {
    let f = NodeFixed {
        width: None,
        height: Some(Linear { abs: 1, rat: 2 }),
        child: Box::new(Node::Filler),
    };
    let n = Node::Fixed(f);
    assert_eq!(n.clone(), n);
}
