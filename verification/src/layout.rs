//! The layout protocol: the space budget laid out into ([`Area`], [`Areas`]),
//! the synchronous contract for primitive geometric nodes ([`Layout`]), the
//! contract for composite content nodes ([`Model`]), and the instruction
//! stream both produce ([`Command`]).

pub mod fixed;

use vstd::prelude::*;
use crate::geom::Size;
use crate::style::{LayoutStyle, TextStyle};
use crate::syntax::{Spanned, SyntaxModel, SyntaxNode};
use crate::{FeedbackView, Pass};
use crate::layout::fixed::NodeFixed;

verus! {

/// One layout region: the size originally granted (`full`) and the part of
/// it still available (`rem`). This core never shrinks `rem` itself; that is
/// the business of a higher-level cursor.
#[derive(Clone, Copy, Debug, PartialEq, Eq, Structural)]
pub struct Area {
    /// The total size of the region as originally granted.
    pub full: Size,
    /// The space still available within the region.
    pub rem: Size,
}

impl Area {
    /// Well-formed: what remains never exceeds what was granted.
    pub open spec fn wf(self) -> bool {
        self.rem.fits_into(self.full)
    }
}

/// The mathematical content of an [`Areas`]: the active region and the
/// successor regions overflow could flow into.
#[verifier::ext_equal]
pub ghost struct AreasView {
    /// The active region.
    pub current: Area,
    /// The regions that would follow it, in order.
    pub successors: Seq<Area>,
}

impl AreasView {
    /// The view of a sequence of exactly one region of size `size`, entirely
    /// available and with nothing to flow into.
    pub open spec fn once(size: Size) -> AreasView {
        AreasView {
            current: Area { full: size, rem: size },
            successors: Seq::empty(),
        }
    }

    /// Well-formed: every region is well-formed.
    pub open spec fn wf(self) -> bool {
        self.current.wf() && forall|i: int|
            0 <= i < self.successors.len() ==> #[trigger] self.successors[i].wf()
    }
}

/// A cursor over the successive regions a layout may occupy to accommodate
/// overflow, such as following pages or columns. What a child does when it
/// exhausts the last region — clip, error or extend — is the child's own
/// contract, not the area model's.
#[derive(Clone, Debug, PartialEq, Eq)]
pub struct Areas {
    current: Area,
    backlog: Vec<Area>,
}

impl View for Areas {
    type V = AreasView;

    closed spec fn view(&self) -> AreasView {
        AreasView { current: self.current, successors: self.backlog@ }
    }
}

impl Areas {
    /// A sequence of regions for a higher-level cursor to hand out: the
    /// active region first, then the successors overflow may flow into.
    /// Every region must be well-formed: what remains never exceeds what
    /// was granted.
    pub fn new(current: Area, backlog: Vec<Area>) -> (a: Areas)
        requires
            current.wf(),
            forall|i: int| 0 <= i < backlog@.len() ==> (#[trigger] backlog@[i]).wf(),
        ensures
            a@ == (AreasView { current, successors: backlog@ }),
            a@.wf(),
    {
        let a = Areas { current, backlog };
        proof {
            assert(a@ =~= (AreasView { current, successors: a.backlog@ }));
        }
        a
    }

    /// How many successor regions follow the active one; a sequence made by
    /// [`Areas::once`] has none, and never will.
    pub fn successor_count(&self) -> (n: usize)
        ensures
            n == self@.successors.len(),
    {
        self.backlog.len()
    }

    /// A sequence of exactly one region, entirely available at `size`, with
    /// no successor region: layout that overflows it has nowhere further to
    /// flow. A zero size is legal; the content is then degenerate.
    pub fn once(size: Size) -> (a: Areas)
        ensures
            a@ == AreasView::once(size),
            a@.wf(),
    {
        let a = Areas { current: Area { full: size, rem: size }, backlog: Vec::new() };
        proof {
            assert(a@ =~= AreasView::once(size));
        }
        a
    }

    /// A read-only projection of the active region.
    pub fn current(&self) -> (a: Area)
        ensures
            a == self@.current,
    {
        self.current
    }
}

/// The per-node outcome of one synchronous layout: the size the node settled
/// on. Primitive geometric nodes are defined never to fail, so a `Layouted`
/// carries no diagnostics.
#[derive(Clone, Copy, Debug, PartialEq, Eq, Structural)]
pub struct Layouted {
    /// The size the node occupies.
    pub size: Size,
}

/// The context for one layout pass: configuration this core reads but never
/// redefines. Its lifetime is scoped to a single pass; no layout state
/// persists across independent documents.
#[derive(Clone, Copy, Debug, PartialEq, Eq, Structural)]
pub struct LayoutContext {
    /// The style configuration in force.
    pub style: LayoutStyle,
}

/// One instruction in the emitted layout stream. Commands are produced in
/// the order children are visited; no downstream consumer may reorder them,
/// and variants a consumer does not understand are inert.
#[derive(Clone, Debug, PartialEq)]
pub enum Command {
    /// Lay out this content tree next.
    LayoutSyntaxModel(SyntaxModel),
    /// Place this finished layout result next.
    Add(Layouted),
    /// Use this text style from here on.
    SetTextStyle(TextStyle),
}

/// The ordered instruction stream one [`Model`] layout emits.
pub type Commands = Vec<Command>;

/// The view of one command: what it instructs, with content trees taken by
/// their views.
pub ghost enum CommandView {
    /// Lay out the content tree with this view next.
    LayoutSyntaxModel(Seq<Spanned<SyntaxNode>>),
    /// Place this finished layout result next.
    Add(Layouted),
    /// Use this text style from here on.
    SetTextStyle(TextStyle),
}

/// The view of a whole command stream, in emission order.
pub open spec fn command_views(s: Seq<Command>) -> Seq<CommandView> {
    s.map(
        |i: int, c: Command|
            match c {
                Command::LayoutSyntaxModel(m) => CommandView::LayoutSyntaxModel(m@),
                Command::Add(l) => CommandView::Add(l),
                Command::SetTextStyle(t) => CommandView::SetTextStyle(t),
            },
    )
}

/// The synchronous layout contract for primitive geometric nodes: the result
/// is a function of the node, the context and the areas alone, the context
/// comes back unchanged, and layout cannot fail.
pub trait Layout {
    /// What laying this value out yields, as a function of context and areas.
    spec fn layouted(&self, ctx: LayoutContext, areas: AreasView) -> Layouted;

    /// Lay this value out within the given areas.
    fn layout(&self, ctx: &mut LayoutContext, areas: &Areas) -> (l: Layouted)
        ensures
            l == self.layouted(*old(ctx), areas@),
            *final(ctx) == *old(ctx),
    ;
}

/// The layout contract for composite content nodes. Each invocation starts
/// from fresh feedback, runs the node's own layout logic — which may recurse
/// into children, merging their feedback — and packages the emitted command
/// stream with the accumulated diagnostics.
pub trait Model {
    /// The command stream this value emits, as a function of the context.
    spec fn commands(&self, ctx: LayoutContext) -> Seq<CommandView>;

    /// The diagnostics this value's layout accumulates.
    spec fn diagnostics(&self, ctx: LayoutContext) -> FeedbackView;

    /// Lay this value out: emit its commands and the feedback they incurred.
    fn layout(&self, ctx: LayoutContext) -> (r: Pass<Commands>)
        ensures
            command_views(r.output@) == self.commands(ctx),
            r.feedback@ == self.diagnostics(ctx),
    ;
}

/// An owned handle to a primitive layoutable value, moved, cloned and
/// compared by value. The variants are the primitive nodes of this core;
/// each defines its own layout, equality and clone behaviour.
#[derive(Debug, PartialEq)]
pub enum Node {
    /// A node that fills exactly the space remaining in the active region.
    Filler,
    /// A node that fixes its child's width and height.
    Fixed(NodeFixed),
}

impl Clone for Node {
    /// A clone of a node equals the node.
    fn clone(&self) -> (res: Self)
        ensures
            res == *self,
        decreases self,
    {
        match self {
            Node::Filler => Node::Filler,
            Node::Fixed(f) => Node::Fixed(f.clone()),
        }
    }
}

impl Node {
    /// The layout result of a node: a filler takes all remaining space; a
    /// fixed node resolves its size against the active region and frames its
    /// child in a fresh singleton region of that size.
    pub open spec fn layouted_spec(self, ctx: LayoutContext, areas: AreasView) -> Layouted
        decreases self,
    {
        match self {
            Node::Filler => Layouted { size: areas.current.rem },
            Node::Fixed(f) => (*f.child).layouted_spec(
                ctx,
                AreasView::once(f.resolved_size(areas.current)),
            ),
        }
    }

}

impl Layout for Node {
    /// What laying this node out yields: its layout rule applied to the
    /// context and areas.
    open spec fn layouted(&self, ctx: LayoutContext, areas: AreasView) -> Layouted {
        self.layouted_spec(ctx, areas)
    }

    fn layout(&self, ctx: &mut LayoutContext, areas: &Areas) -> (l: Layouted)
        decreases *self,
    {
        match self {
            Node::Filler => Layouted { size: areas.current().rem },
            Node::Fixed(f) => {
                let size = f.resolve_size(&areas.current());
                let sub = Areas::once(size);
                f.child.layout(ctx, &sub)
            },
        }
    }
}

} // verus!
