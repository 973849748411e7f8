//! A primitive node that fixes its child's width and height: the general
//! pattern for any size-constraining wrapper is resolve, reframe, delegate.

use vstd::prelude::*;
use crate::geom::{Linear, Size};
use crate::layout::{Area, Areas, AreasView, Layout, LayoutContext, Layouted, Node};

verus! {

/// A node that can fix its child's width and height. A set dimension
/// resolves against the full size of the active region, matching "fixed to a
/// share of the page"; an unset one falls back to the space remaining,
/// matching "fill what is left".
#[derive(Debug, PartialEq)]
pub struct NodeFixed {
    /// The fixed width, if any.
    pub width: Option<Linear>,
    /// The fixed height, if any.
    pub height: Option<Linear>,
    /// The child node whose size to fix.
    pub child: Box<Node>,
}

impl Clone for NodeFixed {
    /// A clone of a fixed node equals the node.
    fn clone(&self) -> (res: Self)
        ensures
            res == *self,
        decreases self,
    {
        NodeFixed {
            width: self.width,
            height: self.height,
            child: Box::new((&*self.child).clone()),
        }
    }
}

impl NodeFixed {
    /// The size this node fixes for its child within the given region: a set
    /// dimension resolves against the region's full extent, an unset one is
    /// the extent still remaining.
    pub open spec fn resolved_size(self, area: Area) -> Size {
        Size {
            width: match self.width {
                Some(w) => w.spec_resolve(area.full.width),
                None => area.rem.width,
            },
            height: match self.height {
                Some(h) => h.spec_resolve(area.full.height),
                None => area.rem.height,
            },
        }
    }

    /// Compute the size this node fixes for its child within `area`.
    pub fn resolve_size(&self, area: &Area) -> (s: Size)
        ensures
            s == self.resolved_size(*area),
    {
        let width = match &self.width {
            Some(w) => w.resolve(area.full.width),
            None => area.rem.width,
        };
        let height = match &self.height {
            Some(h) => h.resolve(area.full.height),
            None => area.rem.height,
        };
        Size::new(width, height)
    }
}

impl Layout for NodeFixed {
    /// The fixed-node rule: resolve the size against the active region, then
    /// delegate the child into a fresh singleton area sequence of exactly
    /// that size.
    open spec fn layouted(&self, ctx: LayoutContext, areas: AreasView) -> Layouted {
        (*self.child).layouted_spec(ctx, AreasView::once(self.resolved_size(areas.current)))
    }

    fn layout(&self, ctx: &mut LayoutContext, areas: &Areas) -> (l: Layouted) {
        let size = self.resolve_size(&areas.current());
        let sub = Areas::once(size);
        self.child.layout(ctx, &sub)
    }
}

impl From<NodeFixed> for Node {
    /// Erase a fixed node into the uniform node handle.
    fn from(fixed: NodeFixed) -> (n: Node) {
        Node::Fixed(fixed)
    }
}

impl vstd::std_specs::convert::FromSpecImpl<NodeFixed> for Node {
    open spec fn obeys_from_spec() -> bool {
        true
    }

    open spec fn from_spec(fixed: NodeFixed) -> Node {
        Node::Fixed(fixed)
    }
}

/// With neither dimension set, a fixed node frames its child in exactly the
/// space remaining in the enclosing region, whatever that region's full size.
pub proof fn lemma_unset_dimensions_take_remaining(f: NodeFixed, area: Area)
    requires
        f.width is None,
        f.height is None,
    ensures
        f.resolved_size(area) == area.rem,
{
}

/// A set width resolves against the region's full width alone; the width
/// still remaining in the region plays no part.
pub proof fn lemma_set_width_resolves_against_full(f: NodeFixed, area: Area, l: Linear)
    requires
        f.width == Some(l),
    ensures
        f.resolved_size(area).width == l.spec_resolve(area.full.width),
{
}

/// The round trip of the fixed rule: laying out a fixed node within some
/// areas is laying out its child directly against a fresh singleton area
/// sequence of the node's resolved size.
pub proof fn lemma_fixed_round_trip(f: NodeFixed, ctx: LayoutContext, areas: AreasView)
    ensures
        f.layouted(ctx, areas) == (*f.child).layouted_spec(
            ctx,
            AreasView::once(f.resolved_size(areas.current)),
        ),
{
}

} // verus!
