//! Source spans, the content tree handed over by the markup parser, and the
//! re-entrant entry point back into that parser.

use vstd::prelude::*;
use crate::Pass;

verus! {

/// A region of the source text, as byte offsets into the original document.
#[derive(Clone, Copy, Debug, PartialEq, Eq, Structural)]
pub struct Span {
    /// The offset at which the region starts.
    pub start: u64,
    /// The offset one past the region's last byte.
    pub end: u64,
}

impl Span {
    /// Create a span from its two offsets.
    pub fn new(start: u64, end: u64) -> (s: Span)
        ensures
            s == (Span { start, end }),
    {
        Span { start, end }
    }
}

/// A value paired with the source span it came from.
#[derive(Clone, Copy, Debug, PartialEq, Eq)]
pub struct Spanned<T> {
    /// The value itself.
    pub v: T,
    /// The source region the value spans.
    pub span: Span,
}

impl<T> Spanned<T> {
    /// Attach a span to a value.
    pub fn new(v: T, span: Span) -> (s: Spanned<T>)
        ensures
            s == (Spanned { v, span }),
    {
        Spanned { v, span }
    }
}

/// A non-error diagnostic: a style note attached to a source range.
#[derive(Clone, Copy, Debug, PartialEq, Eq, Structural)]
pub enum Decoration {
    /// The range is strongly emphasized.
    Strong,
    /// The range is emphasized.
    Emph,
    /// The range is set in monospace.
    Monospace,
}

/// One content node of the syntax model.
#[derive(Clone, Debug, PartialEq, Eq)]
pub enum SyntaxNode {
    /// Whitespace between words.
    Space,
    /// A run of plain text.
    Text(String),
}

/// The content tree produced by parsing a stretch of markup source.
#[derive(Clone, Debug, PartialEq, Eq)]
pub struct SyntaxModel {
    /// The content nodes in document order.
    pub nodes: Vec<Spanned<SyntaxNode>>,
}

impl View for SyntaxModel {
    type V = Seq<Spanned<SyntaxNode>>;

    open spec fn view(&self) -> Seq<Spanned<SyntaxNode>> {
        self.nodes@
    }
}

impl SyntaxModel {
    /// An empty content tree.
    pub fn new() -> (m: SyntaxModel)
        ensures
            m@ == Seq::<Spanned<SyntaxNode>>::empty(),
    {
        SyntaxModel { nodes: Vec::new() }
    }

    /// An exact copy of this content tree.
    pub fn duplicate(&self) -> (r: SyntaxModel)
        ensures
            r@ == self@,
    {
        let mut nodes: Vec<Spanned<SyntaxNode>> = Vec::new();
        let mut i: usize = 0;
        while i < self.nodes.len()
            invariant
                i <= self.nodes.len(),
                nodes@ == self.nodes@.subrange(0, i as int),
            decreases self.nodes.len() - i,
        {
            let n = &self.nodes[i];
            let v = match &n.v {
                SyntaxNode::Space => SyntaxNode::Space,
                SyntaxNode::Text(s) => SyntaxNode::Text(s.clone()),
            };
            nodes.push(Spanned { v, span: n.span });
            proof {
                assert(nodes@ =~= self.nodes@.subrange(0, i + 1));
            }
            i = i + 1;
        }
        proof {
            assert(nodes@ =~= self.nodes@);
        }
        SyntaxModel { nodes }
    }
}

/// The markup parser, an external collaborator: given the offset at which a
/// stretch of raw text starts in the original document, it returns the parsed
/// content tree together with whatever parse diagnostics arose. Nothing is
/// assumed of the result; callers merge the returned feedback into their own.
pub trait Parser {
    /// Parse raw source text that begins at `offset` in the document.
    fn parse(&mut self, offset: u64, text: &str) -> Pass<SyntaxModel>;
}

/// The context threaded through function parsing: it carries the handle back
/// into the markup parser, for function bodies that need re-entrant parsing.
pub struct ParseContext<P> {
    /// The parser to hand nested bodies to.
    pub parser: P,
}

} // verus!
