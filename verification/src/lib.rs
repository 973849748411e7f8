//! The layout core of a document compiler: geometry and space budgets, the
//! layout protocol that turns content nodes into an ordered stream of
//! placement commands, the diagnostics that every stage accumulates, and the
//! protocol by which user functions parse their own arguments and bodies.

pub mod func;
pub mod geom;
pub mod layout;
pub mod library;
pub mod style;
pub mod syntax;

use vstd::prelude::*;
use crate::syntax::{Decoration, Span, Spanned};

verus! {

/// The view of an error sequence that the diagnostic contracts speak of:
/// each error as its message text and its span, in emission order.
pub open spec fn error_marks(errors: Seq<Spanned<String>>) -> Seq<(Seq<char>, Span)> {
    errors.map(|i: int, e: Spanned<String>| (e.v@, e.span))
}

/// The diagnostics a computation has accumulated so far: errors and style
/// decorations, each kept in the order it was emitted. Feedback is merged
/// upward stage by stage and never aborts anything by itself; whether an
/// error is fatal is the top-level driver's decision.
#[derive(Clone, Debug, PartialEq)]
pub struct Feedback {
    /// The errors collected so far, in emission order.
    pub errors: Vec<Spanned<String>>,
    /// The decorations collected so far, in emission order.
    pub decorations: Vec<Spanned<Decoration>>,
}

/// The mathematical content of a [`Feedback`]: its two diagnostic sequences.
#[verifier::ext_equal]
pub ghost struct FeedbackView {
    /// The error sequence, in emission order.
    pub errors: Seq<Spanned<String>>,
    /// The decoration sequence, in emission order.
    pub decorations: Seq<Spanned<Decoration>>,
}

impl View for Feedback {
    type V = FeedbackView;

    open spec fn view(&self) -> FeedbackView {
        FeedbackView { errors: self.errors@, decorations: self.decorations@ }
    }
}

impl FeedbackView {
    /// Feedback with no diagnostics at all.
    pub open spec fn empty() -> FeedbackView {
        FeedbackView { errors: Seq::empty(), decorations: Seq::empty() }
    }

    /// The merge of two feedbacks: all of `self`'s diagnostics first, then
    /// all of `other`'s, both in their original order.
    pub open spec fn merged(self, other: FeedbackView) -> FeedbackView {
        FeedbackView {
            errors: self.errors + other.errors,
            decorations: self.decorations + other.decorations,
        }
    }
}

impl Feedback {
    /// Fresh feedback with no diagnostics.
    pub fn new() -> (f: Feedback)
        ensures
            f@ == FeedbackView::empty(),
    {
        let f = Feedback { errors: Vec::new(), decorations: Vec::new() };
        proof {
            assert(f@ =~= FeedbackView::empty());
        }
        f
    }

    /// Append all of `other`'s diagnostics after this value's own, keeping
    /// both emission orders.
    pub fn extend(&mut self, other: Feedback)
        ensures
            final(self)@ == old(self)@.merged(other@),
    {
        let mut other = other;
        let ghost incoming = other@;
        self.errors.append(&mut other.errors);
        self.decorations.append(&mut other.decorations);
        proof {
            assert(self@ =~= old(self)@.merged(incoming));
        }
    }

    /// Record one error: its message, tagged with the source span at fault.
    pub fn report(&mut self, msg: String, span: Span)
        ensures
            error_marks(final(self)@.errors) == error_marks(old(self)@.errors).push(
                (msg@, span),
            ),
            final(self)@.errors.len() == old(self)@.errors.len() + 1,
            final(self)@.decorations == old(self)@.decorations,
    {
        let ghost m = msg@;
        self.errors.push(Spanned { v: msg, span });
        proof {
            assert(error_marks(self@.errors) =~= error_marks(old(self)@.errors).push((m, span)));
        }
    }
}

/// Merging feedback is associative: `(a merged b) merged c` carries exactly
/// the diagnostics of `a merged (b merged c)`, in the same sequence.
pub proof fn lemma_merged_associative(a: FeedbackView, b: FeedbackView, c: FeedbackView)
    ensures
        a.merged(b).merged(c) == a.merged(b.merged(c)),
{
    assert(a.merged(b).merged(c) =~= a.merged(b.merged(c)));
}

/// Merging feedback preserves order and content: the merge begins with all
/// of `a`'s diagnostics at their old positions and continues with all of
/// `b`'s, shifted behind them.
pub proof fn lemma_merged_order(a: FeedbackView, b: FeedbackView)
    ensures
        a.merged(b).errors.len() == a.errors.len() + b.errors.len(),
        a.merged(b).decorations.len() == a.decorations.len() + b.decorations.len(),
        forall|i: int| 0 <= i < a.errors.len() ==> a.merged(b).errors[i] == a.errors[i],
        forall|i: int|
            0 <= i < b.errors.len() ==> a.merged(b).errors[a.errors.len() + i] == b.errors[i],
        forall|i: int|
            0 <= i < a.decorations.len() ==> a.merged(b).decorations[i] == a.decorations[i],
        forall|i: int|
            0 <= i < b.decorations.len() ==> a.merged(b).decorations[a.decorations.len() + i]
                == b.decorations[i],
{
}

/// A computed value together with the diagnostics its computation produced.
/// The value is never discarded because of errors: errors are advisory
/// unless the caller chooses to treat them as fatal.
#[derive(Clone, Debug, PartialEq)]
pub struct Pass<T> {
    /// The computed value.
    pub output: T,
    /// The diagnostics accumulated while computing it.
    pub feedback: Feedback,
}

impl<T> Pass<T> {
    /// Package a value with its accumulated feedback.
    pub fn new(output: T, feedback: Feedback) -> (p: Pass<T>)
        ensures
            p.output == output,
            p.feedback == feedback,
    {
        Pass { output, feedback }
    }
}

} // verus!
