//! Two functions built on the extension protocol: one hides its body behind
//! a boolean argument, one backs several spacing functions through its
//! registration metadata. Both follow the uniform contract: extract what
//! they recognize, apply a body policy, drain the rest into diagnostics.

use vstd::prelude::*;
use vstd::string::StringExecFns;
use crate::func::{
    args_after_take, body_nope, body_nope_marks, body_opt, bool_marks, drain_unused_arguments,
    int_marks, taken_bool, taken_int, unexpected_arg_marks, FuncHeader, NoMeta, ParseFunc,
};
use crate::layout::{command_views, Command, CommandView, Commands, LayoutContext, Model};
use crate::style::TextStyle;
use crate::syntax::{Decoration, ParseContext, Parser, Span, Spanned, SyntaxModel};
use crate::{error_marks, Feedback, FeedbackView, Pass};

verus! {

/// A function that hides its body depending on a boolean argument: the
/// argument `hidden` decides, under the documented extraction pattern, and
/// the body is handled under the optional-body policy.
#[derive(Debug, PartialEq)]
pub struct HiderFunc {
    /// The body to lay out, where it is not hidden.
    pub body: Option<SyntaxModel>,
}

impl ParseFunc for HiderFunc {
    type Meta = NoMeta;

    fn parse<P: Parser>(
        header: FuncHeader,
        body: Option<Spanned<String>>,
        ctx: &mut ParseContext<P>,
        metadata: NoMeta,
    ) -> (r: Pass<HiderFunc>)
        ensures
            r.output.body is Some <==> (body is Some && taken_bool(header.args@, "hidden"@)
                != Some(true)),
            body is None ==> error_marks(r.feedback@.errors) == bool_marks(
                header.args@,
                "hidden"@,
                header.name.span,
            ) + unexpected_arg_marks(args_after_take(header.args@, "hidden"@)),
            body is None ==> r.feedback@.decorations == Seq::<Spanned<Decoration>>::empty(),
            exists|pre: Seq<(Seq<char>, Span)>|
                error_marks(r.feedback@.errors) == pre + bool_marks(
                    header.args@,
                    "hidden"@,
                    header.name.span,
                ) + unexpected_arg_marks(args_after_take(header.args@, "hidden"@)),
    {
        let mut header = header;
        let ghost orig_args = header.args@;
        let mut feedback = Feedback::new();
        let body_model = body_opt(body, ctx, &mut feedback);
        let ghost pre = error_marks(feedback@.errors);
        let name = String::from_str("hidden");
        let hidden_opt = header.args.expect_bool(&name, header.name.span, &mut feedback);
        let hidden = match hidden_opt {
            Some(b) => b,
            None => false,
        };
        let func = HiderFunc { body: if hidden { None } else { body_model } };
        drain_unused_arguments(header, &mut feedback);
        proof {
            assert(error_marks(feedback@.errors) =~= pre + bool_marks(
                orig_args,
                "hidden"@,
                header.name.span,
            ) + unexpected_arg_marks(args_after_take(orig_args, "hidden"@)));
        }
        Pass::new(func, feedback)
    }
}

impl Model for HiderFunc {
    /// A hider emits its body as one layout instruction, or nothing at all.
    open spec fn commands(&self, ctx: LayoutContext) -> Seq<CommandView> {
        match self.body {
            Some(m) => seq![CommandView::LayoutSyntaxModel(m@)],
            None => Seq::empty(),
        }
    }

    /// Laying out a hider incurs no diagnostics.
    open spec fn diagnostics(&self, ctx: LayoutContext) -> FeedbackView {
        FeedbackView::empty()
    }

    fn layout(&self, ctx: LayoutContext) -> (r: Pass<Commands>) {
        let feedback = Feedback::new();
        let mut commands: Vec<Command> = Vec::new();
        match &self.body {
            Some(m) => {
                commands.push(Command::LayoutSyntaxModel(m.duplicate()));
            },
            None => {},
        }
        proof {
            assert(command_views(commands@) =~= self.commands(ctx));
        }
        Pass::new(commands, feedback)
    }
}

/// Which spacing a spacing function controls.
#[derive(Clone, Copy, Debug, PartialEq, Eq, Structural)]
pub enum SpacingTarget {
    /// The space between words.
    Word,
    /// The space between lines.
    Line,
    /// The space between paragraphs.
    Paragraph,
}

/// One implementation backing several distinctly named spacing functions:
/// the metadata supplied at registration names the spacing the invocation
/// controls, the argument `spacing` gives the amount. Expects no body.
#[derive(Clone, Copy, Debug, PartialEq)]
pub struct SpacingFunc {
    /// Which spacing this invocation controls.
    pub target: SpacingTarget,
    /// The amount, where the argument was given and was an integer.
    pub spacing: Option<u64>,
}

impl SpacingFunc {
    /// The text style this function sets: the base style with its one
    /// targeted spacing replaced.
    pub open spec fn applied_style(self, base: TextStyle, amount: u64) -> TextStyle {
        match self.target {
            SpacingTarget::Word => TextStyle { word_spacing: amount, ..base },
            SpacingTarget::Line => TextStyle { line_spacing: amount, ..base },
            SpacingTarget::Paragraph => TextStyle { par_spacing: amount, ..base },
        }
    }
}

impl ParseFunc for SpacingFunc {
    type Meta = SpacingTarget;

    fn parse<P: Parser>(
        header: FuncHeader,
        body: Option<Spanned<String>>,
        ctx: &mut ParseContext<P>,
        metadata: SpacingTarget,
    ) -> (r: Pass<SpacingFunc>)
        ensures
            r.output.target == metadata,
            r.output.spacing == taken_int(header.args@, "spacing"@),
            error_marks(r.feedback@.errors) == body_nope_marks(body) + int_marks(
                header.args@,
                "spacing"@,
                header.name.span,
            ) + unexpected_arg_marks(args_after_take(header.args@, "spacing"@)),
            r.feedback@.decorations == Seq::<Spanned<Decoration>>::empty(),
    {
        let mut header = header;
        let ghost orig_args = header.args@;
        let mut feedback = Feedback::new();
        body_nope(body, &mut feedback);
        let name = String::from_str("spacing");
        let spacing = header.args.expect_int(&name, header.name.span, &mut feedback);
        let func = SpacingFunc { target: metadata, spacing };
        drain_unused_arguments(header, &mut feedback);
        proof {
            assert(error_marks(feedback@.errors) =~= body_nope_marks(body) + int_marks(
                orig_args,
                "spacing"@,
                header.name.span,
            ) + unexpected_arg_marks(args_after_take(orig_args, "spacing"@)));
        }
        Pass::new(func, feedback)
    }
}

impl Model for SpacingFunc {
    /// A spacing function emits one style instruction, or nothing where its
    /// amount was never given.
    open spec fn commands(&self, ctx: LayoutContext) -> Seq<CommandView> {
        match self.spacing {
            Some(n) => seq![CommandView::SetTextStyle(self.applied_style(ctx.style.text, n))],
            None => Seq::empty(),
        }
    }

    /// Laying out a spacing function incurs no diagnostics.
    open spec fn diagnostics(&self, ctx: LayoutContext) -> FeedbackView {
        FeedbackView::empty()
    }

    fn layout(&self, ctx: LayoutContext) -> (r: Pass<Commands>) {
        let feedback = Feedback::new();
        let mut commands: Vec<Command> = Vec::new();
        match self.spacing {
            Some(n) => {
                let mut style = ctx.style.text;
                match self.target {
                    SpacingTarget::Word => {
                        style.word_spacing = n;
                    },
                    SpacingTarget::Line => {
                        style.line_spacing = n;
                    },
                    SpacingTarget::Paragraph => {
                        style.par_spacing = n;
                    },
                }
                commands.push(Command::SetTextStyle(style));
            },
            None => {},
        }
        proof {
            assert(command_views(commands@) =~= self.commands(ctx));
        }
        Pass::new(commands, feedback)
    }
}

} // verus!
