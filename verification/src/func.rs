//! The function-extension protocol: a function invocation's header with its
//! consumable argument list, the two fixed body policies, the uniform
//! draining of unused arguments into diagnostics, and the [`ParseFunc`]
//! contract that ties them together.

use vstd::prelude::*;
use vstd::string::StringExecFns;
use crate::syntax::{ParseContext, Parser, Span, Spanned, SyntaxModel};
use crate::{error_marks, Feedback, FeedbackView, Pass};

verus! {

/// A literal value an argument can carry.
#[derive(Clone, Debug, PartialEq, Eq)]
pub enum Value {
    /// A boolean flag.
    Bool(bool),
    /// A non-negative integer.
    Int(u64),
    /// A string.
    Str(String),
}

/// One argument of a function invocation: positional, or named by a key.
#[derive(Clone, Debug, PartialEq, Eq)]
pub struct Arg {
    /// The key, for a named argument; a positional argument has none.
    pub key: Option<Spanned<String>>,
    /// The argument's value.
    pub value: Spanned<Value>,
    /// The span of the whole argument.
    pub span: Span,
}

/// The position of the first positional argument in a list, if any is left.
pub open spec fn first_pos_index(s: Seq<Arg>) -> Option<int>
    decreases s.len(),
{
    if s.len() <= 0 {
        None
    } else if s[0].key is None {
        Some(0int)
    } else {
        match first_pos_index(s.subrange(1, s.len() as int)) {
            None => None,
            Some(i) => Some(i + 1),
        }
    }
}

/// What `first_pos_index` finds: the first argument without a key, if one
/// is there at all.
pub proof fn lemma_first_pos_index(s: Seq<Arg>)
    ensures
        match first_pos_index(s) {
            None => forall|j: int| 0 <= j < s.len() ==> (#[trigger] s[j].key) is Some,
            Some(i) => 0 <= i < s.len() && s[i].key is None && forall|j: int|
                0 <= j < i ==> (#[trigger] s[j].key) is Some,
        },
    decreases s.len(),
{
    if s.len() > 0 && s[0].key is Some {
        let t = s.subrange(1, s.len() as int);
        lemma_first_pos_index(t);
        assert(forall|j: int| 0 <= j < t.len() ==> #[trigger] t[j] == s[j + 1]);
        match first_pos_index(t) {
            None => {
                assert forall|j: int| 0 <= j < s.len() implies (#[trigger] s[j].key) is Some by {
                    if j > 0 {
                        assert(s[j] == t[j - 1]);
                    }
                }
            },
            Some(i) => {
                assert(s[i + 1] == t[i]);
                assert forall|j: int| 0 <= j < i + 1 implies (#[trigger] s[j].key) is Some by {
                    if j > 0 {
                        assert(s[j] == t[j - 1]);
                    }
                }
            },
        }
    }
}

/// The position of the first argument named `key`, if any is left.
pub open spec fn first_key_index(s: Seq<Arg>, key: Seq<char>) -> Option<int>
    decreases s.len(),
{
    if s.len() <= 0 {
        None
    } else if s[0].key matches Some(sp) && sp.v@ == key {
        Some(0int)
    } else {
        match first_key_index(s.subrange(1, s.len() as int), key) {
            None => None,
            Some(i) => Some(i + 1),
        }
    }
}

/// Whether an argument is named `key`.
pub open spec fn named(a: Arg, key: Seq<char>) -> bool {
    a.key matches Some(sp) && sp.v@ == key
}

/// What `first_key_index` finds: the first argument named `key`, if one is
/// there at all.
pub proof fn lemma_first_key_index(s: Seq<Arg>, key: Seq<char>)
    ensures
        match first_key_index(s, key) {
            None => forall|j: int| 0 <= j < s.len() ==> !named(#[trigger] s[j], key),
            Some(i) => 0 <= i < s.len() && named(s[i], key) && forall|j: int|
                0 <= j < i ==> !named(#[trigger] s[j], key),
        },
    decreases s.len(),
{
    if s.len() > 0 && !named(s[0], key) {
        let t = s.subrange(1, s.len() as int);
        lemma_first_key_index(t, key);
        assert(forall|j: int| 0 <= j < t.len() ==> #[trigger] t[j] == s[j + 1]);
        match first_key_index(t, key) {
            None => {
                assert forall|j: int| 0 <= j < s.len() implies !named(#[trigger] s[j], key) by {
                    if j > 0 {
                        assert(s[j] == t[j - 1]);
                    }
                }
            },
            Some(i) => {
                assert(s[i + 1] == t[i]);
                assert forall|j: int| 0 <= j < i + 1 implies !named(#[trigger] s[j], key) by {
                    if j > 0 {
                        assert(s[j] == t[j - 1]);
                    }
                }
            },
        }
    }
}

/// Where the documented extraction pattern for the argument named `name`
/// looks: the first positional argument, or failing that the first argument
/// named `name`.
pub open spec fn value_source(s: Seq<Arg>, name: Seq<char>) -> Option<int> {
    match first_pos_index(s) {
        Some(i) => Some(i),
        None => first_key_index(s, name),
    }
}

/// The argument list after the extraction pattern for `name` has consumed
/// its argument, if it found one.
pub open spec fn args_after_take(s: Seq<Arg>, name: Seq<char>) -> Seq<Arg> {
    match value_source(s, name) {
        None => s,
        Some(i) => s.remove(i),
    }
}

/// The consumable argument list of one function invocation: positional and
/// named arguments in source order, each consumable at most once.
#[derive(Clone, Debug, PartialEq, Eq)]
pub struct FuncArgs {
    items: Vec<Arg>,
}

impl View for FuncArgs {
    type V = Seq<Arg>;

    closed spec fn view(&self) -> Seq<Arg> {
        self.items@
    }
}

impl FuncArgs {
    /// An argument list, in source order.
    pub fn new(items: Vec<Arg>) -> (a: FuncArgs)
        ensures
            a@ == items@,
    {
        FuncArgs { items }
    }

    /// How many arguments are still unconsumed.
    pub fn len(&self) -> (n: usize)
        ensures
            n == self@.len(),
    {
        self.items.len()
    }

    /// Give up the remaining arguments, in order.
    pub fn into_vec(self) -> (v: Vec<Arg>)
        ensures
            v@ == self@,
    {
        self.items
    }

    /// Remove and return the value of the first positional argument, if one
    /// is left.
    pub fn take_pos(&mut self) -> (r: Option<Spanned<Value>>)
        ensures
            match first_pos_index(old(self)@) {
                None => r is None && final(self)@ == old(self)@,
                Some(i) => r == Some(old(self)@[i].value) && final(self)@ == old(self)@.remove(i),
            },
    {
        let n = self.items.len();
        let mut i: usize = 0;
        while i < n
            invariant
                i <= n,
                n == self.items.len(),
                *self == *old(self),
                forall|j: int| 0 <= j < i ==> (#[trigger] self.items@[j].key) is Some,
            decreases n - i,
        {
            let found = match &self.items[i].key {
                None => true,
                Some(_) => false,
            };
            if found {
                proof {
                    lemma_first_pos_index(old(self)@);
                    assert(self.items@[i as int].key is None);
                    match first_pos_index(old(self)@) {
                        None => {
                            assert(old(self)@[i as int].key is Some);
                        },
                        Some(ip) => {
                            if ip < i as int {
                                assert(old(self)@[ip].key is Some);
                            }
                            if ip > i as int {
                                assert(old(self)@[i as int].key is Some);
                            }
                        },
                    }
                    assert(first_pos_index(old(self)@) == Some(i as int));
                }
                let arg = self.items.remove(i);
                return Some(arg.value);
            }
            i = i + 1;
        }
        proof {
            lemma_first_pos_index(old(self)@);
            match first_pos_index(old(self)@) {
                Some(ip) => {
                    assert(old(self)@[ip].key is Some);
                },
                None => {},
            }
        }
        None
    }

    /// Remove and return the value of the first argument named `key`, if one
    /// is left.
    pub fn take_key(&mut self, key: &String) -> (r: Option<Spanned<Value>>)
        ensures
            match first_key_index(old(self)@, key@) {
                None => r is None && final(self)@ == old(self)@,
                Some(i) => r == Some(old(self)@[i].value) && final(self)@ == old(self)@.remove(i),
            },
    {
        let n = self.items.len();
        let mut i: usize = 0;
        while i < n
            invariant
                i <= n,
                n == self.items.len(),
                *self == *old(self),
                forall|j: int| 0 <= j < i ==> !named(#[trigger] self.items@[j], key@),
            decreases n - i,
        {
            let found = match &self.items[i].key {
                None => false,
                Some(sp) => sp.v == *key,
            };
            if found {
                proof {
                    lemma_first_key_index(old(self)@, key@);
                    assert(named(self.items@[i as int], key@));
                    match first_key_index(old(self)@, key@) {
                        None => {
                            assert(!named(old(self)@[i as int], key@));
                        },
                        Some(ip) => {
                            if ip < i as int {
                                assert(!named(old(self)@[ip], key@));
                            }
                            if ip > i as int {
                                assert(!named(old(self)@[i as int], key@));
                            }
                        },
                    }
                    assert(first_key_index(old(self)@, key@) == Some(i as int));
                }
                let arg = self.items.remove(i);
                return Some(arg.value);
            }
            i = i + 1;
        }
        proof {
            lemma_first_key_index(old(self)@, key@);
            match first_key_index(old(self)@, key@) {
                Some(ip) => {
                    assert(!named(old(self)@[ip], key@));
                },
                None => {},
            }
        }
        None
    }

    /// The documented extraction pattern: take the first positional argument,
    /// or failing that the first argument named `name`.
    pub fn take_value(&mut self, name: &String) -> (r: Option<Spanned<Value>>)
        ensures
            match value_source(old(self)@, name@) {
                None => r is None && final(self)@ == old(self)@,
                Some(i) => r == Some(old(self)@[i].value) && final(self)@ == old(self)@.remove(i),
            },
    {
        match self.take_pos() {
            Some(v) => Some(v),
            None => self.take_key(name),
        }
    }

    /// Extract the boolean argument `name` under the documented pattern. A
    /// found boolean is consumed silently; a found value of another type is
    /// consumed and reported; a missing argument is reported against
    /// `name_span`. Failure is non-fatal: the caller substitutes a default.
    pub fn expect_bool(&mut self, name: &String, name_span: Span, feedback: &mut Feedback) -> (r:
        Option<bool>)
        ensures
            r == taken_bool(old(self)@, name@),
            final(self)@ == args_after_take(old(self)@, name@),
            error_marks(final(feedback)@.errors) == error_marks(old(feedback)@.errors)
                + bool_marks(old(self)@, name@, name_span),
            final(feedback)@.decorations == old(feedback)@.decorations,
    {
        match self.take_value(name) {
            None => {
                let mut msg = String::from_str("missing argument: ");
                msg.append(name.as_str());
                feedback.report(msg, name_span);
                proof {
                    assert(error_marks(feedback@.errors) =~= error_marks(old(feedback)@.errors)
                        + bool_marks(old(self)@, name@, name_span));
                }
                None
            },
            Some(sv) => {
                match sv.v {
                    Value::Bool(b) => {
                        proof {
                            assert(error_marks(feedback@.errors) =~= error_marks(
                                old(feedback)@.errors,
                            ) + bool_marks(old(self)@, name@, name_span));
                        }
                        Some(b)
                    },
                    _ => {
                        feedback.report(String::from_str("expected boolean"), sv.span);
                        proof {
                            assert(error_marks(feedback@.errors) =~= error_marks(
                                old(feedback)@.errors,
                            ) + bool_marks(old(self)@, name@, name_span));
                        }
                        None
                    },
                }
            },
        }
    }

    /// Extract the integer argument `name` under the documented pattern,
    /// with the same reporting as for a boolean.
    pub fn expect_int(&mut self, name: &String, name_span: Span, feedback: &mut Feedback) -> (r:
        Option<u64>)
        ensures
            r == taken_int(old(self)@, name@),
            final(self)@ == args_after_take(old(self)@, name@),
            error_marks(final(feedback)@.errors) == error_marks(old(feedback)@.errors)
                + int_marks(old(self)@, name@, name_span),
            final(feedback)@.decorations == old(feedback)@.decorations,
    {
        match self.take_value(name) {
            None => {
                let mut msg = String::from_str("missing argument: ");
                msg.append(name.as_str());
                feedback.report(msg, name_span);
                proof {
                    assert(error_marks(feedback@.errors) =~= error_marks(old(feedback)@.errors)
                        + int_marks(old(self)@, name@, name_span));
                }
                None
            },
            Some(sv) => {
                match sv.v {
                    Value::Int(n) => {
                        proof {
                            assert(error_marks(feedback@.errors) =~= error_marks(
                                old(feedback)@.errors,
                            ) + int_marks(old(self)@, name@, name_span));
                        }
                        Some(n)
                    },
                    _ => {
                        feedback.report(String::from_str("expected integer"), sv.span);
                        proof {
                            assert(error_marks(feedback@.errors) =~= error_marks(
                                old(feedback)@.errors,
                            ) + int_marks(old(self)@, name@, name_span));
                        }
                        None
                    },
                }
            },
        }
    }
}

/// The message reported for an argument the extraction pattern did not find.
pub open spec fn missing_argument_msg(name: Seq<char>) -> Seq<char> {
    "missing argument: "@ + name
}

/// The boolean the extraction pattern for `name` yields: the value of the
/// argument it finds, if that value is a boolean.
pub open spec fn taken_bool(s: Seq<Arg>, name: Seq<char>) -> Option<bool> {
    match value_source(s, name) {
        None => None,
        Some(i) => match s[i].value.v {
            Value::Bool(b) => Some(b),
            _ => None,
        },
    }
}

/// The diagnostics that extracting a boolean named `name` leaves behind:
/// one "missing argument" error when nothing is found, one "expected
/// boolean" error when the found value has another type, none otherwise.
pub open spec fn bool_marks(s: Seq<Arg>, name: Seq<char>, name_span: Span) -> Seq<
    (Seq<char>, Span),
> {
    match value_source(s, name) {
        None => seq![(missing_argument_msg(name), name_span)],
        Some(i) => match s[i].value.v {
            Value::Bool(_) => Seq::empty(),
            _ => seq![("expected boolean"@, s[i].value.span)],
        },
    }
}

/// The integer the extraction pattern for `name` yields: the value of the
/// argument it finds, if that value is an integer.
pub open spec fn taken_int(s: Seq<Arg>, name: Seq<char>) -> Option<u64> {
    match value_source(s, name) {
        None => None,
        Some(i) => match s[i].value.v {
            Value::Int(n) => Some(n),
            _ => None,
        },
    }
}

/// The diagnostics that extracting an integer named `name` leaves behind.
pub open spec fn int_marks(s: Seq<Arg>, name: Seq<char>, name_span: Span) -> Seq<
    (Seq<char>, Span),
> {
    match value_source(s, name) {
        None => seq![(missing_argument_msg(name), name_span)],
        Some(i) => match s[i].value.v {
            Value::Int(_) => Seq::empty(),
            _ => seq![("expected integer"@, s[i].value.span)],
        },
    }
}

/// A function invocation's name and its consumable argument list. The parser
/// creates one per invocation; the function's parse step drains the
/// arguments it recognizes; whatever is left over is reported and the header
/// is discarded.
#[derive(Clone, Debug, PartialEq, Eq)]
pub struct FuncHeader {
    /// The invocation's name.
    pub name: Spanned<String>,
    /// The arguments, in source order.
    pub args: FuncArgs,
}

/// The diagnostics that draining a leftover argument list leaves behind:
/// one "unexpected argument" error per argument, at the argument's span, in
/// the arguments' left-to-right order.
pub open spec fn unexpected_arg_marks(args: Seq<Arg>) -> Seq<(Seq<char>, Span)> {
    args.map(|i: int, a: Arg| ("unexpected argument"@, a.span))
}

/// Uniform post-step of every function parse: each argument the
/// implementation did not consume becomes exactly one "unexpected argument"
/// error tagged with that argument's span, in left-to-right order, and the
/// header is discarded.
pub fn drain_unused_arguments(header: FuncHeader, feedback: &mut Feedback)
    ensures
        error_marks(final(feedback)@.errors) == error_marks(old(feedback)@.errors)
            + unexpected_arg_marks(header.args@),
        final(feedback)@.decorations == old(feedback)@.decorations,
{
    let FuncHeader { name: _, args } = header;
    let ghost all = args@;
    let items = args.into_vec();
    let n = items.len();
    proof {
        assert(error_marks(feedback@.errors) =~= error_marks(old(feedback)@.errors)
            + unexpected_arg_marks(all.subrange(0, 0)));
    }
    let mut i: usize = 0;
    while i < n
        invariant
            i <= n,
            n == items@.len(),
            items@ == all,
            error_marks(feedback@.errors) == error_marks(old(feedback)@.errors)
                + unexpected_arg_marks(all.subrange(0, i as int)),
            feedback@.decorations == old(feedback)@.decorations,
        decreases n - i,
    {
        let span = items[i].span;
        let msg = String::from_str("unexpected argument");
        feedback.report(msg, span);
        proof {
            assert(error_marks(feedback@.errors) =~= error_marks(old(feedback)@.errors)
                + unexpected_arg_marks(all.subrange(0, i as int + 1)));
        }
        i = i + 1;
    }
    proof {
        assert(all.subrange(0, n as int) =~= all);
    }
}

/// The diagnostics the no-body policy leaves behind: one "unexpected body"
/// error when a body was supplied, none otherwise.
pub open spec fn body_nope_marks(body: Option<Spanned<String>>) -> Seq<(Seq<char>, Span)> {
    match body {
        None => Seq::empty(),
        Some(b) => seq![("unexpected body"@, b.span)],
    }
}

/// The no-body policy: a body supplied to a function that expects none is
/// reported as exactly one "unexpected body" error and its content is
/// discarded — parsing still succeeds. An absent body is silent.
pub fn body_nope(body: Option<Spanned<String>>, feedback: &mut Feedback)
    ensures
        error_marks(final(feedback)@.errors) == error_marks(old(feedback)@.errors)
            + body_nope_marks(body),
        final(feedback)@.decorations == old(feedback)@.decorations,
{
    let ghost b0 = body;
    match body {
        None => {
            proof {
                assert(error_marks(feedback@.errors) =~= error_marks(old(feedback)@.errors)
                    + body_nope_marks(b0));
            }
        },
        Some(b) => {
            feedback.report(String::from_str("unexpected body"), b.span);
            proof {
                assert(error_marks(feedback@.errors) =~= error_marks(old(feedback)@.errors)
                    + body_nope_marks(b0));
            }
        },
    }
}

/// Merge the outcome of parsing a body: the parse diagnostics are appended
/// to the accumulated feedback and the parsed content is handed back.
pub fn merge_body(parsed: Pass<SyntaxModel>, feedback: &mut Feedback) -> (r: SyntaxModel)
    ensures
        r == parsed.output,
        final(feedback)@ == old(feedback)@.merged(parsed.feedback@),
{
    let Pass { output, feedback: fb } = parsed;
    feedback.extend(fb);
    output
}

/// The optional-body policy: a present body is handed back to the markup
/// parser at its source offset, the parse feedback is merged and the parsed
/// content kept; an absent body leaves the slot empty and is silent.
pub fn body_opt<P: Parser>(
    body: Option<Spanned<String>>,
    ctx: &mut ParseContext<P>,
    feedback: &mut Feedback,
) -> (r: Option<SyntaxModel>)
    ensures
        body is None ==> r is None && final(feedback)@ == old(feedback)@,
        body is Some ==> r is Some,
        exists|extra: FeedbackView| final(feedback)@ == old(feedback)@.merged(extra),
{
    match body {
        None => {
            proof {
                assert(feedback@ =~= old(feedback)@.merged(FeedbackView::empty()));
            }
            None
        },
        Some(b) => {
            let parsed = ctx.parser.parse(b.span.start, b.v.as_str());
            let ghost extra = parsed.feedback@;
            let m = merge_body(parsed, feedback);
            proof {
                assert(feedback@ == old(feedback)@.merged(extra));
            }
            Some(m)
        },
    }
}

/// Parse a function from source code: the implementation drains the
/// arguments it recognizes from the header, handles the body under one of
/// the two fixed policies, and returns the constructed value together with
/// all merged diagnostics. The metadata value is supplied when the function
/// is registered, so one implementation can back several distinctly named
/// functions.
/// Metadata for a function that needs none.
#[derive(Clone, Copy, Debug, PartialEq, Eq, Structural)]
pub struct NoMeta;

pub trait ParseFunc {
    /// A cloneable metadata type whose value is passed into the parser.
    type Meta: Clone;

    /// Parse the header and body into this function, given a context.
    fn parse<P: Parser>(
        header: FuncHeader,
        body: Option<Spanned<String>>,
        ctx: &mut ParseContext<P>,
        metadata: Self::Meta,
    ) -> Pass<Self> where Self: Sized;
}

} // verus!
