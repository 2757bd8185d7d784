//! Values as text: in the syntax of the language, for a reader, and for a log.
//!
//! A value is shown one level deep. What an attribute set or a list holds is
//! not shown: a placeholder stands for it.
use crate::error::{Error, ErrorView};
use crate::handle::Handle;
use crate::ledger::{group_ledger, run, sweep, Fate, Ledger};
use crate::native::{
    calls_view, no_calls, one_call, unexpected, unexpected_reply, Call, CallView, Reply, ReplyView,
    Step, StepView,
};
use crate::text::{
    debug_quote, debug_text, decimal, decimal_i64, escaped_quotes_follow_backslash, quote, quoted,
};
use crate::value::{
    buffer_text, reachable, read_buffer, read_type, told_type, Target, Value, ValueType,
};
use vstd::prelude::*;
use vstd::string::StringExecFns;

verus! {

/// The ways to show a value.
#[derive(Debug, Clone, Copy, PartialEq, Eq, Structural)]
pub enum Style {
    /// In the syntax of the language: a string between quotes.
    Nix,
    /// For a reader: a string as it is.
    Display,
    /// For a log: with the name of the type.
    Debug,
}

impl ValueType {
    /// The name of the type as a log shows it.
    pub open spec fn title(self) -> Seq<char> {
        match self {
            ValueType::Thunk => "Thunk"@,
            ValueType::Int => "Int"@,
            ValueType::Float => "Float"@,
            ValueType::Bool => "Bool"@,
            ValueType::String => "String"@,
            ValueType::Path => "Path"@,
            ValueType::Null => "Null"@,
            ValueType::Attrs => "Attrs"@,
            ValueType::List => "List"@,
            ValueType::Function => "Function"@,
            ValueType::External => "External"@,
        }
    }

    /// What stands for a value of a type whose values are not read.
    pub open spec fn placeholder(self) -> Seq<char> {
        match self {
            ValueType::Null => "null"@,
            ValueType::Attrs => "{ <attrs> }"@,
            ValueType::List => "[ <list> ]"@,
            ValueType::Function => "<function>"@,
            ValueType::Path => "<path>"@,
            ValueType::External => "<external>"@,
            _ => "<thunk>"@,
        }
    }

    fn title_text(self) -> (s: &'static str)
        ensures
            s@ == self.title(),
    {
        match self {
            ValueType::Thunk => "Thunk",
            ValueType::Int => "Int",
            ValueType::Float => "Float",
            ValueType::Bool => "Bool",
            ValueType::String => "String",
            ValueType::Path => "Path",
            ValueType::Null => "Null",
            ValueType::Attrs => "Attrs",
            ValueType::List => "List",
            ValueType::Function => "Function",
            ValueType::External => "External",
        }
    }

    fn placeholder_text(self) -> (s: &'static str)
        ensures
            s@ == self.placeholder(),
    {
        match self {
            ValueType::Null => "null",
            ValueType::Attrs => "{ <attrs> }",
            ValueType::List => "[ <list> ]",
            ValueType::Function => "<function>",
            ValueType::Path => "<path>",
            ValueType::External => "<external>",
            _ => "<thunk>",
        }
    }
}

/// `body` as the style shows it for a value of type `t`: a log puts the
/// type's name before it and brackets round it.
pub open spec fn framed(style: Style, t: ValueType, body: Seq<char>) -> Seq<char> {
    match style {
        Style::Debug => "Value::"@ + t.title() + "("@ + body + ")"@,
        _ => body,
    }
}

/// An integer as text.
pub open spec fn shown_int(style: Style, n: i64) -> Seq<char> {
    framed(style, ValueType::Int, decimal(n as int))
}

/// A floating-point number as text, given the number in decimal.
pub open spec fn shown_float(style: Style, text: Seq<char>) -> Seq<char> {
    framed(style, ValueType::Float, text)
}

/// A boolean as text.
pub open spec fn shown_bool(style: Style, b: bool) -> Seq<char> {
    framed(
        style,
        ValueType::Bool,
        if b {
            "true"@
        } else {
            "false"@
        },
    )
}

/// A string as text: between quotes in the syntax of the language, as it is
/// for a reader, as a Rust string literal for a log.
pub open spec fn shown_text(style: Style, text: Seq<char>) -> Seq<char> {
    match style {
        Style::Nix => quoted(text),
        Style::Display => text,
        Style::Debug => framed(style, ValueType::String, debug_text(text)),
    }
}

/// A value that is not read, as text: null by its name, any other by the
/// placeholder of its type.
pub open spec fn shown_plain(style: Style, t: ValueType) -> Seq<char> {
    if t == ValueType::Null && style == Style::Debug {
        "Value::Null"@
    } else {
        framed(style, t, t.placeholder())
    }
}

/// What is shown for a value of type `t` that could not be read. In the
/// syntax of the language nothing is: the error stands. A reader and a log
/// get a note in the value's place.
pub open spec fn unread(style: Style, t: ValueType, e: ErrorView) -> Result<Seq<char>, ErrorView> {
    match style {
        Style::Nix => Err(e),
        Style::Display => Ok("<"@ + t.label() + " error>"@),
        Style::Debug => Ok(framed(style, t, "<error>"@)),
    }
}

/// The last step of a showing: after `calls`, the text or the error.
pub open spec fn ended<S>(calls: Seq<CallView>, r: Result<Seq<char>, ErrorView>) -> StepView<
    S,
    Seq<char>,
> {
    match r {
        Ok(text) => StepView::Done(calls, text),
        Err(e) => StepView::Failed(calls, e),
    }
}

/// Frames `body` as the style asks for a value of type `t`.
pub fn frame(style: Style, t: ValueType, body: &str) -> (s: String)
    ensures
        s@ == framed(style, t, body@),
{
    match style {
        Style::Debug => {
            let mut s = String::from_str("Value::");
            s.append(t.title_text());
            s.append("(");
            s.append(body);
            s.append(")");
            s
        },
        _ => String::from_str(body),
    }
}

/// Shows a string.
pub fn show_text(style: Style, text: String) -> (s: String)
    ensures
        s@ == shown_text(style, text@),
{
    match style {
        Style::Nix => quote(text.as_str()),
        Style::Display => text,
        Style::Debug => frame(style, ValueType::String, debug_quote(text.as_str()).as_str()),
    }
}

/// Shows a value that is not read.
pub fn show_plain(style: Style, t: ValueType) -> (s: String)
    ensures
        s@ == shown_plain(style, t),
{
    if t == ValueType::Null && style == Style::Debug {
        String::from_str("Value::Null")
    } else {
        frame(style, t, t.placeholder_text())
    }
}

fn end_unread(style: Style, t: ValueType, calls: Vec<Call>, e: Error) -> (step: Step<
    Render,
    String,
>)
    ensures
        step@ == ended::<Render>(calls_view(calls), unread(style, t, e@)),
{
    match style {
        Style::Nix => Step::Failed(calls, e),
        Style::Display => {
            let mut s = String::from_str("<");
            s.append(t.name());
            s.append(" error>");
            Step::Done(calls, s)
        },
        Style::Debug => Step::Done(calls, frame(style, t, "<error>")),
    }
}

/// The showing of a value, by the reply it waits for.
#[derive(Debug, PartialEq, Eq)]
pub enum Render {
    /// That of `nix_get_type`.
    Type(Style, Target),
    /// That of `nix_get_int`.
    Int(Style),
    /// That of `nix_get_float`.
    Float(Style),
    /// That of `nix_get_bool`.
    Bool(Style),
    /// That of `nix_string_realise`.
    Realise(Style),
    /// The bytes of the realised string.
    Buffer(Style, Handle),
}

impl View for Render {
    type V = Render;

    open spec fn view(&self) -> Render {
        *self
    }
}

impl Render {
    /// The first step: the value is asked for its type.
    pub open spec fn first(style: Style, target: Target) -> StepView<Render, Seq<char>> {
        StepView::Call(
            Render::Type(style, target),
            CallView::GetType { context: target.context, value: target.value },
        )
    }

    /// The step after `reply`.
    ///
    /// An integer, a floating-point number, a boolean and a string are read
    /// and shown; a value of any other type is shown without a further
    /// call. A realised string is freed once it is there, whether or not its
    /// bytes could be read.
    pub open spec fn next(self, reply: ReplyView) -> StepView<Render, Seq<char>> {
        match self {
            Render::Type(style, target) => match told_type(reply) {
                ValueType::Int => StepView::Call(
                    Render::Int(style),
                    CallView::GetInt { context: target.context, value: target.value },
                ),
                ValueType::Float => StepView::Call(
                    Render::Float(style),
                    CallView::GetFloat { context: target.context, value: target.value },
                ),
                ValueType::Bool => StepView::Call(
                    Render::Bool(style),
                    CallView::GetBool { context: target.context, value: target.value },
                ),
                ValueType::String => StepView::Call(
                    Render::Realise(style),
                    CallView::StringRealise {
                        context: target.context,
                        state: target.state,
                        value: target.value,
                    },
                ),
                other => StepView::Done(seq![], shown_plain(style, other)),
            },
            Render::Int(style) => match reply {
                ReplyView::Int(n) => StepView::Done(seq![], shown_int(style, n)),
                _ => ended(seq![], unread(style, ValueType::Int, unexpected())),
            },
            Render::Float(style) => match reply {
                ReplyView::Float(x) => StepView::Done(seq![], shown_float(style, x.text)),
                _ => ended(seq![], unread(style, ValueType::Float, unexpected())),
            },
            Render::Bool(style) => match reply {
                ReplyView::Bool(b) => StepView::Done(seq![], shown_bool(style, b)),
                _ => ended(seq![], unread(style, ValueType::Bool, unexpected())),
            },
            Render::Realise(style) => match reply.pointer() {
                Ok(string) => StepView::Call(
                    Render::Buffer(style, string),
                    CallView::RealisedStringBuffer { string },
                ),
                Err(e) => ended(seq![], unread(style, ValueType::String, e)),
            },
            Render::Buffer(style, string) => match buffer_text(reply) {
                Ok(text) => StepView::Done(
                    seq![CallView::RealisedStringFree { string }],
                    shown_text(style, text),
                ),
                Err(e) => ended(
                    seq![CallView::RealisedStringFree { string }],
                    unread(style, ValueType::String, e),
                ),
            },
        }
    }

    /// How the operation fares against `replies`, and what becomes of the book.
    pub open spec fn fate(
        style: Style,
        target: Target,
        replies: Seq<ReplyView>,
        ledger: Ledger,
    ) -> Fate<Seq<char>> {
        run(|s: Render, r: ReplyView| s.next(r), Self::first(style, target), replies, ledger)
    }

    /// Takes the reply to the call that is out, and says what comes next.
    pub fn resume(self, reply: Reply) -> (step: Step<Render, String>)
        ensures
            step@ == self.next(reply@),
    {
        match self {
            Render::Type(style, target) => match read_type(reply) {
                ValueType::Int => Step::Call(
                    Render::Int(style),
                    Call::GetInt { context: target.context, value: target.value },
                ),
                ValueType::Float => Step::Call(
                    Render::Float(style),
                    Call::GetFloat { context: target.context, value: target.value },
                ),
                ValueType::Bool => Step::Call(
                    Render::Bool(style),
                    Call::GetBool { context: target.context, value: target.value },
                ),
                ValueType::String => Step::Call(
                    Render::Realise(style),
                    Call::StringRealise {
                        context: target.context,
                        state: target.state,
                        value: target.value,
                    },
                ),
                other => Step::Done(no_calls(), show_plain(style, other)),
            },
            Render::Int(style) => match reply {
                Reply::Int(n) => Step::Done(
                    no_calls(),
                    frame(style, ValueType::Int, decimal_i64(n).as_str()),
                ),
                _ => end_unread(style, ValueType::Int, no_calls(), unexpected_reply()),
            },
            Render::Float(style) => match reply {
                Reply::Float(x) => Step::Done(
                    no_calls(),
                    frame(style, ValueType::Float, x.text.as_str()),
                ),
                _ => end_unread(style, ValueType::Float, no_calls(), unexpected_reply()),
            },
            Render::Bool(style) => match reply {
                Reply::Bool(b) => Step::Done(
                    no_calls(),
                    frame(
                        style,
                        ValueType::Bool,
                        if b {
                            "true"
                        } else {
                            "false"
                        },
                    ),
                ),
                _ => end_unread(style, ValueType::Bool, no_calls(), unexpected_reply()),
            },
            Render::Realise(style) => match reply.pointer() {
                Ok(string) => Step::Call(
                    Render::Buffer(style, string),
                    Call::RealisedStringBuffer { string },
                ),
                Err(e) => end_unread(style, ValueType::String, no_calls(), e),
            },
            Render::Buffer(style, string) => {
                let free = one_call(Call::RealisedStringFree { string });
                match read_buffer(reply) {
                    Ok(text) => Step::Done(free, show_text(style, text)),
                    Err(e) => end_unread(style, ValueType::String, free, e),
                }
            },
        }
    }
}

impl<'a> Value<'a> {
    fn show(&self, style: Style) -> (step: Step<Render, String>)
        ensures
            step@ == Render::first(style, self@.target()),
    {
        Step::Call(
            Render::Type(style, self.target()),
            Call::GetType { context: self.state.context, value: self.handle },
        )
    }

    /// Starts the showing of the value in the syntax of the language.
    pub fn to_nix_string(&self) -> (step: Step<Render, String>)
        ensures
            step@ == Render::first(Style::Nix, self@.target()),
    {
        self.show(Style::Nix)
    }

    /// Starts the showing of the value for a reader.
    pub fn display(&self) -> (step: Step<Render, String>)
        ensures
            step@ == Render::first(Style::Display, self@.target()),
    {
        self.show(Style::Display)
    }

    /// Starts the showing of the value for a log.
    pub fn debug(&self) -> (step: Step<Render, String>)
        ensures
            step@ == Render::first(Style::Debug, self@.target()),
    {
        self.show(Style::Debug)
    }
}

/// Whatever the native layer replies, the showing of a live value makes
/// allowed calls only and leaves the book as it was: a realised string is
/// freed on every way out. For a reader and for a log it does not fail.
pub proof fn render_is_safe(style: Style, target: Target, replies: Seq<ReplyView>, ledger: Ledger)
    requires
        reachable(target, ledger),
    ensures
        ({
            let fate = Render::fate(style, target, replies, ledger);
            &&& fate.keeps(ledger)
            &&& style != Style::Nix ==> !(fate is Failed)
            &&& replies.len() >= 3 ==> fate.over()
        }),
{
    broadcast use group_ledger;

    reveal_with_fuel(run, 5);
    reveal_with_fuel(sweep, 3);
}

/// A string is shown in the syntax of the language between double quotes,
/// and so that the quotes inside it do not end it: each has a backslash
/// before it.
pub proof fn quoted_string_is_closed(text: Seq<char>)
    ensures
        shown_text(Style::Nix, text).first() == '"',
        shown_text(Style::Nix, text).last() == '"',
        shown_text(Style::Nix, text).len() >= 2,
        forall|i: int|
            0 < i < shown_text(Style::Nix, text).len() - 1 && #[trigger] shown_text(
                Style::Nix,
                text,
            )[i] == '"' ==> shown_text(Style::Nix, text)[i - 1] == '\\',
{
    escaped_quotes_follow_backslash(text);
}

} // verus!
