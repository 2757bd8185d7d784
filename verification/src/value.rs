//! Values: the nodes of the evaluator's graph, and what can be read from them.
use crate::error::{Error, ErrorView};
use crate::eval::EvalState;
use crate::handle::Handle;
use crate::ledger::{entry, group_ledger, run, sweep, Fate, Kind, Ledger};
use crate::native::{
    no_calls, one_call, unexpected, unexpected_reply, Call, CallView, Float, FloatView, Reply,
    ReplyView, Step, StepView,
};
use crate::text::decode;
use vstd::prelude::*;
use vstd::string::StringExecFns;
use vstd::utf8::{decode_utf8, valid_utf8};

verus! {

/// The tag of a thunk.
pub const NIX_TYPE_THUNK: u32 = 0;

/// The tag of an integer.
pub const NIX_TYPE_INT: u32 = 1;

/// The tag of a floating-point number.
pub const NIX_TYPE_FLOAT: u32 = 2;

/// The tag of a boolean.
pub const NIX_TYPE_BOOL: u32 = 3;

/// The tag of a string.
pub const NIX_TYPE_STRING: u32 = 4;

/// The tag of a path.
pub const NIX_TYPE_PATH: u32 = 5;

/// The tag of the null value.
pub const NIX_TYPE_NULL: u32 = 6;

/// The tag of an attribute set.
pub const NIX_TYPE_ATTRS: u32 = 7;

/// The tag of a list.
pub const NIX_TYPE_LIST: u32 = 8;

/// The tag of a function.
pub const NIX_TYPE_FUNCTION: u32 = 9;

/// The tag of a value of an extension.
pub const NIX_TYPE_EXTERNAL: u32 = 10;

/// The types of value.
#[derive(Debug, Clone, Copy, PartialEq, Eq, Structural)]
pub enum ValueType {
    /// An expression that was not evaluated yet.
    Thunk,
    /// An integer.
    Int,
    /// A floating-point number.
    Float,
    /// A boolean.
    Bool,
    /// A string.
    String,
    /// A path.
    Path,
    /// The null value.
    Null,
    /// An attribute set.
    Attrs,
    /// A list.
    List,
    /// A function.
    Function,
    /// A value of an extension.
    External,
}

impl View for ValueType {
    type V = ValueType;

    open spec fn view(&self) -> ValueType {
        *self
    }
}

impl ValueType {
    /// The type that a native tag stands for. A tag that stands for none
    /// reads as a thunk.
    pub open spec fn of_tag(tag: u32) -> ValueType {
        if tag == NIX_TYPE_INT {
            ValueType::Int
        } else if tag == NIX_TYPE_FLOAT {
            ValueType::Float
        } else if tag == NIX_TYPE_BOOL {
            ValueType::Bool
        } else if tag == NIX_TYPE_STRING {
            ValueType::String
        } else if tag == NIX_TYPE_PATH {
            ValueType::Path
        } else if tag == NIX_TYPE_NULL {
            ValueType::Null
        } else if tag == NIX_TYPE_ATTRS {
            ValueType::Attrs
        } else if tag == NIX_TYPE_LIST {
            ValueType::List
        } else if tag == NIX_TYPE_FUNCTION {
            ValueType::Function
        } else if tag == NIX_TYPE_EXTERNAL {
            ValueType::External
        } else {
            ValueType::Thunk
        }
    }

    /// The name of the type.
    pub open spec fn label(self) -> Seq<char> {
        match self {
            ValueType::Thunk => "thunk"@,
            ValueType::Int => "int"@,
            ValueType::Float => "float"@,
            ValueType::Bool => "bool"@,
            ValueType::String => "string"@,
            ValueType::Path => "path"@,
            ValueType::Null => "null"@,
            ValueType::Attrs => "attrs"@,
            ValueType::List => "list"@,
            ValueType::Function => "function"@,
            ValueType::External => "external"@,
        }
    }

    /// Reads a native type tag.
    pub fn from_c(tag: u32) -> (t: ValueType)
        ensures
            t == ValueType::of_tag(tag),
    {
        if tag == NIX_TYPE_INT {
            ValueType::Int
        } else if tag == NIX_TYPE_FLOAT {
            ValueType::Float
        } else if tag == NIX_TYPE_BOOL {
            ValueType::Bool
        } else if tag == NIX_TYPE_STRING {
            ValueType::String
        } else if tag == NIX_TYPE_PATH {
            ValueType::Path
        } else if tag == NIX_TYPE_NULL {
            ValueType::Null
        } else if tag == NIX_TYPE_ATTRS {
            ValueType::Attrs
        } else if tag == NIX_TYPE_LIST {
            ValueType::List
        } else if tag == NIX_TYPE_FUNCTION {
            ValueType::Function
        } else if tag == NIX_TYPE_EXTERNAL {
            ValueType::External
        } else {
            ValueType::Thunk
        }
    }

    /// The name of the type.
    pub fn name(&self) -> (s: &'static str)
        ensures
            s@ == self.label(),
    {
        match self {
            ValueType::Thunk => "thunk",
            ValueType::Int => "int",
            ValueType::Float => "float",
            ValueType::Bool => "bool",
            ValueType::String => "string",
            ValueType::Path => "path",
            ValueType::Null => "null",
            ValueType::Attrs => "attrs",
            ValueType::List => "list",
            ValueType::Function => "function",
            ValueType::External => "external",
        }
    }
}

/// One reference to a value of the evaluator, made from the state it borrows.
///
/// The value cannot outlive the borrow, and so not the state. Whoever holds
/// it owes the value one `release`.
#[derive(Debug, PartialEq, Eq)]
pub struct Value<'a> {
    pub handle: Handle,
    pub state: &'a EvalState,
}

/// A value as plain values.
pub struct ValueView {
    pub handle: Handle,
    pub state: EvalState,
}

impl<'a> View for Value<'a> {
    type V = ValueView;

    open spec fn view(&self) -> ValueView {
        ValueView { handle: self.handle, state: *self.state }
    }
}

/// The value that an operation reads, with the state and context it reads it through.
#[derive(Debug, Clone, Copy, PartialEq, Eq)]
pub struct Target {
    pub context: Handle,
    pub state: Handle,
    pub value: Handle,
}

impl ValueView {
    /// The value as the target of an operation.
    pub open spec fn target(self) -> Target {
        Target { context: self.state.context, state: self.state.handle, value: self.handle }
    }
}

/// The type that a reply to `nix_get_type` tells. A reply that holds no tag
/// reads as a thunk, as a tag does that stands for no type.
pub open spec fn told_type(reply: ReplyView) -> ValueType {
    match reply {
        ReplyView::Type(tag) => ValueType::of_tag(tag),
        _ => ValueType::Thunk,
    }
}

pub(crate) fn read_type(reply: Reply) -> (t: ValueType)
    ensures
        t == told_type(reply@),
{
    match reply {
        Reply::Type(tag) => ValueType::from_c(tag),
        _ => ValueType::Thunk,
    }
}

/// The error for a value of another type than the one asked for.
pub open spec fn mismatch(expected: ValueType, actual: ValueType) -> ErrorView {
    ErrorView::InvalidType { expected: expected.label(), actual: actual.label() }
}

fn type_error(expected: ValueType, actual: ValueType) -> (e: Error)
    ensures
        e@ == mismatch(expected, actual),
{
    Error::InvalidType { expected: expected.name(), actual: String::from_str(actual.name()) }
}

/// The forcing of a value, waiting for the reply of `nix_value_force` or
/// `nix_value_force_deep`.
#[derive(Debug, PartialEq, Eq)]
pub struct Force {}

impl View for Force {
    type V = Force;

    open spec fn view(&self) -> Force {
        *self
    }
}

impl Force {
    /// The first step: the value is forced, to its head or all through.
    pub open spec fn first(target: Target, deep: bool) -> StepView<Force, ()> {
        if deep {
            StepView::Call(
                Force {  },
                CallView::ValueForceDeep {
                    context: target.context,
                    state: target.state,
                    value: target.value,
                },
            )
        } else {
            StepView::Call(
                Force {  },
                CallView::ValueForce {
                    context: target.context,
                    state: target.state,
                    value: target.value,
                },
            )
        }
    }

    /// The step after `reply`: the forcing went well, or failed with the
    /// evaluator's error.
    pub open spec fn next(self, reply: ReplyView) -> StepView<Force, ()> {
        match reply.status() {
            None => StepView::Done(seq![], ()),
            Some(e) => StepView::Failed(seq![], e),
        }
    }

    /// How the operation fares against `replies`, and what becomes of the book.
    pub open spec fn fate(
        target: Target,
        deep: bool,
        replies: Seq<ReplyView>,
        ledger: Ledger,
    ) -> Fate<()> {
        run(|s: Force, r: ReplyView| s.next(r), Self::first(target, deep), replies, ledger)
    }

    /// Takes the reply to the call that is out, and says what comes next.
    pub fn resume(self, reply: Reply) -> (step: Step<Force, ()>)
        ensures
            step@ == self.next(reply@),
    {
        match reply.status() {
            Ok(()) => Step::Done(no_calls(), ()),
            Err(e) => Step::Failed(no_calls(), e),
        }
    }
}

/// The reading of a value's type, waiting for the reply of `nix_get_type`.
#[derive(Debug, PartialEq, Eq)]
pub struct TypeQuery {}

impl View for TypeQuery {
    type V = TypeQuery;

    open spec fn view(&self) -> TypeQuery {
        *self
    }
}

impl TypeQuery {
    /// The first step: the value is asked for its type. Nothing is forced.
    pub open spec fn first(target: Target) -> StepView<TypeQuery, ValueType> {
        StepView::Call(
            TypeQuery {  },
            CallView::GetType { context: target.context, value: target.value },
        )
    }

    /// The step after `reply`: the type that it tells.
    pub open spec fn next(self, reply: ReplyView) -> StepView<TypeQuery, ValueType> {
        StepView::Done(seq![], told_type(reply))
    }

    /// How the operation fares against `replies`, and what becomes of the book.
    pub open spec fn fate(
        target: Target,
        replies: Seq<ReplyView>,
        ledger: Ledger,
    ) -> Fate<ValueType> {
        run(|s: TypeQuery, r: ReplyView| s.next(r), Self::first(target), replies, ledger)
    }

    /// Takes the reply to the call that is out, and says what comes next.
    pub fn resume(self, reply: Reply) -> (step: Step<TypeQuery, ValueType>)
        ensures
            step@ == self.next(reply@),
    {
        Step::Done(no_calls(), read_type(reply))
    }
}

/// The reading of an integer, by the reply it waits for.
#[derive(Debug, PartialEq, Eq)]
pub enum AsInt {
    /// That of `nix_get_type`.
    Type(Target),
    /// That of `nix_get_int`.
    Int,
}

impl View for AsInt {
    type V = AsInt;

    open spec fn view(&self) -> AsInt {
        *self
    }
}

impl AsInt {
    /// The first step: the value is asked for its type.
    pub open spec fn first(target: Target) -> StepView<AsInt, i64> {
        StepView::Call(
            AsInt::Type(target),
            CallView::GetType { context: target.context, value: target.value },
        )
    }

    /// The step after `reply`: a value that is no integer is refused, with
    /// its type; an integer is read.
    pub open spec fn next(self, reply: ReplyView) -> StepView<AsInt, i64> {
        match self {
            AsInt::Type(target) => if told_type(reply) == ValueType::Int {
                StepView::Call(
                    AsInt::Int,
                    CallView::GetInt { context: target.context, value: target.value },
                )
            } else {
                StepView::Failed(seq![], mismatch(ValueType::Int, told_type(reply)))
            },
            AsInt::Int => match reply {
                ReplyView::Int(n) => StepView::Done(seq![], n),
                _ => StepView::Failed(seq![], unexpected()),
            },
        }
    }

    /// How the operation fares against `replies`, and what becomes of the book.
    pub open spec fn fate(target: Target, replies: Seq<ReplyView>, ledger: Ledger) -> Fate<i64> {
        run(|s: AsInt, r: ReplyView| s.next(r), Self::first(target), replies, ledger)
    }

    /// Takes the reply to the call that is out, and says what comes next.
    pub fn resume(self, reply: Reply) -> (step: Step<AsInt, i64>)
        ensures
            step@ == self.next(reply@),
    {
        match self {
            AsInt::Type(target) => {
                let actual = read_type(reply);
                if actual == ValueType::Int {
                    Step::Call(
                        AsInt::Int,
                        Call::GetInt { context: target.context, value: target.value },
                    )
                } else {
                    Step::Failed(no_calls(), type_error(ValueType::Int, actual))
                }
            },
            AsInt::Int => match reply {
                Reply::Int(n) => Step::Done(no_calls(), n),
                _ => Step::Failed(no_calls(), unexpected_reply()),
            },
        }
    }
}

/// The reading of a floating-point number, by the reply it waits for.
#[derive(Debug, PartialEq, Eq)]
pub enum AsFloat {
    /// That of `nix_get_type`.
    Type(Target),
    /// That of `nix_get_float`.
    Float,
}

impl View for AsFloat {
    type V = AsFloat;

    open spec fn view(&self) -> AsFloat {
        *self
    }
}

impl AsFloat {
    /// The first step: the value is asked for its type.
    pub open spec fn first(target: Target) -> StepView<AsFloat, FloatView> {
        StepView::Call(
            AsFloat::Type(target),
            CallView::GetType { context: target.context, value: target.value },
        )
    }

    /// The step after `reply`: a value that is no floating-point number is
    /// refused, with its type, an integer too; a floating-point number is read.
    pub open spec fn next(self, reply: ReplyView) -> StepView<AsFloat, FloatView> {
        match self {
            AsFloat::Type(target) => if told_type(reply) == ValueType::Float {
                StepView::Call(
                    AsFloat::Float,
                    CallView::GetFloat { context: target.context, value: target.value },
                )
            } else {
                StepView::Failed(seq![], mismatch(ValueType::Float, told_type(reply)))
            },
            AsFloat::Float => match reply {
                ReplyView::Float(x) => StepView::Done(seq![], x),
                _ => StepView::Failed(seq![], unexpected()),
            },
        }
    }

    /// How the operation fares against `replies`, and what becomes of the book.
    pub open spec fn fate(
        target: Target,
        replies: Seq<ReplyView>,
        ledger: Ledger,
    ) -> Fate<FloatView> {
        run(|s: AsFloat, r: ReplyView| s.next(r), Self::first(target), replies, ledger)
    }

    /// Takes the reply to the call that is out, and says what comes next.
    pub fn resume(self, reply: Reply) -> (step: Step<AsFloat, Float>)
        ensures
            step@ == self.next(reply@),
    {
        match self {
            AsFloat::Type(target) => {
                let actual = read_type(reply);
                if actual == ValueType::Float {
                    Step::Call(
                        AsFloat::Float,
                        Call::GetFloat { context: target.context, value: target.value },
                    )
                } else {
                    Step::Failed(no_calls(), type_error(ValueType::Float, actual))
                }
            },
            AsFloat::Float => match reply {
                Reply::Float(x) => Step::Done(no_calls(), x),
                _ => Step::Failed(no_calls(), unexpected_reply()),
            },
        }
    }
}

/// The reading of a boolean, by the reply it waits for.
#[derive(Debug, PartialEq, Eq)]
pub enum AsBool {
    /// That of `nix_get_type`.
    Type(Target),
    /// That of `nix_get_bool`.
    Bool,
}

impl View for AsBool {
    type V = AsBool;

    open spec fn view(&self) -> AsBool {
        *self
    }
}

impl AsBool {
    /// The first step: the value is asked for its type.
    pub open spec fn first(target: Target) -> StepView<AsBool, bool> {
        StepView::Call(
            AsBool::Type(target),
            CallView::GetType { context: target.context, value: target.value },
        )
    }

    /// The step after `reply`: a value that is no boolean is refused, with
    /// its type; a boolean is read.
    pub open spec fn next(self, reply: ReplyView) -> StepView<AsBool, bool> {
        match self {
            AsBool::Type(target) => if told_type(reply) == ValueType::Bool {
                StepView::Call(
                    AsBool::Bool,
                    CallView::GetBool { context: target.context, value: target.value },
                )
            } else {
                StepView::Failed(seq![], mismatch(ValueType::Bool, told_type(reply)))
            },
            AsBool::Bool => match reply {
                ReplyView::Bool(b) => StepView::Done(seq![], b),
                _ => StepView::Failed(seq![], unexpected()),
            },
        }
    }

    /// How the operation fares against `replies`, and what becomes of the book.
    pub open spec fn fate(target: Target, replies: Seq<ReplyView>, ledger: Ledger) -> Fate<bool> {
        run(|s: AsBool, r: ReplyView| s.next(r), Self::first(target), replies, ledger)
    }

    /// Takes the reply to the call that is out, and says what comes next.
    pub fn resume(self, reply: Reply) -> (step: Step<AsBool, bool>)
        ensures
            step@ == self.next(reply@),
    {
        match self {
            AsBool::Type(target) => {
                let actual = read_type(reply);
                if actual == ValueType::Bool {
                    Step::Call(
                        AsBool::Bool,
                        Call::GetBool { context: target.context, value: target.value },
                    )
                } else {
                    Step::Failed(no_calls(), type_error(ValueType::Bool, actual))
                }
            },
            AsBool::Bool => match reply {
                Reply::Bool(b) => Step::Done(no_calls(), b),
                _ => Step::Failed(no_calls(), unexpected_reply()),
            },
        }
    }
}

/// The text in the buffer of a realised string: what its bytes spell. Bytes
/// that are not valid UTF-8 are an error, and so is a null buffer.
pub open spec fn buffer_text(reply: ReplyView) -> Result<Seq<char>, ErrorView> {
    match reply {
        ReplyView::Bytes(Some(bytes)) => if valid_utf8(bytes) {
            Ok(decode_utf8(bytes))
        } else {
            Err(ErrorView::Unknown("Invalid UTF-8 in string"@))
        },
        ReplyView::Bytes(None) => Err(ErrorView::NullPointer),
        _ => Err(unexpected()),
    }
}

pub(crate) fn read_buffer(reply: Reply) -> (r: Result<String, Error>)
    ensures
        match buffer_text(reply@) {
            Ok(text) => r matches Ok(s) && s@ == text,
            Err(e) => r matches Err(err) && err@ == e,
        },
{
    match reply {
        Reply::Bytes(Some(bytes)) => match decode(bytes) {
            Some(text) => Ok(text),
            None => Err(Error::Unknown(String::from_str("Invalid UTF-8 in string"))),
        },
        Reply::Bytes(None) => Err(Error::NullPointer),
        _ => Err(unexpected_reply()),
    }
}

/// The reading of a string, by the reply it waits for.
#[derive(Debug, PartialEq, Eq)]
pub enum AsString {
    /// That of `nix_get_type`.
    Type(Target),
    /// That of `nix_string_realise`.
    Realise,
    /// The bytes of the realised string.
    Buffer(Handle),
}

impl View for AsString {
    type V = AsString;

    open spec fn view(&self) -> AsString {
        *self
    }
}

impl AsString {
    /// The first step: the value is asked for its type.
    pub open spec fn first(target: Target) -> StepView<AsString, Seq<char>> {
        StepView::Call(
            AsString::Type(target),
            CallView::GetType { context: target.context, value: target.value },
        )
    }

    /// The step after `reply`.
    ///
    /// A value that is no string is refused, with its type. A string is
    /// realised, and its bytes are read as text. Once the realised string is
    /// there it is freed, whether or not its bytes spell a text.
    pub open spec fn next(self, reply: ReplyView) -> StepView<AsString, Seq<char>> {
        match self {
            AsString::Type(target) => if told_type(reply) == ValueType::String {
                StepView::Call(
                    AsString::Realise,
                    CallView::StringRealise {
                        context: target.context,
                        state: target.state,
                        value: target.value,
                    },
                )
            } else {
                StepView::Failed(seq![], mismatch(ValueType::String, told_type(reply)))
            },
            AsString::Realise => match reply.pointer() {
                Ok(string) => StepView::Call(
                    AsString::Buffer(string),
                    CallView::RealisedStringBuffer { string },
                ),
                Err(e) => StepView::Failed(seq![], e),
            },
            AsString::Buffer(string) => match buffer_text(reply) {
                Ok(text) => StepView::Done(seq![CallView::RealisedStringFree { string }], text),
                Err(e) => StepView::Failed(seq![CallView::RealisedStringFree { string }], e),
            },
        }
    }

    /// How the operation fares against `replies`, and what becomes of the book.
    pub open spec fn fate(
        target: Target,
        replies: Seq<ReplyView>,
        ledger: Ledger,
    ) -> Fate<Seq<char>> {
        run(|s: AsString, r: ReplyView| s.next(r), Self::first(target), replies, ledger)
    }

    /// Takes the reply to the call that is out, and says what comes next.
    pub fn resume(self, reply: Reply) -> (step: Step<AsString, String>)
        ensures
            step@ == self.next(reply@),
    {
        match self {
            AsString::Type(target) => {
                let actual = read_type(reply);
                if actual == ValueType::String {
                    Step::Call(
                        AsString::Realise,
                        Call::StringRealise {
                            context: target.context,
                            state: target.state,
                            value: target.value,
                        },
                    )
                } else {
                    Step::Failed(no_calls(), type_error(ValueType::String, actual))
                }
            },
            AsString::Realise => match reply.pointer() {
                Ok(string) => Step::Call(
                    AsString::Buffer(string),
                    Call::RealisedStringBuffer { string },
                ),
                Err(e) => Step::Failed(no_calls(), e),
            },
            AsString::Buffer(string) => {
                let free = one_call(Call::RealisedStringFree { string });
                match read_buffer(reply) {
                    Ok(text) => Step::Done(free, text),
                    Err(e) => Step::Failed(free, e),
                }
            },
        }
    }
}

impl<'a> Value<'a> {
    /// The value as the target of an operation.
    pub fn target(&self) -> (t: Target)
        ensures
            t == self@.target(),
    {
        Target { context: self.state.context, state: self.state.handle, value: self.handle }
    }

    /// Starts the forcing of the value to its head: a thunk is evaluated
    /// until its type shows, and what it holds stays as it is.
    pub fn force(&mut self) -> (step: Step<Force, ()>)
        ensures
            *final(self) == *old(self),
            step@ == Force::first(old(self)@.target(), false),
    {
        Step::Call(
            Force {  },
            Call::ValueForce {
                context: self.state.context,
                state: self.state.handle,
                value: self.handle,
            },
        )
    }

    /// Starts the forcing of the value all through: what it holds is forced too.
    pub fn force_deep(&mut self) -> (step: Step<Force, ()>)
        ensures
            *final(self) == *old(self),
            step@ == Force::first(old(self)@.target(), true),
    {
        Step::Call(
            Force {  },
            Call::ValueForceDeep {
                context: self.state.context,
                state: self.state.handle,
                value: self.handle,
            },
        )
    }

    /// Starts the reading of the value's type.
    pub fn value_type(&self) -> (step: Step<TypeQuery, ValueType>)
        ensures
            step@ == TypeQuery::first(self@.target()),
    {
        Step::Call(
            TypeQuery {  },
            Call::GetType { context: self.state.context, value: self.handle },
        )
    }

    /// Starts the reading of the value as an integer.
    pub fn as_int(&self) -> (step: Step<AsInt, i64>)
        ensures
            step@ == AsInt::first(self@.target()),
    {
        Step::Call(
            AsInt::Type(self.target()),
            Call::GetType { context: self.state.context, value: self.handle },
        )
    }

    /// Starts the reading of the value as a floating-point number.
    pub fn as_float(&self) -> (step: Step<AsFloat, Float>)
        ensures
            step@ == AsFloat::first(self@.target()),
    {
        Step::Call(
            AsFloat::Type(self.target()),
            Call::GetType { context: self.state.context, value: self.handle },
        )
    }

    /// Starts the reading of the value as a boolean.
    pub fn as_bool(&self) -> (step: Step<AsBool, bool>)
        ensures
            step@ == AsBool::first(self@.target()),
    {
        Step::Call(
            AsBool::Type(self.target()),
            Call::GetType { context: self.state.context, value: self.handle },
        )
    }

    /// Starts the reading of the value as a string.
    pub fn as_string(&self) -> (step: Step<AsString, String>)
        ensures
            step@ == AsString::first(self@.target()),
    {
        Step::Call(
            AsString::Type(self.target()),
            Call::GetType { context: self.state.context, value: self.handle },
        )
    }

    /// Gives the value up: the call that drops this reference to it.
    pub fn release(self) -> (call: Call)
        ensures
            call@ == (CallView::ValueDecref { context: self@.state.context, value: self@.handle }),
    {
        Call::ValueDecref { context: self.state.context, value: self.handle }
    }
}

/// Whether the value, its state and its context are live.
pub open spec fn reachable(target: Target, ledger: Ledger) -> bool {
    &&& ledger.contains(entry(Kind::Context, target.context))
    &&& ledger.contains(entry(Kind::State, target.state))
    &&& ledger.contains(entry(Kind::Value, target.value))
}

/// Whatever the native layer replies, the forcing of a live value makes
/// allowed calls only and leaves the book as it was.
pub proof fn force_is_safe(target: Target, deep: bool, replies: Seq<ReplyView>, ledger: Ledger)
    requires
        reachable(target, ledger),
    ensures
        Force::fate(target, deep, replies, ledger).keeps(ledger),
        replies.len() >= 1 ==> Force::fate(target, deep, replies, ledger).over(),
{
    broadcast use group_ledger;

    reveal_with_fuel(run, 3);
    reveal_with_fuel(sweep, 2);
}

/// Whatever the native layer replies, the reading of a live value's type
/// makes allowed calls only, leaves the book as it was, and does not fail.
pub proof fn value_type_is_safe(target: Target, replies: Seq<ReplyView>, ledger: Ledger)
    requires
        reachable(target, ledger),
    ensures
        ({
            let fate = TypeQuery::fate(target, replies, ledger);
            &&& fate.keeps(ledger)
            &&& !(fate is Failed)
            &&& replies.len() >= 1 ==> fate.over()
        }),
{
    broadcast use group_ledger;

    reveal_with_fuel(run, 3);
    reveal_with_fuel(sweep, 2);
}

/// Whatever the native layer replies, the reading of a live value as an
/// integer, a floating-point number or a boolean makes allowed calls only
/// and leaves the book as it was.
pub proof fn scalar_reads_are_safe(target: Target, replies: Seq<ReplyView>, ledger: Ledger)
    requires
        reachable(target, ledger),
    ensures
        AsInt::fate(target, replies, ledger).keeps(ledger),
        AsFloat::fate(target, replies, ledger).keeps(ledger),
        AsBool::fate(target, replies, ledger).keeps(ledger),
        replies.len() >= 2 ==> AsInt::fate(target, replies, ledger).over(),
        replies.len() >= 2 ==> AsFloat::fate(target, replies, ledger).over(),
        replies.len() >= 2 ==> AsBool::fate(target, replies, ledger).over(),
{
    broadcast use group_ledger;

    reveal_with_fuel(run, 4);
    reveal_with_fuel(sweep, 2);
}

/// Whatever the native layer replies, the reading of a live value as a
/// string makes allowed calls only and leaves the book as it was: the
/// realised string is freed on every way out.
pub proof fn as_string_is_safe(target: Target, replies: Seq<ReplyView>, ledger: Ledger)
    requires
        reachable(target, ledger),
    ensures
        AsString::fate(target, replies, ledger).keeps(ledger),
        replies.len() >= 3 ==> AsString::fate(target, replies, ledger).over(),
{
    broadcast use group_ledger;

    reveal_with_fuel(run, 5);
    reveal_with_fuel(sweep, 3);
}

/// A value that is no integer is refused with the names of both types, and
/// no further call is made; it is never read as an integer.
pub proof fn as_int_refuses_other_types(target: Target, reply: ReplyView)
    requires
        told_type(reply) != ValueType::Int,
    ensures
        AsInt::Type(target).next(reply) == StepView::<AsInt, i64>::Failed(
            seq![],
            ErrorView::InvalidType { expected: "int"@, actual: told_type(reply).label() },
        ),
        told_type(reply) == ValueType::String ==> AsInt::Type(target).next(reply)
            == StepView::<AsInt, i64>::Failed(
            seq![],
            ErrorView::InvalidType { expected: "int"@, actual: "string"@ },
        ),
{
}

/// A value is read as an integer exactly when it is one; what is read is
/// what the native layer holds. A value of another type is refused with the
/// names of both types, and is not read.
pub proof fn as_int_outcome(target: Target, replies: Seq<ReplyView>, ledger: Ledger)
    requires
        reachable(target, ledger),
        replies.len() >= 2,
    ensures
        ({
            let fate = AsInt::fate(target, replies, ledger);
            &&& fate is Done <==> told_type(replies[0]) == ValueType::Int && replies[1] is Int
            &&& fate matches Fate::Done(_, n) ==> replies[1] == ReplyView::Int(n)
            &&& told_type(replies[0]) != ValueType::Int ==> (fate matches Fate::Failed(_, e) && e
                == mismatch(ValueType::Int, told_type(replies[0])))
        }),
{
    broadcast use group_ledger;

    reveal_with_fuel(run, 4);
    reveal_with_fuel(sweep, 2);
}

/// A value is read as a string exactly when it is one, it could be
/// realised, and the bytes of the realised string spell a text; what is
/// read is that text.
pub proof fn as_string_outcome(target: Target, replies: Seq<ReplyView>, ledger: Ledger)
    requires
        reachable(target, ledger),
        replies.len() >= 3,
    ensures
        ({
            let fate = AsString::fate(target, replies, ledger);
            &&& fate is Done <==> {
                &&& told_type(replies[0]) == ValueType::String
                &&& replies[1].pointer() is Ok
                &&& buffer_text(replies[2]) is Ok
            }
            &&& fate matches Fate::Done(_, text) ==> buffer_text(replies[2]) == Ok::<
                Seq<char>,
                ErrorView,
            >(text)
            &&& told_type(replies[0]) != ValueType::String ==> (fate matches Fate::Failed(_, e)
                && e == mismatch(ValueType::String, told_type(replies[0])))
        }),
{
    broadcast use group_ledger;

    reveal_with_fuel(run, 5);
    reveal_with_fuel(sweep, 3);
}

} // verus!
