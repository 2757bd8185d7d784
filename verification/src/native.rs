//! The native layer as plain values: the calls that an operation asks for, the
//! replies that come back, and the steps of an operation between them.
//!
//! Nothing here touches native code. An operation is a small machine: it names
//! the call to make next, takes the reply, and goes on or ends. Whoever drives
//! it makes the calls, and hands back each reply as the native layer gave it.
use crate::error::{check_err, option_text, translate, Error, ErrorView};
use crate::handle::Handle;
use crate::text::{decode, first_nul};
use vstd::prelude::*;
use vstd::string::StringExecFns;
use vstd::utf8::{decode_utf8, valid_utf8};

verus! {

/// One call into the native layer, named after the function it stands for:
/// first those of the Nix C API, then those of the wrapper round Lix.
#[derive(Debug, PartialEq, Eq)]
pub enum Call {
    /// `nix_c_context_create`
    ContextCreate,
    /// `nix_c_context_free`
    ContextFree { context: Handle },
    /// `nix_libutil_init`
    LibutilInit { context: Handle },
    /// `nix_libstore_init`
    LibstoreInit { context: Handle },
    /// `nix_libexpr_init`
    LibexprInit { context: Handle },
    /// `nix_store_open`, with the URI as a C string, or null for the default
    /// store, and no further parameters
    StoreOpen { context: Handle, uri: Option<Vec<u8>> },
    /// `nix_store_free`
    StoreFree { store: Handle },
    /// `nix_store_parse_path`, with the path as a C string
    StoreParsePath { context: Handle, store: Handle, text: Vec<u8> },
    /// `nix_store_path_name`
    StorePathName { path: Handle },
    /// `nix_store_path_clone`
    StorePathClone { path: Handle },
    /// `nix_store_path_free`
    StorePathFree { path: Handle },
    /// `nix_store_realise`; each output handed to the callback is cloned with
    /// `nix_store_path_clone` before the callback returns
    StoreRealise { context: Handle, store: Handle, path: Handle },
    /// `nix_eval_state_builder_new`
    BuilderNew { context: Handle, store: Handle },
    /// `nix_eval_state_builder_load`
    BuilderLoad { context: Handle, builder: Handle },
    /// `nix_eval_state_build`
    StateBuild { context: Handle, builder: Handle },
    /// `nix_eval_state_builder_free`
    BuilderFree { builder: Handle },
    /// `nix_state_free`
    StateFree { state: Handle },
    /// `nix_alloc_value`
    ValueAlloc { context: Handle, state: Handle },
    /// `nix_value_decref`
    ValueDecref { context: Handle, value: Handle },
    /// `nix_expr_eval_from_string`, with the expression and its origin as C strings
    ExprEvalFromString {
        context: Handle,
        state: Handle,
        expr: Vec<u8>,
        origin: Vec<u8>,
        value: Handle,
    },
    /// `nix_value_force`
    ValueForce { context: Handle, state: Handle, value: Handle },
    /// `nix_value_force_deep`
    ValueForceDeep { context: Handle, state: Handle, value: Handle },
    /// `nix_get_type`
    GetType { context: Handle, value: Handle },
    /// `nix_get_int`
    GetInt { context: Handle, value: Handle },
    /// `nix_get_float`
    GetFloat { context: Handle, value: Handle },
    /// `nix_get_bool`
    GetBool { context: Handle, value: Handle },
    /// `nix_string_realise`, not asking for the store paths
    StringRealise { context: Handle, state: Handle, value: Handle },
    /// `nix_realised_string_get_buffer_start` and
    /// `nix_realised_string_get_buffer_size`, and a copy of the bytes between
    RealisedStringBuffer { string: Handle },
    /// `nix_realised_string_free`
    RealisedStringFree { string: Handle },
    /// `lix_wrapper_init`
    LixInit,
    /// `lix_wrapper_open_store`
    LixOpenStore,
    /// `lix_wrapper_parse_store_path`, with the path as a C string
    LixParseStorePath { store: Handle, text: Vec<u8> },
    /// `lix_wrapper_build_path`
    LixBuildPath { store: Handle, path: Handle },
    /// `lix_wrapper_free_pointer`, on a store
    LixStoreFree { store: Handle },
    /// `lix_wrapper_free_pointer`, on a store path
    LixPathFree { path: Handle },
}

/// A call as plain values.
pub enum CallView {
    ContextCreate,
    ContextFree { context: Handle },
    LibutilInit { context: Handle },
    LibstoreInit { context: Handle },
    LibexprInit { context: Handle },
    StoreOpen { context: Handle, uri: Option<Seq<u8>> },
    StoreFree { store: Handle },
    StoreParsePath { context: Handle, store: Handle, text: Seq<u8> },
    StorePathName { path: Handle },
    StorePathClone { path: Handle },
    StorePathFree { path: Handle },
    StoreRealise { context: Handle, store: Handle, path: Handle },
    BuilderNew { context: Handle, store: Handle },
    BuilderLoad { context: Handle, builder: Handle },
    StateBuild { context: Handle, builder: Handle },
    BuilderFree { builder: Handle },
    StateFree { state: Handle },
    ValueAlloc { context: Handle, state: Handle },
    ValueDecref { context: Handle, value: Handle },
    ExprEvalFromString {
        context: Handle,
        state: Handle,
        expr: Seq<u8>,
        origin: Seq<u8>,
        value: Handle,
    },
    ValueForce { context: Handle, state: Handle, value: Handle },
    ValueForceDeep { context: Handle, state: Handle, value: Handle },
    GetType { context: Handle, value: Handle },
    GetInt { context: Handle, value: Handle },
    GetFloat { context: Handle, value: Handle },
    GetBool { context: Handle, value: Handle },
    StringRealise { context: Handle, state: Handle, value: Handle },
    RealisedStringBuffer { string: Handle },
    RealisedStringFree { string: Handle },
    LixInit,
    LixOpenStore,
    LixParseStorePath { store: Handle, text: Seq<u8> },
    LixBuildPath { store: Handle, path: Handle },
    LixStoreFree { store: Handle },
    LixPathFree { path: Handle },
}

/// The bytes of an optional buffer.
pub open spec fn bytes_view(bytes: Option<Vec<u8>>) -> Option<Seq<u8>> {
    match bytes {
        Some(b) => Some(b@),
        None => None,
    }
}

impl View for Call {
    type V = CallView;

    open spec fn view(&self) -> CallView {
        match *self {
            Call::ContextCreate => CallView::ContextCreate,
            Call::ContextFree { context } => CallView::ContextFree { context },
            Call::LibutilInit { context } => CallView::LibutilInit { context },
            Call::LibstoreInit { context } => CallView::LibstoreInit { context },
            Call::LibexprInit { context } => CallView::LibexprInit { context },
            Call::StoreOpen { context, uri } => CallView::StoreOpen {
                context,
                uri: bytes_view(uri),
            },
            Call::StoreFree { store } => CallView::StoreFree { store },
            Call::StoreParsePath { context, store, text } => CallView::StoreParsePath {
                context,
                store,
                text: text@,
            },
            Call::StorePathName { path } => CallView::StorePathName { path },
            Call::StorePathClone { path } => CallView::StorePathClone { path },
            Call::StorePathFree { path } => CallView::StorePathFree { path },
            Call::StoreRealise { context, store, path } => CallView::StoreRealise {
                context,
                store,
                path,
            },
            Call::BuilderNew { context, store } => CallView::BuilderNew { context, store },
            Call::BuilderLoad { context, builder } => CallView::BuilderLoad { context, builder },
            Call::StateBuild { context, builder } => CallView::StateBuild { context, builder },
            Call::BuilderFree { builder } => CallView::BuilderFree { builder },
            Call::StateFree { state } => CallView::StateFree { state },
            Call::ValueAlloc { context, state } => CallView::ValueAlloc { context, state },
            Call::ValueDecref { context, value } => CallView::ValueDecref { context, value },
            Call::ExprEvalFromString { context, state, expr, origin, value } =>
                CallView::ExprEvalFromString {
                    context,
                    state,
                    expr: expr@,
                    origin: origin@,
                    value,
                },
            Call::ValueForce { context, state, value } => CallView::ValueForce {
                context,
                state,
                value,
            },
            Call::ValueForceDeep { context, state, value } => CallView::ValueForceDeep {
                context,
                state,
                value,
            },
            Call::GetType { context, value } => CallView::GetType { context, value },
            Call::GetInt { context, value } => CallView::GetInt { context, value },
            Call::GetFloat { context, value } => CallView::GetFloat { context, value },
            Call::GetBool { context, value } => CallView::GetBool { context, value },
            Call::StringRealise { context, state, value } => CallView::StringRealise {
                context,
                state,
                value,
            },
            Call::RealisedStringBuffer { string } => CallView::RealisedStringBuffer { string },
            Call::RealisedStringFree { string } => CallView::RealisedStringFree { string },
            Call::LixInit => CallView::LixInit,
            Call::LixOpenStore => CallView::LixOpenStore,
            Call::LixParseStorePath { store, text } => CallView::LixParseStorePath {
                store,
                text: text@,
            },
            Call::LixBuildPath { store, path } => CallView::LixBuildPath { store, path },
            Call::LixStoreFree { store } => CallView::LixStoreFree { store },
            Call::LixPathFree { path } => CallView::LixPathFree { path },
        }
    }
}

/// A floating-point number as it crosses the boundary: its bit pattern, and
/// the text that `Display` writes for it.
#[derive(Debug, PartialEq, Eq)]
pub struct Float {
    /// The IEEE 754 binary64 pattern of the number.
    pub bits: u64,
    /// The number as text.
    pub text: String,
}

/// A floating-point number as plain values.
pub struct FloatView {
    pub bits: u64,
    pub text: Seq<char>,
}

impl View for Float {
    type V = FloatView;

    open spec fn view(&self) -> FloatView {
        FloatView { bits: self.bits, text: self.text@ }
    }
}

/// One output that a realisation reported.
#[derive(Debug, PartialEq, Eq)]
pub struct RawOutput {
    /// The output's name as the callback got it; none for a null name.
    pub name: Option<Vec<u8>>,
    /// The clone of the output's path; none where the path or its clone was null.
    pub path: Option<Handle>,
}

/// A reported output as plain values.
pub struct RawOutputView {
    pub name: Option<Seq<u8>>,
    pub path: Option<Handle>,
}

impl View for RawOutput {
    type V = RawOutputView;

    open spec fn view(&self) -> RawOutputView {
        RawOutputView { name: bytes_view(self.name), path: self.path }
    }
}

/// What came back from a call.
#[derive(Debug, PartialEq, Eq)]
pub enum Reply {
    /// The call returns nothing.
    Nothing,
    /// The object that the call returned; none for a null pointer.
    Pointer(Option<Handle>),
    /// The error code that the call returned, and, for a code of failure,
    /// the message that the context holds after it, if it holds one.
    Status { code: i32, message: Option<Vec<u8>> },
    /// The type tag of a value.
    Type(u32),
    /// An integer.
    Int(i64),
    /// A boolean.
    Bool(bool),
    /// A floating-point number.
    Float(Float),
    /// The bytes that the call gave; none where it gave none, or a null buffer.
    Bytes(Option<Vec<u8>>),
    /// The error code of a realisation, the context's message for a code of
    /// failure, and the outputs that the callback saw, in order.
    Realised { code: i32, message: Option<Vec<u8>>, outputs: Vec<RawOutput> },
}

/// A reply as plain values.
pub enum ReplyView {
    Nothing,
    Pointer(Option<Handle>),
    Status { code: i32, message: Option<Seq<u8>> },
    Type(u32),
    Int(i64),
    Bool(bool),
    Float(FloatView),
    Bytes(Option<Seq<u8>>),
    Realised { code: i32, message: Option<Seq<u8>>, outputs: Seq<RawOutputView> },
}

impl View for Reply {
    type V = ReplyView;

    open spec fn view(&self) -> ReplyView {
        match *self {
            Reply::Nothing => ReplyView::Nothing,
            Reply::Pointer(p) => ReplyView::Pointer(p),
            Reply::Status { code, message } => ReplyView::Status {
                code,
                message: bytes_view(message),
            },
            Reply::Type(tag) => ReplyView::Type(tag),
            Reply::Int(n) => ReplyView::Int(n),
            Reply::Bool(b) => ReplyView::Bool(b),
            Reply::Float(f) => ReplyView::Float(f@),
            Reply::Bytes(bytes) => ReplyView::Bytes(bytes_view(bytes)),
            Reply::Realised { code, message, outputs } => ReplyView::Realised {
                code,
                message: bytes_view(message),
                outputs: outputs@.map_values(|o: RawOutput| o@),
            },
        }
    }
}

/// The text of a context's message: what its bytes spell, where they are
/// valid UTF-8; no message otherwise.
pub open spec fn message_text(message: Option<Seq<u8>>) -> Option<Seq<char>> {
    match message {
        Some(bytes) => if valid_utf8(bytes) {
            Some(decode_utf8(bytes))
        } else {
            None
        },
        None => None,
    }
}

/// The error for a reply that does not answer the call that was made.
pub open spec fn unexpected() -> ErrorView {
    ErrorView::Unknown("Unexpected reply from the native layer"@)
}

impl ReplyView {
    /// The object that a call returned: the null pointer is an error, and so
    /// is any reply that is not a pointer.
    pub open spec fn pointer(self) -> Result<Handle, ErrorView> {
        match self {
            ReplyView::Pointer(Some(h)) => Ok(h),
            ReplyView::Pointer(None) => Err(ErrorView::NullPointer),
            _ => Err(unexpected()),
        }
    }

    /// The error that a status stands for, if any; a reply that is no status
    /// is an error too.
    pub open spec fn status(self) -> Option<ErrorView> {
        match self {
            ReplyView::Status { code, message } => translate(code, message_text(message)),
            _ => Some(unexpected()),
        }
    }
}

/// The error for a reply that does not answer the call that was made.
pub fn unexpected_reply() -> (e: Error)
    ensures
        e@ == unexpected(),
{
    Error::Unknown(String::from_str("Unexpected reply from the native layer"))
}

/// Decodes a context's message.
pub fn read_message(message: Option<Vec<u8>>) -> (text: Option<String>)
    ensures
        option_text(text) == message_text(bytes_view(message)),
{
    match message {
        Some(bytes) => decode(bytes),
        None => None,
    }
}

impl Reply {
    /// The object that a call returned.
    pub fn pointer(self) -> (r: Result<Handle, Error>)
        ensures
            match self@.pointer() {
                Ok(h) => r == Ok::<Handle, Error>(h),
                Err(e) => r matches Err(err) && err@ == e,
            },
    {
        match self {
            Reply::Pointer(Some(h)) => Ok(h),
            Reply::Pointer(None) => Err(Error::NullPointer),
            _ => Err(unexpected_reply()),
        }
    }

    /// Reads a status.
    pub fn status(self) -> (r: Result<(), Error>)
        ensures
            match self@.status() {
                None => r is Ok,
                Some(e) => r matches Err(err) && err@ == e,
            },
    {
        match self {
            Reply::Status { code, message } => check_err(code, read_message(message)),
            _ => Err(unexpected_reply()),
        }
    }
}

/// One step of an operation.
#[derive(Debug)]
pub enum Step<S, T> {
    /// Make the call, then resume the state with its reply.
    Call(S, Call),
    /// The operation succeeded. First make the calls, in order; they return
    /// nothing to wait for.
    Done(Vec<Call>, T),
    /// The operation failed. First make the calls, in order; they return
    /// nothing to wait for.
    Failed(Vec<Call>, Error),
}

/// A step as plain values.
pub enum StepView<S, T> {
    Call(S, CallView),
    Done(Seq<CallView>, T),
    Failed(Seq<CallView>, ErrorView),
}

/// The step that refuses a string with a nul byte inside: no call is made.
pub open spec fn refused<S, T>(bytes: Seq<u8>) -> StepView<S, T> {
    StepView::Failed(
        seq![],
        ErrorView::StringConversion { position: first_nul(bytes), bytes },
    )
}

/// A list of calls as plain values.
pub open spec fn calls_view(calls: Vec<Call>) -> Seq<CallView> {
    calls@.map_values(|c: Call| c@)
}

impl<S: View, T: View> View for Step<S, T> {
    type V = StepView<S::V, T::V>;

    open spec fn view(&self) -> StepView<S::V, T::V> {
        match self {
            Step::Call(state, call) => StepView::Call(state@, call@),
            Step::Done(calls, value) => StepView::Done(calls_view(*calls), value@),
            Step::Failed(calls, error) => StepView::Failed(calls_view(*calls), error@),
        }
    }
}

/// No call.
pub fn no_calls() -> (calls: Vec<Call>)
    ensures
        calls_view(calls) == Seq::<CallView>::empty(),
{
    let calls = Vec::new();
    assert(calls_view(calls) =~= Seq::<CallView>::empty());
    calls
}

/// One call.
pub fn one_call(call: Call) -> (calls: Vec<Call>)
    ensures
        calls_view(calls) == seq![call@],
{
    let mut calls = Vec::new();
    calls.push(call);
    assert(calls_view(calls) =~= seq![call@]);
    calls
}

} // verus!
