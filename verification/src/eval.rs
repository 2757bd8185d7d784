//! The evaluator: its builder, which is used once, and its state, which lasts.
use crate::error::{Error, ErrorView, NIX_ERR_NIX_ERROR};
use crate::handle::Handle;
use crate::ledger::{entry, group_ledger, run, sweep, Fate, Kind, Ledger};
use crate::native::{
    message_text, no_calls, one_call, refused, Call, CallView, Reply, ReplyView, Step, StepView,
};
use crate::store::Store;
use crate::text::{first_nul, nul_free, to_c_string};
use crate::value::{Value, ValueView};
use vstd::prelude::*;
use vstd::string::StringSliceAdditionalSpecFns;

verus! {

/// A builder of an evaluator state, under the store and context it was made with.
///
/// A builder is used once: `build` takes it, and frees it whether or not a
/// state comes of it. One that is never built is owed a `release`.
#[derive(Debug, PartialEq, Eq)]
pub struct EvalStateBuilder {
    pub handle: Handle,
    pub store: Handle,
    pub context: Handle,
}

impl View for EvalStateBuilder {
    type V = EvalStateBuilder;

    open spec fn view(&self) -> EvalStateBuilder {
        *self
    }
}

/// An evaluator state, under the store and context of its builder.
///
/// Whoever holds this value owes the state one `release`, after the values
/// made from it and before the store.
#[derive(Debug, PartialEq, Eq)]
pub struct EvalState {
    pub handle: Handle,
    pub store: Handle,
    pub context: Handle,
}

impl View for EvalState {
    type V = EvalState;

    open spec fn view(&self) -> EvalState {
        *self
    }
}

/// The making of a builder, waiting for the reply of `nix_eval_state_builder_new`.
#[derive(Debug, PartialEq, Eq)]
pub struct BuilderNew {
    pub store: Handle,
    pub context: Handle,
}

impl View for BuilderNew {
    type V = BuilderNew;

    open spec fn view(&self) -> BuilderNew {
        *self
    }
}

impl BuilderNew {
    /// The first step: a builder is asked for, under the store's context.
    pub open spec fn first(store: Store) -> StepView<BuilderNew, EvalStateBuilder> {
        StepView::Call(
            BuilderNew { store: store.handle, context: store.context },
            CallView::BuilderNew { context: store.context, store: store.handle },
        )
    }

    /// The step after `reply`: the builder, or the error for a null pointer.
    pub open spec fn next(self, reply: ReplyView) -> StepView<BuilderNew, EvalStateBuilder> {
        match reply.pointer() {
            Ok(handle) => StepView::Done(
                seq![],
                EvalStateBuilder { handle, store: self.store, context: self.context },
            ),
            Err(e) => StepView::Failed(seq![], e),
        }
    }

    /// How the operation fares against `replies`, and what becomes of the book.
    pub open spec fn fate(
        store: Store,
        replies: Seq<ReplyView>,
        ledger: Ledger,
    ) -> Fate<EvalStateBuilder> {
        run(|s: BuilderNew, r: ReplyView| s.next(r), Self::first(store), replies, ledger)
    }

    /// Takes the reply to the call that is out, and says what comes next.
    pub fn resume(self, reply: Reply) -> (step: Step<BuilderNew, EvalStateBuilder>)
        ensures
            step@ == self.next(reply@),
    {
        match reply.pointer() {
            Ok(handle) => Step::Done(
                no_calls(),
                EvalStateBuilder { handle, store: self.store, context: self.context },
            ),
            Err(e) => Step::Failed(no_calls(), e),
        }
    }
}

/// The building of a state, by the reply it waits for.
#[derive(Debug, PartialEq, Eq)]
pub enum Build {
    /// That of `nix_eval_state_builder_load`.
    Load(EvalStateBuilder),
    /// That of `nix_eval_state_build`.
    State(EvalStateBuilder),
}

impl View for Build {
    type V = Build;

    open spec fn view(&self) -> Build {
        *self
    }
}

impl Build {
    /// The first step: the builder loads its configuration.
    pub open spec fn first(builder: EvalStateBuilder) -> StepView<Build, EvalState> {
        StepView::Call(
            Build::Load(builder),
            CallView::BuilderLoad { context: builder.context, builder: builder.handle },
        )
    }

    /// The step after `reply`.
    ///
    /// Once the configuration is loaded the state is built. However the
    /// operation ends, the builder is freed, once.
    pub open spec fn next(self, reply: ReplyView) -> StepView<Build, EvalState> {
        match self {
            Build::Load(builder) => match reply.status() {
                None => StepView::Call(
                    Build::State(builder),
                    CallView::StateBuild { context: builder.context, builder: builder.handle },
                ),
                Some(e) => StepView::Failed(
                    seq![CallView::BuilderFree { builder: builder.handle }],
                    e,
                ),
            },
            Build::State(builder) => match reply.pointer() {
                Ok(handle) => StepView::Done(
                    seq![CallView::BuilderFree { builder: builder.handle }],
                    EvalState { handle, store: builder.store, context: builder.context },
                ),
                Err(e) => StepView::Failed(
                    seq![CallView::BuilderFree { builder: builder.handle }],
                    e,
                ),
            },
        }
    }

    /// How the operation fares against `replies`, and what becomes of the book.
    pub open spec fn fate(
        builder: EvalStateBuilder,
        replies: Seq<ReplyView>,
        ledger: Ledger,
    ) -> Fate<EvalState> {
        run(|s: Build, r: ReplyView| s.next(r), Self::first(builder), replies, ledger)
    }

    /// Takes the reply to the call that is out, and says what comes next.
    pub fn resume(self, reply: Reply) -> (step: Step<Build, EvalState>)
        ensures
            step@ == self.next(reply@),
    {
        match self {
            Build::Load(builder) => match reply.status() {
                Ok(()) => {
                    let call = Call::StateBuild {
                        context: builder.context,
                        builder: builder.handle,
                    };
                    Step::Call(Build::State(builder), call)
                },
                Err(e) => Step::Failed(one_call(Call::BuilderFree { builder: builder.handle }), e),
            },
            Build::State(builder) => {
                let free = one_call(Call::BuilderFree { builder: builder.handle });
                match reply.pointer() {
                    Ok(handle) => Step::Done(
                        free,
                        EvalState { handle, store: builder.store, context: builder.context },
                    ),
                    Err(e) => Step::Failed(free, e),
                }
            },
        }
    }
}

impl EvalStateBuilder {
    /// Starts the making of a builder for `store`.
    pub fn new(store: &Store) -> (step: Step<BuilderNew, EvalStateBuilder>)
        ensures
            step@ == BuilderNew::first(*store),
    {
        Step::Call(
            BuilderNew { store: store.handle, context: store.context },
            Call::BuilderNew { context: store.context, store: store.handle },
        )
    }

    /// Starts the building of the state. The builder is spent.
    pub fn build(self) -> (step: Step<Build, EvalState>)
        ensures
            step@ == Build::first(self),
    {
        let call = Call::BuilderLoad { context: self.context, builder: self.handle };
        Step::Call(Build::Load(self), call)
    }

    /// Gives up a builder that was not built: the call that frees it.
    pub fn release(self) -> (call: Call)
        ensures
            call@ == (CallView::BuilderFree { builder: self.handle }),
    {
        Call::BuilderFree { builder: self.handle }
    }
}

/// The making of an empty value, waiting for the reply of `nix_alloc_value`.
#[derive(Debug, PartialEq, Eq)]
pub struct AllocValue<'a> {
    pub state: &'a EvalState,
}

impl<'a> View for AllocValue<'a> {
    type V = EvalState;

    open spec fn view(&self) -> EvalState {
        *self.state
    }
}

impl<'a> AllocValue<'a> {
    /// The first step: the state is asked for an empty value.
    pub open spec fn first(state: EvalState) -> StepView<EvalState, ValueView> {
        StepView::Call(state, CallView::ValueAlloc { context: state.context, state: state.handle })
    }

    /// The step after `reply`: the value, or the error for a null pointer.
    pub open spec fn next(state: EvalState, reply: ReplyView) -> StepView<EvalState, ValueView> {
        match reply.pointer() {
            Ok(handle) => StepView::Done(seq![], ValueView { handle, state }),
            Err(e) => StepView::Failed(seq![], e),
        }
    }

    /// How the operation fares against `replies`, and what becomes of the book.
    pub open spec fn fate(
        state: EvalState,
        replies: Seq<ReplyView>,
        ledger: Ledger,
    ) -> Fate<ValueView> {
        run(
            |s: EvalState, r: ReplyView| AllocValue::next(s, r),
            Self::first(state),
            replies,
            ledger,
        )
    }

    /// Takes the reply to the call that is out, and says what comes next.
    pub fn resume(self, reply: Reply) -> (step: Step<AllocValue<'a>, Value<'a>>)
        ensures
            step@ == Self::next(self@, reply@),
    {
        match reply.pointer() {
            Ok(handle) => Step::Done(no_calls(), Value { handle, state: self.state }),
            Err(e) => Step::Failed(no_calls(), e),
        }
    }
}

/// The evaluation of an expression, by the reply it waits for.
#[derive(Debug, PartialEq, Eq)]
pub enum EvalFromString<'a> {
    /// That of `nix_alloc_value`, for the value that will hold the result.
    Alloc { state: &'a EvalState, expr: Vec<u8>, origin: Vec<u8> },
    /// That of `nix_expr_eval_from_string`.
    Eval { state: &'a EvalState, value: Handle },
}

/// An evaluation under way, as plain values.
pub enum EvalFromStringView {
    Alloc { state: EvalState, expr: Seq<u8>, origin: Seq<u8> },
    Eval { state: EvalState, value: Handle },
}

impl<'a> View for EvalFromString<'a> {
    type V = EvalFromStringView;

    open spec fn view(&self) -> EvalFromStringView {
        match self {
            EvalFromString::Alloc { state, expr, origin } => EvalFromStringView::Alloc {
                state: **state,
                expr: expr@,
                origin: origin@,
            },
            EvalFromString::Eval { state, value } => EvalFromStringView::Eval {
                state: **state,
                value: *value,
            },
        }
    }
}

impl EvalFromStringView {
    /// The first step: an expression or an origin with a nul byte inside is
    /// refused, the expression first; otherwise a value is made to hold the result.
    pub open spec fn first(state: EvalState, expr: Seq<u8>, origin: Seq<u8>) -> StepView<
        EvalFromStringView,
        ValueView,
    > {
        if !nul_free(expr) {
            refused(expr)
        } else if !nul_free(origin) {
            refused(origin)
        } else {
            StepView::Call(
                EvalFromStringView::Alloc { state, expr, origin },
                CallView::ValueAlloc { context: state.context, state: state.handle },
            )
        }
    }

    /// The step after `reply`.
    ///
    /// Into the value that was made the expression is evaluated. Where that
    /// fails, the operation ends with the evaluator's error, and the value
    /// is given up.
    pub open spec fn next(self, reply: ReplyView) -> StepView<EvalFromStringView, ValueView> {
        match self {
            EvalFromStringView::Alloc { state, expr, origin } => match reply.pointer() {
                Ok(value) => StepView::Call(
                    EvalFromStringView::Eval { state, value },
                    CallView::ExprEvalFromString {
                        context: state.context,
                        state: state.handle,
                        expr,
                        origin,
                        value,
                    },
                ),
                Err(e) => StepView::Failed(seq![], e),
            },
            EvalFromStringView::Eval { state, value } => match reply.status() {
                None => StepView::Done(seq![], ValueView { handle: value, state }),
                Some(e) => StepView::Failed(
                    seq![CallView::ValueDecref { context: state.context, value }],
                    e,
                ),
            },
        }
    }

    /// How the operation fares against `replies`, and what becomes of the book.
    pub open spec fn fate(
        state: EvalState,
        expr: Seq<u8>,
        origin: Seq<u8>,
        replies: Seq<ReplyView>,
        ledger: Ledger,
    ) -> Fate<ValueView> {
        run(
            |s: EvalFromStringView, r: ReplyView| s.next(r),
            Self::first(state, expr, origin),
            replies,
            ledger,
        )
    }
}

impl<'a> EvalFromString<'a> {
    /// Takes the reply to the call that is out, and says what comes next.
    pub fn resume(self, reply: Reply) -> (step: Step<EvalFromString<'a>, Value<'a>>)
        ensures
            step@ == self@.next(reply@),
    {
        match self {
            EvalFromString::Alloc { state, expr, origin } => match reply.pointer() {
                Ok(value) => Step::Call(
                    EvalFromString::Eval { state, value },
                    Call::ExprEvalFromString {
                        context: state.context,
                        state: state.handle,
                        expr,
                        origin,
                        value,
                    },
                ),
                Err(e) => Step::Failed(no_calls(), e),
            },
            EvalFromString::Eval { state, value } => match reply.status() {
                Ok(()) => Step::Done(no_calls(), Value { handle: value, state }),
                Err(e) => Step::Failed(
                    one_call(Call::ValueDecref { context: state.context, value }),
                    e,
                ),
            },
        }
    }
}

impl EvalState {
    /// Starts the evaluation of `expr`; `path` names where it comes from, for
    /// the evaluator's messages.
    pub fn eval_from_string<'a>(&'a self, expr: &str, path: &str) -> (step: Step<
        EvalFromString<'a>,
        Value<'a>,
    >)
        ensures
            step@ == EvalFromStringView::first(*self, expr.spec_bytes(), path.spec_bytes()),
    {
        let expr = match to_c_string(expr) {
            Ok(bytes) => bytes,
            Err(nul) => {
                return Step::Failed(no_calls(), Error::StringConversion(nul));
            },
        };
        let origin = match to_c_string(path) {
            Ok(bytes) => bytes,
            Err(nul) => {
                return Step::Failed(no_calls(), Error::StringConversion(nul));
            },
        };
        Step::Call(
            EvalFromString::Alloc { state: self, expr, origin },
            Call::ValueAlloc { context: self.context, state: self.handle },
        )
    }

    /// Starts the making of an empty value.
    pub fn alloc_value<'a>(&'a self) -> (step: Step<AllocValue<'a>, Value<'a>>)
        ensures
            step@ == AllocValue::first(*self),
    {
        Step::Call(
            AllocValue { state: self },
            Call::ValueAlloc { context: self.context, state: self.handle },
        )
    }

    /// Gives the state up: the call that frees it.
    pub fn release(self) -> (call: Call)
        ensures
            call@ == (CallView::StateFree { state: self.handle }),
    {
        Call::StateFree { state: self.handle }
    }
}

/// Whatever the native layer replies, the making of a builder for a live
/// store under a live context makes allowed calls only; where it fails, the
/// book is as before; where it succeeds, the book has gained the builder,
/// which stands under the store and its context.
pub proof fn builder_new_is_safe(store: Store, replies: Seq<ReplyView>, ledger: Ledger)
    requires
        ledger.contains(entry(Kind::Context, store.context)),
        ledger.contains(entry(Kind::Store, store.handle)),
    ensures
        ({
            let fate = BuilderNew::fate(store, replies, ledger);
            &&& fate.sound(ledger)
            &&& fate matches Fate::Done(after, builder) ==> {
                &&& after == ledger.insert(entry(Kind::Builder, builder.handle))
                &&& builder.store == store.handle
                &&& builder.context == store.context
            }
            &&& replies.len() >= 1 ==> fate.over()
        }),
{
    broadcast use group_ledger;

    reveal_with_fuel(run, 3);
    reveal_with_fuel(sweep, 2);
}

/// Whatever the native layer replies, the building of a state from a live
/// builder makes allowed calls only, and frees the builder exactly once:
/// where it fails, the book has lost the builder and is otherwise as before;
/// where it succeeds, it has gained the state in the builder's place.
pub proof fn build_is_safe(builder: EvalStateBuilder, replies: Seq<ReplyView>, ledger: Ledger)
    requires
        ledger.contains(entry(Kind::Context, builder.context)),
        ledger.contains(entry(Kind::Builder, builder.handle)),
    ensures
        ({
            let fate = Build::fate(builder, replies, ledger);
            let spent = ledger.remove(entry(Kind::Builder, builder.handle));
            match fate {
                Fate::Forbidden => false,
                Fate::Waiting(_) => replies.len() < 2,
                Fate::Done(after, state) => {
                    &&& after == spent.insert(entry(Kind::State, state.handle))
                    &&& state.store == builder.store
                    &&& state.context == builder.context
                },
                Fate::Failed(after, _) => after == spent,
            }
        }),
{
    broadcast use group_ledger;

    reveal_with_fuel(run, 4);
    reveal_with_fuel(sweep, 3);
    let fate = Build::fate(builder, replies, ledger);
    let spent = ledger.remove(entry(Kind::Builder, builder.handle));
    match fate {
        Fate::Done(after, state) => {
            assert(after =~= spent.insert(entry(Kind::State, state.handle)));
        },
        Fate::Failed(after, _) => {
            assert(after =~= spent);
        },
        _ => {},
    }
}

/// Whatever the native layer replies, the making of an empty value from a
/// live state makes allowed calls only; where it fails, the book is as
/// before; where it succeeds, the book has gained one reference to the
/// value, which borrows the state.
pub proof fn alloc_value_is_safe(state: EvalState, replies: Seq<ReplyView>, ledger: Ledger)
    requires
        ledger.contains(entry(Kind::Context, state.context)),
        ledger.contains(entry(Kind::State, state.handle)),
    ensures
        ({
            let fate = AllocValue::fate(state, replies, ledger);
            &&& fate.sound(ledger)
            &&& fate matches Fate::Done(after, value) ==> {
                &&& after == ledger.insert(entry(Kind::Value, value.handle))
                &&& value.state == state
            }
            &&& replies.len() >= 1 ==> fate.over()
        }),
{
    broadcast use group_ledger;

    reveal_with_fuel(run, 3);
    reveal_with_fuel(sweep, 2);
}

/// Whatever the native layer replies, an evaluation in a live state makes
/// allowed calls only. Where it fails, the book is as before: the value that
/// was to hold the result is given up. Where it succeeds, the book has
/// gained one reference to the value, which borrows the state.
pub proof fn eval_from_string_is_safe(
    state: EvalState,
    expr: Seq<u8>,
    origin: Seq<u8>,
    replies: Seq<ReplyView>,
    ledger: Ledger,
)
    requires
        ledger.contains(entry(Kind::Context, state.context)),
        ledger.contains(entry(Kind::State, state.handle)),
    ensures
        ({
            let fate = EvalFromStringView::fate(state, expr, origin, replies, ledger);
            &&& fate.sound(ledger)
            &&& fate matches Fate::Done(after, value) ==> {
                &&& after == ledger.insert(entry(Kind::Value, value.handle))
                &&& value.state == state
            }
            &&& replies.len() >= 2 ==> fate.over()
        }),
{
    broadcast use group_ledger;

    reveal_with_fuel(run, 4);
    reveal_with_fuel(sweep, 3);
}

/// An evaluation that the evaluator fails, for a syntax error or any other,
/// ends with the evaluator's error and with no value: the one that was to
/// hold the result is given up, and none is handed out.
pub proof fn failed_evaluation_gives_no_value(
    state: EvalState,
    value: Handle,
    message: Option<Seq<u8>>,
)
    ensures
        (EvalFromStringView::Eval { state, value }).next(
            ReplyView::Status { code: NIX_ERR_NIX_ERROR, message },
        ) == StepView::<EvalFromStringView, ValueView>::Failed(
            seq![CallView::ValueDecref { context: state.context, value }],
            ErrorView::EvalError(
                match message_text(message) {
                    Some(text) => text,
                    None => "Evaluation error"@,
                },
            ),
        ),
{
}

/// An evaluation gives a value exactly when neither string holds a nul
/// byte, a value was made to hold the result, and the evaluator reported no
/// error; the value is the one that was made. Otherwise the first of these
/// that failed gives the error.
pub proof fn eval_from_string_outcome(
    state: EvalState,
    expr: Seq<u8>,
    origin: Seq<u8>,
    replies: Seq<ReplyView>,
    ledger: Ledger,
)
    requires
        ledger.contains(entry(Kind::Context, state.context)),
        ledger.contains(entry(Kind::State, state.handle)),
        replies.len() >= 2,
    ensures
        ({
            let fate = EvalFromStringView::fate(state, expr, origin, replies, ledger);
            &&& fate is Done <==> {
                &&& nul_free(expr)
                &&& nul_free(origin)
                &&& replies[0].pointer() is Ok
                &&& replies[1].status() is None
            }
            &&& fate matches Fate::Done(_, value) ==> replies[0] == ReplyView::Pointer(
                Some(value.handle),
            )
            &&& !nul_free(expr) ==> (fate matches Fate::Failed(_, e) && e
                == (ErrorView::StringConversion { position: first_nul(expr), bytes: expr }))
            &&& nul_free(expr) && !nul_free(origin) ==> (fate matches Fate::Failed(_, e) && e
                == (ErrorView::StringConversion { position: first_nul(origin), bytes: origin }))
            &&& nul_free(expr) && nul_free(origin) ==> {
                &&& replies[0].pointer() matches Err(e) ==> fate matches Fate::Failed(_, error)
                    && error == e
                &&& replies[0].pointer() is Ok ==> (replies[1].status() matches Some(e)
                    ==> fate matches Fate::Failed(_, error) && error == e)
            }
        }),
{
    broadcast use group_ledger;

    reveal_with_fuel(run, 4);
    reveal_with_fuel(sweep, 3);
}

/// The book after values are made and given up in turn, one for each of
/// `replies`; none where a call was not allowed when its turn came.
pub open spec fn churn(state: EvalState, replies: Seq<ReplyView>, ledger: Ledger) -> Option<Ledger>
    decreases replies.len(),
{
    if replies.len() == 0 {
        Some(ledger)
    } else {
        match AllocValue::fate(state, seq![replies[0]], ledger) {
            Fate::Done(after, value) => {
                let drop = CallView::ValueDecref {
                    context: value.state.context,
                    value: value.handle,
                };
                if drop.allowed(after) {
                    churn(state, replies.drop_first(), drop.settle(ReplyView::Nothing, after))
                } else {
                    None
                }
            },
            Fate::Failed(after, _) => churn(state, replies.drop_first(), after),
            _ => None,
        }
    }
}

/// However many values are made from a live state and given up in turn, and
/// whatever the native layer replies, every call is allowed and the book
/// ends as it began: no reference to a value is left.
pub proof fn churn_keeps_book(state: EvalState, replies: Seq<ReplyView>, ledger: Ledger)
    requires
        ledger.contains(entry(Kind::Context, state.context)),
        ledger.contains(entry(Kind::State, state.handle)),
    ensures
        churn(state, replies, ledger) == Some(ledger),
    decreases replies.len(),
{
    broadcast use group_ledger;

    if replies.len() > 0 {
        alloc_value_is_safe(state, seq![replies[0]], ledger);
        reveal_with_fuel(run, 3);
        reveal_with_fuel(sweep, 2);
        churn_keeps_book(state, replies.drop_first(), ledger);
    }
}

} // verus!
