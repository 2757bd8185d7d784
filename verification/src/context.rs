//! The context: the root object, which every other call goes through.
use crate::handle::Handle;
use crate::ledger::{entry, group_ledger, run, sweep, Fate, Kind, Ledger};
use crate::native::{no_calls, one_call, Call, CallView, Reply, ReplyView, Step, StepView};
use vstd::prelude::*;

verus! {

/// A native context whose three libraries have been initialised.
///
/// Whoever holds this value owes the context one `release`.
#[derive(Debug, PartialEq, Eq)]
pub struct Context {
    pub handle: Handle,
}

impl View for Context {
    type V = Context;

    open spec fn view(&self) -> Context {
        *self
    }
}

/// The creation of a context, by the reply it waits for.
#[derive(Debug, PartialEq, Eq)]
pub enum ContextNew {
    /// That of `nix_c_context_create`.
    Create,
    /// That of `nix_libutil_init`.
    Util(Handle),
    /// That of `nix_libstore_init`.
    Store(Handle),
    /// That of `nix_libexpr_init`.
    Expr(Handle),
}

impl View for ContextNew {
    type V = ContextNew;

    open spec fn view(&self) -> ContextNew {
        *self
    }
}

impl ContextNew {
    /// The first step: the context is created.
    pub open spec fn first() -> StepView<ContextNew, Context> {
        StepView::Call(ContextNew::Create, CallView::ContextCreate)
    }

    /// The step after `reply`.
    ///
    /// A context that was created has its three libraries initialised in
    /// turn. The first that fails ends the operation with its error, and the
    /// context is freed.
    pub open spec fn next(self, reply: ReplyView) -> StepView<ContextNew, Context> {
        match self {
            ContextNew::Create => match reply.pointer() {
                Ok(context) => StepView::Call(
                    ContextNew::Util(context),
                    CallView::LibutilInit { context },
                ),
                Err(e) => StepView::Failed(seq![], e),
            },
            ContextNew::Util(context) => match reply.status() {
                None => StepView::Call(
                    ContextNew::Store(context),
                    CallView::LibstoreInit { context },
                ),
                Some(e) => StepView::Failed(seq![CallView::ContextFree { context }], e),
            },
            ContextNew::Store(context) => match reply.status() {
                None => StepView::Call(
                    ContextNew::Expr(context),
                    CallView::LibexprInit { context },
                ),
                Some(e) => StepView::Failed(seq![CallView::ContextFree { context }], e),
            },
            ContextNew::Expr(context) => match reply.status() {
                None => StepView::Done(seq![], Context { handle: context }),
                Some(e) => StepView::Failed(seq![CallView::ContextFree { context }], e),
            },
        }
    }

    /// How the operation fares against `replies`, and what becomes of the book.
    pub open spec fn fate(replies: Seq<ReplyView>, ledger: Ledger) -> Fate<Context> {
        run(|s: ContextNew, r: ReplyView| s.next(r), Self::first(), replies, ledger)
    }

    /// Takes the reply to the call that is out, and says what comes next.
    pub fn resume(self, reply: Reply) -> (step: Step<ContextNew, Context>)
        ensures
            step@ == self.next(reply@),
    {
        match self {
            ContextNew::Create => match reply.pointer() {
                Ok(context) => Step::Call(ContextNew::Util(context), Call::LibutilInit { context }),
                Err(e) => Step::Failed(no_calls(), e),
            },
            ContextNew::Util(context) => match reply.status() {
                Ok(()) => Step::Call(ContextNew::Store(context), Call::LibstoreInit { context }),
                Err(e) => Step::Failed(one_call(Call::ContextFree { context }), e),
            },
            ContextNew::Store(context) => match reply.status() {
                Ok(()) => Step::Call(ContextNew::Expr(context), Call::LibexprInit { context }),
                Err(e) => Step::Failed(one_call(Call::ContextFree { context }), e),
            },
            ContextNew::Expr(context) => match reply.status() {
                Ok(()) => Step::Done(no_calls(), Context { handle: context }),
                Err(e) => Step::Failed(one_call(Call::ContextFree { context }), e),
            },
        }
    }
}

impl Context {
    /// Starts the creation of a context.
    pub fn new() -> (step: Step<ContextNew, Context>)
        ensures
            step@ == ContextNew::first(),
    {
        Step::Call(ContextNew::Create, Call::ContextCreate)
    }

    /// Gives the context up: the call that frees it.
    pub fn release(self) -> (call: Call)
        ensures
            call@ == (CallView::ContextFree { context: self.handle }),
    {
        Call::ContextFree { context: self.handle }
    }
}

/// Whatever the native layer replies, the creation of a context makes
/// allowed calls only; where it fails, the book is as before; where it
/// succeeds, the book has gained the context, and nothing else.
pub proof fn context_new_is_safe(replies: Seq<ReplyView>, ledger: Ledger)
    ensures
        ({
            let fate = ContextNew::fate(replies, ledger);
            &&& fate.sound(ledger)
            &&& fate matches Fate::Done(after, context) ==> after == ledger.insert(
                entry(Kind::Context, context.handle),
            )
            &&& replies.len() >= 4 ==> fate.over()
        }),
{
    broadcast use group_ledger;

    reveal_with_fuel(run, 6);
    reveal_with_fuel(sweep, 3);
}

/// A context is made exactly when the native layer created one and each of
/// the three libraries was initialised; it is the one that was created. The
/// first library that fails gives the error, whatever a later reply says.
pub proof fn context_new_outcome(replies: Seq<ReplyView>, ledger: Ledger)
    requires
        replies.len() >= 4,
    ensures
        ({
            let fate = ContextNew::fate(replies, ledger);
            &&& fate is Done <==> {
                &&& replies[0].pointer() is Ok
                &&& replies[1].status() is None
                &&& replies[2].status() is None
                &&& replies[3].status() is None
            }
            &&& fate matches Fate::Done(_, context) ==> replies[0] == ReplyView::Pointer(
                Some(context.handle),
            )
            &&& replies[0].pointer() matches Err(e) ==> fate matches Fate::Failed(_, error) && error
                == e
            &&& replies[0].pointer() is Ok ==> {
                let first_failure = if replies[1].status() is Some {
                    replies[1].status()
                } else if replies[2].status() is Some {
                    replies[2].status()
                } else {
                    replies[3].status()
                };
                first_failure matches Some(e) ==> fate matches Fate::Failed(_, error) && error == e
            }
        }),
{
    broadcast use group_ledger;

    reveal_with_fuel(run, 6);
    reveal_with_fuel(sweep, 3);
}

} // verus!
