//! The book of live native objects.
//!
//! Every native object that a call hands out is entered; every release strikes
//! one entry. A call is allowed only while the objects it names are in the
//! book. An operation is safe when, whatever the native layer replies, it
//! makes allowed calls only, and ends with the book as it found it, but for
//! the object that it hands to its caller.
use crate::error::ErrorView;
use crate::handle::Handle;
use crate::native::{CallView, RawOutputView, ReplyView, StepView};
use vstd::multiset::Multiset;
use vstd::prelude::*;

verus! {

/// The kinds of native object.
pub enum Kind {
    Context,
    Store,
    StorePath,
    Builder,
    State,
    Value,
    RealisedString,
    LixStore,
    LixPath,
}

/// One live native object. For a value it is one reference to the value.
pub struct Resource {
    pub kind: Kind,
    pub handle: Handle,
}

/// The live native objects, each as often as it is owned.
pub type Ledger = Multiset<Resource>;

/// The entry for an object.
pub open spec fn entry(kind: Kind, handle: Handle) -> Resource {
    Resource { kind, handle }
}

/// The entries for the clones that a realisation handed out.
pub open spec fn clones(outputs: Seq<RawOutputView>) -> Ledger
    decreases outputs.len(),
{
    if outputs.len() == 0 {
        Multiset::empty()
    } else {
        match outputs.last().path {
            Some(h) => clones(outputs.drop_last()).insert(entry(Kind::StorePath, h)),
            None => clones(outputs.drop_last()),
        }
    }
}

impl CallView {
    /// Whether the objects that the call names are all live.
    pub open spec fn allowed(self, ledger: Ledger) -> bool {
        match self {
            CallView::ContextCreate => true,
            CallView::ContextFree { context } => ledger.contains(entry(Kind::Context, context)),
            CallView::LibutilInit { context } => ledger.contains(entry(Kind::Context, context)),
            CallView::LibstoreInit { context } => ledger.contains(entry(Kind::Context, context)),
            CallView::LibexprInit { context } => ledger.contains(entry(Kind::Context, context)),
            CallView::StoreOpen { context, uri } => ledger.contains(entry(Kind::Context, context)),
            CallView::StoreFree { store } => ledger.contains(entry(Kind::Store, store)),
            CallView::StoreParsePath { context, store, text } => {
                &&& ledger.contains(entry(Kind::Context, context))
                &&& ledger.contains(entry(Kind::Store, store))
            },
            CallView::StorePathName { path } => ledger.contains(entry(Kind::StorePath, path)),
            CallView::StorePathClone { path } => ledger.contains(entry(Kind::StorePath, path)),
            CallView::StorePathFree { path } => ledger.contains(entry(Kind::StorePath, path)),
            CallView::StoreRealise { context, store, path } => {
                &&& ledger.contains(entry(Kind::Context, context))
                &&& ledger.contains(entry(Kind::Store, store))
                &&& ledger.contains(entry(Kind::StorePath, path))
            },
            CallView::BuilderNew { context, store } => {
                &&& ledger.contains(entry(Kind::Context, context))
                &&& ledger.contains(entry(Kind::Store, store))
            },
            CallView::BuilderLoad { context, builder } => {
                &&& ledger.contains(entry(Kind::Context, context))
                &&& ledger.contains(entry(Kind::Builder, builder))
            },
            CallView::StateBuild { context, builder } => {
                &&& ledger.contains(entry(Kind::Context, context))
                &&& ledger.contains(entry(Kind::Builder, builder))
            },
            CallView::BuilderFree { builder } => ledger.contains(entry(Kind::Builder, builder)),
            CallView::StateFree { state } => ledger.contains(entry(Kind::State, state)),
            CallView::ValueAlloc { context, state } => {
                &&& ledger.contains(entry(Kind::Context, context))
                &&& ledger.contains(entry(Kind::State, state))
            },
            CallView::ValueDecref { context, value } => {
                &&& ledger.contains(entry(Kind::Context, context))
                &&& ledger.contains(entry(Kind::Value, value))
            },
            CallView::ExprEvalFromString { context, state, expr, origin, value } => {
                &&& ledger.contains(entry(Kind::Context, context))
                &&& ledger.contains(entry(Kind::State, state))
                &&& ledger.contains(entry(Kind::Value, value))
            },
            CallView::ValueForce { context, state, value } => {
                &&& ledger.contains(entry(Kind::Context, context))
                &&& ledger.contains(entry(Kind::State, state))
                &&& ledger.contains(entry(Kind::Value, value))
            },
            CallView::ValueForceDeep { context, state, value } => {
                &&& ledger.contains(entry(Kind::Context, context))
                &&& ledger.contains(entry(Kind::State, state))
                &&& ledger.contains(entry(Kind::Value, value))
            },
            CallView::GetType { context, value } => {
                &&& ledger.contains(entry(Kind::Context, context))
                &&& ledger.contains(entry(Kind::Value, value))
            },
            CallView::GetInt { context, value } => {
                &&& ledger.contains(entry(Kind::Context, context))
                &&& ledger.contains(entry(Kind::Value, value))
            },
            CallView::GetFloat { context, value } => {
                &&& ledger.contains(entry(Kind::Context, context))
                &&& ledger.contains(entry(Kind::Value, value))
            },
            CallView::GetBool { context, value } => {
                &&& ledger.contains(entry(Kind::Context, context))
                &&& ledger.contains(entry(Kind::Value, value))
            },
            CallView::StringRealise { context, state, value } => {
                &&& ledger.contains(entry(Kind::Context, context))
                &&& ledger.contains(entry(Kind::State, state))
                &&& ledger.contains(entry(Kind::Value, value))
            },
            CallView::RealisedStringBuffer { string } => ledger.contains(
                entry(Kind::RealisedString, string),
            ),
            CallView::RealisedStringFree { string } => ledger.contains(
                entry(Kind::RealisedString, string),
            ),
            CallView::LixInit => true,
            CallView::LixOpenStore => true,
            CallView::LixParseStorePath { store, text } => ledger.contains(
                entry(Kind::LixStore, store),
            ),
            CallView::LixBuildPath { store, path } => {
                &&& ledger.contains(entry(Kind::LixStore, store))
                &&& ledger.contains(entry(Kind::LixPath, path))
            },
            CallView::LixStoreFree { store } => ledger.contains(entry(Kind::LixStore, store)),
            CallView::LixPathFree { path } => ledger.contains(entry(Kind::LixPath, path)),
        }
    }

    /// The object that the call releases, if it releases one.
    pub open spec fn releases(self) -> Option<Resource> {
        match self {
            CallView::ContextFree { context } => Some(entry(Kind::Context, context)),
            CallView::StoreFree { store } => Some(entry(Kind::Store, store)),
            CallView::StorePathFree { path } => Some(entry(Kind::StorePath, path)),
            CallView::BuilderFree { builder } => Some(entry(Kind::Builder, builder)),
            CallView::StateFree { state } => Some(entry(Kind::State, state)),
            CallView::ValueDecref { context, value } => Some(entry(Kind::Value, value)),
            CallView::RealisedStringFree { string } => Some(entry(Kind::RealisedString, string)),
            CallView::LixStoreFree { store } => Some(entry(Kind::LixStore, store)),
            CallView::LixPathFree { path } => Some(entry(Kind::LixPath, path)),
            _ => None,
        }
    }

    /// The objects that the call hands out, given its reply.
    pub open spec fn acquires(self, reply: ReplyView) -> Ledger {
        match (self, reply) {
            (CallView::ContextCreate, ReplyView::Pointer(Some(h))) => Multiset::singleton(
                entry(Kind::Context, h),
            ),
            (CallView::StoreOpen { .. }, ReplyView::Pointer(Some(h))) => Multiset::singleton(
                entry(Kind::Store, h),
            ),
            (CallView::StoreParsePath { .. }, ReplyView::Pointer(Some(h))) => Multiset::singleton(
                entry(Kind::StorePath, h),
            ),
            (CallView::StorePathClone { .. }, ReplyView::Pointer(Some(h))) => Multiset::singleton(
                entry(Kind::StorePath, h),
            ),
            (CallView::StoreRealise { .. }, ReplyView::Realised { outputs, .. }) => clones(outputs),
            (CallView::BuilderNew { .. }, ReplyView::Pointer(Some(h))) => Multiset::singleton(
                entry(Kind::Builder, h),
            ),
            (CallView::StateBuild { .. }, ReplyView::Pointer(Some(h))) => Multiset::singleton(
                entry(Kind::State, h),
            ),
            (CallView::ValueAlloc { .. }, ReplyView::Pointer(Some(h))) => Multiset::singleton(
                entry(Kind::Value, h),
            ),
            (CallView::StringRealise { .. }, ReplyView::Pointer(Some(h))) => Multiset::singleton(
                entry(Kind::RealisedString, h),
            ),
            (CallView::LixOpenStore, ReplyView::Pointer(Some(h))) => Multiset::singleton(
                entry(Kind::LixStore, h),
            ),
            (CallView::LixParseStorePath { .. }, ReplyView::Pointer(Some(h))) => {
                Multiset::singleton(entry(Kind::LixPath, h))
            },
            _ => Multiset::empty(),
        }
    }

    /// The book after the call and its reply.
    pub open spec fn settle(self, reply: ReplyView, ledger: Ledger) -> Ledger {
        let released = match self.releases() {
            Some(r) => ledger.remove(r),
            None => ledger,
        };
        released.add(self.acquires(reply))
    }
}

/// Adding nothing leaves the book as it is.
pub broadcast proof fn lemma_add_nothing(ledger: Ledger)
    ensures
        #[trigger] ledger.add(Multiset::empty()) == ledger,
{
    assert(ledger.add(Multiset::empty()) =~= ledger);
}

/// An entry made and struck leaves the book as it is.
pub broadcast proof fn lemma_insert_remove(ledger: Ledger, resource: Resource)
    ensures
        #[trigger] ledger.add(Multiset::singleton(resource)).remove(resource) == ledger,
{
    assert(ledger.add(Multiset::singleton(resource)).remove(resource) =~= ledger);
}

/// An entry that was made is in the book, and so is what was in it before.
pub broadcast proof fn lemma_insert_keeps(ledger: Ledger, resource: Resource, other: Resource)
    ensures
        #![trigger ledger.add(Multiset::singleton(resource)).contains(other)]
        resource == other || ledger.contains(other) ==> ledger.add(
            Multiset::singleton(resource),
        ).contains(other),
{
}

pub broadcast group group_ledger {
    lemma_add_nothing,
    lemma_insert_remove,
    lemma_insert_keeps,
}

/// The book after calls that return nothing, made in order; none where one of
/// them is not allowed when its turn comes.
pub open spec fn sweep(calls: Seq<CallView>, ledger: Ledger) -> Option<Ledger>
    decreases calls.len(),
{
    if calls.len() == 0 {
        Some(ledger)
    } else if !calls[0].allowed(ledger) {
        None
    } else {
        sweep(calls.drop_first(), calls[0].settle(ReplyView::Nothing, ledger))
    }
}

/// How an operation fared against a sequence of replies.
pub enum Fate<T> {
    /// It made a call that names an object that is not live.
    Forbidden,
    /// The replies ran out while it waited for one.
    Waiting(Ledger),
    /// It succeeded, and left the book so.
    Done(Ledger, T),
    /// It failed, and left the book so.
    Failed(Ledger, ErrorView),
}

/// Drives an operation from `step` on: each call it asks for is answered by
/// the next of `replies`, and the book is kept.
pub open spec fn run<S, T>(
    next: spec_fn(S, ReplyView) -> StepView<S, T>,
    step: StepView<S, T>,
    replies: Seq<ReplyView>,
    ledger: Ledger,
) -> Fate<T>
    decreases replies.len(),
{
    match step {
        StepView::Call(state, call) => {
            if !call.allowed(ledger) {
                Fate::Forbidden
            } else if replies.len() == 0 {
                Fate::Waiting(ledger)
            } else {
                run(
                    next,
                    next(state, replies[0]),
                    replies.drop_first(),
                    call.settle(replies[0], ledger),
                )
            }
        },
        StepView::Done(calls, value) => match sweep(calls, ledger) {
            Some(after) => Fate::Done(after, value),
            None => Fate::Forbidden,
        },
        StepView::Failed(calls, error) => match sweep(calls, ledger) {
            Some(after) => Fate::Failed(after, error),
            None => Fate::Forbidden,
        },
    }
}

impl<T> Fate<T> {
    /// The operation made allowed calls only, and left the book as `ledger`
    /// where it failed.
    pub open spec fn sound(self, ledger: Ledger) -> bool {
        match self {
            Fate::Forbidden => false,
            Fate::Waiting(_) => true,
            Fate::Done(_, _) => true,
            Fate::Failed(after, _) => after == ledger,
        }
    }

    /// The operation came to its end.
    pub open spec fn over(self) -> bool {
        self is Done || self is Failed
    }

    /// The operation was sound, and left the book as `ledger` where it succeeded too.
    pub open spec fn keeps(self, ledger: Ledger) -> bool {
        &&& self.sound(ledger)
        &&& self matches Fate::Done(after, _) ==> after == ledger
    }
}

} // verus!
