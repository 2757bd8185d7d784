//! Who stands under whom.
//!
//! The owners of native objects form a graph: a store stands under its
//! context, a state under its store and context, a value under its state. An
//! owner can be used while it is rooted: its own object is live, and so is
//! every object it stands under. That sets the order of release: nothing may
//! go while something rooted in it stays.
//!
//! The operations of this crate leave what they make rooted. The order of
//! release is the caller's to keep: a value borrows its state, so it cannot
//! be released after it; the other owners are to be held by shared
//! ownership, each with the ones it stands under.
use crate::context::{context_new_is_safe, Context, ContextNew};
use crate::eval::{
    alloc_value_is_safe, build_is_safe, builder_new_is_safe, eval_from_string_is_safe, AllocValue,
    Build, BuilderNew, EvalFromStringView, EvalState, EvalStateBuilder,
};
use crate::ledger::{entry, group_ledger, Fate, Kind, Ledger, Resource};
use crate::native::{CallView, ReplyView};
use crate::store::{
    path_clone_is_safe, path_parse_is_safe, store_open_is_safe, PathClone, PathParse, Store,
    StoreOpen, StorePath,
};
use crate::value::ValueView;
use vstd::prelude::*;

verus! {

/// An owner of a native object.
pub enum Owner {
    Context(Context),
    Store(Store),
    StorePath(StorePath),
    Builder(EvalStateBuilder),
    State(EvalState),
    Value(ValueView),
}

impl Owner {
    /// The entry of the owner's own object.
    pub open spec fn own(self) -> Resource {
        match self {
            Owner::Context(c) => entry(Kind::Context, c.handle),
            Owner::Store(s) => entry(Kind::Store, s.handle),
            Owner::StorePath(p) => entry(Kind::StorePath, p.handle),
            Owner::Builder(b) => entry(Kind::Builder, b.handle),
            Owner::State(s) => entry(Kind::State, s.handle),
            Owner::Value(v) => entry(Kind::Value, v.handle),
        }
    }

    /// The entries of the objects that the owner stands under.
    pub open spec fn under(self) -> Set<Resource> {
        match self {
            Owner::Context(c) => set![],
            Owner::Store(s) => set![entry(Kind::Context, s.context)],
            Owner::StorePath(p) => set![entry(Kind::Context, p.context)],
            Owner::Builder(b) => set![entry(Kind::Context, b.context), entry(Kind::Store, b.store)],
            Owner::State(s) => set![entry(Kind::Context, s.context), entry(Kind::Store, s.store)],
            Owner::Value(v) => set![
                entry(Kind::Context, v.state.context),
                entry(Kind::Store, v.state.store),
                entry(Kind::State, v.state.handle),
            ],
        }
    }

    /// The call that gives the owner up.
    pub open spec fn release(self) -> CallView {
        match self {
            Owner::Context(c) => CallView::ContextFree { context: c.handle },
            Owner::Store(s) => CallView::StoreFree { store: s.handle },
            Owner::StorePath(p) => CallView::StorePathFree { path: p.handle },
            Owner::Builder(b) => CallView::BuilderFree { builder: b.handle },
            Owner::State(s) => CallView::StateFree { state: s.handle },
            Owner::Value(v) => CallView::ValueDecref { context: v.state.context, value: v.handle },
        }
    }

    /// Whether the owner can be used: its object is live, and so is every
    /// object it stands under.
    pub open spec fn rooted(self, ledger: Ledger) -> bool {
        &&& ledger.contains(self.own())
        &&& forall|r: Resource| self.under().contains(r) ==> ledger.contains(r)
    }
}

/// The release of a rooted owner is allowed, and strikes its own entry and
/// no other.
pub proof fn release_strikes_own_entry(owner: Owner, ledger: Ledger)
    requires
        owner.rooted(ledger),
    ensures
        owner.release().allowed(ledger),
        owner.release().settle(ReplyView::Nothing, ledger) == ledger.remove(owner.own()),
{
    match owner {
        Owner::Value(v) => {
            assert(owner.under().contains(entry(Kind::Context, v.state.context)));
        },
        _ => {},
    }
    assert(owner.release().settle(ReplyView::Nothing, ledger) =~= ledger.remove(owner.own()));
}

/// An owner stays rooted while the book grows.
pub proof fn rooted_is_kept_by_gains(owner: Owner, ledger: Ledger, gained: Ledger)
    requires
        owner.rooted(ledger),
    ensures
        owner.rooted(ledger.add(gained)),
{
    assert forall|r: Resource| owner.under().contains(r) implies ledger.add(gained).contains(
        r,
    ) by {
        assert(ledger.contains(r));
    }
}

/// The release of one owner leaves another rooted where the other neither
/// is the same object nor stands under it.
pub proof fn release_keeps_the_unrelated(released: Owner, other: Owner, ledger: Ledger)
    requires
        released.rooted(ledger),
        other.rooted(ledger),
        other.own() != released.own(),
        !other.under().contains(released.own()),
    ensures
        other.rooted(ledger.remove(released.own())),
{
    let after = ledger.remove(released.own());
    assert forall|r: Resource| other.under().contains(r) implies after.contains(r) by {
        assert(ledger.contains(r));
    }
}

/// The release of an owner leaves dangling whatever stands under it: where
/// the book held its object once, an owner that stands under it is rooted no
/// more. So nothing may be released before what stands under it.
pub proof fn release_before_dependent_dangles(released: Owner, dependent: Owner, ledger: Ledger)
    requires
        dependent.under().contains(released.own()),
        ledger.count(released.own()) == 1,
    ensures
        !dependent.rooted(ledger.remove(released.own())),
{
    assert(!ledger.remove(released.own()).contains(released.own()));
}

/// A store stands under its context, a state under its store and context,
/// and a value under its state and all that the state stands under: so a
/// chain is released value first, then state, then store, then context, and
/// in no other order.
pub proof fn chain_is_ordered(context: Context, store: Store, state: EvalState, value: ValueView)
    requires
        store.context == context.handle,
        state.store == store.handle,
        state.context == context.handle,
        value.state == state,
    ensures
        Owner::Store(store).under().contains(Owner::Context(context).own()),
        Owner::State(state).under().contains(Owner::Store(store).own()),
        Owner::State(state).under().contains(Owner::Context(context).own()),
        Owner::Value(value).under().contains(Owner::State(state).own()),
        Owner::Value(value).under().contains(Owner::Store(store).own()),
        Owner::Value(value).under().contains(Owner::Context(context).own()),
{
}

/// A context that was made is rooted.
pub proof fn made_context_is_rooted(replies: Seq<ReplyView>, ledger: Ledger)
    ensures
        ContextNew::fate(replies, ledger) matches Fate::Done(after, context) ==> Owner::Context(
            context,
        ).rooted(after),
{
    broadcast use group_ledger;

    context_new_is_safe(replies, ledger);
}

/// A store that was opened under a rooted context is rooted.
pub proof fn opened_store_is_rooted(
    context: Context,
    uri: Option<Seq<u8>>,
    replies: Seq<ReplyView>,
    ledger: Ledger,
)
    requires
        Owner::Context(context).rooted(ledger),
    ensures
        StoreOpen::fate(context.handle, uri, replies, ledger) matches Fate::Done(after, store)
            ==> Owner::Store(store).rooted(after),
{
    broadcast use group_ledger;

    store_open_is_safe(context.handle, uri, replies, ledger);
}

/// A path that was parsed under a rooted context, in a rooted store, is rooted.
pub proof fn parsed_path_is_rooted(
    context: Context,
    store: Store,
    text: Seq<u8>,
    replies: Seq<ReplyView>,
    ledger: Ledger,
)
    requires
        Owner::Context(context).rooted(ledger),
        Owner::Store(store).rooted(ledger),
    ensures
        PathParse::fate(context.handle, store.handle, text, replies, ledger) matches Fate::Done(
            after,
            path,
        ) ==> Owner::StorePath(path).rooted(after),
{
    broadcast use group_ledger;

    path_parse_is_safe(context.handle, store.handle, text, replies, ledger);
}

/// The clone of a rooted path is rooted.
pub proof fn cloned_path_is_rooted(path: StorePath, replies: Seq<ReplyView>, ledger: Ledger)
    requires
        Owner::StorePath(path).rooted(ledger),
        replies.len() > 0 ==> replies[0] matches ReplyView::Pointer(Some(_)),
    ensures
        PathClone::fate(path, replies, ledger) matches Fate::Done(after, copy)
            ==> Owner::StorePath(copy).rooted(after),
{
    broadcast use group_ledger;

    assert(Owner::StorePath(path).under().contains(entry(Kind::Context, path.context)));
    path_clone_is_safe(path, replies, ledger);
}

/// A builder that was made for a rooted store is rooted.
pub proof fn made_builder_is_rooted(store: Store, replies: Seq<ReplyView>, ledger: Ledger)
    requires
        Owner::Store(store).rooted(ledger),
    ensures
        BuilderNew::fate(store, replies, ledger) matches Fate::Done(after, builder)
            ==> Owner::Builder(builder).rooted(after),
{
    broadcast use group_ledger;

    assert(Owner::Store(store).under().contains(entry(Kind::Context, store.context)));
    builder_new_is_safe(store, replies, ledger);
}

/// A state that was built from a rooted builder is rooted, though the
/// builder is gone.
pub proof fn built_state_is_rooted(
    builder: EvalStateBuilder,
    replies: Seq<ReplyView>,
    ledger: Ledger,
)
    requires
        Owner::Builder(builder).rooted(ledger),
    ensures
        Build::fate(builder, replies, ledger) matches Fate::Done(after, state) ==> Owner::State(
            state,
        ).rooted(after),
{
    broadcast use group_ledger;

    let context = entry(Kind::Context, builder.context);
    let store = entry(Kind::Store, builder.store);
    let spent = ledger.remove(entry(Kind::Builder, builder.handle));
    assert(Owner::Builder(builder).under().contains(context));
    assert(Owner::Builder(builder).under().contains(store));
    assert(spent.count(context) == ledger.count(context));
    assert(spent.count(store) == ledger.count(store));
    build_is_safe(builder, replies, ledger);
    match Build::fate(builder, replies, ledger) {
        Fate::Done(after, state) => {
            let built = Owner::State(state);
            assert forall|r: Resource| built.under().contains(r) implies after.contains(r) by {
                assert(r == context || r == store);
                assert(ledger.contains(r));
                assert(spent.contains(r));
                assert(after == spent.insert(entry(Kind::State, state.handle)));
            }
        },
        _ => {},
    }
}

/// A value that was made from a rooted state, empty or by an evaluation, is rooted.
pub proof fn made_value_is_rooted(
    state: EvalState,
    expr: Seq<u8>,
    origin: Seq<u8>,
    replies: Seq<ReplyView>,
    ledger: Ledger,
)
    requires
        Owner::State(state).rooted(ledger),
    ensures
        AllocValue::fate(state, replies, ledger) matches Fate::Done(after, value) ==> Owner::Value(
            value,
        ).rooted(after),
        EvalFromStringView::fate(state, expr, origin, replies, ledger) matches Fate::Done(
            after,
            value,
        ) ==> Owner::Value(value).rooted(after),
{
    broadcast use group_ledger;

    assert(Owner::State(state).under().contains(entry(Kind::Context, state.context)));
    assert(Owner::State(state).under().contains(entry(Kind::Store, state.store)));
    alloc_value_is_safe(state, replies, ledger);
    eval_from_string_is_safe(state, expr, origin, replies, ledger);
}

} // verus!
