//! A whole session, from the context down to a value and back.
//!
//! Each operation is safe by itself where the objects it names are live. Here
//! the operations are put together: each finds live what the ones before it
//! made, and what was made is given up in the order of dependencies.
use crate::context::{context_new_is_safe, ContextNew};
use crate::eval::{
    build_is_safe, builder_new_is_safe, eval_from_string_is_safe, Build, BuilderNew,
    EvalFromStringView,
};
use crate::ledger::{entry, group_ledger, sweep, Fate, Kind, Ledger};
use crate::native::{CallView, ReplyView};
use crate::store::{store_open_is_safe, StoreOpen};
use vstd::prelude::*;

verus! {

/// The native layer's part in a session: its replies to the making of the
/// context, to the opening of the store, to the making of the builder, to the
/// building of the state, and to the evaluation.
pub struct Replies {
    pub context: Seq<ReplyView>,
    pub store: Seq<ReplyView>,
    pub builder: Seq<ReplyView>,
    pub state: Seq<ReplyView>,
    pub value: Seq<ReplyView>,
}

impl Replies {
    /// Whether the replies suffice for every operation to come to its end.
    pub open spec fn suffice(self) -> bool {
        &&& self.context.len() >= 4
        &&& self.store.len() >= 1
        &&& self.builder.len() >= 1
        &&& self.state.len() >= 2
        &&& self.value.len() >= 2
    }
}

/// The book after a session.
///
/// A context is made, a store opened under it, a builder made for the store,
/// a state built from it, and an expression evaluated in the state, as far
/// as the native layer lets that go. Then what was made is given up, last
/// made first: the value, the state, the store, the context. None where a
/// call was not allowed when its turn came, or the replies ran out.
pub open spec fn session(
    uri: Option<Seq<u8>>,
    expr: Seq<u8>,
    origin: Seq<u8>,
    replies: Replies,
    ledger: Ledger,
) -> Option<Ledger> {
    match ContextNew::fate(replies.context, ledger) {
        Fate::Done(made, context) => {
            let drop_context = CallView::ContextFree { context: context.handle };
            match StoreOpen::fate(context.handle, uri, replies.store, made) {
                Fate::Done(made, store) => {
                    let drop_store = CallView::StoreFree { store: store.handle };
                    match BuilderNew::fate(store, replies.builder, made) {
                        Fate::Done(made, builder) => match Build::fate(
                            builder,
                            replies.state,
                            made,
                        ) {
                            Fate::Done(made, state) => {
                                let drop_state = CallView::StateFree { state: state.handle };
                                match EvalFromStringView::fate(
                                    state,
                                    expr,
                                    origin,
                                    replies.value,
                                    made,
                                ) {
                                    Fate::Done(made, value) => sweep(
                                        seq![
                                            CallView::ValueDecref {
                                                context: value.state.context,
                                                value: value.handle,
                                            },
                                            drop_state,
                                            drop_store,
                                            drop_context,
                                        ],
                                        made,
                                    ),
                                    Fate::Failed(made, _) => sweep(
                                        seq![drop_state, drop_store, drop_context],
                                        made,
                                    ),
                                    _ => None,
                                }
                            },
                            Fate::Failed(made, _) => sweep(seq![drop_store, drop_context], made),
                            _ => None,
                        },
                        Fate::Failed(made, _) => sweep(seq![drop_store, drop_context], made),
                        _ => None,
                    }
                },
                Fate::Failed(made, _) => sweep(seq![drop_context], made),
                _ => None,
            }
        },
        Fate::Failed(made, _) => Some(made),
        _ => None,
    }
}

/// Whatever the native layer replies, and however far a session gets, every
/// call it makes names live objects only, and once it is torn down the book
/// is as it was before: nothing is left behind, and nothing is freed twice.
pub proof fn session_leaves_nothing(
    uri: Option<Seq<u8>>,
    expr: Seq<u8>,
    origin: Seq<u8>,
    replies: Replies,
    ledger: Ledger,
)
    requires
        replies.suffice(),
    ensures
        session(uri, expr, origin, replies, ledger) == Some(ledger),
{
    broadcast use group_ledger;

    reveal_with_fuel(sweep, 6);
    context_new_is_safe(replies.context, ledger);
    match ContextNew::fate(replies.context, ledger) {
        Fate::Done(l1, context) => {
            let c = entry(Kind::Context, context.handle);
            let drop_context = CallView::ContextFree { context: context.handle };
            assert(l1.remove(c) =~= ledger);
            assert(sweep(seq![drop_context], l1) == Some(ledger));
            store_open_is_safe(context.handle, uri, replies.store, l1);
            match StoreOpen::fate(context.handle, uri, replies.store, l1) {
                Fate::Done(l2, store) => {
                    let s = entry(Kind::Store, store.handle);
                    let drop_store = CallView::StoreFree { store: store.handle };
                    assert(l2.remove(s) =~= l1);
                    assert(sweep(seq![drop_store, drop_context], l2) == Some(ledger));
                    builder_new_is_safe(store, replies.builder, l2);
                    match BuilderNew::fate(store, replies.builder, l2) {
                        Fate::Done(l3, builder) => {
                            let b = entry(Kind::Builder, builder.handle);
                            assert(l3.remove(b) =~= l2);
                            build_is_safe(builder, replies.state, l3);
                            match Build::fate(builder, replies.state, l3) {
                                Fate::Done(l4, state) => {
                                    let t = entry(Kind::State, state.handle);
                                    let drop_state = CallView::StateFree { state: state.handle };
                                    assert(l4.remove(t) =~= l2);
                                    assert(sweep(seq![drop_state, drop_store, drop_context], l4)
                                        == Some(ledger));
                                    eval_from_string_is_safe(
                                        state,
                                        expr,
                                        origin,
                                        replies.value,
                                        l4,
                                    );
                                    match EvalFromStringView::fate(
                                        state,
                                        expr,
                                        origin,
                                        replies.value,
                                        l4,
                                    ) {
                                        Fate::Done(l5, value) => {
                                            let v = entry(Kind::Value, value.handle);
                                            assert(l5.remove(v) =~= l4);
                                        },
                                        _ => {},
                                    }
                                },
                                _ => {},
                            }
                        },
                        _ => {},
                    }
                },
                _ => {},
            }
        },
        _ => {},
    }
}

} // verus!
