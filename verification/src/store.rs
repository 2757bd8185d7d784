//! The store, and the paths in it.
use crate::context::Context;
use crate::error::{check_err, translate, Error, ErrorView};
use crate::handle::Handle;
use crate::ledger::{clones, entry, group_ledger, run, sweep, Fate, Kind, Ledger, Resource};
use crate::native::{
    calls_view, message_text, no_calls, read_message, refused, unexpected, unexpected_reply, Call,
    CallView, RawOutput, RawOutputView, Reply, ReplyView, Step, StepView,
};
use crate::text::{decode, decode_lossy, lossy_text, nul_free, to_c_string};
use vstd::multiset::Multiset;
use vstd::pervasive::unreached;
use vstd::prelude::*;
use vstd::string::{StringExecFns, StringSliceAdditionalSpecFns};
use vstd::utf8::{decode_utf8, valid_utf8};

verus! {

/// An open store, under the context it was opened with.
///
/// Whoever holds this value owes the store one `release`, before the context
/// is released.
#[derive(Debug, PartialEq, Eq)]
pub struct Store {
    pub handle: Handle,
    pub context: Handle,
}

impl View for Store {
    type V = Store;

    open spec fn view(&self) -> Store {
        *self
    }
}

/// A store path, under the context it was parsed with.
///
/// A path never changes. Whoever holds this value owes the path one
/// `release`.
#[derive(Debug, PartialEq, Eq)]
pub struct StorePath {
    pub handle: Handle,
    pub context: Handle,
}

impl View for StorePath {
    type V = StorePath;

    open spec fn view(&self) -> StorePath {
        *self
    }
}

/// The opening of a store, waiting for the reply of `nix_store_open`.
#[derive(Debug, PartialEq, Eq)]
pub struct StoreOpen {
    pub context: Handle,
}

impl View for StoreOpen {
    type V = StoreOpen;

    open spec fn view(&self) -> StoreOpen {
        *self
    }
}

impl StoreOpen {
    /// The first step: a URI with a nul byte inside is refused; otherwise
    /// the store at the URI is opened, or the default store.
    pub open spec fn first(context: Handle, uri: Option<Seq<u8>>) -> StepView<StoreOpen, Store> {
        match uri {
            Some(bytes) if !nul_free(bytes) => refused(bytes),
            _ => StepView::Call(StoreOpen { context }, CallView::StoreOpen { context, uri }),
        }
    }

    /// The step after `reply`: the store, or the error for a null pointer.
    pub open spec fn next(self, reply: ReplyView) -> StepView<StoreOpen, Store> {
        match reply.pointer() {
            Ok(handle) => StepView::Done(seq![], Store { handle, context: self.context }),
            Err(e) => StepView::Failed(seq![], e),
        }
    }

    /// How the operation fares against `replies`, and what becomes of the book.
    pub open spec fn fate(
        context: Handle,
        uri: Option<Seq<u8>>,
        replies: Seq<ReplyView>,
        ledger: Ledger,
    ) -> Fate<Store> {
        run(|s: StoreOpen, r: ReplyView| s.next(r), Self::first(context, uri), replies, ledger)
    }

    /// Takes the reply to the call that is out, and says what comes next.
    pub fn resume(self, reply: Reply) -> (step: Step<StoreOpen, Store>)
        ensures
            step@ == self.next(reply@),
    {
        match reply.pointer() {
            Ok(handle) => Step::Done(no_calls(), Store { handle, context: self.context }),
            Err(e) => Step::Failed(no_calls(), e),
        }
    }
}

/// The bytes of an optional string.
pub open spec fn str_bytes(s: Option<&str>) -> Option<Seq<u8>> {
    match s {
        Some(s) => Some(s.spec_bytes()),
        None => None,
    }
}

/// The parsing of a store path, waiting for the reply of `nix_store_parse_path`.
#[derive(Debug, PartialEq, Eq)]
pub struct PathParse {
    pub context: Handle,
}

impl View for PathParse {
    type V = PathParse;

    open spec fn view(&self) -> PathParse {
        *self
    }
}

impl PathParse {
    /// The first step: a path with a nul byte inside is refused; otherwise
    /// the store is asked to parse it.
    pub open spec fn first(context: Handle, store: Handle, text: Seq<u8>) -> StepView<
        PathParse,
        StorePath,
    > {
        if !nul_free(text) {
            refused(text)
        } else {
            StepView::Call(PathParse { context }, CallView::StoreParsePath { context, store, text })
        }
    }

    /// The step after `reply`: the path, or the error for a null pointer.
    pub open spec fn next(self, reply: ReplyView) -> StepView<PathParse, StorePath> {
        match reply.pointer() {
            Ok(handle) => StepView::Done(seq![], StorePath { handle, context: self.context }),
            Err(e) => StepView::Failed(seq![], e),
        }
    }

    /// How the operation fares against `replies`, and what becomes of the book.
    pub open spec fn fate(
        context: Handle,
        store: Handle,
        text: Seq<u8>,
        replies: Seq<ReplyView>,
        ledger: Ledger,
    ) -> Fate<StorePath> {
        run(
            |s: PathParse, r: ReplyView| s.next(r),
            Self::first(context, store, text),
            replies,
            ledger,
        )
    }

    /// Takes the reply to the call that is out, and says what comes next.
    pub fn resume(self, reply: Reply) -> (step: Step<PathParse, StorePath>)
        ensures
            step@ == self.next(reply@),
    {
        match reply.pointer() {
            Ok(handle) => Step::Done(no_calls(), StorePath { handle, context: self.context }),
            Err(e) => Step::Failed(no_calls(), e),
        }
    }

    fn start(context: Handle, store: Handle, path: &str) -> (step: Step<PathParse, StorePath>)
        ensures
            step@ == PathParse::first(context, store, path.spec_bytes()),
    {
        match to_c_string(path) {
            Ok(text) => Step::Call(
                PathParse { context },
                Call::StoreParsePath { context, store, text },
            ),
            Err(nul) => Step::Failed(no_calls(), Error::StringConversion(nul)),
        }
    }
}

/// The reading of a path's name, waiting for what `nix_store_path_name`
/// hands to its callback.
#[derive(Debug, PartialEq, Eq)]
pub struct PathName {}

impl View for PathName {
    type V = PathName;

    open spec fn view(&self) -> PathName {
        *self
    }
}

impl PathName {
    /// The first step: the path is asked for its name.
    pub open spec fn first(path: Handle) -> StepView<PathName, Seq<char>> {
        StepView::Call(PathName {  }, CallView::StorePathName { path })
    }

    /// The step after `reply`: the name, where the callback got bytes that
    /// are not empty and spell a text; otherwise the path has no name.
    pub open spec fn next(self, reply: ReplyView) -> StepView<PathName, Seq<char>> {
        match reply {
            ReplyView::Bytes(Some(bytes)) if bytes.len() > 0 && valid_utf8(bytes) => StepView::Done(
                seq![],
                decode_utf8(bytes),
            ),
            ReplyView::Bytes(_) => StepView::Failed(seq![], ErrorView::NullPointer),
            _ => StepView::Failed(seq![], unexpected()),
        }
    }

    /// How the operation fares against `replies`, and what becomes of the book.
    pub open spec fn fate(
        path: Handle,
        replies: Seq<ReplyView>,
        ledger: Ledger,
    ) -> Fate<Seq<char>> {
        run(|s: PathName, r: ReplyView| s.next(r), Self::first(path), replies, ledger)
    }

    /// Takes the reply to the call that is out, and says what comes next.
    pub fn resume(self, reply: Reply) -> (step: Step<PathName, String>)
        ensures
            step@ == self.next(reply@),
    {
        match reply {
            Reply::Bytes(Some(bytes)) => {
                if bytes.len() > 0 {
                    match decode(bytes) {
                        Some(name) => Step::Done(no_calls(), name),
                        None => Step::Failed(no_calls(), Error::NullPointer),
                    }
                } else {
                    Step::Failed(no_calls(), Error::NullPointer)
                }
            },
            Reply::Bytes(None) => Step::Failed(no_calls(), Error::NullPointer),
            _ => Step::Failed(no_calls(), unexpected_reply()),
        }
    }
}

/// The cloning of a path, waiting for the reply of `nix_store_path_clone`.
#[derive(Debug, PartialEq, Eq)]
pub struct PathClone {
    pub context: Handle,
}

impl View for PathClone {
    type V = PathClone;

    open spec fn view(&self) -> PathClone {
        *self
    }
}

impl PathClone {
    /// The first step: the native layer is asked for a copy of the path.
    pub open spec fn first(path: StorePath) -> StepView<PathClone, StorePath> {
        StepView::Call(
            PathClone { context: path.context },
            CallView::StorePathClone { path: path.handle },
        )
    }

    /// The step after a reply that holds an object: the copy, under the
    /// same context.
    pub open spec fn next(self, reply: ReplyView) -> StepView<PathClone, StorePath> {
        StepView::Done(seq![], StorePath { handle: reply->Pointer_0->0, context: self.context })
    }

    /// How the operation fares against `replies`, and what becomes of the book.
    pub open spec fn fate(
        path: StorePath,
        replies: Seq<ReplyView>,
        ledger: Ledger,
    ) -> Fate<StorePath> {
        run(|s: PathClone, r: ReplyView| s.next(r), Self::first(path), replies, ledger)
    }

    /// Takes the reply to the call that is out. The native layer owes a copy
    /// of every valid path, so the reply holds one.
    pub fn resume(self, reply: Reply) -> (step: Step<PathClone, StorePath>)
        requires
            reply@ matches ReplyView::Pointer(Some(_)),
        ensures
            step@ == self.next(reply@),
    {
        match reply {
            Reply::Pointer(Some(handle)) => Step::Done(
                no_calls(),
                StorePath { handle, context: self.context },
            ),
            _ => unreached(),
        }
    }
}

/// What a realisation made: the name of each output, with its path.
#[derive(Debug, PartialEq, Eq)]
pub struct Outputs {
    pub list: Vec<(String, StorePath)>,
}

impl View for Outputs {
    type V = Seq<(Seq<char>, StorePath)>;

    open spec fn view(&self) -> Seq<(Seq<char>, StorePath)> {
        self.list@.map_values(|o: (String, StorePath)| (o.0@, o.1))
    }
}

/// The name of an output: what the native layer called it, read leniently,
/// or `out` where it gave no name.
pub open spec fn output_name(name: Option<Seq<u8>>) -> Seq<char> {
    match name {
        Some(bytes) => lossy_text(bytes),
        None => "out"@,
    }
}

/// The outputs that came with a path, in order, each under `context`.
pub open spec fn named(outputs: Seq<RawOutputView>, context: Handle) -> Seq<
    (Seq<char>, StorePath),
>
    decreases outputs.len(),
{
    if outputs.len() == 0 {
        seq![]
    } else {
        let rest = named(outputs.drop_last(), context);
        match outputs.last().path {
            Some(handle) => rest.push(
                (output_name(outputs.last().name), StorePath { handle, context }),
            ),
            None => rest,
        }
    }
}

/// The calls that free the paths that came with `outputs`, in order.
pub open spec fn frees(outputs: Seq<RawOutputView>) -> Seq<CallView>
    decreases outputs.len(),
{
    if outputs.len() == 0 {
        seq![]
    } else {
        let rest = frees(outputs.drop_last());
        match outputs.last().path {
            Some(path) => rest.push(CallView::StorePathFree { path }),
            None => rest,
        }
    }
}

/// The reported outputs as plain values.
pub open spec fn raw_view(outputs: Vec<RawOutput>) -> Seq<RawOutputView> {
    outputs@.map_values(|o: RawOutput| o@)
}

/// The realisation of a path, waiting for `nix_store_realise` to return.
#[derive(Debug, PartialEq, Eq)]
pub struct Realise {
    pub context: Handle,
}

impl View for Realise {
    type V = Realise;

    open spec fn view(&self) -> Realise {
        *self
    }
}

impl Realise {
    /// The first step: the store is asked to realise the path.
    pub open spec fn first(store: Store, path: Handle) -> StepView<
        Realise,
        Seq<(Seq<char>, StorePath)>,
    > {
        StepView::Call(
            Realise { context: store.context },
            CallView::StoreRealise { context: store.context, store: store.handle, path },
        )
    }

    /// The step after `reply`. Where the realisation succeeded, its outputs.
    /// Where it failed, its error, and every path that was cloned for an
    /// output is freed.
    pub open spec fn next(self, reply: ReplyView) -> StepView<
        Realise,
        Seq<(Seq<char>, StorePath)>,
    > {
        match reply {
            ReplyView::Realised { code, message, outputs } => match translate(
                code,
                message_text(message),
            ) {
                None => StepView::Done(seq![], named(outputs, self.context)),
                Some(e) => StepView::Failed(frees(outputs), e),
            },
            _ => StepView::Failed(seq![], unexpected()),
        }
    }

    /// How the operation fares against `replies`, and what becomes of the book.
    pub open spec fn fate(
        store: Store,
        path: Handle,
        replies: Seq<ReplyView>,
        ledger: Ledger,
    ) -> Fate<Seq<(Seq<char>, StorePath)>> {
        run(|s: Realise, r: ReplyView| s.next(r), Self::first(store, path), replies, ledger)
    }

    /// Takes the reply to the call that is out, and says what comes next.
    pub fn resume(self, reply: Reply) -> (step: Step<Realise, Outputs>)
        ensures
            step@ == self.next(reply@),
    {
        match reply {
            Reply::Realised { code, message, outputs } => {
                match check_err(code, read_message(message)) {
                    Ok(()) => Step::Done(no_calls(), collect(outputs, self.context)),
                    Err(e) => Step::Failed(unwind(outputs), e),
                }
            },
            _ => Step::Failed(no_calls(), unexpected_reply()),
        }
    }
}

fn collect(outputs: Vec<RawOutput>, context: Handle) -> (made: Outputs)
    ensures
        made@ == named(raw_view(outputs), context),
{
    let mut list: Vec<(String, StorePath)> = Vec::new();
    let ghost raw = raw_view(outputs);
    let mut i: usize = 0;
    while i < outputs.len()
        invariant
            i <= outputs.len(),
            raw == raw_view(outputs),
            list@.map_values(|o: (String, StorePath)| (o.0@, o.1)) == named(
                raw.take(i as int),
                context,
            ),
        decreases outputs.len() - i,
    {
        proof {
            assert(raw.take(i + 1).drop_last() == raw.take(i as int));
            assert(raw.take(i + 1).last() == outputs@[i as int]@);
        }
        let ghost before = list@.map_values(|o: (String, StorePath)| (o.0@, o.1));
        match outputs[i].path {
            Some(handle) => {
                let name = match &outputs[i].name {
                    Some(bytes) => decode_lossy(bytes),
                    None => String::from_str("out"),
                };
                let ghost item = (name@, StorePath { handle, context });
                list.push((name, StorePath { handle, context }));
                assert(list@.map_values(|o: (String, StorePath)| (o.0@, o.1)) =~= before.push(
                    item,
                ));
            },
            None => {},
        }
        i += 1;
    }
    proof {
        assert(raw.take(outputs.len() as int) == raw);
    }
    Outputs { list }
}

fn unwind(outputs: Vec<RawOutput>) -> (calls: Vec<Call>)
    ensures
        calls_view(calls) == frees(raw_view(outputs)),
{
    let mut calls: Vec<Call> = Vec::new();
    let ghost raw = raw_view(outputs);
    let mut i: usize = 0;
    assert(calls_view(calls) =~= Seq::<CallView>::empty());
    while i < outputs.len()
        invariant
            i <= outputs.len(),
            raw == raw_view(outputs),
            calls_view(calls) == frees(raw.take(i as int)),
        decreases outputs.len() - i,
    {
        proof {
            assert(raw.take(i + 1).drop_last() == raw.take(i as int));
            assert(raw.take(i + 1).last() == outputs@[i as int]@);
        }
        let ghost before = calls_view(calls);
        match outputs[i].path {
            Some(path) => {
                calls.push(Call::StorePathFree { path });
                assert(calls_view(calls) =~= before.push(
                    CallView::StorePathFree { path },
                ));
            },
            None => {},
        }
        i += 1;
    }
    proof {
        assert(raw.take(outputs.len() as int) == raw);
    }
    calls
}

impl StorePath {
    /// Starts the parsing of `path` in `store`.
    pub fn parse(context: &Context, store: &Store, path: &str) -> (step: Step<PathParse, StorePath>)
        ensures
            step@ == PathParse::first(context.handle, store.handle, path.spec_bytes()),
    {
        PathParse::start(context.handle, store.handle, path)
    }

    /// Starts the reading of the path's name: what follows the hash.
    pub fn name(&self) -> (step: Step<PathName, String>)
        ensures
            step@ == PathName::first(self.handle),
    {
        Step::Call(PathName {  }, Call::StorePathName { path: self.handle })
    }

    /// Starts the making of a copy of the path: a new native object that holds the same path.
    pub fn duplicate(&self) -> (step: Step<PathClone, StorePath>)
        ensures
            step@ == PathClone::first(*self),
    {
        Step::Call(
            PathClone { context: self.context },
            Call::StorePathClone { path: self.handle },
        )
    }

    /// Gives the path up: the call that frees it.
    pub fn release(self) -> (call: Call)
        ensures
            call@ == (CallView::StorePathFree { path: self.handle }),
    {
        Call::StorePathFree { path: self.handle }
    }
}

impl Store {
    /// Starts the opening of the store at `uri`, or of the default store.
    pub fn open(context: &Context, uri: Option<&str>) -> (step: Step<StoreOpen, Store>)
        ensures
            step@ == StoreOpen::first(context.handle, str_bytes(uri)),
    {
        let context = context.handle;
        match uri {
            Some(uri) => match to_c_string(uri) {
                Ok(bytes) => Step::Call(
                    StoreOpen { context },
                    Call::StoreOpen { context, uri: Some(bytes) },
                ),
                Err(nul) => Step::Failed(no_calls(), Error::StringConversion(nul)),
            },
            None => Step::Call(StoreOpen { context }, Call::StoreOpen { context, uri: None }),
        }
    }

    /// Starts the parsing of `path` in this store, under the store's context.
    pub fn store_path(&self, path: &str) -> (step: Step<PathParse, StorePath>)
        ensures
            step@ == PathParse::first(self.context, self.handle, path.spec_bytes()),
    {
        PathParse::start(self.context, self.handle, path)
    }

    /// Starts the realisation of `path`: the store builds or fetches it, with
    /// all that it needs.
    pub fn realize(&self, path: &StorePath) -> (step: Step<Realise, Outputs>)
        ensures
            step@ == Realise::first(*self, path.handle),
    {
        Step::Call(
            Realise { context: self.context },
            Call::StoreRealise { context: self.context, store: self.handle, path: path.handle },
        )
    }

    /// Gives the store up: the call that frees it.
    pub fn release(self) -> (call: Call)
        ensures
            call@ == (CallView::StoreFree { store: self.handle }),
    {
        Call::StoreFree { store: self.handle }
    }
}

/// Whatever the native layer replies, the opening of a store under a live
/// context makes allowed calls only; where it fails, the book is as before;
/// where it succeeds, the book has gained the store, which stands under the
/// context.
pub proof fn store_open_is_safe(
    context: Handle,
    uri: Option<Seq<u8>>,
    replies: Seq<ReplyView>,
    ledger: Ledger,
)
    requires
        ledger.contains(entry(Kind::Context, context)),
    ensures
        ({
            let fate = StoreOpen::fate(context, uri, replies, ledger);
            &&& fate.sound(ledger)
            &&& fate matches Fate::Done(after, store) ==> {
                &&& after == ledger.insert(entry(Kind::Store, store.handle))
                &&& store.context == context
            }
            &&& replies.len() >= 1 ==> fate.over()
        }),
{
    broadcast use group_ledger;

    reveal_with_fuel(run, 3);
    reveal_with_fuel(sweep, 2);
}

/// Whatever the native layer replies, the parsing of a path under a live
/// context and store makes allowed calls only; where it fails, the book is
/// as before; where it succeeds, the book has gained the path.
pub proof fn path_parse_is_safe(
    context: Handle,
    store: Handle,
    text: Seq<u8>,
    replies: Seq<ReplyView>,
    ledger: Ledger,
)
    requires
        ledger.contains(entry(Kind::Context, context)),
        ledger.contains(entry(Kind::Store, store)),
    ensures
        ({
            let fate = PathParse::fate(context, store, text, replies, ledger);
            &&& fate.sound(ledger)
            &&& fate matches Fate::Done(after, path) ==> {
                &&& after == ledger.insert(entry(Kind::StorePath, path.handle))
                &&& path.context == context
            }
            &&& replies.len() >= 1 ==> fate.over()
        }),
{
    broadcast use group_ledger;

    reveal_with_fuel(run, 3);
    reveal_with_fuel(sweep, 2);
}

/// Whatever the native layer replies, the reading of a live path's name
/// makes allowed calls only and leaves the book as it was.
pub proof fn path_name_is_safe(path: Handle, replies: Seq<ReplyView>, ledger: Ledger)
    requires
        ledger.contains(entry(Kind::StorePath, path)),
    ensures
        PathName::fate(path, replies, ledger).keeps(ledger),
        replies.len() >= 1 ==> PathName::fate(path, replies, ledger).over(),
{
    broadcast use group_ledger;

    reveal_with_fuel(run, 3);
    reveal_with_fuel(sweep, 2);
}

/// Where the native layer hands out the copy it owes, the cloning of a live
/// path makes allowed calls only, and the book gains the copy, which stands
/// under the context of the path it was made from.
pub proof fn path_clone_is_safe(path: StorePath, replies: Seq<ReplyView>, ledger: Ledger)
    requires
        ledger.contains(entry(Kind::StorePath, path.handle)),
        replies.len() > 0 ==> replies[0] matches ReplyView::Pointer(Some(_)),
    ensures
        ({
            let fate = PathClone::fate(path, replies, ledger);
            &&& fate.sound(ledger)
            &&& fate matches Fate::Done(after, copy) ==> {
                &&& after == ledger.insert(entry(Kind::StorePath, copy.handle))
                &&& copy.context == path.context
            }
            &&& replies.len() >= 1 ==> fate.over()
        }),
{
    broadcast use group_ledger;

    reveal_with_fuel(run, 3);
    reveal_with_fuel(sweep, 2);
}

/// Where every output came with a path, the realisation gives them all, in
/// the order in which the native layer reported them, each with its name.
pub proof fn named_keeps_all_and_order(outputs: Seq<RawOutputView>, context: Handle)
    requires
        forall|i: int| 0 <= i < outputs.len() ==> outputs[i].path is Some,
    ensures
        named(outputs, context).len() == outputs.len(),
        forall|i: int|
            0 <= i < outputs.len() ==> #[trigger] named(outputs, context)[i] == (
                output_name(outputs[i].name),
                StorePath { handle: outputs[i].path->0, context },
            ),
    decreases outputs.len(),
{
    if outputs.len() > 0 {
        let init = outputs.drop_last();
        named_keeps_all_and_order(init, context);
        assert forall|i: int| 0 <= i < outputs.len() implies #[trigger] named(outputs, context)[i]
            == (
            output_name(outputs[i].name),
            StorePath { handle: outputs[i].path->0, context },
        ) by {
            if i < init.len() {
                assert(named(outputs, context)[i] == named(init, context)[i]);
                assert(init[i] == outputs[i]);
            }
        }
    }
}

/// An output that came without a path is left out, and the others stay as
/// they are.
pub proof fn named_skips_pathless(
    outputs: Seq<RawOutputView>,
    name: Option<Seq<u8>>,
    context: Handle,
)
    ensures
        named(outputs.push(RawOutputView { name, path: None }), context) == named(outputs, context),
{
    let more = outputs.push(RawOutputView { name, path: None });
    assert(more.drop_last() == outputs);
}

/// The entries for the paths of the outputs of a realisation.
pub open spec fn paths(outputs: Seq<(Seq<char>, StorePath)>) -> Ledger
    decreases outputs.len(),
{
    if outputs.len() == 0 {
        Multiset::empty()
    } else {
        paths(outputs.drop_last()).insert(entry(Kind::StorePath, outputs.last().1.handle))
    }
}

proof fn lemma_named_paths(outputs: Seq<RawOutputView>, context: Handle)
    ensures
        paths(named(outputs, context)) == clones(outputs),
    decreases outputs.len(),
{
    if outputs.len() > 0 {
        lemma_named_paths(outputs.drop_last(), context);
        let rest = named(outputs.drop_last(), context);
        match outputs.last().path {
            Some(handle) => {
                let item = (output_name(outputs.last().name), StorePath { handle, context });
                assert(rest.push(item).drop_last() == rest);
            },
            None => {},
        }
    }
}

proof fn lemma_sweep_concat(a: Seq<CallView>, b: Seq<CallView>, ledger: Ledger)
    ensures
        sweep(a + b, ledger) == match sweep(a, ledger) {
            Some(after) => sweep(b, after),
            None => None,
        },
    decreases a.len(),
{
    if a.len() == 0 {
        assert(a + b == b);
    } else {
        assert((a + b)[0] == a[0]);
        assert((a + b).drop_first() == a.drop_first() + b);
        if a[0].allowed(ledger) {
            lemma_sweep_concat(a.drop_first(), b, a[0].settle(ReplyView::Nothing, ledger));
        }
    }
}

proof fn lemma_frees_sweep(outputs: Seq<RawOutputView>, ledger: Ledger)
    requires
        clones(outputs).subset_of(ledger),
    ensures
        sweep(frees(outputs), ledger) == Some(ledger.sub(clones(outputs))),
    decreases outputs.len(),
{
    if outputs.len() == 0 {
        assert(ledger.sub(clones(outputs)) =~= ledger);
    } else {
        let init = outputs.drop_last();
        match outputs.last().path {
            Some(path) => {
                let e = entry(Kind::StorePath, path);
                assert forall|r: Resource| clones(init).count(r) <= ledger.count(r) by {
                    assert(clones(outputs).count(r) <= ledger.count(r));
                }
                lemma_frees_sweep(init, ledger);
                let mid = ledger.sub(clones(init));
                let call = CallView::StorePathFree { path };
                lemma_sweep_concat(frees(init), seq![call], ledger);
                assert(frees(outputs) == frees(init) + seq![call]);
                assert(clones(outputs).count(e) <= ledger.count(e));
                assert(mid.contains(e));
                assert(seq![call].drop_first() == Seq::<CallView>::empty());
                assert(call.settle(ReplyView::Nothing, mid) =~= ledger.sub(clones(outputs)));
                reveal_with_fuel(sweep, 3);
            },
            None => {
                lemma_frees_sweep(init, ledger);
            },
        }
    }
}

/// Whatever the native layer replies, the realisation of a live path in a
/// live store makes allowed calls only. Where it fails, the book is as
/// before: no clone of an output is left. Where it succeeds, the book has
/// gained the paths of the outputs, and nothing else.
pub proof fn realise_is_safe(store: Store, path: Handle, replies: Seq<ReplyView>, ledger: Ledger)
    requires
        ledger.contains(entry(Kind::Context, store.context)),
        ledger.contains(entry(Kind::Store, store.handle)),
        ledger.contains(entry(Kind::StorePath, path)),
    ensures
        ({
            let fate = Realise::fate(store, path, replies, ledger);
            &&& fate.sound(ledger)
            &&& fate matches Fate::Done(after, outputs) ==> after == ledger.add(paths(outputs))
            &&& replies.len() >= 1 ==> fate.over()
        }),
{
    broadcast use group_ledger;

    reveal_with_fuel(run, 3);
    reveal_with_fuel(sweep, 2);
    if replies.len() > 0 {
        match replies[0] {
            ReplyView::Realised { code, message, outputs } => {
                let gained = ledger.add(clones(outputs));
                lemma_named_paths(outputs, store.context);
                assert(clones(outputs).subset_of(gained));
                lemma_frees_sweep(outputs, gained);
                assert(gained.sub(clones(outputs)) =~= ledger);
            },
            _ => {},
        }
    }
}

} // verus!
