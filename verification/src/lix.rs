//! The store of Lix, through its wrapper: a store is opened, paths are
//! parsed and built.
use crate::error::ErrorView;
use crate::handle::Handle;
use crate::ledger::{entry, group_ledger, run, sweep, Fate, Kind, Ledger};
use crate::native::{
    no_calls, refused, unexpected, unexpected_reply, Call, CallView, Reply, ReplyView, Step,
    StepView,
};
use crate::text::{nul_free, to_c_string};
use vstd::prelude::*;
use vstd::string::{StringExecFns, StringSliceAdditionalSpecFns};

pub use crate::error::Error;

verus! {

/// An open store of Lix.
///
/// Whoever holds this value owes the store one `release`.
#[derive(Debug, PartialEq, Eq)]
pub struct Store {
    pub handle: Handle,
}

impl View for Store {
    type V = Store;

    open spec fn view(&self) -> Store {
        *self
    }
}

/// A parsed store path of Lix.
///
/// Whoever holds this value owes the path one `release`.
#[derive(Debug, PartialEq, Eq)]
pub struct StorePath {
    pub handle: Handle,
}

impl View for StorePath {
    type V = StorePath;

    open spec fn view(&self) -> StorePath {
        *self
    }
}

/// The opening of the store, by the call that is out.
#[derive(Debug, PartialEq, Eq)]
pub enum StoreOpen {
    /// `lix_wrapper_init`.
    Init,
    /// `lix_wrapper_open_store`.
    Open,
}

impl View for StoreOpen {
    type V = StoreOpen;

    open spec fn view(&self) -> StoreOpen {
        *self
    }
}

impl StoreOpen {
    /// The first step: the library is initialised.
    pub open spec fn first() -> StepView<StoreOpen, Store> {
        StepView::Call(StoreOpen::Init, CallView::LixInit)
    }

    /// The step after `reply`: once the library is initialised the default
    /// store is opened; a null pointer is an error.
    pub open spec fn next(self, reply: ReplyView) -> StepView<StoreOpen, Store> {
        match self {
            StoreOpen::Init => match reply {
                ReplyView::Nothing => StepView::Call(StoreOpen::Open, CallView::LixOpenStore),
                _ => StepView::Failed(seq![], unexpected()),
            },
            StoreOpen::Open => match reply.pointer() {
                Ok(handle) => StepView::Done(seq![], Store { handle }),
                Err(e) => StepView::Failed(seq![], e),
            },
        }
    }

    /// How the operation fares against `replies`, and what becomes of the book.
    pub open spec fn fate(replies: Seq<ReplyView>, ledger: Ledger) -> Fate<Store> {
        run(|s: StoreOpen, r: ReplyView| s.next(r), Self::first(), replies, ledger)
    }

    /// Takes the reply to the call that is out, and says what comes next.
    pub fn resume(self, reply: Reply) -> (step: Step<StoreOpen, Store>)
        ensures
            step@ == self.next(reply@),
    {
        match self {
            StoreOpen::Init => match reply {
                Reply::Nothing => Step::Call(StoreOpen::Open, Call::LixOpenStore),
                _ => Step::Failed(no_calls(), unexpected_reply()),
            },
            StoreOpen::Open => match reply.pointer() {
                Ok(handle) => Step::Done(no_calls(), Store { handle }),
                Err(e) => Step::Failed(no_calls(), e),
            },
        }
    }
}

/// The parsing of a store path, waiting for the reply of
/// `lix_wrapper_parse_store_path`.
#[derive(Debug, PartialEq, Eq)]
pub struct PathParse {}

impl View for PathParse {
    type V = PathParse;

    open spec fn view(&self) -> PathParse {
        *self
    }
}

impl PathParse {
    /// The first step: a path with a nul byte inside is refused; otherwise
    /// the store is asked to parse it.
    pub open spec fn first(store: Handle, text: Seq<u8>) -> StepView<PathParse, StorePath> {
        if !nul_free(text) {
            refused(text)
        } else {
            StepView::Call(PathParse {  }, CallView::LixParseStorePath { store, text })
        }
    }

    /// The step after `reply`: the path, or the error for a null pointer.
    pub open spec fn next(self, reply: ReplyView) -> StepView<PathParse, StorePath> {
        match reply.pointer() {
            Ok(handle) => StepView::Done(seq![], StorePath { handle }),
            Err(e) => StepView::Failed(seq![], e),
        }
    }

    /// How the operation fares against `replies`, and what becomes of the book.
    pub open spec fn fate(
        store: Handle,
        text: Seq<u8>,
        replies: Seq<ReplyView>,
        ledger: Ledger,
    ) -> Fate<StorePath> {
        run(|s: PathParse, r: ReplyView| s.next(r), Self::first(store, text), replies, ledger)
    }

    /// Takes the reply to the call that is out, and says what comes next.
    pub fn resume(self, reply: Reply) -> (step: Step<PathParse, StorePath>)
        ensures
            step@ == self.next(reply@),
    {
        match reply.pointer() {
            Ok(handle) => Step::Done(no_calls(), StorePath { handle }),
            Err(e) => Step::Failed(no_calls(), e),
        }
    }
}

/// The error of a build that failed.
pub open spec fn build_failed() -> ErrorView {
    ErrorView::Unknown("Build failed"@)
}

/// The building of a path, waiting for the reply of `lix_wrapper_build_path`.
#[derive(Debug, PartialEq, Eq)]
pub struct PathBuild {}

impl View for PathBuild {
    type V = PathBuild;

    open spec fn view(&self) -> PathBuild {
        *self
    }
}

impl PathBuild {
    /// The first step: the store is asked to build the path.
    pub open spec fn first(store: Handle, path: Handle) -> StepView<PathBuild, ()> {
        StepView::Call(PathBuild {  }, CallView::LixBuildPath { store, path })
    }

    /// The step after `reply`: the build went well where the code is zero,
    /// and failed where it is any other.
    pub open spec fn next(self, reply: ReplyView) -> StepView<PathBuild, ()> {
        match reply {
            ReplyView::Status { code, message } => if code == 0 {
                StepView::Done(seq![], ())
            } else {
                StepView::Failed(seq![], build_failed())
            },
            _ => StepView::Failed(seq![], unexpected()),
        }
    }

    /// How the operation fares against `replies`, and what becomes of the book.
    pub open spec fn fate(
        store: Handle,
        path: Handle,
        replies: Seq<ReplyView>,
        ledger: Ledger,
    ) -> Fate<()> {
        run(|s: PathBuild, r: ReplyView| s.next(r), Self::first(store, path), replies, ledger)
    }

    /// Takes the reply to the call that is out, and says what comes next.
    pub fn resume(self, reply: Reply) -> (step: Step<PathBuild, ()>)
        ensures
            step@ == self.next(reply@),
    {
        match reply {
            Reply::Status { code, message } => if code == 0 {
                Step::Done(no_calls(), ())
            } else {
                Step::Failed(no_calls(), Error::Unknown(String::from_str("Build failed")))
            },
            _ => Step::Failed(no_calls(), unexpected_reply()),
        }
    }
}

impl Store {
    /// Starts the opening of the default store.
    pub fn open() -> (step: Step<StoreOpen, Store>)
        ensures
            step@ == StoreOpen::first(),
    {
        Step::Call(StoreOpen::Init, Call::LixInit)
    }

    /// Starts the parsing of `path`.
    pub fn parse_store_path(&self, path: &str) -> (step: Step<PathParse, StorePath>)
        ensures
            step@ == PathParse::first(self.handle, path.spec_bytes()),
    {
        match to_c_string(path) {
            Ok(text) => Step::Call(
                PathParse {  },
                Call::LixParseStorePath { store: self.handle, text },
            ),
            Err(nul) => Step::Failed(no_calls(), Error::StringConversion(nul)),
        }
    }

    /// Starts the building of `path`.
    pub fn build_path(&self, path: &StorePath) -> (step: Step<PathBuild, ()>)
        ensures
            step@ == PathBuild::first(self.handle, path.handle),
    {
        Step::Call(PathBuild {  }, Call::LixBuildPath { store: self.handle, path: path.handle })
    }

    /// Gives the store up: the call that frees it.
    pub fn release(self) -> (call: Call)
        ensures
            call@ == (CallView::LixStoreFree { store: self.handle }),
    {
        Call::LixStoreFree { store: self.handle }
    }
}

impl StorePath {
    /// Gives the path up: the call that frees it.
    pub fn release(self) -> (call: Call)
        ensures
            call@ == (CallView::LixPathFree { path: self.handle }),
    {
        Call::LixPathFree { path: self.handle }
    }
}

/// Whatever the wrapper replies, the opening of the store makes allowed
/// calls only; where it fails, the book is as before; where it succeeds, the
/// book has gained the store.
pub proof fn store_open_is_safe(replies: Seq<ReplyView>, ledger: Ledger)
    ensures
        ({
            let fate = StoreOpen::fate(replies, ledger);
            &&& fate.sound(ledger)
            &&& fate matches Fate::Done(after, store) ==> after == ledger.insert(
                entry(Kind::LixStore, store.handle),
            )
            &&& replies.len() >= 2 ==> fate.over()
        }),
{
    broadcast use group_ledger;

    reveal_with_fuel(run, 4);
    reveal_with_fuel(sweep, 2);
}

/// Whatever the wrapper replies, the parsing of a path in a live store makes
/// allowed calls only; where it fails, the book is as before; where it
/// succeeds, the book has gained the path.
pub proof fn path_parse_is_safe(
    store: Handle,
    text: Seq<u8>,
    replies: Seq<ReplyView>,
    ledger: Ledger,
)
    requires
        ledger.contains(entry(Kind::LixStore, store)),
    ensures
        ({
            let fate = PathParse::fate(store, text, replies, ledger);
            &&& fate.sound(ledger)
            &&& fate matches Fate::Done(after, path) ==> after == ledger.insert(
                entry(Kind::LixPath, path.handle),
            )
            &&& replies.len() >= 1 ==> fate.over()
        }),
{
    broadcast use group_ledger;

    reveal_with_fuel(run, 3);
    reveal_with_fuel(sweep, 2);
}

/// Whatever the wrapper replies, the building of a live path in a live
/// store makes allowed calls only and leaves the book as it was.
pub proof fn path_build_is_safe(
    store: Handle,
    path: Handle,
    replies: Seq<ReplyView>,
    ledger: Ledger,
)
    requires
        ledger.contains(entry(Kind::LixStore, store)),
        ledger.contains(entry(Kind::LixPath, path)),
    ensures
        PathBuild::fate(store, path, replies, ledger).keeps(ledger),
        replies.len() >= 1 ==> PathBuild::fate(store, path, replies, ledger).over(),
{
    broadcast use group_ledger;

    reveal_with_fuel(run, 3);
    reveal_with_fuel(sweep, 2);
}

} // verus!
