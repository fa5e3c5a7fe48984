//! The loader keeps every native module that was opened, by the path it was
//! opened from, and sees to it that no path is opened twice.
//!
//! The loader does not open files itself. It is asked for a path and says
//! what to do: reuse the module that is there, open the file, or wait for
//! an open that is under way. Whoever opens the file reports how that went.

use crate::action::Event;
use crate::action::EventView;
use crate::error::ErrorKind;
use crate::error::LaunchError;
use crate::error::LaunchErrorView;
use vstd::prelude::*;

verus! {

/// The place of a loaded module in its loader. It stays valid, and means
/// the same module, for as long as the loader lives.
#[derive(Clone, Copy, Debug, PartialEq, Eq, Structural)]
pub struct ModuleId {
    pub index: usize,
}

/// What the loader says to a request for a path.
#[derive(Clone, Copy, Debug, PartialEq, Eq, Structural)]
pub enum LoadStep {
    /// The path is loaded: use this module, open nothing.
    Reuse(ModuleId),
    /// The path is not loaded and nobody is opening it: open the file and
    /// report the outcome.
    OpenModule,
    /// Somebody was told to open the path and has not reported yet.
    Busy,
}

impl LoadStep {
    /// The outcome of loading `path` where the loader's answer settles it:
    /// a module that is there is loaded, and a path that somebody else is
    /// opening cannot be loaded now, which is a failure that names the
    /// path. `None` where the file has to be opened first.
    pub fn settled(&self, path: &str) -> (event: Option<Event>)
        ensures
            match *self {
                LoadStep::Reuse(_) => event.is_some() && event.unwrap()@ == EventView::Done,
                LoadStep::Busy => event.is_some() && event.unwrap()@ == EventView::Failed(path@),
                LoadStep::OpenModule => event.is_none(),
            },
    {
        match self {
            LoadStep::Reuse(_) => Some(Event::Done),
            LoadStep::Busy => Some(Event::Failed(path.to_owned())),
            LoadStep::OpenModule => None,
        }
    }
}

/// The outcome of loading a module whose open was reported to the loader:
/// done where there is a module, failed with the words of the error where
/// there is none.
pub fn reported(result: Result<ModuleId, LaunchError>) -> (event: Event)
    ensures
        match result {
            Ok(_) => event@ == EventView::Done,
            Err(error) => event@ == EventView::Failed(error@.detail),
        },
{
    match result {
        Ok(_) => Event::Done,
        Err(error) => Event::Failed(error.detail),
    }
}

/// What a loader knows: the paths of the loaded modules, each at the place
/// of its module, and the paths that are being opened.
pub struct LoaderState {
    pub loaded: Seq<Seq<char>>,
    pub opening: Set<Seq<char>>,
}

/// What a loader decides about a path.
pub enum Decision {
    Reuse(int),
    OpenModule,
    Busy,
}

/// Something that happens to a loader.
pub enum LoaderOp {
    /// A module at this path is asked for.
    Request(Seq<char>),
    /// An open of this path is reported, with whether it succeeded.
    Complete(Seq<char>, bool),
}

impl LoaderState {
    /// No path is loaded twice, and no loaded path is being opened.
    pub open spec fn wf(self) -> bool {
        &&& self.loaded.no_duplicates()
        &&& forall|path: Seq<char>| self.opening.contains(path) ==> !self.loaded.contains(path)
    }

    /// A loader that has seen nothing.
    pub open spec fn empty() -> LoaderState {
        LoaderState { loaded: seq![], opening: set![] }
    }

    /// The place of the module loaded from `path`, if there is one.
    pub open spec fn module_of(self, path: Seq<char>) -> Option<int> {
        if self.loaded.contains(path) {
            Some(self.loaded.index_of(path))
        } else {
            None
        }
    }

    /// The answer to a request for `path`.
    pub open spec fn decide(self, path: Seq<char>) -> Decision {
        if self.loaded.contains(path) {
            Decision::Reuse(self.loaded.index_of(path))
        } else if self.opening.contains(path) {
            Decision::Busy
        } else {
            Decision::OpenModule
        }
    }

    /// The loader after a request for `path`: where the answer is to open
    /// the file, the path counts as being opened from then on.
    pub open spec fn request(self, path: Seq<char>) -> LoaderState {
        if self.decide(path) is OpenModule {
            LoaderState { loaded: self.loaded, opening: self.opening.insert(path) }
        } else {
            self
        }
    }

    /// The place of the module after an open of `path` was reported, or
    /// `None` where there is no module. A path that is loaded keeps its
    /// module whatever is reported.
    pub open spec fn outcome(self, path: Seq<char>, opened: bool) -> Option<int> {
        if self.loaded.contains(path) {
            Some(self.loaded.index_of(path))
        } else if opened {
            Some(self.loaded.len() as int)
        } else {
            None
        }
    }

    /// The loader after an open of `path` was reported. The path is no
    /// longer being opened. A module that was opened for a path that is not
    /// loaded takes the next free place; a failed open leaves nothing
    /// behind.
    pub open spec fn complete(self, path: Seq<char>, opened: bool) -> LoaderState {
        LoaderState {
            loaded: if opened && !self.loaded.contains(path) {
                self.loaded.push(path)
            } else {
                self.loaded
            },
            opening: self.opening.remove(path),
        }
    }

    /// The loader after one operation.
    pub open spec fn apply(self, op: LoaderOp) -> LoaderState {
        match op {
            LoaderOp::Request(path) => self.request(path),
            LoaderOp::Complete(path, opened) => self.complete(path, opened),
        }
    }

    /// The loader after `ops`, oldest first.
    pub open spec fn run(self, ops: Seq<LoaderOp>) -> LoaderState
        decreases ops.len(),
    {
        if ops.len() == 0 {
            self
        } else {
            self.run(ops.drop_last()).apply(ops.last())
        }
    }
}

/// Whether no operation of `ops` reports an open of `path`.
pub open spec fn unreported(ops: Seq<LoaderOp>, path: Seq<char>) -> bool {
    forall|i: int| 0 <= i < ops.len() ==> !((#[trigger] ops[i]) matches LoaderOp::Complete(p, _) && p == path)
}

/// Every operation keeps a loader well formed, and keeps every loaded
/// module at its place.
pub proof fn lemma_apply_keeps_modules(state: LoaderState, op: LoaderOp)
    requires
        state.wf(),
    ensures
        state.apply(op).wf(),
        state.loaded.len() <= state.apply(op).loaded.len(),
        forall|i: int| 0 <= i < state.loaded.len() ==> state.apply(op).loaded[i] == state.loaded[i],
{
    match op {
        LoaderOp::Request(path) => {},
        LoaderOp::Complete(path, opened) => {
            let next = state.complete(path, opened);
            if opened && !state.loaded.contains(path) {
                assert forall|i: int, j: int|
                    0 <= i < next.loaded.len() && 0 <= j < next.loaded.len() && i != j implies next.loaded[i]
                    != next.loaded[j] by {
                    if i < state.loaded.len() {
                        assert(state.loaded.contains(state.loaded[i]));
                    }
                    if j < state.loaded.len() {
                        assert(state.loaded.contains(state.loaded[j]));
                    }
                }
                assert forall|p: Seq<char>| next.opening.contains(p) implies !next.loaded.contains(
                    p,
                ) by {
                    if next.loaded.contains(p) {
                        let i = choose|i: int| 0 <= i < next.loaded.len() && next.loaded[i] == p;
                        if i < state.loaded.len() {
                            assert(state.loaded.contains(p));
                        }
                    }
                }
            }
        },
    }
}

/// Singleton identity. A path that is loaded is answered with the same
/// module for ever after, whatever is asked for and reported in between,
/// and is never opened again.
pub proof fn lemma_same_path_same_module(state: LoaderState, path: Seq<char>, ops: Seq<LoaderOp>)
    requires
        state.wf(),
        state.loaded.contains(path),
    ensures
        state.run(ops).wf(),
        state.run(ops).decide(path) == Decision::Reuse(state.loaded.index_of(path)),
        state.run(ops).module_of(path) == state.module_of(path),
    decreases ops.len(),
{
    lemma_run_keeps_modules(state, ops);
    let place = state.loaded.index_of(path);
    let reached = state.run(ops);
    assert(reached.loaded[place] == path);
    assert(reached.loaded.contains(path));
    let found = reached.loaded.index_of(path);
    assert(reached.loaded[found] == path);
    assert(found == place);
}

/// Any run of operations keeps a loader well formed, and keeps every
/// loaded module at its place.
pub proof fn lemma_run_keeps_modules(state: LoaderState, ops: Seq<LoaderOp>)
    requires
        state.wf(),
    ensures
        state.run(ops).wf(),
        state.loaded.len() <= state.run(ops).loaded.len(),
        forall|i: int| 0 <= i < state.loaded.len() ==> state.run(ops).loaded[i] == state.loaded[i],
    decreases ops.len(),
{
    if ops.len() > 0 {
        lemma_run_keeps_modules(state, ops.drop_last());
        lemma_apply_keeps_modules(state.run(ops.drop_last()), ops.last());
    }
}

/// Loading a path twice gives one module. Once an open of `path` was
/// reported as a success, the path is answered with the module of that
/// report for ever after: a later request reuses it, and a later report,
/// whatever it says, changes neither the module nor the loader's modules.
pub proof fn lemma_load_twice_one_module(
    state: LoaderState,
    path: Seq<char>,
    between: Seq<LoaderOp>,
    again: bool,
)
    requires
        state.wf(),
    ensures
        ({
            let first = state.outcome(path, true);
            let reached = state.complete(path, true).run(between);
            &&& first is Some
            &&& reached.decide(path) == Decision::Reuse(first->0)
            &&& reached.outcome(path, again) == first
            &&& reached.complete(path, again).loaded == reached.loaded
        }),
{
    let loaded = state.complete(path, true);
    lemma_apply_keeps_modules(state, LoaderOp::Complete(path, true));
    if !state.loaded.contains(path) {
        lemma_opened_module_is_kept(state, path);
    }
    lemma_same_path_same_module(loaded, path, between);
}

/// Loading two paths gives two modules. Where opens of two distinct paths
/// were reported as successes, one after the other, their modules are
/// distinct.
pub proof fn lemma_load_two_paths_two_modules(
    state: LoaderState,
    first: Seq<char>,
    second: Seq<char>,
    between: Seq<LoaderOp>,
)
    requires
        state.wf(),
        first != second,
    ensures
        ({
            let reached = state.complete(first, true).run(between);
            &&& state.outcome(first, true) is Some
            &&& reached.outcome(second, true) is Some
            &&& state.outcome(first, true) != reached.outcome(second, true)
            &&& reached.complete(second, true).module_of(first) == state.outcome(first, true)
            &&& reached.complete(second, true).module_of(second) == reached.outcome(second, true)
        }),
{
    lemma_load_twice_one_module(state, first, between, true);
    let opened = state.complete(first, true);
    lemma_apply_keeps_modules(state, LoaderOp::Complete(first, true));
    lemma_run_keeps_modules(opened, between);
    let reached = opened.run(between);
    let ended = reached.complete(second, true);
    lemma_apply_keeps_modules(reached, LoaderOp::Complete(second, true));
    lemma_load_twice_one_module(reached, second, seq![], true);
    assert(ended.loaded[reached.loaded.index_of(first)] == first);
    lemma_distinct_paths_distinct_modules(ended, first, second);
}

/// Two paths, two modules. Distinct loaded paths have distinct places.
pub proof fn lemma_distinct_paths_distinct_modules(
    state: LoaderState,
    first: Seq<char>,
    second: Seq<char>,
)
    requires
        state.wf(),
        state.loaded.contains(first),
        state.loaded.contains(second),
        first != second,
    ensures
        state.module_of(first) != state.module_of(second),
{
    let a = state.loaded.index_of(first);
    let b = state.loaded.index_of(second);
    assert(state.loaded[a] == first);
    assert(state.loaded[b] == second);
}

/// A successful open is kept at the next free place, and the path is
/// answered with it from then on.
pub proof fn lemma_opened_module_is_kept(state: LoaderState, path: Seq<char>)
    requires
        state.wf(),
        !state.loaded.contains(path),
    ensures
        state.complete(path, true).wf(),
        state.complete(path, true).loaded == state.loaded.push(path),
        state.outcome(path, true) == Some(state.loaded.len() as int),
        state.complete(path, true).decide(path) == Decision::Reuse(state.loaded.len() as int),
{
    lemma_apply_keeps_modules(state, LoaderOp::Complete(path, true));
    let next = state.complete(path, true);
    let place = state.loaded.len() as int;
    assert(next.loaded[place] == path);
    assert(next.loaded.contains(path));
    let found = next.loaded.index_of(path);
    assert(next.loaded[found] == path);
}

/// A load that fails never partially succeeds. It yields no module, leaves
/// the loaded modules as they were, and leaves the path free to be tried
/// again.
pub proof fn lemma_failed_open_leaves_nothing(state: LoaderState, path: Seq<char>)
    requires
        state.wf(),
        !state.loaded.contains(path),
    ensures
        state.outcome(path, false) is None,
        state.complete(path, false).loaded == state.loaded,
        state.complete(path, false).wf(),
        state.complete(path, false).decide(path) is OpenModule,
{
}

/// One open at a time. After a request for a path, and until an open of
/// that path is reported, no request for it is answered with an order to
/// open the file: of any number of first requests, one opens.
pub proof fn lemma_one_open_at_a_time(state: LoaderState, path: Seq<char>, between: Seq<LoaderOp>)
    requires
        state.wf(),
        unreported(between, path),
    ensures
        !(state.request(path).run(between).decide(path) is OpenModule),
        state.decide(path) is OpenModule ==> state.request(path).run(between).decide(path) is Busy,
    decreases between.len(),
{
    let asked = state.request(path);
    lemma_apply_keeps_modules(state, LoaderOp::Request(path));
    if state.loaded.contains(path) {
        lemma_same_path_same_module(asked, path, between);
    } else {
        lemma_stays_in_opening(asked, path, between);
    }
}

/// A path that is being opened stays so until its open is reported.
pub proof fn lemma_stays_in_opening(state: LoaderState, path: Seq<char>, between: Seq<LoaderOp>)
    requires
        state.wf(),
        state.opening.contains(path),
        unreported(between, path),
    ensures
        state.run(between).wf(),
        state.run(between).opening.contains(path),
        state.run(between).decide(path) is Busy,
    decreases between.len(),
{
    if between.len() > 0 {
        let earlier = between.drop_last();
        assert forall|i: int| 0 <= i < earlier.len() implies !((#[trigger] earlier[i]) matches LoaderOp::Complete(
            p,
            _,
        ) && p == path) by {
            assert(earlier[i] == between[i]);
        }
        lemma_stays_in_opening(state, path, earlier);
        lemma_apply_keeps_modules(state.run(earlier), between.last());
        assert(between.last() == between[between.len() - 1]);
    }
}

/// A loaded module and the path it was opened from.
struct Slot<M> {
    path: String,
    module: M,
}

/// The process-wide store of native modules. `M` is whatever stands for an
/// open module; the loader keeps each one until the loader itself goes.
pub struct NativeServiceLoader<M> {
    loaded: Vec<Slot<M>>,
    opening: Vec<String>,
}

impl<M> View for NativeServiceLoader<M> {
    type V = LoaderState;

    closed spec fn view(&self) -> LoaderState {
        LoaderState { loaded: self.loaded_paths(), opening: self.opening_paths().to_set() }
    }
}

impl<M> NativeServiceLoader<M> {
    closed spec fn loaded_paths(&self) -> Seq<Seq<char>> {
        Seq::new(self.loaded@.len(), |i: int| self.loaded@[i].path@)
    }

    closed spec fn opening_paths(&self) -> Seq<Seq<char>> {
        Seq::new(self.opening@.len(), |i: int| self.opening@[i]@)
    }

    /// The loaded modules, each at its place.
    pub closed spec fn modules(&self) -> Seq<M> {
        Seq::new(self.loaded@.len(), |i: int| self.loaded@[i].module)
    }

    /// The loader's invariant: what it knows is well formed, and it holds
    /// one module for each loaded path.
    pub closed spec fn wf(&self) -> bool {
        &&& self@.wf()
        &&& self.opening_paths().no_duplicates()
    }

    /// Every loaded path has its module.
    pub proof fn lemma_one_module_each(&self)
        ensures
            self.modules().len() == self@.loaded.len(),
    {
    }

    /// A loader that holds nothing.
    pub fn new() -> (loader: Self)
        ensures
            loader.wf(),
            loader@ == LoaderState::empty(),
            loader.modules() == Seq::<M>::empty(),
    {
        let loader = NativeServiceLoader { loaded: Vec::new(), opening: Vec::new() };
        assert(loader@.loaded =~= LoaderState::empty().loaded);
        assert(loader@.opening =~= LoaderState::empty().opening);
        assert(loader.modules() =~= Seq::<M>::empty());
        loader
    }

    /// The number of loaded modules.
    pub fn len(&self) -> (count: usize)
        ensures
            count == self@.loaded.len(),
            count == self.modules().len(),
    {
        self.loaded.len()
    }

    fn find_loaded(&self, path: &String) -> (found: Option<usize>)
        ensures
            match found {
                Some(i) => i < self.loaded_paths().len() && self.loaded_paths()[i as int] == path@,
                None => !self.loaded_paths().contains(path@),
            },
    {
        let mut i: usize = 0;
        while i < self.loaded.len()
            invariant
                i <= self.loaded.len(),
                forall|j: int| 0 <= j < i ==> self.loaded_paths()[j] != path@,
            decreases self.loaded.len() - i,
        {
            if self.loaded[i].path == *path {
                return Some(i);
            }
            i += 1;
        }
        None
    }

    fn find_opening(&self, path: &String) -> (found: Option<usize>)
        ensures
            match found {
                Some(i) => i < self.opening_paths().len() && self.opening_paths()[i as int]
                    == path@,
                None => !self.opening_paths().contains(path@),
            },
    {
        let mut i: usize = 0;
        while i < self.opening.len()
            invariant
                i <= self.opening.len(),
                forall|j: int| 0 <= j < i ==> self.opening_paths()[j] != path@,
            decreases self.opening.len() - i,
        {
            if self.opening[i] == *path {
                return Some(i);
            }
            i += 1;
        }
        None
    }

    /// In a loader without duplicates, the place at which a path is found
    /// is the place of its module.
    proof fn lemma_found_is_module(&self, path: Seq<char>, place: int)
        requires
            self.wf(),
            0 <= place < self.loaded_paths().len(),
            self.loaded_paths()[place] == path,
        ensures
            self@.loaded.contains(path),
            self@.loaded.index_of(path) == place,
    {
        assert(self@.loaded[place] == path);
        let found = self@.loaded.index_of(path);
        assert(self@.loaded[found] == path);
    }

    /// The module loaded from `path`, if there is one.
    pub fn lookup(&self, path: &str) -> (found: Option<ModuleId>)
        requires
            self.wf(),
        ensures
            match found {
                Some(id) => self@.module_of(path@) == Some(id.index as int),
                None => self@.module_of(path@) is None,
            },
    {
        let owned = path.to_owned();
        match self.find_loaded(&owned) {
            Some(index) => {
                proof {
                    self.lemma_found_is_module(path@, index as int);
                }
                Some(ModuleId { index })
            },
            None => None,
        }
    }

    /// The module at `id`, if the loader holds that many.
    pub fn module(&self, id: ModuleId) -> (module: Option<&M>)
        ensures
            match module {
                Some(m) => id.index < self.modules().len() && *m == self.modules()[id.index as int],
                None => id.index >= self.modules().len(),
            },
    {
        if id.index < self.loaded.len() {
            Some(&self.loaded[id.index].module)
        } else {
            None
        }
    }

    /// Answers a request for the module at `path`. Where the answer is to
    /// open the file, the path counts as being opened until
    /// [`complete`](Self::complete) is told how that went.
    pub fn request(&mut self, path: &str) -> (step: LoadStep)
        requires
            old(self).wf(),
        ensures
            final(self).wf(),
            final(self)@ == old(self)@.request(path@),
            final(self).modules() == old(self).modules(),
            match step {
                LoadStep::Reuse(id) => old(self)@.decide(path@) == Decision::Reuse(id.index as int),
                LoadStep::OpenModule => old(self)@.decide(path@) is OpenModule,
                LoadStep::Busy => old(self)@.decide(path@) is Busy,
            },
    {
        let owned = path.to_owned();
        match self.find_loaded(&owned) {
            Some(index) => {
                proof {
                    self.lemma_found_is_module(path@, index as int);
                }
                LoadStep::Reuse(ModuleId { index })
            },
            None => {
                match self.find_opening(&owned) {
                    Some(_) => {
                        LoadStep::Busy
                    },
                    None => {
                        let ghost before = self.opening_paths();
                        self.opening.push(owned);
                        proof {
                            assert(self.opening_paths() =~= before.push(path@));
                            assert(self.loaded_paths() =~= old(self).loaded_paths());
                            assert(self.modules() =~= old(self).modules());
                            assert(self@.opening =~= old(self)@.opening.insert(path@)) by {
                                assert forall|p: Seq<char>|
                                    self@.opening.contains(p) <==> old(self)@.opening.insert(
                                        path@,
                                    ).contains(p) by {
                                    if before.push(path@).contains(p) {
                                        let i = choose|i: int|
                                            0 <= i < before.push(path@).len() && before.push(
                                                path@,
                                            )[i] == p;
                                        if i < before.len() {
                                            assert(before[i] == p);
                                        }
                                    }
                                    if before.contains(p) {
                                        let i = choose|i: int| 0 <= i < before.len() && before[i] == p;
                                        assert(before.push(path@)[i] == p);
                                    }
                                    if p == path@ {
                                        assert(before.push(path@)[before.len() as int] == p);
                                    }
                                }
                            }
                        }
                        LoadStep::OpenModule
                    },
                }
            },
        }
    }

    /// Takes the outcome of an open of `path`: the module, or the words of
    /// whoever failed to open it, which become the detail of a `Load`
    /// error. Where the path is loaded already, the module that is there
    /// stays and is the answer, and `outcome` is dropped.
    pub fn complete(&mut self, path: &str, outcome: Result<M, String>) -> (result: Result<
        ModuleId,
        LaunchError,
    >)
        requires
            old(self).wf(),
        ensures
            final(self).wf(),
            final(self)@ == old(self)@.complete(path@, outcome is Ok),
            match result {
                Ok(id) => old(self)@.outcome(path@, outcome is Ok) == Some(id.index as int),
                Err(error) => old(self)@.outcome(path@, outcome is Ok) is None && outcome is Err
                    && error@ == (LaunchErrorView {
                    kind: ErrorKind::Load,
                    detail: outcome->Err_0@,
                }),
            },
            final(self).modules() == if outcome is Ok && !old(self)@.loaded.contains(path@) {
                old(self).modules().push(outcome->Ok_0)
            } else {
                old(self).modules()
            },
    {
        let owned = path.to_owned();
        let ghost opening_before = self.opening_paths();
        match self.find_opening(&owned) {
            Some(at) => {
                self.opening.remove(at);
                proof {
                    assert(self.opening_paths() =~= opening_before.remove(at as int));
                    assert(self.opening_paths().to_set() =~= opening_before.to_set().remove(path@))
                        by {
                        let after = opening_before.remove(at as int);
                        assert forall|p: Seq<char>|
                            after.contains(p) <==> (opening_before.contains(p) && p != path@) by {
                            if after.contains(p) {
                                let i = choose|i: int| 0 <= i < after.len() && after[i] == p;
                                if i < at {
                                    assert(opening_before[i] == p);
                                } else {
                                    assert(opening_before[i + 1] == p);
                                }
                            }
                            if opening_before.contains(p) && p != path@ {
                                let i = choose|i: int|
                                    0 <= i < opening_before.len() && opening_before[i] == p;
                                if i < at {
                                    assert(after[i] == p);
                                } else {
                                    assert(after[i - 1] == p);
                                }
                            }
                        }
                    }
                }
            },
            None => {
                proof {
                    assert(opening_before.to_set() =~= opening_before.to_set().remove(path@));
                }
            },
        }
        proof {
            assert(self.loaded_paths() =~= old(self).loaded_paths());
            assert(self.modules() =~= old(self).modules());
        }
        match self.find_loaded(&owned) {
            Some(index) => {
                proof {
                    old(self).lemma_found_is_module(path@, index as int);
                }
                Ok(ModuleId { index })
            },
            None => {
                match outcome {
                    Ok(module) => {
                        let index: usize = self.loaded.len();
                        let ghost loaded_before = self.loaded_paths();
                        let ghost modules_before = self.modules();
                        self.loaded.push(Slot { path: owned, module });
                        proof {
                            assert(self.loaded_paths() =~= loaded_before.push(path@));
                            assert(self.modules() =~= modules_before.push(module));
                            lemma_apply_keeps_modules(old(self)@, LoaderOp::Complete(path@, true));
                        }
                        Ok(ModuleId { index })
                    },
                    Err(reason) => {
                        proof {
                            lemma_apply_keeps_modules(old(self)@, LoaderOp::Complete(path@, false));
                        }
                        Err(LaunchError::new(ErrorKind::Load, reason))
                    },
                }
            },
        }
    }
}

} // verus!
