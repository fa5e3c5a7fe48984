//! What a pipeline asks of the shell, and what the shell answers.

use crate::config::ServiceConfiguration;
use crate::config::ServiceConfigurationView;
use crate::error::ErrorKind;
use crate::error::LaunchError;
use crate::error::LaunchErrorView;
use crate::service::EntryPoint;
use vstd::prelude::*;

verus! {

/// The exit status of a launcher that ends on a fatal error.
pub const FATAL_EXIT_CODE: u8 = 1;

/// One call on a native module or on the file system, to be made by the
/// shell.
#[derive(Clone, Debug, PartialEq, Eq)]
pub enum Action {
    /// Read the configuration file and deserialize it into the record that
    /// the module defines.
    ReadConfig { config: ServiceConfiguration },
    /// Ask the loader for the module at `path`, opening it if it is not
    /// loaded yet.
    LoadModule { path: String },
    /// Look `entry` up by its name in the module loaded from `path`.
    Resolve { path: String, entry: EntryPoint },
    /// Call the entry point that was resolved last and keep what it returns.
    Invoke { entry: EntryPoint },
    /// Register a compiler plugin with the compile service.
    LoadPlugin { path: String },
    /// Add a source file to the compile service's pending set.
    AddSource { path: String },
    /// Compile the pending set, naming each output after its source.
    Compile,
    /// Decode one assembly file into its in-memory form.
    DecodeAssembly { path: String },
    /// Hand every decoded assembly, in this order, to the assembly manager
    /// in one call.
    LoadAssemblies { paths: Vec<String> },
    /// Initialize the statics of the loaded assemblies.
    LoadStatics,
    /// Spawn an execution context from the virtual machine.
    SpawnContext,
    /// Run the entry class and block until the program ends or traps.
    Run { assembly: String, class: String, arguments: Vec<String> },
}

/// The mathematical value of an [`Action`].
pub enum ActionView {
    ReadConfig { config: ServiceConfigurationView },
    LoadModule { path: Seq<char> },
    Resolve { path: Seq<char>, entry: EntryPoint },
    Invoke { entry: EntryPoint },
    LoadPlugin { path: Seq<char> },
    AddSource { path: Seq<char> },
    Compile,
    DecodeAssembly { path: Seq<char> },
    LoadAssemblies { paths: Seq<Seq<char>> },
    LoadStatics,
    SpawnContext,
    Run { assembly: Seq<char>, class: Seq<char>, arguments: Seq<Seq<char>> },
}

impl View for Action {
    type V = ActionView;

    open spec fn view(&self) -> ActionView {
        match self {
            Action::ReadConfig { config } => ActionView::ReadConfig { config: config@ },
            Action::LoadModule { path } => ActionView::LoadModule { path: path@ },
            Action::Resolve { path, entry } => ActionView::Resolve { path: path@, entry: *entry },
            Action::Invoke { entry } => ActionView::Invoke { entry: *entry },
            Action::LoadPlugin { path } => ActionView::LoadPlugin { path: path@ },
            Action::AddSource { path } => ActionView::AddSource { path: path@ },
            Action::Compile => ActionView::Compile,
            Action::DecodeAssembly { path } => ActionView::DecodeAssembly { path: path@ },
            Action::LoadAssemblies { paths } => ActionView::LoadAssemblies {
                paths: paths.deep_view(),
            },
            Action::LoadStatics => ActionView::LoadStatics,
            Action::SpawnContext => ActionView::SpawnContext,
            Action::Run { assembly, class, arguments } => ActionView::Run {
                assembly: assembly@,
                class: class@,
                arguments: arguments.deep_view(),
            },
        }
    }
}

impl ActionView {
    /// The kind of error that a failure of this action is.
    pub open spec fn failure_kind(self) -> ErrorKind {
        match self {
            ActionView::ReadConfig { .. } => ErrorKind::ConfigParse,
            ActionView::LoadModule { .. } => ErrorKind::Load,
            ActionView::Resolve { .. } => ErrorKind::SymbolNotFound,
            ActionView::Invoke { .. } => ErrorKind::Construct,
            ActionView::LoadPlugin { .. } => ErrorKind::PluginLoad,
            ActionView::AddSource { .. } => ErrorKind::SourceAdd,
            ActionView::Compile => ErrorKind::Compile,
            ActionView::DecodeAssembly { .. } => ErrorKind::AssemblyDecode,
            ActionView::LoadAssemblies { .. } => ErrorKind::AssemblyLoad,
            ActionView::LoadStatics => ErrorKind::StaticInit,
            ActionView::SpawnContext => ErrorKind::ContextSpawn,
            ActionView::Run { .. } => ErrorKind::Run,
        }
    }

    /// Whether success of this action is a program's exit status rather than
    /// a plain completion.
    pub open spec fn yields_status(self) -> bool {
        self is Run
    }

    /// Whether this action is a call on a constructed capability, as opposed
    /// to a step of constructing one.
    pub open spec fn on_capability(self) -> bool {
        !(self is ReadConfig || self is LoadModule || self is Resolve || self is Invoke)
    }
}

/// A copy of `texts` with the same strings in the same order.
pub fn duplicate_all(texts: &Vec<String>) -> (copy: Vec<String>)
    ensures
        copy.deep_view() == texts.deep_view(),
{
    let mut copy: Vec<String> = Vec::new();
    let mut i: usize = 0;
    while i < texts.len()
        invariant
            i <= texts.len(),
            copy.len() == i,
            forall|j: int| 0 <= j < i ==> copy[j]@ == texts[j]@,
        decreases texts.len() - i,
    {
        copy.push(texts[i].clone());
        i += 1;
    }
    assert(copy.deep_view() =~= texts.deep_view());
    copy
}

impl Action {
    pub fn failure_kind(&self) -> (kind: ErrorKind)
        ensures
            kind == self@.failure_kind(),
    {
        match self {
            Action::ReadConfig { .. } => ErrorKind::ConfigParse,
            Action::LoadModule { .. } => ErrorKind::Load,
            Action::Resolve { .. } => ErrorKind::SymbolNotFound,
            Action::Invoke { .. } => ErrorKind::Construct,
            Action::LoadPlugin { .. } => ErrorKind::PluginLoad,
            Action::AddSource { .. } => ErrorKind::SourceAdd,
            Action::Compile => ErrorKind::Compile,
            Action::DecodeAssembly { .. } => ErrorKind::AssemblyDecode,
            Action::LoadAssemblies { .. } => ErrorKind::AssemblyLoad,
            Action::LoadStatics => ErrorKind::StaticInit,
            Action::SpawnContext => ErrorKind::ContextSpawn,
            Action::Run { .. } => ErrorKind::Run,
        }
    }

    pub fn yields_status(&self) -> (yes: bool)
        ensures
            yes == self@.yields_status(),
    {
        match self {
            Action::Run { .. } => true,
            _ => false,
        }
    }

    /// A copy that asks for the same call with the same arguments.
    pub fn duplicate(&self) -> (copy: Action)
        ensures
            copy@ == self@,
    {
        match self {
            Action::ReadConfig { config } => Action::ReadConfig { config: config.duplicate() },
            Action::LoadModule { path } => Action::LoadModule { path: path.clone() },
            Action::Resolve { path, entry } => Action::Resolve { path: path.clone(), entry: *entry },
            Action::Invoke { entry } => Action::Invoke { entry: *entry },
            Action::LoadPlugin { path } => Action::LoadPlugin { path: path.clone() },
            Action::AddSource { path } => Action::AddSource { path: path.clone() },
            Action::Compile => Action::Compile,
            Action::DecodeAssembly { path } => Action::DecodeAssembly { path: path.clone() },
            Action::LoadAssemblies { paths } => Action::LoadAssemblies {
                paths: duplicate_all(paths),
            },
            Action::LoadStatics => Action::LoadStatics,
            Action::SpawnContext => Action::SpawnContext,
            Action::Run { assembly, class, arguments } => Action::Run {
                assembly: assembly.clone(),
                class: class.clone(),
                arguments: duplicate_all(arguments),
            },
        }
    }
}

/// The outcome of the action that a pipeline asked for last.
#[derive(Clone, Debug, PartialEq, Eq)]
pub enum Event {
    /// The call returned normally.
    Done,
    /// The program ran and ended with this status.
    Exited(u64),
    /// The call failed; the string holds the collaborator's own words.
    Failed(String),
}

/// The mathematical value of an [`Event`].
pub enum EventView {
    Done,
    Exited(u64),
    Failed(Seq<char>),
}

impl View for Event {
    type V = EventView;

    open spec fn view(&self) -> EventView {
        match self {
            Event::Done => EventView::Done,
            Event::Exited(status) => EventView::Exited(*status),
            Event::Failed(reason) => EventView::Failed(reason@),
        }
    }
}

impl EventView {
    /// Whether this event reports that `action` did what it was asked to.
    pub open spec fn fulfils(self, action: ActionView) -> bool {
        match self {
            EventView::Done => !action.yields_status(),
            EventView::Exited(_) => action.yields_status(),
            EventView::Failed(_) => false,
        }
    }
}

/// How a pipeline ended.
#[derive(Clone, Debug, PartialEq, Eq)]
pub enum Completion {
    /// Every step was made and none failed.
    Success,
    /// The program ran to its end and reported this status.
    Exited(u64),
    /// A step failed; nothing was attempted after it.
    Fatal(LaunchError),
}

/// The mathematical value of a [`Completion`].
pub enum CompletionView {
    Success,
    Exited(u64),
    Fatal(LaunchErrorView),
}

impl View for Completion {
    type V = CompletionView;

    open spec fn view(&self) -> CompletionView {
        match self {
            Completion::Success => CompletionView::Success,
            Completion::Exited(status) => CompletionView::Exited(*status),
            Completion::Fatal(error) => CompletionView::Fatal(error@),
        }
    }
}

impl CompletionView {
    /// The process exit status: zero for success, the program's own status
    /// reduced to eight bits, or the fatal status.
    pub open spec fn exit_code(self) -> int {
        match self {
            CompletionView::Success => 0,
            CompletionView::Exited(status) => status as int % 256,
            CompletionView::Fatal(_) => FATAL_EXIT_CODE as int,
        }
    }
}

impl Completion {
    pub fn exit_code(&self) -> (code: u8)
        ensures
            code as int == self@.exit_code(),
    {
        match self {
            Completion::Success => 0,
            Completion::Exited(status) => (*status % 256) as u8,
            Completion::Fatal(_) => FATAL_EXIT_CODE,
        }
    }

    /// Whether the launcher failed, as opposed to the program that it ran.
    pub fn is_fatal(&self) -> (yes: bool)
        ensures
            yes == (self@ is Fatal),
    {
        match self {
            Completion::Fatal(_) => true,
            _ => false,
        }
    }

    /// A copy that reports the same ending.
    pub fn duplicate(&self) -> (copy: Completion)
        ensures
            copy@ == self@,
    {
        match self {
            Completion::Success => Completion::Success,
            Completion::Exited(status) => Completion::Exited(*status),
            Completion::Fatal(error) => Completion::Fatal(error.duplicate()),
        }
    }
}

/// What a pipeline says when asked what comes next.
#[derive(Clone, Debug, PartialEq, Eq)]
pub enum Step {
    /// Make this call and report its outcome.
    Perform(Action),
    /// Nothing is left to do.
    Finish(Completion),
}

/// The mathematical value of a [`Step`].
pub enum StepView {
    Perform(ActionView),
    Finish(CompletionView),
}

impl View for Step {
    type V = StepView;

    open spec fn view(&self) -> StepView {
        match self {
            Step::Perform(action) => StepView::Perform(action@),
            Step::Finish(completion) => StepView::Finish(completion@),
        }
    }
}

} // verus!
