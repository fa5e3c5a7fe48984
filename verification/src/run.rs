//! The run pipeline: construct the virtual machine, decode and load the
//! assemblies, initialize the statics, spawn an execution context and run
//! the entry class in it.

use crate::action::duplicate_all;
use crate::action::Action;
use crate::action::ActionView;
use crate::action::CompletionView;
use crate::action::Event;
use crate::action::EventView;
use crate::action::Step;
use crate::action::StepView;
use crate::action::FATAL_EXIT_CODE;
use crate::binding::configuration_steps;
use crate::binding::configuration_view;
use crate::binding::construction;
use crate::binding::lemma_views_push;
use crate::binding::push_configuration;
use crate::binding::push_construction;
use crate::config::ConfigType;
use crate::config::ServiceConfiguration;
use crate::config::ServiceConfigurationView;
use crate::error::ErrorKind;
use crate::error::LaunchErrorView;
use crate::pipeline::lemma_status_ends_pipeline;
use crate::pipeline::lemma_steps_follow_script;
use crate::pipeline::views;
use crate::pipeline::Pipeline;
use crate::pipeline::Progress;
use crate::service::EntryPoint;
use vstd::prelude::*;

verus! {

/// An assembly manager as the launcher binds it: the module that exports
/// it.
#[derive(Clone, Debug, PartialEq, Eq)]
pub struct AssemblyManager {
    inner: String,
}

/// The mathematical value of an [`AssemblyManager`].
pub struct AssemblyManagerView {
    pub core: Seq<char>,
}

impl AssemblyManagerView {
    /// The steps that construct the assembly manager.
    pub open spec fn construction(self) -> Seq<ActionView> {
        construction(self.core, EntryPoint::NewAssemblyManager)
    }
}

impl View for AssemblyManager {
    type V = AssemblyManagerView;

    closed spec fn view(&self) -> AssemblyManagerView {
        AssemblyManagerView { core: self.inner@ }
    }
}

impl AssemblyManager {
    /// Binds the assembly manager that the module at `p` constructs.
    pub fn new(p: &str) -> (manager: Self)
        ensures
            manager@ == (AssemblyManagerView { core: p@ }),
    {
        AssemblyManager { inner: p.to_owned() }
    }

    /// A copy bound to the same module.
    pub fn duplicate(&self) -> (copy: Self)
        ensures
            copy@ == self@,
    {
        AssemblyManager { inner: self.inner.clone() }
    }

    /// Appends the steps that construct the assembly manager to `script`.
    pub fn plan(&self, script: &mut Vec<Action>)
        ensures
            views(final(script)@) == views(old(script)@) + self@.construction(),
    {
        push_construction(script, self.inner.as_str(), EntryPoint::NewAssemblyManager);
    }
}

/// The value of an optional assembly manager.
pub open spec fn manager_view(manager: Option<AssemblyManager>) -> Option<AssemblyManagerView> {
    match manager {
        Some(manager) => Some(manager@),
        None => None,
    }
}

/// The virtual machine as the launcher binds it: the module that exports
/// it and what it is constructed from.
pub struct VM {
    inner: String,
    config: Option<ServiceConfiguration>,
    assembly_manager: Option<AssemblyManager>,
}

/// The mathematical value of a [`VM`].
pub struct VMView {
    pub core: Seq<char>,
    pub config: Option<ServiceConfigurationView>,
    pub assembly_manager: Option<AssemblyManagerView>,
}

impl VMView {
    /// The assembly manager that is handed to the entry point. Only the
    /// form that takes a configuration also takes an assembly manager.
    pub open spec fn manager(self) -> Option<AssemblyManagerView> {
        if self.config is Some {
            self.assembly_manager
        } else {
            None
        }
    }

    /// The entry point that constructs the machine: chosen by what is
    /// handed to it.
    pub open spec fn entry(self) -> EntryPoint {
        if self.config is None {
            EntryPoint::NewVM
        } else if self.assembly_manager is None {
            EntryPoint::NewVMWithConfig
        } else {
            EntryPoint::NewVMWithConfigAssemblyManager
        }
    }

    /// The steps that construct the own assembly manager, where the machine
    /// is handed one.
    pub open spec fn manager_steps(self) -> Seq<ActionView> {
        match self.manager() {
            Some(manager) => manager.construction(),
            None => seq![],
        }
    }

    /// The steps that construct the machine: the configuration first, then
    /// the assembly manager that it is handed, then the machine itself.
    pub open spec fn construction(self) -> Seq<ActionView> {
        configuration_steps(self.config) + self.manager_steps() + construction(
            self.core,
            self.entry(),
        )
    }
}

impl View for VM {
    type V = VMView;

    closed spec fn view(&self) -> VMView {
        VMView {
            core: self.inner@,
            config: configuration_view(self.config),
            assembly_manager: manager_view(self.assembly_manager),
        }
    }
}

impl VM {
    /// Binds the machine that the module at `p` constructs without
    /// arguments.
    pub fn new(p: &str) -> (vm: Self)
        ensures
            vm@ == (VMView { core: p@, config: None, assembly_manager: None }),
    {
        VM { inner: p.to_owned(), config: None, assembly_manager: None }
    }

    /// Binds the machine that the module at `p` constructs from `config`.
    pub fn with_config(p: &str, config: ServiceConfiguration) -> (vm: Self)
        ensures
            vm@ == (VMView { core: p@, config: Some(config@), assembly_manager: None }),
    {
        VM { inner: p.to_owned(), config: Some(config), assembly_manager: None }
    }

    /// Binds the machine that the module at `p` constructs from `config`
    /// and from an assembly manager of the caller's in place of its own.
    pub fn with_config_assembly_manager(
        p: &str,
        config: ServiceConfiguration,
        assembly_manager: AssemblyManager,
    ) -> (vm: Self)
        ensures
            vm@ == (VMView {
                core: p@,
                config: Some(config@),
                assembly_manager: Some(assembly_manager@),
            }),
    {
        VM { inner: p.to_owned(), config: Some(config), assembly_manager: Some(assembly_manager) }
    }

    pub fn entry(&self) -> (entry: EntryPoint)
        ensures
            entry == self@.entry(),
    {
        if self.config.is_none() {
            EntryPoint::NewVM
        } else if self.assembly_manager.is_none() {
            EntryPoint::NewVMWithConfig
        } else {
            EntryPoint::NewVMWithConfigAssemblyManager
        }
    }

    /// Appends the steps that construct the machine to `script`.
    pub fn plan(&self, script: &mut Vec<Action>)
        ensures
            views(final(script)@) == views(old(script)@) + self@.construction(),
    {
        let ghost before = views(script@);
        push_configuration(script, &self.config);
        if self.config.is_some() {
            match &self.assembly_manager {
                Some(manager) => {
                    manager.plan(script);
                },
                None => {},
            }
        }
        assert(views(script@) =~= before + configuration_steps(self@.config)
            + self@.manager_steps());
        push_construction(script, self.inner.as_str(), self.entry());
        assert(views(script@) =~= before + self@.construction());
    }
}

/// What is to be run, and on what.
#[derive(Clone, Debug, PartialEq, Eq)]
pub struct RunJob {
    /// The path of the module that exports the virtual machine.
    pub core: String,
    /// The configuration file of the virtual machine, if it has one.
    pub config_path: Option<String>,
    /// The format of the configuration file.
    pub config_type: ConfigType,
    /// An assembly manager to construct the machine with in place of its
    /// own. The machine takes one only together with a configuration:
    /// without a configuration file this field is not used.
    pub assembly_manager: Option<AssemblyManager>,
    /// Assembly files, in the order in which they are decoded and loaded.
    pub assemblies: Vec<String>,
    /// The assembly that holds the entry class.
    pub main_assembly_name: String,
    /// The entry class.
    pub main_class_name: String,
    /// The arguments of the program, in order.
    pub arguments: Vec<String>,
}

/// The mathematical value of a [`RunJob`].
pub struct RunJobView {
    pub core: Seq<char>,
    pub config_path: Option<Seq<char>>,
    pub config_type: ConfigType,
    pub assembly_manager: Option<AssemblyManagerView>,
    pub assemblies: Seq<Seq<char>>,
    pub main_assembly_name: Seq<char>,
    pub main_class_name: Seq<char>,
    pub arguments: Seq<Seq<char>>,
}

impl View for RunJob {
    type V = RunJobView;

    open spec fn view(&self) -> RunJobView {
        RunJobView {
            core: self.core@,
            config_path: self.config_path.deep_view(),
            config_type: self.config_type,
            assembly_manager: manager_view(self.assembly_manager),
            assemblies: self.assemblies.deep_view(),
            main_assembly_name: self.main_assembly_name@,
            main_class_name: self.main_class_name@,
            arguments: self.arguments.deep_view(),
        }
    }
}

impl RunJobView {
    /// The machine of the job. Whether a configuration file was supplied
    /// decides the form; its declared type says how the file is read.
    pub open spec fn vm(self) -> VMView {
        VMView {
            core: self.core,
            config: match self.config_path {
                Some(path) => Some(ServiceConfigurationView { path, format: self.config_type }),
                None => None,
            },
            assembly_manager: if self.config_path is Some {
                self.assembly_manager
            } else {
                None
            },
        }
    }

    /// One decoding for each assembly file, in the order given.
    pub open spec fn decode_steps(self) -> Seq<ActionView> {
        Seq::new(
            self.assemblies.len(),
            |i: int| ActionView::DecodeAssembly { path: self.assemblies[i] },
        )
    }

    /// The calls on the constructed machine that follow the decoding.
    pub open spec fn launch_steps(self) -> Seq<ActionView> {
        seq![
            ActionView::LoadAssemblies { paths: self.assemblies },
            ActionView::LoadStatics,
            ActionView::SpawnContext,
            ActionView::Run {
                assembly: self.main_assembly_name,
                class: self.main_class_name,
                arguments: self.arguments,
            },
        ]
    }

    /// Every call of the pipeline, in the order in which it is made.
    pub open spec fn script(self) -> Seq<ActionView> {
        self.vm().construction() + self.decode_steps() + self.launch_steps()
    }

    /// The place in the script of the first call that follows the
    /// construction of the machine.
    pub open spec fn constructed_at(self) -> int {
        self.vm().construction().len() as int
    }

    /// The place in the script of the call that loads the decoded
    /// assemblies.
    pub open spec fn loaded_at(self) -> int {
        self.constructed_at() + self.assemblies.len()
    }
}

/// A run job under way.
pub struct RunPipeline {
    walk: Pipeline,
}

impl View for RunPipeline {
    type V = Progress;

    closed spec fn view(&self) -> Progress {
        self.walk@
    }
}

impl RunPipeline {
    /// The pipeline of `job`, with nothing done yet.
    pub fn new(job: &RunJob) -> (pipeline: Self)
        ensures
            pipeline@ == Progress::start(job@.script()),
    {
        let vm = match &job.config_path {
            None => VM::new(job.core.as_str()),
            Some(path) => {
                let config = ServiceConfiguration::new(path.as_str(), job.config_type);
                match &job.assembly_manager {
                    None => VM::with_config(job.core.as_str(), config),
                    Some(manager) => VM::with_config_assembly_manager(
                        job.core.as_str(),
                        config,
                        manager.duplicate(),
                    ),
                }
            },
        };
        assert(vm@ == job@.vm());
        let mut script: Vec<Action> = Vec::new();
        assert(views(script@) =~= Seq::<ActionView>::empty());
        vm.plan(&mut script);
        let ghost built = job@.vm().construction();
        assert(views(script@) =~= built);
        let mut i: usize = 0;
        while i < job.assemblies.len()
            invariant
                i <= job.assemblies.len(),
                views(script@) == built + job@.decode_steps().take(i as int),
            decreases job.assemblies.len() - i,
        {
            let decode = Action::DecodeAssembly { path: job.assemblies[i].clone() };
            proof {
                lemma_views_push(script@, decode);
                assert(job@.decode_steps().take(i + 1) =~= job@.decode_steps().take(i as int).push(
                    decode@,
                ));
            }
            script.push(decode);
            i += 1;
        }
        assert(job@.decode_steps().take(i as int) =~= job@.decode_steps());
        let load = Action::LoadAssemblies { paths: duplicate_all(&job.assemblies) };
        let run = Action::Run {
            assembly: job.main_assembly_name.clone(),
            class: job.main_class_name.clone(),
            arguments: duplicate_all(&job.arguments),
        };
        proof {
            lemma_views_push(script@, load);
            lemma_views_push(script@.push(load), Action::LoadStatics);
            lemma_views_push(script@.push(load).push(Action::LoadStatics), Action::SpawnContext);
            lemma_views_push(
                script@.push(load).push(Action::LoadStatics).push(Action::SpawnContext),
                run,
            );
        }
        script.push(load);
        script.push(Action::LoadStatics);
        script.push(Action::SpawnContext);
        script.push(run);
        assert(views(script@) =~= job@.script());
        RunPipeline { walk: Pipeline::new(script) }
    }

    /// What the shell is to do next.
    pub fn pending(&self) -> (step: Step)
        ensures
            self@.wf(),
            step@ == self@.pending(),
    {
        self.walk.pending()
    }

    /// Whether the pipeline has ended.
    pub fn finished(&self) -> (yes: bool)
        ensures
            yes == (self@.ending is Some),
    {
        self.walk.finished()
    }
}

/// Takes the outcome of the call that the pipeline asked for last and says
/// which call comes next, or how the job ended.
pub fn handle(pipeline: &mut RunPipeline, event: Event) -> (next: Step)
    ensures
        final(pipeline)@ == old(pipeline)@.step(event@),
        final(pipeline)@.wf(),
        next@ == final(pipeline)@.pending(),
{
    pipeline.walk.step(event)
}

/// The order of a run job. Construction comes first and makes no call on
/// the machine; then every assembly is decoded, in the order given; then
/// all of them are loaded in one call, the statics are initialized, an
/// execution context is spawned and the entry class is run, which is the
/// last call of all and the only one that yields a status.
pub proof fn lemma_run_order(job: RunJobView)
    ensures
        ({
            let script = job.script();
            let base = job.constructed_at();
            let loaded = job.loaded_at();
            &&& script.len() == loaded + 4
            &&& script.subrange(0, base) == job.vm().construction()
            &&& forall|i: int| 0 <= i < base ==> !(#[trigger] script[i]).on_capability()
            &&& forall|i: int|
                0 <= i < job.assemblies.len() ==> #[trigger] script[base + i] == (
                ActionView::DecodeAssembly { path: job.assemblies[i] })
            &&& script[loaded] == (ActionView::LoadAssemblies { paths: job.assemblies })
            &&& script[loaded + 1] == ActionView::LoadStatics
            &&& script[loaded + 2] == ActionView::SpawnContext
            &&& script[loaded + 3] == (ActionView::Run {
                assembly: job.main_assembly_name,
                class: job.main_class_name,
                arguments: job.arguments,
            })
            &&& forall|i: int|
                0 <= i < script.len() ==> ((#[trigger] script[i]).yields_status() <==> i == loaded
                    + 3)
            &&& forall|i: int|
                0 <= i < script.len() ==> ((#[trigger] script[i]) is LoadStatics <==> i == loaded
                    + 1)
        }),
{
    let script = job.script();
    let base = job.constructed_at();
    assert(script.subrange(0, base) =~= job.vm().construction());
}

/// A configuration is made ready before any module is touched, and a job
/// without one starts at the module of the machine.
pub proof fn lemma_run_configuration_first(job: RunJobView)
    ensures
        job.script()[0] == match job.config_path {
            Some(path) => ActionView::ReadConfig {
                config: ServiceConfigurationView { path, format: job.config_type },
            },
            None => ActionView::LoadModule { path: job.core },
        },
        forall|i: int|
            1 <= i < job.script().len() ==> !((#[trigger] job.script()[i]) is ReadConfig),
{
}

/// Statics are never initialized before the assemblies are loaded. Whenever
/// the pipeline asks for static initialization, the call before it was the
/// batch load of the job's assemblies, and that call returned normally.
pub proof fn lemma_statics_follow_assemblies(job: RunJobView, events: Seq<EventView>, count: int)
    requires
        0 <= count <= events.len(),
        Progress::start(job.script()).after(events.take(count)).pending() == StepView::Perform(
            ActionView::LoadStatics,
        ),
    ensures
        count == job.loaded_at() + 1,
        job.script()[count - 1] == (ActionView::LoadAssemblies { paths: job.assemblies }),
        events[count - 1] == EventView::Done,
{
    lemma_run_order(job);
    lemma_steps_follow_script(job.script(), events, count);
    let reached = Progress::start(job.script()).after(events.take(count));
    assert(reached.ending is None);
    assert(job.script()[count] is LoadStatics);
    assert(events[count - 1].fulfils(job.script()[count - 1]));
}

/// The program's status is the launcher's. Where every call before the run
/// returned normally, a program that exits with `status` ends the job with
/// that status, which reaches the operating system reduced to eight bits;
/// an execution context that fails ends the job with `Run` and the fatal
/// exit status instead, which is an ending of another shape than any
/// status that a program reports.
pub proof fn lemma_exit_status(job: RunJobView, events: Seq<EventView>)
    requires
        events.len() >= job.script().len(),
        forall|i: int| 0 <= i < job.script().len() - 1 ==> events[i] == EventView::Done,
    ensures
        ({
            let ended = Progress::start(job.script()).after(events).ending;
            match events[job.script().len() - 1] {
                EventView::Exited(status) => {
                    &&& ended == Some(CompletionView::Exited(status))
                    &&& ended->0.exit_code() == status % 256
                    &&& status < 256 ==> ended->0.exit_code() == status
                },
                EventView::Failed(reason) => {
                    &&& ended == Some(
                        CompletionView::Fatal(
                            LaunchErrorView { kind: ErrorKind::Run, detail: reason },
                        ),
                    )
                    &&& ended->0.exit_code() == FATAL_EXIT_CODE
                    &&& ended->0.exit_code() != 0
                    &&& !(ended->0 is Exited)
                },
                EventView::Done => ended matches Some(CompletionView::Fatal(error)) && error.kind
                    == ErrorKind::Protocol,
            }
        }),
{
    lemma_run_order(job);
    lemma_status_ends_pipeline(job.script(), events, job.script().len() - 1);
}

} // verus!
