//! The compile pipeline: construct the compile service, register the
//! compiler plugins, add the sources, compile once.

use crate::action::Action;
use crate::action::ActionView;
use crate::action::CompletionView;
use crate::action::Event;
use crate::action::EventView;
use crate::action::Step;
use crate::binding::configuration_steps;
use crate::binding::configuration_view;
use crate::binding::construction;
use crate::binding::lemma_views_push;
use crate::binding::push_configuration;
use crate::binding::push_construction;
use crate::config::ConfigType;
use crate::config::ServiceConfiguration;
use crate::config::ServiceConfigurationView;
use crate::error::ErrorKind;
use crate::pipeline::lemma_fail_fast;
use crate::pipeline::lemma_fulfilled_script_succeeds;
use crate::pipeline::views;
use crate::pipeline::Pipeline;
use crate::pipeline::Progress;
use crate::service::EntryPoint;
use vstd::prelude::*;

verus! {

/// The compile service as the launcher binds it: the module that exports
/// it and the configuration, if any, that it is constructed with.
pub struct CompileService {
    core: String,
    config: Option<ServiceConfiguration>,
}

/// The mathematical value of a [`CompileService`].
pub struct CompileServiceView {
    pub core: Seq<char>,
    pub config: Option<ServiceConfigurationView>,
}

impl CompileServiceView {
    /// The entry point that constructs the service: the form that takes a
    /// configuration exactly where one was supplied.
    pub open spec fn entry(self) -> EntryPoint {
        if self.config is Some {
            EntryPoint::NewCompileServiceWithConfig
        } else {
            EntryPoint::NewCompileService
        }
    }

    /// The steps that construct the service.
    pub open spec fn construction(self) -> Seq<ActionView> {
        configuration_steps(self.config) + construction(self.core, self.entry())
    }
}

impl View for CompileService {
    type V = CompileServiceView;

    closed spec fn view(&self) -> CompileServiceView {
        CompileServiceView { core: self.core@, config: configuration_view(self.config) }
    }
}

impl CompileService {
    /// Binds the service that the module at `p` constructs without
    /// arguments.
    pub fn new(p: &str) -> (service: Self)
        ensures
            service@ == (CompileServiceView { core: p@, config: None }),
    {
        CompileService { core: p.to_owned(), config: None }
    }

    /// Binds the service that the module at `p` constructs from `config`.
    pub fn with_config(p: &str, config: ServiceConfiguration) -> (service: Self)
        ensures
            service@ == (CompileServiceView { core: p@, config: Some(config@) }),
    {
        CompileService { core: p.to_owned(), config: Some(config) }
    }

    pub fn entry(&self) -> (entry: EntryPoint)
        ensures
            entry == self@.entry(),
    {
        if self.config.is_some() {
            EntryPoint::NewCompileServiceWithConfig
        } else {
            EntryPoint::NewCompileService
        }
    }

    /// Appends the steps that construct the service to `script`.
    pub fn plan(&self, script: &mut Vec<Action>)
        ensures
            views(final(script)@) == views(old(script)@) + self@.construction(),
    {
        let ghost before = views(script@);
        push_configuration(script, &self.config);
        push_construction(script, self.core.as_str(), self.entry());
        assert(views(script@) =~= before + self@.construction());
    }
}

/// What is to be compiled, and with what.
#[derive(Clone, Debug, PartialEq, Eq)]
pub struct CompileJob {
    /// The path of the module that exports the compile service.
    pub core: String,
    /// The configuration file of the compile service, if it has one.
    pub config_path: Option<String>,
    /// Compiler plugins, in the order in which they are registered. A later
    /// plugin may take precedence over an earlier one.
    pub compilers: Vec<String>,
    /// Source files, in the order in which they are added.
    pub sources: Vec<String>,
}

/// The mathematical value of a [`CompileJob`].
pub struct CompileJobView {
    pub core: Seq<char>,
    pub config_path: Option<Seq<char>>,
    pub compilers: Seq<Seq<char>>,
    pub sources: Seq<Seq<char>>,
}

impl View for CompileJob {
    type V = CompileJobView;

    open spec fn view(&self) -> CompileJobView {
        CompileJobView {
            core: self.core@,
            config_path: self.config_path.deep_view(),
            compilers: self.compilers.deep_view(),
            sources: self.sources.deep_view(),
        }
    }
}

impl CompileJobView {
    /// The service of the job. Its configuration, where a file was
    /// supplied, is that file read as JSON.
    pub open spec fn service(self) -> CompileServiceView {
        CompileServiceView {
            core: self.core,
            config: match self.config_path {
                Some(path) => Some(ServiceConfigurationView { path, format: ConfigType::Json }),
                None => None,
            },
        }
    }

    /// One registration for each compiler plugin, in the order given.
    pub open spec fn plugin_steps(self) -> Seq<ActionView> {
        Seq::new(self.compilers.len(), |i: int| ActionView::LoadPlugin { path: self.compilers[i] })
    }

    /// One addition for each source, in the order given.
    pub open spec fn source_steps(self) -> Seq<ActionView> {
        Seq::new(self.sources.len(), |i: int| ActionView::AddSource { path: self.sources[i] })
    }

    /// Every call of the pipeline, in the order in which it is made.
    pub open spec fn script(self) -> Seq<ActionView> {
        self.service().construction() + self.plugin_steps() + self.source_steps()
            + seq![ActionView::Compile]
    }

    /// The place in the script of the first call on the constructed
    /// service.
    pub open spec fn constructed_at(self) -> int {
        self.service().construction().len() as int
    }
}

/// A compile job under way.
pub struct CompilePipeline {
    walk: Pipeline,
}

impl View for CompilePipeline {
    type V = Progress;

    closed spec fn view(&self) -> Progress {
        self.walk@
    }
}

impl CompilePipeline {
    /// The pipeline of `job`, with nothing done yet.
    pub fn new(job: &CompileJob) -> (pipeline: Self)
        ensures
            pipeline@ == Progress::start(job@.script()),
    {
        let service = match &job.config_path {
            Some(path) => CompileService::with_config(
                job.core.as_str(),
                ServiceConfiguration::new(path.as_str(), ConfigType::Json),
            ),
            None => CompileService::new(job.core.as_str()),
        };
        let mut script: Vec<Action> = Vec::new();
        assert(views(script@) =~= Seq::<ActionView>::empty());
        service.plan(&mut script);
        let ghost built = job@.service().construction();
        assert(views(script@) =~= built);
        let mut i: usize = 0;
        while i < job.compilers.len()
            invariant
                i <= job.compilers.len(),
                views(script@) == built + job@.plugin_steps().take(i as int),
            decreases job.compilers.len() - i,
        {
            let load = Action::LoadPlugin { path: job.compilers[i].clone() };
            proof {
                lemma_views_push(script@, load);
                assert(job@.plugin_steps().take(i + 1) =~= job@.plugin_steps().take(i as int).push(
                    load@,
                ));
            }
            script.push(load);
            i += 1;
        }
        assert(job@.plugin_steps().take(i as int) =~= job@.plugin_steps());
        let mut k: usize = 0;
        while k < job.sources.len()
            invariant
                k <= job.sources.len(),
                views(script@) == built + job@.plugin_steps() + job@.source_steps().take(k as int),
            decreases job.sources.len() - k,
        {
            let add = Action::AddSource { path: job.sources[k].clone() };
            proof {
                lemma_views_push(script@, add);
                assert(job@.source_steps().take(k + 1) =~= job@.source_steps().take(k as int).push(
                    add@,
                ));
            }
            script.push(add);
            k += 1;
        }
        assert(job@.source_steps().take(k as int) =~= job@.source_steps());
        proof {
            lemma_views_push(script@, Action::Compile);
        }
        script.push(Action::Compile);
        assert(views(script@) =~= job@.script());
        CompilePipeline { walk: Pipeline::new(script) }
    }

    /// What the shell is to do next.
    pub fn pending(&self) -> (step: Step)
        ensures
            self@.wf(),
            step@ == self@.pending(),
    {
        self.walk.pending()
    }

    /// Whether the pipeline has ended.
    pub fn finished(&self) -> (yes: bool)
        ensures
            yes == (self@.ending is Some),
    {
        self.walk.finished()
    }
}

/// Takes the outcome of the call that the pipeline asked for last and says
/// which call comes next, or how the job ended.
pub fn handle(pipeline: &mut CompilePipeline, event: Event) -> (next: Step)
    ensures
        final(pipeline)@ == old(pipeline)@.step(event@),
        final(pipeline)@.wf(),
        next@ == final(pipeline)@.pending(),
{
    pipeline.walk.step(event)
}

/// The order of a compile job. Construction comes first and makes no call
/// on the service; then every plugin is registered, in the order given;
/// then every source is added, in the order given; then the pending set is
/// compiled, once, as the last call of all.
pub proof fn lemma_compile_order(job: CompileJobView)
    ensures
        ({
            let script = job.script();
            let base = job.constructed_at();
            let plugins = job.compilers.len() as int;
            let sources = job.sources.len() as int;
            &&& script.len() == base + plugins + sources + 1
            &&& script.subrange(0, base) == job.service().construction()
            &&& forall|i: int| 0 <= i < base ==> !(#[trigger] script[i]).on_capability()
            &&& forall|i: int|
                0 <= i < plugins ==> #[trigger] script[base + i] == (ActionView::LoadPlugin {
                    path: job.compilers[i],
                })
            &&& forall|i: int|
                0 <= i < sources ==> #[trigger] script[base + plugins + i] == (
                ActionView::AddSource { path: job.sources[i] })
            &&& forall|i: int|
                0 <= i < script.len() ==> ((#[trigger] script[i]) is Compile <==> i == base + plugins
                    + sources)
            &&& forall|i: int| 0 <= i < script.len() ==> !(#[trigger] script[i]).yields_status()
        }),
{
    let script = job.script();
    let base = job.constructed_at();
    assert(script.subrange(0, base) =~= job.service().construction());
}

/// A configuration is made ready before any module is touched, and a job
/// without one starts at the module.
pub proof fn lemma_compile_configuration_first(job: CompileJobView)
    ensures
        job.script()[0] == match job.config_path {
            Some(path) => ActionView::ReadConfig {
                config: ServiceConfigurationView { path, format: ConfigType::Json },
            },
            None => ActionView::LoadModule { path: job.core },
        },
        forall|i: int|
            1 <= i < job.script().len() ==> !((#[trigger] job.script()[i]) is ReadConfig),
{
}

/// A plugin that fails to load ends the job. Where the pipeline is running
/// when the outcome of registering plugin `plugin` arrives and that outcome
/// is a failure, the job ends with `PluginLoad` and the collaborator's
/// words. The cursor stays on that plugin: no later plugin is registered,
/// no source is added and nothing is compiled, whatever is reported later.
pub proof fn lemma_plugin_failure_stops_job(
    job: CompileJobView,
    events: Seq<EventView>,
    plugin: int,
    later: int,
)
    requires
        0 <= plugin < job.compilers.len(),
        job.constructed_at() + plugin < later <= events.len(),
        Progress::start(job.script()).after(
            events.take(job.constructed_at() + plugin),
        ).ending is None,
        events[job.constructed_at() + plugin] is Failed,
    ensures
        ({
            let reached = Progress::start(job.script()).after(events.take(later));
            &&& reached.cursor == job.constructed_at() + plugin
            &&& reached.pending() is Finish
            &&& reached.ending matches Some(CompletionView::Fatal(error))
            &&& error.kind == ErrorKind::PluginLoad
            &&& error.detail == events[job.constructed_at() + plugin]->Failed_0
        }),
{
    lemma_compile_order(job);
    lemma_fail_fast(job.script(), events, job.constructed_at() + plugin, later);
}

/// A job whose every call returns normally ends in success, and not before
/// its last call, the compilation, has returned.
pub proof fn lemma_compile_succeeds(job: CompileJobView, events: Seq<EventView>)
    requires
        events.len() >= job.script().len(),
        forall|i: int| 0 <= i < job.script().len() ==> events[i] == EventView::Done,
    ensures
        Progress::start(job.script()).after(events).ending == Some(CompletionView::Success),
        Progress::start(job.script()).after(events).ending->0.exit_code() == 0,
        forall|count: int|
            0 <= count < job.script().len() ==> (#[trigger] Progress::start(job.script()).after(
                events.take(count),
            )).ending is None,
{
    lemma_compile_order(job);
    lemma_fulfilled_script_succeeds(job.script(), events);
}

} // verus!
