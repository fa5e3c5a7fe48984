use purelang_launcher::action::Action;
use purelang_launcher::action::Completion;
use purelang_launcher::action::Event;
use purelang_launcher::action::Step;
use purelang_launcher::config::ServiceConfiguration;
use purelang_launcher::error::ErrorKind;
use purelang_launcher::error::LaunchError;
use purelang_launcher::run::handle;
use purelang_launcher::run::AssemblyManager;
use purelang_launcher::run::RunJob;
use purelang_launcher::run::RunPipeline;
use purelang_launcher::run::VM;
use purelang_launcher::service::EntryPoint;
use purelang_launcher::ConfigType;

/// What the execution context of the fake machine does when it is run.
enum Program {
    Exits(u64),
    Traps(&'static str),
}

/// A virtual machine that records every call made on it and fails the
/// calls it was told to fail.
struct FakeVm {
    calls: Vec<String>,
    failing: Vec<String>,
    program: Program,
}

impl FakeVm {
    fn new(program: Program, failing: &[&str]) -> Self {
        FakeVm {
            calls: Vec::new(),
            failing: failing.iter().map(|s| s.to_string()).collect(),
            program,
        }
    }

    fn call(&mut self, call: String) -> Event {
        let failed = self.failing.contains(&call);
        self.calls.push(call.clone());
        if failed {
            Event::Failed(format!("{call} failed"))
        } else {
            Event::Done
        }
    }

    fn perform(&mut self, action: &Action) -> Event {
        match action {
            Action::ReadConfig { config } => {
                self.call(format!("read({}, {})", config.path, config.format.as_str()))
            }
            Action::LoadModule { path } => self.call(format!("open({path})")),
            Action::Resolve { entry, .. } => self.call(format!("resolve({})", entry.name())),
            Action::Invoke { .. } => self.call("construct".to_string()),
            Action::DecodeAssembly { path } => self.call(format!("decode({path})")),
            Action::LoadAssemblies { paths } => {
                self.call(format!("load_from_binary_assemblies([{}])", paths.join(",")))
            }
            Action::LoadStatics => self.call("load_statics()".to_string()),
            Action::SpawnContext => self.call("new_cpu()".to_string()),
            Action::Run { assembly, class, arguments } => {
                let quoted: Vec<String> = arguments.iter().map(|a| format!("\"{a}\"")).collect();
                let call = format!("run(\"{assembly}\",\"{class}\",[{}])", quoted.join(","));
                self.calls.push(call);
                match &self.program {
                    Program::Exits(status) => Event::Exited(*status),
                    Program::Traps(words) => Event::Failed(words.to_string()),
                }
            }
            other => panic!("not a call of the run pipeline: {other:?}"),
        }
    }

    /// The calls on the machine itself, without those that load its module.
    fn machine_calls(&self) -> Vec<String> {
        self.calls
            .iter()
            .filter(|call| !call.starts_with("open(") && !call.starts_with("resolve("))
            .cloned()
            .collect()
    }
}

fn drive(job: &RunJob, vm: &mut FakeVm) -> (Vec<Action>, Completion) {
    let mut pipeline = RunPipeline::new(job);
    let mut asked = Vec::new();
    let mut step = pipeline.pending();
    loop {
        match step {
            Step::Finish(completion) => {
                assert!(pipeline.finished());
                return (asked, completion);
            }
            Step::Perform(action) => {
                let event = vm.perform(&action);
                asked.push(action);
                step = handle(&mut pipeline, event);
            }
        }
    }
}

fn strings(items: &[&str]) -> Vec<String> {
    items.iter().map(|s| s.to_string()).collect()
}

fn job(assemblies: &[&str]) -> RunJob {
    RunJob {
        core: "Native/Runtime".to_string(),
        config_path: None,
        config_type: ConfigType::Json,
        assembly_manager: None,
        assemblies: strings(assemblies),
        main_assembly_name: "App".to_string(),
        main_class_name: "Main".to_string(),
        arguments: strings(&["--flag"]),
    }
}

fn fatal(kind: ErrorKind, detail: &str) -> Completion {
    Completion::Fatal(LaunchError::new(kind, detail.to_string()))
}

#[test]
fn run_job_calls_the_machine_in_order() {
    let job = job(&["M1", "M2"]);
    let mut vm = FakeVm::new(Program::Exits(0), &[]);
    let (asked, completion) = drive(&job, &mut vm);
    assert_eq!(completion, Completion::Exited(0));
    assert_eq!(
        vm.machine_calls(),
        strings(&[
            "construct",
            "decode(M1)",
            "decode(M2)",
            "load_from_binary_assemblies([M1,M2])",
            "load_statics()",
            "new_cpu()",
            "run(\"App\",\"Main\",[\"--flag\"])",
        ])
    );
    assert_eq!(
        asked,
        vec![
            Action::LoadModule { path: "Native/Runtime".to_string() },
            Action::Resolve { path: "Native/Runtime".to_string(), entry: EntryPoint::NewVM },
            Action::Invoke { entry: EntryPoint::NewVM },
            Action::DecodeAssembly { path: "M1".to_string() },
            Action::DecodeAssembly { path: "M2".to_string() },
            Action::LoadAssemblies { paths: strings(&["M1", "M2"]) },
            Action::LoadStatics,
            Action::SpawnContext,
            Action::Run {
                assembly: "App".to_string(),
                class: "Main".to_string(),
                arguments: strings(&["--flag"]),
            },
        ]
    );
}

#[test]
fn statics_are_initialized_after_the_assemblies_are_loaded() {
    let job = job(&["M1", "M2"]);
    let mut vm = FakeVm::new(Program::Exits(0), &[]);
    drive(&job, &mut vm);
    let loaded = vm.calls.iter().position(|c| c.starts_with("load_from_binary_assemblies"));
    let statics = vm.calls.iter().position(|c| c == "load_statics()");
    assert!(loaded.unwrap() < statics.unwrap());
    assert_eq!(vm.calls.iter().filter(|c| c.as_str() == "load_statics()").count(), 1);
}

#[test]
fn a_program_status_becomes_the_exit_code() {
    let job = job(&["M1"]);
    let mut vm = FakeVm::new(Program::Exits(42), &[]);
    let (_, completion) = drive(&job, &mut vm);
    assert_eq!(completion, Completion::Exited(42));
    assert_eq!(completion.exit_code(), 42);
    assert!(!completion.is_fatal());
}

#[test]
fn a_run_error_is_fatal_and_not_a_status() {
    let job = job(&["M1"]);
    let mut vm = FakeVm::new(Program::Traps("stack overflow in Main"), &[]);
    let (_, completion) = drive(&job, &mut vm);
    assert_eq!(completion, fatal(ErrorKind::Run, "stack overflow in Main"));
    assert!(completion.is_fatal());
    assert_ne!(completion.exit_code(), 0);
    assert_ne!(completion.exit_code(), 42);
    assert_ne!(completion, Completion::Exited(42));
    assert_ne!(completion, Completion::Exited(completion.exit_code() as u64));
}

#[test]
fn a_large_program_status_is_reduced_to_eight_bits() {
    let job = job(&[]);
    let mut vm = FakeVm::new(Program::Exits(0x1_0000_002a), &[]);
    let (_, completion) = drive(&job, &mut vm);
    assert_eq!(completion, Completion::Exited(0x1_0000_002a));
    assert_eq!(completion.exit_code(), 42);
}

#[test]
fn a_job_without_assemblies_loads_an_empty_batch() {
    let job = job(&[]);
    let mut vm = FakeVm::new(Program::Exits(7), &[]);
    let (asked, completion) = drive(&job, &mut vm);
    assert_eq!(completion, Completion::Exited(7));
    assert_eq!(asked.len(), 7);
    assert_eq!(asked[3], Action::LoadAssemblies { paths: Vec::new() });
    assert_eq!(
        vm.machine_calls(),
        strings(&[
            "construct",
            "load_from_binary_assemblies([])",
            "load_statics()",
            "new_cpu()",
            "run(\"App\",\"Main\",[\"--flag\"])",
        ])
    );
}

#[test]
fn an_undecodable_assembly_stops_the_job() {
    let job = job(&["M1", "M2", "M3"]);
    let mut vm = FakeVm::new(Program::Exits(0), &["decode(M2)"]);
    let (_, completion) = drive(&job, &mut vm);
    assert_eq!(completion, fatal(ErrorKind::AssemblyDecode, "decode(M2) failed"));
    assert_eq!(vm.machine_calls(), strings(&["construct", "decode(M1)", "decode(M2)"]));
}

#[test]
fn a_rejected_batch_stops_the_job_before_the_statics() {
    let job = job(&["M1"]);
    let mut vm = FakeVm::new(Program::Exits(0), &["load_from_binary_assemblies([M1])"]);
    let (_, completion) = drive(&job, &mut vm);
    assert_eq!(
        completion,
        fatal(ErrorKind::AssemblyLoad, "load_from_binary_assemblies([M1]) failed")
    );
    assert!(!vm.calls.contains(&"load_statics()".to_string()));
    assert!(!vm.calls.iter().any(|c| c.starts_with("run(")));
}

#[test]
fn failing_statics_stop_the_job_before_the_context() {
    let job = job(&["M1"]);
    let mut vm = FakeVm::new(Program::Exits(0), &["load_statics()"]);
    let (_, completion) = drive(&job, &mut vm);
    assert_eq!(completion, fatal(ErrorKind::StaticInit, "load_statics() failed"));
    assert!(!vm.calls.contains(&"new_cpu()".to_string()));
}

#[test]
fn a_failing_spawn_stops_the_job_before_the_run() {
    let job = job(&["M1"]);
    let mut vm = FakeVm::new(Program::Exits(0), &["new_cpu()"]);
    let (_, completion) = drive(&job, &mut vm);
    assert_eq!(completion, fatal(ErrorKind::ContextSpawn, "new_cpu() failed"));
    assert!(!vm.calls.iter().any(|c| c.starts_with("run(")));
}

#[test]
fn a_failing_machine_constructor_stops_the_job() {
    let job = job(&["M1"]);
    let mut vm = FakeVm::new(Program::Exits(0), &["construct"]);
    let (_, completion) = drive(&job, &mut vm);
    assert_eq!(completion, fatal(ErrorKind::Construct, "construct failed"));
    assert_eq!(vm.machine_calls(), strings(&["construct"]));
}

#[test]
fn a_missing_runtime_module_is_a_load_error() {
    let job = job(&["M1"]);
    let mut vm = FakeVm::new(Program::Exits(0), &["open(Native/Runtime)"]);
    let (asked, completion) = drive(&job, &mut vm);
    assert_eq!(completion, fatal(ErrorKind::Load, "open(Native/Runtime) failed"));
    assert_eq!(asked.len(), 1);
    assert!(vm.machine_calls().is_empty());
}

#[test]
fn an_absent_machine_entry_point_is_never_invoked() {
    let job = job(&["M1"]);
    let mut vm = FakeVm::new(Program::Exits(0), &["resolve(NewVM)"]);
    let (asked, completion) = drive(&job, &mut vm);
    assert_eq!(completion, fatal(ErrorKind::SymbolNotFound, "resolve(NewVM) failed"));
    assert_eq!(asked.len(), 2);
    assert!(vm.machine_calls().is_empty());
}

#[test]
fn a_configured_machine_reads_its_configuration_first() {
    let mut job = job(&["M1"]);
    job.config_path = Some("vm.json".to_string());
    let mut vm = FakeVm::new(Program::Exits(0), &[]);
    let (asked, completion) = drive(&job, &mut vm);
    assert_eq!(completion, Completion::Exited(0));
    assert_eq!(
        vm.calls[..4],
        strings(&[
            "read(vm.json, JSON)",
            "open(Native/Runtime)",
            "resolve(NewVMWithConfig)",
            "construct",
        ])[..]
    );
    assert_eq!(asked[3], Action::Invoke { entry: EntryPoint::NewVMWithConfig });
}

#[test]
fn a_malformed_machine_configuration_stops_the_job_before_any_module() {
    let mut job = job(&["M1"]);
    job.config_path = Some("vm.json".to_string());
    let mut vm = FakeVm::new(Program::Exits(0), &["read(vm.json, JSON)"]);
    let (_, completion) = drive(&job, &mut vm);
    assert_eq!(completion, fatal(ErrorKind::ConfigParse, "read(vm.json, JSON) failed"));
    assert_eq!(vm.calls, strings(&["read(vm.json, JSON)"]));
}

#[test]
fn a_machine_with_an_assembly_manager_constructs_the_manager_first() {
    let mut job = job(&[]);
    job.config_path = Some("vm.json".to_string());
    job.assembly_manager = Some(AssemblyManager::new("Native/Assemblies"));
    let mut vm = FakeVm::new(Program::Exits(0), &[]);
    let (asked, completion) = drive(&job, &mut vm);
    assert_eq!(completion, Completion::Exited(0));
    assert_eq!(
        asked[..7],
        [
            Action::ReadConfig { config: ServiceConfiguration::new("vm.json", ConfigType::Json) },
            Action::LoadModule { path: "Native/Assemblies".to_string() },
            Action::Resolve {
                path: "Native/Assemblies".to_string(),
                entry: EntryPoint::NewAssemblyManager,
            },
            Action::Invoke { entry: EntryPoint::NewAssemblyManager },
            Action::LoadModule { path: "Native/Runtime".to_string() },
            Action::Resolve {
                path: "Native/Runtime".to_string(),
                entry: EntryPoint::NewVMWithConfigAssemblyManager,
            },
            Action::Invoke { entry: EntryPoint::NewVMWithConfigAssemblyManager },
        ]
    );
}

#[test]
fn an_assembly_manager_without_a_configuration_is_not_used() {
    let mut job = job(&[]);
    job.assembly_manager = Some(AssemblyManager::new("Native/Assemblies"));
    let mut vm = FakeVm::new(Program::Exits(0), &[]);
    let (asked, _) = drive(&job, &mut vm);
    assert_eq!(asked[0], Action::LoadModule { path: "Native/Runtime".to_string() });
    assert_eq!(asked[2], Action::Invoke { entry: EntryPoint::NewVM });
    assert!(!vm.calls.contains(&"open(Native/Assemblies)".to_string()));
}

#[test]
fn a_plain_completion_is_no_answer_to_a_run() {
    let job = job(&[]);
    let mut pipeline = RunPipeline::new(&job);
    for _ in 0..6 {
        assert!(matches!(handle(&mut pipeline, Event::Done), Step::Perform(_)));
    }
    assert!(matches!(pipeline.pending(), Step::Perform(Action::Run { .. })));
    let step = handle(&mut pipeline, Event::Done);
    assert_eq!(step, Step::Finish(fatal(ErrorKind::Protocol, "")));
}

#[test]
fn a_status_is_no_answer_before_the_run() {
    let job = job(&["M1"]);
    let mut pipeline = RunPipeline::new(&job);
    let step = handle(&mut pipeline, Event::Exited(42));
    assert_eq!(step, Step::Finish(fatal(ErrorKind::Protocol, "")));
    assert_ne!(step, Step::Finish(Completion::Exited(42)));
}

#[test]
fn an_ended_run_job_stays_ended() {
    let job = job(&[]);
    let mut vm = FakeVm::new(Program::Exits(42), &[]);
    let mut pipeline = RunPipeline::new(&job);
    let mut step = pipeline.pending();
    while let Step::Perform(action) = step {
        step = handle(&mut pipeline, vm.perform(&action));
    }
    assert_eq!(step, Step::Finish(Completion::Exited(42)));
    assert_eq!(handle(&mut pipeline, Event::Exited(1)), step);
    assert_eq!(handle(&mut pipeline, Event::Failed("late".to_string())), step);
    assert_eq!(handle(&mut pipeline, Event::Done), step);
    assert_eq!(vm.calls.iter().filter(|c| c.starts_with("run(")).count(), 1);
}

#[test]
fn the_machine_binds_the_form_that_fits_what_it_is_given() {
    let config = ServiceConfiguration::new("vm.json", ConfigType::Json);
    let manager = AssemblyManager::new("Native/Assemblies");
    assert_eq!(VM::new("Native/Runtime").entry(), EntryPoint::NewVM);
    assert_eq!(
        VM::with_config("Native/Runtime", config.duplicate()).entry(),
        EntryPoint::NewVMWithConfig
    );
    assert_eq!(
        VM::with_config_assembly_manager("Native/Runtime", config, manager).entry(),
        EntryPoint::NewVMWithConfigAssemblyManager
    );
}

#[test]
fn the_machine_plans_its_construction() {
    let mut script = Vec::new();
    VM::new("Native/Runtime").plan(&mut script);
    assert_eq!(
        script,
        vec![
            Action::LoadModule { path: "Native/Runtime".to_string() },
            Action::Resolve { path: "Native/Runtime".to_string(), entry: EntryPoint::NewVM },
            Action::Invoke { entry: EntryPoint::NewVM },
        ]
    );
}

#[test]
fn an_assembly_manager_plans_its_construction() {
    let manager = AssemblyManager::new("Native/Assemblies");
    assert_eq!(manager.duplicate(), manager);
    let mut script = Vec::new();
    manager.plan(&mut script);
    assert_eq!(
        script,
        vec![
            Action::LoadModule { path: "Native/Assemblies".to_string() },
            Action::Resolve {
                path: "Native/Assemblies".to_string(),
                entry: EntryPoint::NewAssemblyManager,
            },
            Action::Invoke { entry: EntryPoint::NewAssemblyManager },
        ]
    );
}

#[test]
fn run_actions_know_the_error_that_their_failure_is() {
    assert_eq!(
        Action::DecodeAssembly { path: "M1".to_string() }.failure_kind(),
        ErrorKind::AssemblyDecode
    );
    assert_eq!(
        Action::LoadAssemblies { paths: Vec::new() }.failure_kind(),
        ErrorKind::AssemblyLoad
    );
    assert_eq!(Action::LoadStatics.failure_kind(), ErrorKind::StaticInit);
    assert_eq!(Action::SpawnContext.failure_kind(), ErrorKind::ContextSpawn);
    let run = Action::Run {
        assembly: "App".to_string(),
        class: "Main".to_string(),
        arguments: Vec::new(),
    };
    assert_eq!(run.failure_kind(), ErrorKind::Run);
    assert!(run.yields_status());
    assert!(!Action::LoadStatics.yields_status());
}
