use purelang_launcher::action::Completion;
use purelang_launcher::action::FATAL_EXIT_CODE;
use purelang_launcher::config::ServiceConfiguration;
use purelang_launcher::error::ErrorKind;
use purelang_launcher::error::LaunchError;
use purelang_launcher::naming::name_output;
use purelang_launcher::naming::output_path;
use purelang_launcher::service::default_core;
use purelang_launcher::service::Capability;
use purelang_launcher::service::EntryPoint;
use purelang_launcher::service::Ownership;
use purelang_launcher::ConfigType;
use purelang_launcher::Utf8Error;

#[test]
fn config_type_reports_its_name() {
    assert_eq!(ConfigType::Json.as_str(), "JSON");
}

#[test]
fn config_type_is_recognised_by_its_name() {
    assert_eq!(ConfigType::parse("JSON"), Ok(ConfigType::Json));
    assert_eq!(ConfigType::parse(ConfigType::Json.as_str()), Ok(ConfigType::Json));
}

#[test]
fn any_other_config_type_is_a_configuration_error() {
    for name in ["json", "YAML", "", "JSON ", "TOML"] {
        let error = ConfigType::parse(name).unwrap_err();
        assert_eq!(error.kind, ErrorKind::ConfigParse);
        assert_eq!(error.detail, name);
    }
}

#[test]
fn service_configuration_keeps_path_and_format() {
    let config = ServiceConfiguration::new("vm.json", ConfigType::Json);
    assert_eq!(config.path, "vm.json");
    assert_eq!(config.format, ConfigType::Json);
    assert_eq!(config.duplicate(), config);
}

#[test]
fn utf8_error_names_itself() {
    assert_eq!(Utf8Error.as_str(), "Utf8Error");
    assert_eq!(format!("{:?}", Utf8Error), Utf8Error.as_str());
}

#[test]
fn utf8_error_becomes_a_path_encoding_error() {
    let error = LaunchError::path_encoding(Utf8Error);
    assert_eq!(error.kind, ErrorKind::PathEncoding);
    assert_eq!(error.detail, "Utf8Error");
}

#[test]
fn error_kinds_have_distinct_labels() {
    let kinds = [
        (ErrorKind::Load, "LoadError"),
        (ErrorKind::SymbolNotFound, "SymbolNotFoundError"),
        (ErrorKind::ConfigParse, "ConfigParseError"),
        (ErrorKind::PathEncoding, "PathEncodingError"),
        (ErrorKind::Construct, "ConstructError"),
        (ErrorKind::PluginLoad, "PluginLoadError"),
        (ErrorKind::SourceAdd, "SourceAddError"),
        (ErrorKind::Compile, "CompileError"),
        (ErrorKind::AssemblyDecode, "AssemblyDecodeError"),
        (ErrorKind::AssemblyLoad, "AssemblyLoadError"),
        (ErrorKind::StaticInit, "StaticInitError"),
        (ErrorKind::ContextSpawn, "ContextSpawnError"),
        (ErrorKind::Run, "RunError"),
        (ErrorKind::Protocol, "ProtocolError"),
    ];
    for (kind, label) in kinds {
        assert_eq!(kind.as_str(), label);
    }
    for (i, (_, first)) in kinds.iter().enumerate() {
        for (_, second) in kinds.iter().skip(i + 1) {
            assert_ne!(first, second);
        }
    }
}

#[test]
fn launch_error_duplicate_is_equal() {
    let error = LaunchError::new(ErrorKind::Compile, "line 3: unexpected token".to_string());
    assert_eq!(error.kind, ErrorKind::Compile);
    assert_eq!(error.detail, "line 3: unexpected token");
    assert_eq!(error.duplicate(), error);
}

#[test]
fn entry_points_have_their_exported_names() {
    assert_eq!(EntryPoint::NewCompileService.name(), "NewCompileService");
    assert_eq!(EntryPoint::NewCompileServiceWithConfig.name(), "NewCompileServiceWithConfig");
    assert_eq!(EntryPoint::NewVM.name(), "NewVM");
    assert_eq!(EntryPoint::NewVMWithConfig.name(), "NewVMWithConfig");
    assert_eq!(
        EntryPoint::NewVMWithConfigAssemblyManager.name(),
        "NewVMWithConfigAssemblyManager"
    );
    assert_eq!(EntryPoint::NewAssemblyManager.name(), "NewAssemblyManager");
}

#[test]
fn entry_point_names_are_pairwise_distinct() {
    let all = [
        EntryPoint::NewCompileService,
        EntryPoint::NewCompileServiceWithConfig,
        EntryPoint::NewVM,
        EntryPoint::NewVMWithConfig,
        EntryPoint::NewVMWithConfigAssemblyManager,
        EntryPoint::NewAssemblyManager,
    ];
    for (i, first) in all.iter().enumerate() {
        for second in all.iter().skip(i + 1) {
            assert_ne!(first.name(), second.name());
        }
    }
}

#[test]
fn entry_points_construct_their_capabilities() {
    assert_eq!(EntryPoint::NewCompileService.capability(), Capability::CompileService);
    assert_eq!(EntryPoint::NewCompileServiceWithConfig.capability(), Capability::CompileService);
    assert_eq!(EntryPoint::NewVM.capability(), Capability::Vm);
    assert_eq!(EntryPoint::NewVMWithConfig.capability(), Capability::Vm);
    assert_eq!(EntryPoint::NewVMWithConfigAssemblyManager.capability(), Capability::Vm);
    assert_eq!(EntryPoint::NewAssemblyManager.capability(), Capability::AssemblyManager);
}

#[test]
fn entry_points_say_what_they_take() {
    assert!(!EntryPoint::NewCompileService.takes_configuration());
    assert!(EntryPoint::NewCompileServiceWithConfig.takes_configuration());
    assert!(!EntryPoint::NewVM.takes_configuration());
    assert!(EntryPoint::NewVMWithConfig.takes_configuration());
    assert!(EntryPoint::NewVMWithConfigAssemblyManager.takes_configuration());
    assert!(!EntryPoint::NewAssemblyManager.takes_configuration());
    assert!(EntryPoint::NewVMWithConfigAssemblyManager.takes_assembly_manager());
    assert!(!EntryPoint::NewVMWithConfig.takes_assembly_manager());
    assert!(!EntryPoint::NewAssemblyManager.takes_assembly_manager());
}

#[test]
fn only_compile_service_factories_cannot_fail() {
    assert!(!EntryPoint::NewCompileService.fallible());
    assert!(!EntryPoint::NewCompileServiceWithConfig.fallible());
    assert!(EntryPoint::NewVM.fallible());
    assert!(EntryPoint::NewVMWithConfig.fallible());
    assert!(EntryPoint::NewVMWithConfigAssemblyManager.fallible());
    assert!(EntryPoint::NewAssemblyManager.fallible());
}

#[test]
fn the_virtual_machine_is_shared_and_the_rest_exclusive() {
    assert_eq!(Capability::Vm.ownership(), Ownership::Counted);
    assert_eq!(Capability::CompileService.ownership(), Ownership::Exclusive);
    assert_eq!(Capability::AssemblyManager.ownership(), Ownership::Exclusive);
}

#[test]
fn success_exits_with_zero() {
    assert_eq!(Completion::Success.exit_code(), 0);
    assert!(!Completion::Success.is_fatal());
}

#[test]
fn a_program_status_is_the_exit_code() {
    assert_eq!(Completion::Exited(0).exit_code(), 0);
    assert_eq!(Completion::Exited(42).exit_code(), 42);
    assert_eq!(Completion::Exited(255).exit_code(), 255);
    assert!(!Completion::Exited(42).is_fatal());
}

#[test]
fn a_program_status_is_reduced_to_eight_bits() {
    assert_eq!(Completion::Exited(256).exit_code(), 0);
    assert_eq!(Completion::Exited(257).exit_code(), 1);
    assert_eq!(Completion::Exited(511).exit_code(), 255);
    assert_eq!(Completion::Exited(u64::MAX).exit_code(), 255);
}

#[test]
fn a_fatal_error_exits_with_the_fatal_code() {
    let fatal = Completion::Fatal(LaunchError::new(ErrorKind::Run, "trap".to_string()));
    assert_eq!(FATAL_EXIT_CODE, 1);
    assert_eq!(fatal.exit_code(), FATAL_EXIT_CODE);
    assert!(fatal.is_fatal());
    assert_ne!(fatal, Completion::Exited(1));
    assert_eq!(fatal.duplicate(), fatal);
}

#[test]
fn output_path_swaps_the_extension() {
    assert_eq!(output_path("x.pl"), Ok("x.plb".to_string()));
    assert_eq!(output_path("y.pl"), Ok("y.plb".to_string()));
}

#[test]
fn output_path_keeps_the_directory() {
    assert_eq!(output_path("src/main.pl"), Ok("src/main.plb".to_string()));
    assert_eq!(output_path("/abs/dir.d/unit.pl"), Ok("/abs/dir.d/unit.plb".to_string()));
}

#[test]
fn output_path_adds_a_missing_extension() {
    assert_eq!(output_path("unit"), Ok("unit.plb".to_string()));
    assert_eq!(output_path(".hidden"), Ok(".hidden.plb".to_string()));
}

#[test]
fn output_path_replaces_the_last_extension_only() {
    assert_eq!(output_path("a.b.pl"), Ok("a.b.plb".to_string()));
    assert_eq!(output_path("unit.plb"), Ok("unit.plb".to_string()));
}

#[test]
fn output_path_is_a_function_of_its_argument() {
    assert_eq!(output_path("x.pl"), output_path("x.pl"));
    assert_ne!(output_path("x.pl"), Ok("x.pl".to_string()));
}

#[test]
fn name_output_passes_a_path_on() {
    assert_eq!(name_output(Some("x.plb".to_string())), Ok("x.plb".to_string()));
}

#[test]
fn name_output_reports_a_path_that_is_no_text() {
    assert_eq!(name_output(None), Err(Utf8Error));
}

#[test]
fn output_path_leaves_a_path_without_file_name_alone() {
    assert_eq!(output_path(""), Ok("".to_string()));
    assert_eq!(output_path(".."), Ok("..".to_string()));
    assert_eq!(output_path("/"), Ok("/".to_string()));
}

#[test]
fn capabilities_name_their_modules() {
    assert_eq!(Capability::CompileService.module_name(), "CompileService");
    assert_eq!(Capability::Vm.module_name(), "Runtime");
    assert_eq!(Capability::AssemblyManager.module_name(), "Runtime");
}

#[test]
fn default_core_lies_under_the_home_directory() {
    assert_eq!(
        default_core(Some("/opt/purelang"), Capability::CompileService),
        "/opt/purelang/Native/CompileService"
    );
    assert_eq!(default_core(Some("/opt/purelang"), Capability::Vm), "/opt/purelang/Native/Runtime");
    assert_eq!(default_core(Some(""), Capability::Vm), "/Native/Runtime");
}

#[test]
fn default_core_is_a_bare_name_without_a_home() {
    assert_eq!(default_core(None, Capability::CompileService), "CompileService");
    assert_eq!(default_core(None, Capability::Vm), "Runtime");
}
