use dprint::cache::Cache;
use dprint::command::{
    CliArgs, ConfigSubCommand, EditorServiceSubCommand, FmtSubCommand, HiddenSubCommand,
    InstallAction, StdInFmtSubCommand, SubCommand, TargetPlatform,
};
use dprint::dispatch::{clear_cache, collaborators_for, handler_for, run_cli, Handler};

fn args(sub_command: SubCommand) -> CliArgs {
    CliArgs { sub_command, config: None }
}

fn every_command() -> Vec<SubCommand> {
    let install =
        HiddenSubCommand::new(TargetPlatform::Windows, InstallAction::Install, "C:\\dprint".to_string())
            .unwrap();
    let uninstall = HiddenSubCommand::new(
        TargetPlatform::Windows,
        InstallAction::Uninstall,
        "C:\\dprint".to_string(),
    )
    .unwrap();
    vec![
        SubCommand::Help("usage".to_string()),
        SubCommand::License,
        SubCommand::EditorInfo,
        SubCommand::EditorService(EditorServiceSubCommand { parent_pid: 42 }),
        SubCommand::ClearCache,
        SubCommand::Config(ConfigSubCommand::Init),
        SubCommand::Config(ConfigSubCommand::Update),
        SubCommand::Version,
        SubCommand::StdInFmt(StdInFmtSubCommand {
            file_name_or_path: "file.ts".to_string(),
            file_text: "const a = 1;".to_string(),
        }),
        SubCommand::OutputResolvedConfig,
        SubCommand::OutputFilePaths,
        SubCommand::OutputFormatTimes,
        SubCommand::Check,
        SubCommand::Fmt(FmtSubCommand { diff: false }),
        SubCommand::Hidden(install),
        SubCommand::Hidden(uninstall),
    ]
}

const ALL_HANDLERS: [Handler; 16] = [
    Handler::OutputHelp,
    Handler::OutputLicense,
    Handler::OutputEditorInfo,
    Handler::RunEditorService,
    Handler::ClearCache,
    Handler::InitConfigFile,
    Handler::UpdatePluginsConfigFile,
    Handler::OutputVersion,
    Handler::StdInFmt,
    Handler::OutputResolvedConfig,
    Handler::OutputFilePaths,
    Handler::OutputFormatTimes,
    Handler::Check,
    Handler::Format,
    Handler::WindowsInstall,
    Handler::WindowsUninstall,
];

#[test]
fn each_command_invokes_exactly_one_handler() {
    for cmd in every_command() {
        let mut cache = Cache::new();
        let d = run_cli(&args(cmd), &mut cache);
        let mut calls = [0u32; 16];
        for (i, h) in ALL_HANDLERS.iter().enumerate() {
            if *h == d.handler {
                calls[i] += 1;
            }
        }
        assert_eq!(calls.iter().sum::<u32>(), 1);
    }
}

#[test]
fn every_handler_is_reached_by_one_variant() {
    let handlers: Vec<Handler> = every_command().iter().map(handler_for).collect();
    for h in ALL_HANDLERS.iter() {
        assert_eq!(handlers.iter().filter(|x| *x == h).count(), 1);
    }
}

#[test]
fn routing_table_matches_commands() {
    let expected = ALL_HANDLERS;
    for (cmd, h) in every_command().iter().zip(expected.iter()) {
        assert_eq!(handler_for(cmd), *h);
    }
}

#[test]
fn formatting_handlers_share_the_pools() {
    for h in ALL_HANDLERS.iter() {
        let c = collaborators_for(*h);
        let formats = matches!(
            h,
            Handler::RunEditorService
                | Handler::StdInFmt
                | Handler::OutputFormatTimes
                | Handler::Check
                | Handler::Format
        );
        assert_eq!(c.plugin_pools, formats);
    }
    let v = collaborators_for(Handler::OutputVersion);
    assert!(!v.args && !v.cache && !v.plugin_resolver && !v.plugin_pools);
    let help = collaborators_for(Handler::OutputHelp);
    assert!(help.args && help.cache && help.plugin_resolver && !help.plugin_pools);
}

#[test]
fn installer_commands_exist_on_windows_only() {
    let other = HiddenSubCommand::new(TargetPlatform::Other, InstallAction::Install, "/x".to_string());
    assert!(other.is_none());
    let other = HiddenSubCommand::new(TargetPlatform::Other, InstallAction::Uninstall, "/x".to_string());
    assert!(other.is_none());
    let win = HiddenSubCommand::new(TargetPlatform::Windows, InstallAction::Uninstall, "C:\\p".to_string())
        .unwrap();
    assert_eq!(win.action(), InstallAction::Uninstall);
    assert_eq!(win.install_path(), "C:\\p");
    assert_eq!(handler_for(&SubCommand::Hidden(win)), Handler::WindowsUninstall);
}

#[test]
fn clear_cache_empties_a_populated_cache() {
    let mut cache = Cache::new();
    cache.insert(1, "resolved config".to_string());
    cache.insert(2, "plugin metadata".to_string());
    assert_eq!(cache.len(), 2);
    let d = run_cli(&args(SubCommand::ClearCache), &mut cache);
    assert_eq!(d.handler, Handler::ClearCache);
    assert!(!d.collaborators.plugin_pools);
    assert!(cache.is_empty());
    assert_eq!(cache.get(1), None);
}

#[test]
fn other_commands_keep_the_cache() {
    for cmd in every_command() {
        if matches!(cmd, SubCommand::ClearCache) {
            continue;
        }
        let mut cache = Cache::new();
        cache.insert(7, "value".to_string());
        run_cli(&args(cmd), &mut cache);
        assert_eq!(cache.len(), 1);
        assert_eq!(cache.get(7).map(|s| s.as_str()), Some("value"));
    }
}

#[test]
fn cache_insert_replaces_and_clear_empties() {
    let mut cache = Cache::new();
    assert!(cache.is_empty());
    cache.insert(5, "a".to_string());
    cache.insert(5, "b".to_string());
    assert_eq!(cache.len(), 1);
    assert_eq!(cache.get(5).map(|s| s.as_str()), Some("b"));
    assert_eq!(cache.get(6), None);
    clear_cache(&mut cache);
    assert_eq!(cache.len(), 0);
}
