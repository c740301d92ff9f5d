//! Routing of a parsed command to the one handler that carries it out.
use vstd::prelude::*;

use crate::cache::Cache;
use crate::command::{
    CliArgs, ConfigSubCommand, EditorServiceSubCommand, FmtSubCommand, HiddenSubCommand,
    InstallAction, StdInFmtSubCommand, SubCommand,
};

verus! {

/// The handlers, one for each leaf of the command tree.
#[derive(Clone, Copy, Debug, PartialEq, Eq, Structural)]
pub enum Handler {
    OutputHelp,
    OutputLicense,
    OutputEditorInfo,
    RunEditorService,
    ClearCache,
    InitConfigFile,
    UpdatePluginsConfigFile,
    OutputVersion,
    StdInFmt,
    OutputResolvedConfig,
    OutputFilePaths,
    OutputFormatTimes,
    Check,
    Format,
    WindowsInstall,
    WindowsUninstall,
}

/// The shared collaborators that a handler is given besides the
/// environment, which every handler borrows.
#[derive(Clone, Copy, Debug, PartialEq, Eq, Structural)]
pub struct Collaborators {
    /// The parsed command line.
    pub args: bool,
    /// The cache of resolved data.
    pub cache: bool,
    /// The plugin resolver.
    pub plugin_resolver: bool,
    /// The shared handle to the plugin pools.
    pub plugin_pools: bool,
}

/// The outcome of routing: the handler to invoke and what it is given.
#[derive(Clone, Copy, Debug, PartialEq, Eq, Structural)]
pub struct Dispatch {
    pub handler: Handler,
    pub collaborators: Collaborators,
}

/// The routing table: the handler of each command.
pub open spec fn handler_of(cmd: SubCommand) -> Handler {
    match cmd {
        SubCommand::Help(_) => Handler::OutputHelp,
        SubCommand::License => Handler::OutputLicense,
        SubCommand::EditorInfo => Handler::OutputEditorInfo,
        SubCommand::EditorService(_) => Handler::RunEditorService,
        SubCommand::ClearCache => Handler::ClearCache,
        SubCommand::Config(ConfigSubCommand::Init) => Handler::InitConfigFile,
        SubCommand::Config(ConfigSubCommand::Update) => Handler::UpdatePluginsConfigFile,
        SubCommand::Version => Handler::OutputVersion,
        SubCommand::StdInFmt(_) => Handler::StdInFmt,
        SubCommand::OutputResolvedConfig => Handler::OutputResolvedConfig,
        SubCommand::OutputFilePaths => Handler::OutputFilePaths,
        SubCommand::OutputFormatTimes => Handler::OutputFormatTimes,
        SubCommand::Check => Handler::Check,
        SubCommand::Fmt(_) => Handler::Format,
        SubCommand::Hidden(h) => match h.spec_action() {
            InstallAction::Install => Handler::WindowsInstall,
            InstallAction::Uninstall => Handler::WindowsUninstall,
        },
    }
}

/// Whether the handler formats through plugin instances and so shares the
/// plugin pools.
pub open spec fn uses_plugin_pools(h: Handler) -> bool {
    match h {
        Handler::RunEditorService | Handler::StdInFmt | Handler::OutputFormatTimes
        | Handler::Check | Handler::Format => true,
        _ => false,
    }
}

/// Whether the handler resolves plugins from the configuration; each of
/// these also reads the command line and the cache.
pub open spec fn uses_plugin_resolver(h: Handler) -> bool {
    match h {
        Handler::ClearCache | Handler::InitConfigFile | Handler::OutputVersion
        | Handler::WindowsInstall | Handler::WindowsUninstall => false,
        _ => true,
    }
}

/// What each handler is given.
pub open spec fn collaborators_of(h: Handler) -> Collaborators {
    Collaborators {
        args: uses_plugin_resolver(h),
        cache: uses_plugin_resolver(h),
        plugin_resolver: uses_plugin_resolver(h),
        plugin_pools: uses_plugin_pools(h),
    }
}

/// Whether routing `cmd` may end in `h`.
pub open spec fn routes_to(cmd: SubCommand, h: Handler) -> bool {
    handler_of(cmd) == h
}

/// The routing decision for one command, as a value.
pub open spec fn dispatch_of(cmd: SubCommand) -> Dispatch {
    Dispatch { handler: handler_of(cmd), collaborators: collaborators_of(handler_of(cmd)) }
}

/// The handler of one command.
pub fn handler_for(cmd: &SubCommand) -> (r: Handler)
    ensures
        r == handler_of(*cmd),
{
    match cmd {
        SubCommand::Help(_) => Handler::OutputHelp,
        SubCommand::License => Handler::OutputLicense,
        SubCommand::EditorInfo => Handler::OutputEditorInfo,
        SubCommand::EditorService(_) => Handler::RunEditorService,
        SubCommand::ClearCache => Handler::ClearCache,
        SubCommand::Config(c) => match c {
            ConfigSubCommand::Init => Handler::InitConfigFile,
            ConfigSubCommand::Update => Handler::UpdatePluginsConfigFile,
        },
        SubCommand::Version => Handler::OutputVersion,
        SubCommand::StdInFmt(_) => Handler::StdInFmt,
        SubCommand::OutputResolvedConfig => Handler::OutputResolvedConfig,
        SubCommand::OutputFilePaths => Handler::OutputFilePaths,
        SubCommand::OutputFormatTimes => Handler::OutputFormatTimes,
        SubCommand::Check => Handler::Check,
        SubCommand::Fmt(_) => Handler::Format,
        SubCommand::Hidden(h) => match h.action() {
            InstallAction::Install => Handler::WindowsInstall,
            InstallAction::Uninstall => Handler::WindowsUninstall,
        },
    }
}

/// What a handler is given besides the environment.
pub fn collaborators_for(h: Handler) -> (r: Collaborators)
    ensures
        r == collaborators_of(h),
{
    let pools = match h {
        Handler::RunEditorService | Handler::StdInFmt | Handler::OutputFormatTimes
        | Handler::Check | Handler::Format => true,
        _ => false,
    };
    let resolver = match h {
        Handler::ClearCache | Handler::InitConfigFile | Handler::OutputVersion
        | Handler::WindowsInstall | Handler::WindowsUninstall => false,
        _ => true,
    };
    Collaborators { args: resolver, cache: resolver, plugin_resolver: resolver, plugin_pools: pools }
}

/// Routes the parsed command line to its handler.
///
/// The one handler whose whole effect is on the cache, `ClearCache`, is
/// carried out here: the cache is emptied and nothing else is touched, the
/// plugin pools least of all. Every other command leaves the cache as it
/// was; the returned value names the handler to invoke and what it is given.
pub fn run_cli(args: &CliArgs, cache: &mut Cache) -> (r: Dispatch)
    ensures
        r == dispatch_of(args.sub_command),
        handler_of(args.sub_command) == Handler::ClearCache ==> final(cache)@ == Map::<
            u64,
            String,
        >::empty(),
        handler_of(args.sub_command) != Handler::ClearCache ==> final(cache)@ == old(cache)@,
{
    let handler = handler_for(&args.sub_command);
    if let Handler::ClearCache = handler {
        clear_cache(cache);
    }
    Dispatch { handler, collaborators: collaborators_for(handler) }
}

/// The handler of `ClearCache`: empties the cache.
pub fn clear_cache(cache: &mut Cache)
    ensures
        final(cache)@ == Map::<u64, String>::empty(),
{
    cache.clear();
}

/// Dispatching invokes exactly one handler: the routing table gives each
/// command one handler, and no other handler is reached for it.
pub proof fn lemma_dispatch_invokes_exactly_one_handler(cmd: SubCommand, h: Handler)
    ensures
        routes_to(cmd, handler_of(cmd)),
        routes_to(cmd, h) <==> h == handler_of(cmd),
        dispatch_of(cmd).handler == handler_of(cmd),
{
}

/// Every handler is reached by some command, so no arm of the routing table
/// is dead, and every command lands on an arm.
pub proof fn lemma_every_handler_is_reachable(h: Handler)
    ensures
        exists|cmd: SubCommand| routes_to(cmd, h),
{
    let s: String = arbitrary();
    let cmd = match h {
        Handler::OutputHelp => SubCommand::Help(s),
        Handler::OutputLicense => SubCommand::License,
        Handler::OutputEditorInfo => SubCommand::EditorInfo,
        Handler::RunEditorService => SubCommand::EditorService(
            EditorServiceSubCommand { parent_pid: 0 },
        ),
        Handler::ClearCache => SubCommand::ClearCache,
        Handler::InitConfigFile => SubCommand::Config(ConfigSubCommand::Init),
        Handler::UpdatePluginsConfigFile => SubCommand::Config(ConfigSubCommand::Update),
        Handler::OutputVersion => SubCommand::Version,
        Handler::StdInFmt => SubCommand::StdInFmt(
            StdInFmtSubCommand { file_name_or_path: s, file_text: s },
        ),
        Handler::OutputResolvedConfig => SubCommand::OutputResolvedConfig,
        Handler::OutputFilePaths => SubCommand::OutputFilePaths,
        Handler::OutputFormatTimes => SubCommand::OutputFormatTimes,
        Handler::Check => SubCommand::Check,
        Handler::Format => SubCommand::Fmt(FmtSubCommand { diff: false }),
        Handler::WindowsInstall => SubCommand::Hidden(
            HiddenSubCommand::spec_new(InstallAction::Install, s),
        ),
        Handler::WindowsUninstall => SubCommand::Hidden(
            HiddenSubCommand::spec_new(InstallAction::Uninstall, s),
        ),
    };
    HiddenSubCommand::lemma_spec_new(InstallAction::Install, s);
    HiddenSubCommand::lemma_spec_new(InstallAction::Uninstall, s);
    assert(routes_to(cmd, h));
}

} // verus!
