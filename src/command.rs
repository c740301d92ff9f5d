//! The closed set of subcommands that the command line tool understands.
use vstd::prelude::*;

verus! {

/// The platform that the tool was built for. Some subcommands exist on one
/// platform only.
#[derive(Clone, Copy, Debug, PartialEq, Eq, Structural)]
pub enum TargetPlatform {
    Windows,
    Other,
}

/// Subcommands of `config`.
#[derive(Clone, Copy, Debug, PartialEq, Eq, Structural)]
pub enum ConfigSubCommand {
    Init,
    Update,
}

/// Payload of the editor service subcommand.
#[derive(Clone, Copy, Debug, PartialEq, Eq, Structural)]
pub struct EditorServiceSubCommand {
    /// Process id of the editor; the service stops when it exits.
    pub parent_pid: u32,
}

/// Payload of formatting text read from standard input.
#[derive(Clone, Debug)]
pub struct StdInFmtSubCommand {
    /// File name or path that selects the plugin and configuration.
    pub file_name_or_path: String,
    /// The text to format.
    pub file_text: String,
}

/// Payload of the format subcommand.
#[derive(Clone, Copy, Debug, PartialEq, Eq, Structural)]
pub struct FmtSubCommand {
    /// Print a diff of what changed.
    pub diff: bool,
}

/// Which of the installer routines a hidden subcommand runs.
#[derive(Clone, Copy, Debug, PartialEq, Eq, Structural)]
pub enum InstallAction {
    Install,
    Uninstall,
}

/// Installer subcommands, which exist on Windows only.
///
/// The fields are private: a value can only be had from `new`, which refuses
/// every platform but Windows.
#[derive(Clone, Debug)]
pub struct HiddenSubCommand {
    action: InstallAction,
    install_path: String,
}

impl HiddenSubCommand {
    pub closed spec fn spec_action(&self) -> InstallAction {
        self.action
    }

    pub closed spec fn spec_install_path(&self) -> String {
        self.install_path
    }

    /// The installer subcommand with these fields, as a mathematical value.
    pub closed spec fn spec_new(action: InstallAction, install_path: String) -> HiddenSubCommand {
        HiddenSubCommand { action, install_path }
    }

    pub proof fn lemma_spec_new(action: InstallAction, install_path: String)
        ensures
            Self::spec_new(action, install_path).spec_action() == action,
            Self::spec_new(action, install_path).spec_install_path() == install_path,
    {
    }

    /// Builds an installer subcommand; there is none on a platform other
    /// than Windows.
    pub fn new(platform: TargetPlatform, action: InstallAction, install_path: String) -> (r: Option<
        HiddenSubCommand,
    >)
        ensures
            r is Some <==> platform == TargetPlatform::Windows,
            r matches Some(h) ==> h.spec_action() == action && h.spec_install_path() == install_path,
    {
        match platform {
            TargetPlatform::Windows => Some(HiddenSubCommand { action, install_path }),
            TargetPlatform::Other => None,
        }
    }

    pub fn action(&self) -> (r: InstallAction)
        ensures
            r == self.spec_action(),
    {
        self.action
    }

    pub fn install_path(&self) -> (r: &String)
        ensures
            r == self.spec_install_path(),
    {
        &self.install_path
    }
}

/// A parsed subcommand.
#[derive(Clone, Debug)]
pub enum SubCommand {
    Help(String),
    License,
    EditorInfo,
    EditorService(EditorServiceSubCommand),
    ClearCache,
    Config(ConfigSubCommand),
    Version,
    StdInFmt(StdInFmtSubCommand),
    OutputResolvedConfig,
    OutputFilePaths,
    OutputFormatTimes,
    Check,
    Fmt(FmtSubCommand),
    Hidden(HiddenSubCommand),
}

/// The parsed command line.
#[derive(Clone, Debug)]
pub struct CliArgs {
    pub sub_command: SubCommand,
    /// Path or URL of the configuration file, when one was given.
    pub config: Option<String>,
}

} // verus!
