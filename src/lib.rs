//! Supervision of named network tunnels (Kubernetes port-forwards and SSH local forwards):
//! the commands that start them, the persisted registry of what runs, and the probes that
//! reconcile it with the system.
use vstd::prelude::*;

pub mod command_builder;
pub mod config_cache;
pub mod detector;
pub mod edit_field;
pub mod events;
pub mod interface;
pub mod kubectl;
pub mod ports;
pub mod registry;
pub mod supervisor;
pub mod text;
pub mod types;
pub mod ui_state;

pub use command_builder::{HostEnvironment, KubectlCommandBuilder, SshCommandBuilder, SshPortMapper};
pub use config_cache::ConfigCache;
pub use detector::ProcessDetector;
pub use edit_field::EditField;
pub use events::{LogEntry, ProcessEvent, ProcessHandle, ProcessOutput};
pub use interface::{
    InterfaceAction, InterfaceStage, Platform, SystemInterfaceManager, WindowsInterfaceManager,
};
pub use registry::ProcessManager;
pub use supervisor::{build_command, plan_start, StartPlan};
pub use types::{
    AppConfig, AppError, ForwardType, PortForwardConfig, PortForwardConfigs, ProcessInfo,
    ProcessManagerState, SerializableProcessInfo,
};
pub use ui_state::{AutocompleteResult, AutocompleteState, ConfirmAction, Mode, Panel, ThemeMode, VimMode};

verus! {

} // verus!
