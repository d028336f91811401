//! State model and key handling for a terminal installation wizard.
pub mod config;
pub mod options;
pub mod wizard;

pub use config::{AppState, DesktopEnv, GpuDriver, KernelSelection, Page};
pub use options::{option_count, option_label};
pub use wizard::{Action, Key, Wizard};
