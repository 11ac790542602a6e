//! Provisioning of the ElixirLS language-server launcher and presentation of
//! the completion and symbol entries that the server returns.
//!
//! The crate decides and performs no I/O itself.
//!
//! * [`ElixirLs::language_server_binary_path`] is one step of a resolution:
//!   the host performs the [`ResolveAction`] it is handed and reports the
//!   outcome as the next [`ResolveEvent`], until the action is
//!   [`ResolveAction::Finish`]. What each step does is
//!   [`provisioner::spec_step`]; the laws that follow from it stand beside
//!   it as proof functions.
//! * [`ElixirLs::label_for_completion`] and [`ElixirLs::label_for_symbol`]
//!   turn an entry into a small Elixir fragment with the byte spans that an
//!   editor highlights and filters by.
//! * [`ElixirLs::language_server_workspace_configuration`] puts the server's
//!   settings under the key that the server reads them from.

pub mod error;
pub mod label;
pub mod provisioner;
pub mod prune;
pub mod release;
pub mod settings;
pub mod text;

pub use error::{ErrorKind, ResolveError};
pub use label::{
    ByteRange, CodeLabel, CodeLabelSpan, Completion, CompletionKind, LabelStyle, Symbol,
    SymbolKind,
};
pub use provisioner::{ElixirLs, InstallationStatus, ResolveAction, ResolveEvent, ResolveState};
pub use prune::prune_targets;
pub use release::{InstallPlan, Os, Release, ReleaseAsset, Script};
pub use settings::WorkspaceConfiguration;
