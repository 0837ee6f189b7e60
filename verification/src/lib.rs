//! Import library synthesis for the Python runtime DLL.
//!
//! Given a compile target's architecture and environment ABI, and optionally
//! a (major, minor) interpreter version, this library decides everything a
//! generation run needs: which embedded symbol-definition document to write
//! and under what name, how the artifact is named, which `dlltool`-flavored
//! utility must be invoked, and the utility's exact argument vector.  An
//! alternate-toolchain driver named by the build environment overrides the
//! resolution table unconditionally.
//!
//! The decisions are stated in contracts and machine-checked.  The
//! filesystem writes and the process invocation themselves are left to the
//! caller, which performs the planned steps in order: ensure the output
//! directory exists, write the definition document, invoke the utility, and
//! interpret its exit.

pub mod command;
pub mod defs;
pub mod error;
pub mod generator;
pub mod text;
pub mod toolchain;

pub use command::CommandSpec;
pub use defs::DefinitionAsset;
pub use error::GenerationError;
pub use generator::GenerationPlan;
pub use generator::ImportLibraryGenerator;
pub use toolchain::HostContext;
pub use toolchain::ToolchainVariant;
