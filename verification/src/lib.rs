//! Bridge between a process-creation host daemon and a plugin handler.
//!
//! The host loads the plugin once, hands it a protocol descriptor, and in
//! return receives a capability table naming one trampoline per hook point.
//! The modules here model that negotiation, the per-call argument marshaling,
//! and the classification of fork results, each with its contract.

mod api;
mod args;
mod module;
mod outcome;
mod registry;
pub mod sys;

pub use api::Api;
pub use args::ForkAndSpecializeArgs;
pub use args::ForkSystemServerArgs;
pub use args::JavaRef;
pub use args::RawForkAndSpecializeArgs;
pub use args::RawForkSystemServerArgs;
pub use args::RawSpecializeAppProcessArgs;
pub use args::SpecializeAppProcessArgs;
pub use args::cell_after_return;
pub use args::lemma_absent_slot_untouched;
pub use args::lemma_present_slot_write_through;
pub use args::lemma_untouched_slot_unchanged;
pub use module::JniContext;
pub use module::Module;
pub use outcome::ForkResult;
pub use outcome::native_bool;
pub use registry::Registry;
pub use registry::table_filled;
pub use registry::table_reports;
pub use sys::Riru;
pub use sys::RiruModuleInfo;
pub use sys::RiruVersionedModuleInfo;
