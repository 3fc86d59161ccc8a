//! Models of the structures shared with the host's loading protocol.
//!
//! The host owns the real memory behind these structures; here each one is
//! held as plain values so that the negotiation logic can be verified. A
//! nullable cell of the host becomes an `Option`, a text pointer becomes a
//! `String`, and a function-pointer slot becomes an `Option<HookPoint>`
//! naming which trampoline the slot was filled with.

use vstd::prelude::*;

verus! {

/// Lowest host protocol version this bridge supports. A host that declares
/// a smaller version is declined at the entry point.
pub const API_VERSION: i32 = 26;

/// Identity of a trampoline that can stand in a capability-table slot.
#[derive(Copy, Clone, Debug, PartialEq, Eq, Structural)]
pub enum HookPoint {
    OnModuleLoaded,
    ShouldSkipUid,
    ForkAndSpecializePre,
    ForkAndSpecializePost,
    ForkSystemServerPre,
    ForkSystemServerPost,
    SpecializeAppProcessPre,
    SpecializeAppProcessPost,
}

/// Model of the capability table handed to the host: module metadata plus
/// one slot per hook point. `None` in a slot means the plugin requests no
/// interception at that point; `Some(p)` means the slot holds the address
/// of trampoline `p`. The real table is retained by the host for the whole
/// process lifetime and is never freed.
pub struct RiruModuleInfo {
    pub support_hide: i32,
    pub version: i32,
    pub version_name: String,
    pub on_module_loaded: Option<HookPoint>,
    pub should_skip_uid: Option<HookPoint>,
    pub fork_and_specialize_pre: Option<HookPoint>,
    pub fork_and_specialize_post: Option<HookPoint>,
    pub fork_system_server_pre: Option<HookPoint>,
    pub fork_system_server_post: Option<HookPoint>,
    pub specialize_app_process_pre: Option<HookPoint>,
    pub specialize_app_process_post: Option<HookPoint>,
}

/// The capability table together with the protocol version it was built
/// for, which is the shape the host actually stores.
pub struct RiruVersionedModuleInfo {
    pub module_api_version: i32,
    pub module_info: RiruModuleInfo,
}

impl RiruVersionedModuleInfo {
    /// Build the table from what the handler reported. Every hook-point
    /// slot except the optional load notification is filled with its own
    /// trampoline; the support flag is encoded in the host's truthiness
    /// convention.
    pub fn build(support_hide: bool, version: i32, version_name: String) -> (t:
        RiruVersionedModuleInfo)
        ensures
            t.module_api_version == API_VERSION,
            support_hide ==> t.module_info.support_hide == 1,
            !support_hide ==> t.module_info.support_hide == 0,
            t.module_info.version == version,
            t.module_info.version_name@ == version_name@,
            t.module_info.on_module_loaded is None,
            t.module_info.should_skip_uid == Some(HookPoint::ShouldSkipUid),
            t.module_info.fork_and_specialize_pre == Some(HookPoint::ForkAndSpecializePre),
            t.module_info.fork_and_specialize_post == Some(HookPoint::ForkAndSpecializePost),
            t.module_info.fork_system_server_pre == Some(HookPoint::ForkSystemServerPre),
            t.module_info.fork_system_server_post == Some(HookPoint::ForkSystemServerPost),
            t.module_info.specialize_app_process_pre == Some(HookPoint::SpecializeAppProcessPre),
            t.module_info.specialize_app_process_post == Some(
                HookPoint::SpecializeAppProcessPost,
            ),
    {
        RiruVersionedModuleInfo {
            module_api_version: API_VERSION,
            module_info: RiruModuleInfo {
                support_hide: crate::outcome::native_bool(support_hide),
                version,
                version_name,
                on_module_loaded: None,
                should_skip_uid: Some(HookPoint::ShouldSkipUid),
                fork_and_specialize_pre: Some(HookPoint::ForkAndSpecializePre),
                fork_and_specialize_post: Some(HookPoint::ForkAndSpecializePost),
                fork_system_server_pre: Some(HookPoint::ForkSystemServerPre),
                fork_system_server_post: Some(HookPoint::ForkSystemServerPost),
                specialize_app_process_pre: Some(HookPoint::SpecializeAppProcessPre),
                specialize_app_process_post: Some(HookPoint::SpecializeAppProcessPost),
            },
        }
    }
}

/// Model of the host's protocol descriptor, read once at the entry point.
/// The unload-permission cell is nullable in the host's memory: `None`
/// means the host did not supply it for this protocol version.
pub struct Riru {
    pub riru_api_version: i32,
    pub magisk_module_path: String,
    pub allow_unload: Option<i32>,
}

} // verus!
