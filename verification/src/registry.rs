//! The single-slot handler registry, its entry point and its trampolines.
//!
//! The host calls the entry point exactly once per loaded image. The
//! registry is the observable state machine behind that contract: it
//! starts unregistered, becomes registered on the first successful entry,
//! and every trampoline requires and preserves the registered state. A
//! second entry call is a host contract violation with no defined
//! recovery, so the entry point requires the unregistered state; the
//! unverified shell around the library must test the state first and
//! abort, as the protocol demands, if it is already registered.

use vstd::prelude::*;

use crate::api::Api;
use crate::args::ForkAndSpecializeArgs;
use crate::args::ForkSystemServerArgs;
use crate::args::RawForkAndSpecializeArgs;
use crate::args::RawForkSystemServerArgs;
use crate::args::RawSpecializeAppProcessArgs;
use crate::args::SpecializeAppProcessArgs;
use crate::module::JniContext;
use crate::module::Module;
use crate::outcome::ForkResult;
use crate::outcome::native_bool;
use crate::sys::API_VERSION;
use crate::sys::HookPoint;
use crate::sys::Riru;
use crate::sys::RiruVersionedModuleInfo;

verus! {

/// A capability table as the entry point hands it to the host: built for
/// the negotiated protocol version, with every hook-point slot filled
/// with its own trampoline and the optional load notification left empty.
pub open spec fn table_filled(t: RiruVersionedModuleInfo) -> bool {
    &&& t.module_api_version == API_VERSION
    &&& t.module_info.support_hide == 0 || t.module_info.support_hide == 1
    &&& t.module_info.on_module_loaded is None
    &&& t.module_info.should_skip_uid == Some(HookPoint::ShouldSkipUid)
    &&& t.module_info.fork_and_specialize_pre == Some(HookPoint::ForkAndSpecializePre)
    &&& t.module_info.fork_and_specialize_post == Some(HookPoint::ForkAndSpecializePost)
    &&& t.module_info.fork_system_server_pre == Some(HookPoint::ForkSystemServerPre)
    &&& t.module_info.fork_system_server_post == Some(HookPoint::ForkSystemServerPost)
    &&& t.module_info.specialize_app_process_pre == Some(HookPoint::SpecializeAppProcessPre)
    &&& t.module_info.specialize_app_process_post == Some(HookPoint::SpecializeAppProcessPost)
}

/// The table's metadata is exactly what the handler reports: the version
/// number and version name verbatim, and the hide-support flag encoded in
/// the host's truthiness convention.
pub open spec fn table_reports<M: Module>(t: RiruVersionedModuleInfo, m: M) -> bool {
    &&& t.module_info.version == m.spec_version()
    &&& t.module_info.version_name@ == m.spec_version_name()
    &&& t.module_info.support_hide == (if m.spec_support_hide() {
        1int
    } else {
        0int
    })
}

/// The process-wide singleton slot for the handler. `Unregistered` until
/// the first successful entry call, `Registered` from then on until
/// process exit.
pub struct Registry<M> {
    module: Option<M>,
}

impl<M: Module> Registry<M> {
    /// Whether the slot holds the handler singleton.
    pub closed spec fn is_registered(&self) -> bool {
        self.module is Some
    }

    /// The handler in the slot; meaningful only in the registered state.
    pub closed spec fn handler(&self) -> M {
        self.module->Some_0
    }

    /// The initial, unregistered state.
    pub fn new() -> (r: Registry<M>)
        ensures
            !r.is_registered(),
    {
        Registry { module: None }
    }

    /// Whether the slot holds the handler singleton; the runtime mirror
    /// of `is_registered`, for the shell's guard before the entry point.
    pub fn registered(&self) -> (r: bool)
        ensures
            r == self.is_registered(),
    {
        self.module.is_some()
    }

    /// The one-time negotiation and registration sequence.
    ///
    /// A host version below the minimum is the sole soft-failure path:
    /// the plugin declines by returning no table, and nothing at all has
    /// happened — no handler was constructed and the registry is exactly
    /// as it was. Otherwise the capability handle is captured from the
    /// descriptor, the handler singleton is constructed, the slot is
    /// filled, and the table the host will retain forever is returned.
    pub fn module_entry(&mut self, riru: &Riru) -> (r: Option<RiruVersionedModuleInfo>)
        requires
            !old(self).is_registered(),
        ensures
            riru.riru_api_version < API_VERSION ==> r is None && *final(self) == *old(self)
                && !final(self).is_registered(),
            riru.riru_api_version >= API_VERSION ==> final(self).is_registered() && (
            r matches Some(t) && table_filled(t) && table_reports(t, final(self).handler()))
                && final(self).handler().spec_api().install_path@ == riru.magisk_module_path@
                && final(self).handler().spec_api().allow_unload == riru.allow_unload,
    {
        if riru.riru_api_version < API_VERSION {
            return None;
        }
        let api = Api::from_descriptor(riru);
        let module = M::new(api);
        let info = RiruVersionedModuleInfo::build(
            module.support_hide(),
            module.version(),
            module.version_name(),
        );
        self.module = Some(module);
        Some(info)
    }

    /// A read-only borrow of the registered handler.
    pub fn module_ref(&self) -> (m: &M)
        requires
            self.is_registered(),
        ensures
            *m == self.handler(),
    {
        match &self.module {
            Some(m) => m,
            None => vstd::pervasive::unreached(),
        }
    }

    /// The current value of the registered handler's unload-permission
    /// flag. The shell reads this at the sync points — after the entry
    /// point and after every hook call — and writes it through to the
    /// host's own cell.
    pub fn allow_unload_flag(&self) -> (r: Option<i32>)
        requires
            self.is_registered(),
        ensures
            r == self.handler().spec_api().allow_unload,
    {
        match &self.module {
            Some(m) => m.allow_unload_flag(),
            None => vstd::pervasive::unreached(),
        }
    }

    /// The skip-uid trampoline: ask the handler and convert its decision
    /// to the host's truthiness convention, 1 to skip and 0 to proceed.
    pub fn module_should_skip_uid(&mut self, uid: i32) -> (r: i32)
        requires
            old(self).is_registered(),
        ensures
            final(self).is_registered(),
            old(self).handler().spec_should_skip_uid(uid) ==> r == 1,
            !old(self).handler().spec_should_skip_uid(uid) ==> r == 0,
            final(self).handler() == old(self).handler().spec_should_skip_uid_transition(uid),
    {
        match &mut self.module {
            Some(m) => {
                let skip = m.should_skip_uid(uid);
                native_bool(skip)
            },
            None => 0,
        }
    }

    /// The fork-and-specialize pre trampoline: marshal the raw slots into
    /// the typed view, run the handler, and write the view back. Which
    /// slots exist is the host's choice and survives the call unchanged.
    pub fn module_fork_and_specialize_pre(
        &mut self,
        ctx: &JniContext,
        raw: &mut RawForkAndSpecializeArgs,
    )
        requires
            old(self).is_registered(),
        ensures
            final(self).is_registered(),
            old(raw).same_presence(*final(raw)),
            ({
                let (m, view) = old(self).handler().spec_pre_fork_and_specialize(
                    *ctx,
                    old(raw).typed_view(),
                );
                final(self).handler() == m && *final(raw) == old(raw).after_write_back(view)
            }),
    {
        match &mut self.module {
            Some(m) => {
                let mut args = ForkAndSpecializeArgs::marshal(raw);
                m.pre_fork_and_specialize(ctx, &mut args);
                args.write_back(raw);
            },
            None => {},
        }
    }

    /// The fork-and-specialize post trampoline: classify the raw fork
    /// return code and hand the outcome to the handler.
    pub fn module_fork_and_specialize_post(&mut self, ctx: &JniContext, res: i32)
        requires
            old(self).is_registered(),
        ensures
            final(self).is_registered(),
            res == 0 ==> final(self).handler() == old(self).handler().spec_post_fork_and_specialize(
                *ctx,
                ForkResult::OnChild,
            ),
            res != 0 ==> final(self).handler() == old(self).handler().spec_post_fork_and_specialize(
                *ctx,
                ForkResult::OnParent(res),
            ),
    {
        match &mut self.module {
            Some(m) => {
                let result = ForkResult::from_raw(res);
                m.post_fork_and_specialize(ctx, result);
            },
            None => {},
        }
    }

    /// The fork-system-server pre trampoline: marshal, run the handler,
    /// write back.
    pub fn module_fork_system_server_pre(
        &mut self,
        ctx: &JniContext,
        raw: &mut RawForkSystemServerArgs,
    )
        requires
            old(self).is_registered(),
        ensures
            final(self).is_registered(),
            old(raw).same_presence(*final(raw)),
            ({
                let (m, view) = old(self).handler().spec_pre_fork_system_server(
                    *ctx,
                    old(raw).typed_view(),
                );
                final(self).handler() == m && *final(raw) == old(raw).after_write_back(view)
            }),
    {
        match &mut self.module {
            Some(m) => {
                let mut args = ForkSystemServerArgs::marshal(raw);
                m.pre_fork_system_server(ctx, &mut args);
                args.write_back(raw);
            },
            None => {},
        }
    }

    /// The fork-system-server post trampoline: classify and forward.
    pub fn module_fork_system_server_post(&mut self, ctx: &JniContext, res: i32)
        requires
            old(self).is_registered(),
        ensures
            final(self).is_registered(),
            res == 0 ==> final(self).handler() == old(self).handler().spec_post_fork_system_server(
                *ctx,
                ForkResult::OnChild,
            ),
            res != 0 ==> final(self).handler() == old(self).handler().spec_post_fork_system_server(
                *ctx,
                ForkResult::OnParent(res),
            ),
    {
        match &mut self.module {
            Some(m) => {
                let result = ForkResult::from_raw(res);
                m.post_fork_system_server(ctx, result);
            },
            None => {},
        }
    }

    /// The specialize-app-process pre trampoline: marshal, run the
    /// handler, write back.
    pub fn module_specialize_app_process_pre(
        &mut self,
        ctx: &JniContext,
        raw: &mut RawSpecializeAppProcessArgs,
    )
        requires
            old(self).is_registered(),
        ensures
            final(self).is_registered(),
            old(raw).same_presence(*final(raw)),
            ({
                let (m, view) = old(self).handler().spec_pre_specialize_app_process(
                    *ctx,
                    old(raw).typed_view(),
                );
                final(self).handler() == m && *final(raw) == old(raw).after_write_back(view)
            }),
    {
        match &mut self.module {
            Some(m) => {
                let mut args = SpecializeAppProcessArgs::marshal(raw);
                m.pre_specialize_app_process(ctx, &mut args);
                args.write_back(raw);
            },
            None => {},
        }
    }

    /// The specialize-app-process post trampoline: nothing to classify,
    /// the handler is simply notified.
    pub fn module_specialize_app_process_post(&mut self, ctx: &JniContext)
        requires
            old(self).is_registered(),
        ensures
            final(self).is_registered(),
            final(self).handler() == old(self).handler().spec_post_specialize_app_process(*ctx),
    {
        match &mut self.module {
            Some(m) => {
                m.post_specialize_app_process(ctx);
            },
            None => {},
        }
    }
}

} // verus!
