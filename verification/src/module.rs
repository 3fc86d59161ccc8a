//! The handler contract: what plugin authors implement.

use vstd::prelude::*;

use crate::api::Api;
use crate::args::ForkAndSpecializeArgs;
use crate::args::ForkSystemServerArgs;
use crate::args::SpecializeAppProcessArgs;
use crate::outcome::ForkResult;

verus! {

/// The JNI handles the host passes along with every hook call: the
/// environment of the calling thread and the class the call was made on.
/// The bridge never looks inside them; they are carried to the handler as
/// plain reference values, valid only for the one call.
#[derive(Copy, Clone, Debug, PartialEq, Eq, Structural)]
pub struct JniContext {
    pub env: usize,
    pub class: usize,
}

/// A plugin handler. Exactly one instance exists per loaded image; the
/// entry point constructs it and the trampolines borrow it for the
/// duration of each hook call.
///
/// A hook body must not abort except deliberately: it runs inside the
/// host daemon's address space, and an abort there is fatal to the
/// daemon. Argument records are per-call views; a present field mirrors a
/// live host cell and mutations to it are written back when the
/// trampoline returns.
pub trait Module: Sized {
    /// What `support_hide` reports, as a function of the handler's state.
    /// A handler with its own answer overrides this default.
    open spec fn spec_support_hide(&self) -> bool {
        false
    }

    /// What `version` reports, as a function of the handler's state.
    /// A handler with its own answer overrides this default.
    open spec fn spec_version(&self) -> i32 {
        0
    }

    /// What `version_name` reports, as a function of the handler's state.
    /// A handler with its own answer overrides this default.
    open spec fn spec_version_name(&self) -> Seq<char> {
        Seq::empty()
    }

    /// The decision `should_skip_uid` answers, as a function of the
    /// handler's state before the call. A handler with its own rule
    /// overrides this default.
    open spec fn spec_should_skip_uid(&self, uid: i32) -> bool {
        false
    }

    /// What `should_skip_uid` does to the handler's state while it
    /// decides. The default changes nothing.
    open spec fn spec_should_skip_uid_transition(&self, uid: i32) -> Self {
        *self
    }

    /// The capability handle this handler currently holds, as `new`
    /// received it and `set_allow_unload` has since changed it. The
    /// default names no particular handle and satisfies no contract
    /// below: a verified handler overrides it with the handle it stores.
    open spec fn spec_api(&self) -> Api {
        arbitrary()
    }

    /// What `pre_fork_and_specialize` does: the handler's next state and
    /// the view it hands back for write-back, as a function of its state,
    /// the call's context and the marshaled view. The default changes
    /// nothing; a handler with its own behaviour overrides it.
    open spec fn spec_pre_fork_and_specialize(
        &self,
        ctx: JniContext,
        args: ForkAndSpecializeArgs,
    ) -> (Self, ForkAndSpecializeArgs) {
        (*self, args)
    }

    /// What `post_fork_and_specialize` does to the handler's state, given
    /// the classified fork outcome. The default changes nothing.
    open spec fn spec_post_fork_and_specialize(&self, ctx: JniContext, result: ForkResult) -> Self {
        *self
    }

    /// What `pre_fork_system_server` does, as for the fork-and-specialize
    /// pre hook. The default changes nothing.
    open spec fn spec_pre_fork_system_server(
        &self,
        ctx: JniContext,
        args: ForkSystemServerArgs,
    ) -> (Self, ForkSystemServerArgs) {
        (*self, args)
    }

    /// What `post_fork_system_server` does to the handler's state, given
    /// the classified fork outcome. The default changes nothing.
    open spec fn spec_post_fork_system_server(&self, ctx: JniContext, result: ForkResult) -> Self {
        *self
    }

    /// What `pre_specialize_app_process` does, as for the other pre
    /// hooks. The default changes nothing.
    open spec fn spec_pre_specialize_app_process(
        &self,
        ctx: JniContext,
        args: SpecializeAppProcessArgs,
    ) -> (Self, SpecializeAppProcessArgs) {
        (*self, args)
    }

    /// What `post_specialize_app_process` does to the handler's state;
    /// this hook point carries no result. The default changes nothing.
    open spec fn spec_post_specialize_app_process(&self, ctx: JniContext) -> Self {
        *self
    }

    /// The one and only construction point, run inside the host's loading
    /// context. The handler keeps the capability handle it is given.
    fn new(api: Api) -> (r: Self)
        ensures
            r.spec_api() == api,
    ;

    /// The current value of the handler's unload-permission flag, read
    /// from the capability handle it holds. The shell reads this after
    /// the entry point and after every hook call — those are the sync
    /// points — and writes it through to the host's own cell, so a
    /// handler's `set_allow_unload` reaches host memory.
    fn allow_unload_flag(&self) -> (r: Option<i32>)
        ensures
            r == self.spec_api().allow_unload,
    ;

    /// Whether the module supports being hidden by the host.
    fn support_hide(&self) -> (r: bool)
        ensures
            r == self.spec_support_hide(),
    ;

    /// The module's own version number, reported to the host.
    fn version(&self) -> (r: i32)
        ensures
            r == self.spec_version(),
    ;

    /// The module's version name, duplicated by the bridge into memory
    /// the host retains for the process lifetime.
    fn version_name(&self) -> (r: String)
        ensures
            r@ == self.spec_version_name(),
    ;

    /// Whether process creation for `uid` should skip this module
    /// entirely.
    fn should_skip_uid(&mut self, uid: i32) -> (r: bool)
        ensures
            r == old(self).spec_should_skip_uid(uid),
            *final(self) == old(self).spec_should_skip_uid_transition(uid),
    ;

    /// Called before the host forks and specializes an application
    /// process; present fields may be rewritten in place.
    fn pre_fork_and_specialize(&mut self, ctx: &JniContext, args: &mut ForkAndSpecializeArgs)
        ensures
            (*final(self), *final(args)) == old(self).spec_pre_fork_and_specialize(
                *ctx,
                *old(args),
            ),
    ;

    /// Called after the fork, on both sides, with the classified outcome.
    fn post_fork_and_specialize(&mut self, ctx: &JniContext, result: ForkResult)
        ensures
            *final(self) == old(self).spec_post_fork_and_specialize(*ctx, result),
    ;

    /// Called before the host forks the system server.
    fn pre_fork_system_server(&mut self, ctx: &JniContext, args: &mut ForkSystemServerArgs)
        ensures
            (*final(self), *final(args)) == old(self).spec_pre_fork_system_server(
                *ctx,
                *old(args),
            ),
    ;

    /// Called after the system-server fork, on both sides.
    fn post_fork_system_server(&mut self, ctx: &JniContext, result: ForkResult)
        ensures
            *final(self) == old(self).spec_post_fork_system_server(*ctx, result),
    ;

    /// Called before the host specializes the current process into an
    /// application process (no fork involved).
    fn pre_specialize_app_process(
        &mut self,
        ctx: &JniContext,
        args: &mut SpecializeAppProcessArgs,
    )
        ensures
            (*final(self), *final(args)) == old(self).spec_pre_specialize_app_process(
                *ctx,
                *old(args),
            ),
    ;

    /// Called after specialization; there is no result to classify.
    fn post_specialize_app_process(&mut self, ctx: &JniContext)
        ensures
            *final(self) == old(self).spec_post_specialize_app_process(*ctx),
    ;
}

} // verus!
