//! Argument marshaling for the hook points.
//!
//! For each hook point the host passes a fixed, ordered list of raw
//! parameters; any of them may be a null pointer, meaning the slot does not
//! exist in this host build. A `Raw...Args` value models those slots as the
//! host owns them: `None` for a null pointer, `Some(v)` for a live cell
//! currently holding `v`. The typed `...Args` record is the per-call view
//! handed to the handler: a field is present exactly when the host supplied
//! the slot, and never defaulted. Writing the handler's view back into the
//! host's cells is `write_back`; a value only lands where the host supplied
//! a cell, so an absent slot can never be touched.

use vstd::prelude::*;

verus! {

/// A handle to an object owned by the host's managed runtime (an array, a
/// text object, a list). The bridge never looks inside such an object; it
/// only carries the handle between the host and the handler, so the handle
/// is held as the plain value of the underlying reference.
#[derive(Copy, Clone, Debug, PartialEq, Eq, Structural)]
pub struct JavaRef {
    pub handle: usize,
}

/// What a host cell holds after a trampoline returns: the handler's value
/// where the host supplied a cell and the handler wrote one, the original
/// contents everywhere else. An absent cell stays absent no matter what the
/// handler did.
pub open spec fn cell_after_return<T>(cell: Option<T>, field: Option<T>) -> Option<T> {
    if cell is Some && field is Some {
        field
    } else {
        cell
    }
}

/// Write one field of the handler's view back into one host cell,
/// following `cell_after_return`.
fn merge_slot<T: Copy>(cell: &mut Option<T>, field: Option<T>)
    ensures
        *final(cell) == cell_after_return(*old(cell), field),
{
    if cell.is_some() && field.is_some() {
        *cell = field;
    }
}

/// An absent host slot is out of the handler's reach: whatever the view
/// holds for it, the host side stays absent.
pub proof fn lemma_absent_slot_untouched<T>(field: Option<T>)
    ensures
        cell_after_return(None::<T>, field) is None,
{
}

/// A write to a present slot lands: after the call the host cell holds
/// exactly the value the handler put in its view.
pub proof fn lemma_present_slot_write_through<T>(cell: T, value: T)
    ensures
        cell_after_return(Some(cell), Some(value)) == Some(value),
{
}

/// A slot the handler left alone keeps the host's value.
pub proof fn lemma_untouched_slot_unchanged<T>(cell: Option<T>)
    ensures
        cell_after_return(cell, None::<T>) == cell,
{
}

/// Raw parameter slots of the fork-and-specialize hook, in the host's
/// order.
pub struct RawForkAndSpecializeArgs {
    pub uid: Option<i32>,
    pub gid: Option<i32>,
    pub gids: Option<JavaRef>,
    pub runtime_flags: Option<i32>,
    pub rlimits: Option<JavaRef>,
    pub mount_external: Option<i32>,
    pub se_info: Option<JavaRef>,
    pub nice_name: Option<JavaRef>,
    pub fds_to_close: Option<JavaRef>,
    pub fds_to_ignore: Option<JavaRef>,
    pub is_child_zygote: Option<bool>,
    pub instruction_set: Option<JavaRef>,
    pub app_data_dir: Option<JavaRef>,
    pub is_top_app: Option<bool>,
    pub pkg_data_info_list: Option<JavaRef>,
    pub whitelisted_data_info_list: Option<JavaRef>,
    pub bind_mount_app_data_dirs: Option<bool>,
    pub bind_mount_app_storage_dirs: Option<bool>,
}

impl RawForkAndSpecializeArgs {
    /// Both sides offer the same slots: presence is fixed by the host
    /// build and survives a trampoline call unchanged.
    pub open spec fn same_presence(self, other: RawForkAndSpecializeArgs) -> bool {
        &&& (other.uid is Some) == (self.uid is Some)
        &&& (other.gid is Some) == (self.gid is Some)
        &&& (other.gids is Some) == (self.gids is Some)
        &&& (other.runtime_flags is Some) == (self.runtime_flags is Some)
        &&& (other.rlimits is Some) == (self.rlimits is Some)
        &&& (other.mount_external is Some) == (self.mount_external is Some)
        &&& (other.se_info is Some) == (self.se_info is Some)
        &&& (other.nice_name is Some) == (self.nice_name is Some)
        &&& (other.fds_to_close is Some) == (self.fds_to_close is Some)
        &&& (other.fds_to_ignore is Some) == (self.fds_to_ignore is Some)
        &&& (other.is_child_zygote is Some) == (self.is_child_zygote is Some)
        &&& (other.instruction_set is Some) == (self.instruction_set is Some)
        &&& (other.app_data_dir is Some) == (self.app_data_dir is Some)
        &&& (other.is_top_app is Some) == (self.is_top_app is Some)
        &&& (other.pkg_data_info_list is Some) == (self.pkg_data_info_list is Some)
        &&& (other.whitelisted_data_info_list is Some) == (self.whitelisted_data_info_list
            is Some)
        &&& (other.bind_mount_app_data_dirs is Some) == (self.bind_mount_app_data_dirs is Some)
        &&& (other.bind_mount_app_storage_dirs is Some) == (self.bind_mount_app_storage_dirs
            is Some)
    }

    /// The typed view of these slots, exactly as `marshal` builds it:
    /// every field mirrors its slot.
    pub open spec fn typed_view(self) -> ForkAndSpecializeArgs {
        ForkAndSpecializeArgs {
            uid: self.uid,
            gid: self.gid,
            gids: self.gids,
            runtime_flags: self.runtime_flags,
            rlimits: self.rlimits,
            mount_external: self.mount_external,
            se_info: self.se_info,
            nice_name: self.nice_name,
            fds_to_close: self.fds_to_close,
            fds_to_ignore: self.fds_to_ignore,
            is_child_zygote: self.is_child_zygote,
            instruction_set: self.instruction_set,
            app_data_dir: self.app_data_dir,
            is_top_app: self.is_top_app,
            pkg_data_info_list: self.pkg_data_info_list,
            whitelisted_data_info_list: self.whitelisted_data_info_list,
            bind_mount_app_data_dirs: self.bind_mount_app_data_dirs,
            bind_mount_app_storage_dirs: self.bind_mount_app_storage_dirs,
        }
    }

    /// These slots after a handler's view is written back, exactly as
    /// `write_back` leaves them: each cell follows `cell_after_return`.
    pub open spec fn after_write_back(self, args: ForkAndSpecializeArgs) -> RawForkAndSpecializeArgs {
        RawForkAndSpecializeArgs {
            uid: cell_after_return(self.uid, args.uid),
            gid: cell_after_return(self.gid, args.gid),
            gids: cell_after_return(self.gids, args.gids),
            runtime_flags: cell_after_return(self.runtime_flags, args.runtime_flags),
            rlimits: cell_after_return(self.rlimits, args.rlimits),
            mount_external: cell_after_return(self.mount_external, args.mount_external),
            se_info: cell_after_return(self.se_info, args.se_info),
            nice_name: cell_after_return(self.nice_name, args.nice_name),
            fds_to_close: cell_after_return(self.fds_to_close, args.fds_to_close),
            fds_to_ignore: cell_after_return(self.fds_to_ignore, args.fds_to_ignore),
            is_child_zygote: cell_after_return(self.is_child_zygote, args.is_child_zygote),
            instruction_set: cell_after_return(self.instruction_set, args.instruction_set),
            app_data_dir: cell_after_return(self.app_data_dir, args.app_data_dir),
            is_top_app: cell_after_return(self.is_top_app, args.is_top_app),
            pkg_data_info_list: cell_after_return(self.pkg_data_info_list, args.pkg_data_info_list),
            whitelisted_data_info_list: cell_after_return(
                self.whitelisted_data_info_list,
                args.whitelisted_data_info_list,
            ),
            bind_mount_app_data_dirs: cell_after_return(
                self.bind_mount_app_data_dirs,
                args.bind_mount_app_data_dirs,
            ),
            bind_mount_app_storage_dirs: cell_after_return(
                self.bind_mount_app_storage_dirs,
                args.bind_mount_app_storage_dirs,
            ),
        }
    }
}

/// The fork-and-specialize hook's arguments as the handler sees them: one
/// field per host slot, present exactly when the host supplied the slot.
pub struct ForkAndSpecializeArgs {
    pub uid: Option<i32>,
    pub gid: Option<i32>,
    pub gids: Option<JavaRef>,
    pub runtime_flags: Option<i32>,
    pub rlimits: Option<JavaRef>,
    pub mount_external: Option<i32>,
    pub se_info: Option<JavaRef>,
    pub nice_name: Option<JavaRef>,
    pub fds_to_close: Option<JavaRef>,
    pub fds_to_ignore: Option<JavaRef>,
    pub is_child_zygote: Option<bool>,
    pub instruction_set: Option<JavaRef>,
    pub app_data_dir: Option<JavaRef>,
    pub is_top_app: Option<bool>,
    pub pkg_data_info_list: Option<JavaRef>,
    pub whitelisted_data_info_list: Option<JavaRef>,
    pub bind_mount_app_data_dirs: Option<bool>,
    pub bind_mount_app_storage_dirs: Option<bool>,
}

impl ForkAndSpecializeArgs {
    /// Build the typed view of the raw slots: every field mirrors its slot,
    /// so a null slot gives an absent field and a live slot gives its
    /// current value.
    pub fn marshal(raw: &RawForkAndSpecializeArgs) -> (args: ForkAndSpecializeArgs)
        ensures
            args == raw.typed_view(),
    {
        ForkAndSpecializeArgs {
            uid: raw.uid,
            gid: raw.gid,
            gids: raw.gids,
            runtime_flags: raw.runtime_flags,
            rlimits: raw.rlimits,
            mount_external: raw.mount_external,
            se_info: raw.se_info,
            nice_name: raw.nice_name,
            fds_to_close: raw.fds_to_close,
            fds_to_ignore: raw.fds_to_ignore,
            is_child_zygote: raw.is_child_zygote,
            instruction_set: raw.instruction_set,
            app_data_dir: raw.app_data_dir,
            is_top_app: raw.is_top_app,
            pkg_data_info_list: raw.pkg_data_info_list,
            whitelisted_data_info_list: raw.whitelisted_data_info_list,
            bind_mount_app_data_dirs: raw.bind_mount_app_data_dirs,
            bind_mount_app_storage_dirs: raw.bind_mount_app_storage_dirs,
        }
    }

    /// Write the handler's view back into the host's cells, slot by slot,
    /// following `cell_after_return`: only a slot the host supplied can
    /// change, and it takes the handler's value exactly.
    pub fn write_back(&self, raw: &mut RawForkAndSpecializeArgs)
        ensures
            *final(raw) == old(raw).after_write_back(*self),
            old(raw).same_presence(*final(raw)),
    {
        merge_slot(&mut raw.uid, self.uid);
        merge_slot(&mut raw.gid, self.gid);
        merge_slot(&mut raw.gids, self.gids);
        merge_slot(&mut raw.runtime_flags, self.runtime_flags);
        merge_slot(&mut raw.rlimits, self.rlimits);
        merge_slot(&mut raw.mount_external, self.mount_external);
        merge_slot(&mut raw.se_info, self.se_info);
        merge_slot(&mut raw.nice_name, self.nice_name);
        merge_slot(&mut raw.fds_to_close, self.fds_to_close);
        merge_slot(&mut raw.fds_to_ignore, self.fds_to_ignore);
        merge_slot(&mut raw.is_child_zygote, self.is_child_zygote);
        merge_slot(&mut raw.instruction_set, self.instruction_set);
        merge_slot(&mut raw.app_data_dir, self.app_data_dir);
        merge_slot(&mut raw.is_top_app, self.is_top_app);
        merge_slot(&mut raw.pkg_data_info_list, self.pkg_data_info_list);
        merge_slot(&mut raw.whitelisted_data_info_list, self.whitelisted_data_info_list);
        merge_slot(&mut raw.bind_mount_app_data_dirs, self.bind_mount_app_data_dirs);
        merge_slot(&mut raw.bind_mount_app_storage_dirs, self.bind_mount_app_storage_dirs);
    }
}

/// Raw parameter slots of the fork-system-server hook, in the host's
/// order.
pub struct RawForkSystemServerArgs {
    pub uid: Option<i32>,
    pub gid: Option<i32>,
    pub gids: Option<JavaRef>,
    pub runtime_flags: Option<i32>,
    pub rlimits: Option<JavaRef>,
    pub permitted_capabilities: Option<i64>,
    pub effective_capabilities: Option<i64>,
}

impl RawForkSystemServerArgs {
    /// Both sides offer the same slots: presence is fixed by the host
    /// build and survives a trampoline call unchanged.
    pub open spec fn same_presence(self, other: RawForkSystemServerArgs) -> bool {
        &&& (other.uid is Some) == (self.uid is Some)
        &&& (other.gid is Some) == (self.gid is Some)
        &&& (other.gids is Some) == (self.gids is Some)
        &&& (other.runtime_flags is Some) == (self.runtime_flags is Some)
        &&& (other.rlimits is Some) == (self.rlimits is Some)
        &&& (other.permitted_capabilities is Some) == (self.permitted_capabilities is Some)
        &&& (other.effective_capabilities is Some) == (self.effective_capabilities is Some)
    }

    /// The typed view of these slots, exactly as `marshal` builds it.
    pub open spec fn typed_view(self) -> ForkSystemServerArgs {
        ForkSystemServerArgs {
            uid: self.uid,
            gid: self.gid,
            gids: self.gids,
            runtime_flags: self.runtime_flags,
            rlimits: self.rlimits,
            permitted_capabilities: self.permitted_capabilities,
            effective_capabilities: self.effective_capabilities,
        }
    }

    /// These slots after a handler's view is written back, exactly as
    /// `write_back` leaves them.
    pub open spec fn after_write_back(self, args: ForkSystemServerArgs) -> RawForkSystemServerArgs {
        RawForkSystemServerArgs {
            uid: cell_after_return(self.uid, args.uid),
            gid: cell_after_return(self.gid, args.gid),
            gids: cell_after_return(self.gids, args.gids),
            runtime_flags: cell_after_return(self.runtime_flags, args.runtime_flags),
            rlimits: cell_after_return(self.rlimits, args.rlimits),
            permitted_capabilities: cell_after_return(
                self.permitted_capabilities,
                args.permitted_capabilities,
            ),
            effective_capabilities: cell_after_return(
                self.effective_capabilities,
                args.effective_capabilities,
            ),
        }
    }
}

/// The fork-system-server hook's arguments as the handler sees them.
pub struct ForkSystemServerArgs {
    pub uid: Option<i32>,
    pub gid: Option<i32>,
    pub gids: Option<JavaRef>,
    pub runtime_flags: Option<i32>,
    pub rlimits: Option<JavaRef>,
    pub permitted_capabilities: Option<i64>,
    pub effective_capabilities: Option<i64>,
}

impl ForkSystemServerArgs {
    /// Build the typed view of the raw slots: every field mirrors its slot.
    pub fn marshal(raw: &RawForkSystemServerArgs) -> (args: ForkSystemServerArgs)
        ensures
            args == raw.typed_view(),
    {
        ForkSystemServerArgs {
            uid: raw.uid,
            gid: raw.gid,
            gids: raw.gids,
            runtime_flags: raw.runtime_flags,
            rlimits: raw.rlimits,
            permitted_capabilities: raw.permitted_capabilities,
            effective_capabilities: raw.effective_capabilities,
        }
    }

    /// Write the handler's view back into the host's cells, slot by slot,
    /// following `cell_after_return`.
    pub fn write_back(&self, raw: &mut RawForkSystemServerArgs)
        ensures
            *final(raw) == old(raw).after_write_back(*self),
            old(raw).same_presence(*final(raw)),
    {
        merge_slot(&mut raw.uid, self.uid);
        merge_slot(&mut raw.gid, self.gid);
        merge_slot(&mut raw.gids, self.gids);
        merge_slot(&mut raw.runtime_flags, self.runtime_flags);
        merge_slot(&mut raw.rlimits, self.rlimits);
        merge_slot(&mut raw.permitted_capabilities, self.permitted_capabilities);
        merge_slot(&mut raw.effective_capabilities, self.effective_capabilities);
    }
}

/// Raw parameter slots of the specialize-app-process hook, in the host's
/// order.
pub struct RawSpecializeAppProcessArgs {
    pub uid: Option<i32>,
    pub gid: Option<i32>,
    pub gids: Option<JavaRef>,
    pub runtime_flags: Option<i32>,
    pub rlimits: Option<JavaRef>,
    pub mount_external: Option<i32>,
    pub se_info: Option<JavaRef>,
    pub nice_name: Option<JavaRef>,
    pub start_child_zygote: Option<bool>,
    pub instruction_set: Option<JavaRef>,
    pub app_data_dir: Option<JavaRef>,
    pub is_top_app: Option<bool>,
    pub pkg_data_info_list: Option<JavaRef>,
    pub whitelisted_data_info_list: Option<JavaRef>,
    pub bind_mount_app_data_dirs: Option<bool>,
    pub bind_mount_app_storage_dirs: Option<bool>,
}

impl RawSpecializeAppProcessArgs {
    /// Both sides offer the same slots: presence is fixed by the host
    /// build and survives a trampoline call unchanged.
    pub open spec fn same_presence(self, other: RawSpecializeAppProcessArgs) -> bool {
        &&& (other.uid is Some) == (self.uid is Some)
        &&& (other.gid is Some) == (self.gid is Some)
        &&& (other.gids is Some) == (self.gids is Some)
        &&& (other.runtime_flags is Some) == (self.runtime_flags is Some)
        &&& (other.rlimits is Some) == (self.rlimits is Some)
        &&& (other.mount_external is Some) == (self.mount_external is Some)
        &&& (other.se_info is Some) == (self.se_info is Some)
        &&& (other.nice_name is Some) == (self.nice_name is Some)
        &&& (other.start_child_zygote is Some) == (self.start_child_zygote is Some)
        &&& (other.instruction_set is Some) == (self.instruction_set is Some)
        &&& (other.app_data_dir is Some) == (self.app_data_dir is Some)
        &&& (other.is_top_app is Some) == (self.is_top_app is Some)
        &&& (other.pkg_data_info_list is Some) == (self.pkg_data_info_list is Some)
        &&& (other.whitelisted_data_info_list is Some) == (self.whitelisted_data_info_list
            is Some)
        &&& (other.bind_mount_app_data_dirs is Some) == (self.bind_mount_app_data_dirs is Some)
        &&& (other.bind_mount_app_storage_dirs is Some) == (self.bind_mount_app_storage_dirs
            is Some)
    }

    /// The typed view of these slots, exactly as `marshal` builds it.
    pub open spec fn typed_view(self) -> SpecializeAppProcessArgs {
        SpecializeAppProcessArgs {
            uid: self.uid,
            gid: self.gid,
            gids: self.gids,
            runtime_flags: self.runtime_flags,
            rlimits: self.rlimits,
            mount_external: self.mount_external,
            se_info: self.se_info,
            nice_name: self.nice_name,
            start_child_zygote: self.start_child_zygote,
            instruction_set: self.instruction_set,
            app_data_dir: self.app_data_dir,
            is_top_app: self.is_top_app,
            pkg_data_info_list: self.pkg_data_info_list,
            whitelisted_data_info_list: self.whitelisted_data_info_list,
            bind_mount_app_data_dirs: self.bind_mount_app_data_dirs,
            bind_mount_app_storage_dirs: self.bind_mount_app_storage_dirs,
        }
    }

    /// These slots after a handler's view is written back, exactly as
    /// `write_back` leaves them.
    pub open spec fn after_write_back(
        self,
        args: SpecializeAppProcessArgs,
    ) -> RawSpecializeAppProcessArgs {
        RawSpecializeAppProcessArgs {
            uid: cell_after_return(self.uid, args.uid),
            gid: cell_after_return(self.gid, args.gid),
            gids: cell_after_return(self.gids, args.gids),
            runtime_flags: cell_after_return(self.runtime_flags, args.runtime_flags),
            rlimits: cell_after_return(self.rlimits, args.rlimits),
            mount_external: cell_after_return(self.mount_external, args.mount_external),
            se_info: cell_after_return(self.se_info, args.se_info),
            nice_name: cell_after_return(self.nice_name, args.nice_name),
            start_child_zygote: cell_after_return(
                self.start_child_zygote,
                args.start_child_zygote,
            ),
            instruction_set: cell_after_return(self.instruction_set, args.instruction_set),
            app_data_dir: cell_after_return(self.app_data_dir, args.app_data_dir),
            is_top_app: cell_after_return(self.is_top_app, args.is_top_app),
            pkg_data_info_list: cell_after_return(self.pkg_data_info_list, args.pkg_data_info_list),
            whitelisted_data_info_list: cell_after_return(
                self.whitelisted_data_info_list,
                args.whitelisted_data_info_list,
            ),
            bind_mount_app_data_dirs: cell_after_return(
                self.bind_mount_app_data_dirs,
                args.bind_mount_app_data_dirs,
            ),
            bind_mount_app_storage_dirs: cell_after_return(
                self.bind_mount_app_storage_dirs,
                args.bind_mount_app_storage_dirs,
            ),
        }
    }
}

/// The specialize-app-process hook's arguments as the handler sees them.
pub struct SpecializeAppProcessArgs {
    pub uid: Option<i32>,
    pub gid: Option<i32>,
    pub gids: Option<JavaRef>,
    pub runtime_flags: Option<i32>,
    pub rlimits: Option<JavaRef>,
    pub mount_external: Option<i32>,
    pub se_info: Option<JavaRef>,
    pub nice_name: Option<JavaRef>,
    pub start_child_zygote: Option<bool>,
    pub instruction_set: Option<JavaRef>,
    pub app_data_dir: Option<JavaRef>,
    pub is_top_app: Option<bool>,
    pub pkg_data_info_list: Option<JavaRef>,
    pub whitelisted_data_info_list: Option<JavaRef>,
    pub bind_mount_app_data_dirs: Option<bool>,
    pub bind_mount_app_storage_dirs: Option<bool>,
}

impl SpecializeAppProcessArgs {
    /// Build the typed view of the raw slots: every field mirrors its slot.
    pub fn marshal(raw: &RawSpecializeAppProcessArgs) -> (args: SpecializeAppProcessArgs)
        ensures
            args == raw.typed_view(),
    {
        SpecializeAppProcessArgs {
            uid: raw.uid,
            gid: raw.gid,
            gids: raw.gids,
            runtime_flags: raw.runtime_flags,
            rlimits: raw.rlimits,
            mount_external: raw.mount_external,
            se_info: raw.se_info,
            nice_name: raw.nice_name,
            start_child_zygote: raw.start_child_zygote,
            instruction_set: raw.instruction_set,
            app_data_dir: raw.app_data_dir,
            is_top_app: raw.is_top_app,
            pkg_data_info_list: raw.pkg_data_info_list,
            whitelisted_data_info_list: raw.whitelisted_data_info_list,
            bind_mount_app_data_dirs: raw.bind_mount_app_data_dirs,
            bind_mount_app_storage_dirs: raw.bind_mount_app_storage_dirs,
        }
    }

    /// Write the handler's view back into the host's cells, slot by slot,
    /// following `cell_after_return`.
    pub fn write_back(&self, raw: &mut RawSpecializeAppProcessArgs)
        ensures
            *final(raw) == old(raw).after_write_back(*self),
            old(raw).same_presence(*final(raw)),
    {
        merge_slot(&mut raw.uid, self.uid);
        merge_slot(&mut raw.gid, self.gid);
        merge_slot(&mut raw.gids, self.gids);
        merge_slot(&mut raw.runtime_flags, self.runtime_flags);
        merge_slot(&mut raw.rlimits, self.rlimits);
        merge_slot(&mut raw.mount_external, self.mount_external);
        merge_slot(&mut raw.se_info, self.se_info);
        merge_slot(&mut raw.nice_name, self.nice_name);
        merge_slot(&mut raw.start_child_zygote, self.start_child_zygote);
        merge_slot(&mut raw.instruction_set, self.instruction_set);
        merge_slot(&mut raw.app_data_dir, self.app_data_dir);
        merge_slot(&mut raw.is_top_app, self.is_top_app);
        merge_slot(&mut raw.pkg_data_info_list, self.pkg_data_info_list);
        merge_slot(&mut raw.whitelisted_data_info_list, self.whitelisted_data_info_list);
        merge_slot(&mut raw.bind_mount_app_data_dirs, self.bind_mount_app_data_dirs);
        merge_slot(&mut raw.bind_mount_app_storage_dirs, self.bind_mount_app_storage_dirs);
    }
}

} // verus!
