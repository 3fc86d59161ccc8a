use riru::ForkAndSpecializeArgs;
use riru::ForkSystemServerArgs;
use riru::JavaRef;
use riru::RawForkAndSpecializeArgs;
use riru::RawForkSystemServerArgs;
use riru::RawSpecializeAppProcessArgs;
use riru::SpecializeAppProcessArgs;

fn sparse_fork_raw() -> RawForkAndSpecializeArgs {
    RawForkAndSpecializeArgs {
        uid: Some(10144),
        gid: Some(10144),
        gids: Some(JavaRef { handle: 0x1000 }),
        runtime_flags: Some(0x4000),
        rlimits: None,
        mount_external: Some(1),
        se_info: None,
        nice_name: Some(JavaRef { handle: 0x2000 }),
        fds_to_close: Some(JavaRef { handle: 0x3000 }),
        fds_to_ignore: None,
        is_child_zygote: Some(false),
        instruction_set: None,
        app_data_dir: Some(JavaRef { handle: 0x4000 }),
        is_top_app: Some(true),
        pkg_data_info_list: None,
        whitelisted_data_info_list: None,
        bind_mount_app_data_dirs: Some(true),
        bind_mount_app_storage_dirs: None,
    }
}

#[test]
fn null_slots_marshal_to_absent_fields() {
    let raw = sparse_fork_raw();
    let args = ForkAndSpecializeArgs::marshal(&raw);
    assert_eq!(args.rlimits, None);
    assert_eq!(args.se_info, None);
    assert_eq!(args.fds_to_ignore, None);
    assert_eq!(args.instruction_set, None);
    assert_eq!(args.pkg_data_info_list, None);
    assert_eq!(args.whitelisted_data_info_list, None);
    assert_eq!(args.bind_mount_app_storage_dirs, None);
}

#[test]
fn live_slots_marshal_to_present_values() {
    let raw = sparse_fork_raw();
    let args = ForkAndSpecializeArgs::marshal(&raw);
    assert_eq!(args.uid, Some(10144));
    assert_eq!(args.gid, Some(10144));
    assert_eq!(args.gids, Some(JavaRef { handle: 0x1000 }));
    assert_eq!(args.runtime_flags, Some(0x4000));
    assert_eq!(args.mount_external, Some(1));
    assert_eq!(args.nice_name, Some(JavaRef { handle: 0x2000 }));
    assert_eq!(args.is_child_zygote, Some(false));
    assert_eq!(args.is_top_app, Some(true));
    assert_eq!(args.bind_mount_app_data_dirs, Some(true));
}

#[test]
fn write_back_lands_in_present_cells() {
    let mut raw = sparse_fork_raw();
    let mut args = ForkAndSpecializeArgs::marshal(&raw);
    args.uid = Some(99);
    args.nice_name = Some(JavaRef { handle: 0x5151 });
    args.is_top_app = Some(false);
    args.write_back(&mut raw);
    assert_eq!(raw.uid, Some(99));
    assert_eq!(raw.nice_name, Some(JavaRef { handle: 0x5151 }));
    assert_eq!(raw.is_top_app, Some(false));
}

#[test]
fn write_back_never_touches_absent_cells() {
    let mut raw = sparse_fork_raw();
    let mut args = ForkAndSpecializeArgs::marshal(&raw);
    args.rlimits = Some(JavaRef { handle: 0x7777 });
    args.se_info = Some(JavaRef { handle: 0x8888 });
    args.bind_mount_app_storage_dirs = Some(true);
    args.write_back(&mut raw);
    assert_eq!(raw.rlimits, None);
    assert_eq!(raw.se_info, None);
    assert_eq!(raw.bind_mount_app_storage_dirs, None);
}

#[test]
fn write_back_of_untouched_view_changes_nothing() {
    let mut raw = sparse_fork_raw();
    let args = ForkAndSpecializeArgs::marshal(&raw);
    args.write_back(&mut raw);
    let orig = sparse_fork_raw();
    assert_eq!(raw.uid, orig.uid);
    assert_eq!(raw.gid, orig.gid);
    assert_eq!(raw.gids, orig.gids);
    assert_eq!(raw.runtime_flags, orig.runtime_flags);
    assert_eq!(raw.rlimits, orig.rlimits);
    assert_eq!(raw.mount_external, orig.mount_external);
    assert_eq!(raw.se_info, orig.se_info);
    assert_eq!(raw.nice_name, orig.nice_name);
    assert_eq!(raw.fds_to_close, orig.fds_to_close);
    assert_eq!(raw.fds_to_ignore, orig.fds_to_ignore);
    assert_eq!(raw.is_child_zygote, orig.is_child_zygote);
    assert_eq!(raw.instruction_set, orig.instruction_set);
    assert_eq!(raw.app_data_dir, orig.app_data_dir);
    assert_eq!(raw.is_top_app, orig.is_top_app);
    assert_eq!(raw.pkg_data_info_list, orig.pkg_data_info_list);
    assert_eq!(raw.whitelisted_data_info_list, orig.whitelisted_data_info_list);
    assert_eq!(raw.bind_mount_app_data_dirs, orig.bind_mount_app_data_dirs);
    assert_eq!(raw.bind_mount_app_storage_dirs, orig.bind_mount_app_storage_dirs);
}

#[test]
fn system_server_slots_round_trip() {
    let mut raw = RawForkSystemServerArgs {
        uid: Some(1000),
        gid: Some(1000),
        gids: None,
        runtime_flags: Some(0),
        rlimits: Some(JavaRef { handle: 0xA0 }),
        permitted_capabilities: Some(0x20400_0000i64),
        effective_capabilities: None,
    };
    let mut args = ForkSystemServerArgs::marshal(&raw);
    assert_eq!(args.permitted_capabilities, Some(0x20400_0000i64));
    assert_eq!(args.gids, None);
    args.permitted_capabilities = Some(0i64);
    args.effective_capabilities = Some(-1i64);
    args.write_back(&mut raw);
    assert_eq!(raw.permitted_capabilities, Some(0i64));
    assert_eq!(raw.effective_capabilities, None);
    assert_eq!(raw.uid, Some(1000));
}

#[test]
fn specialize_slots_round_trip() {
    let mut raw = RawSpecializeAppProcessArgs {
        uid: Some(10233),
        gid: None,
        gids: None,
        runtime_flags: Some(7),
        rlimits: None,
        mount_external: Some(2),
        se_info: Some(JavaRef { handle: 0xB0 }),
        nice_name: Some(JavaRef { handle: 0xB1 }),
        start_child_zygote: Some(true),
        instruction_set: Some(JavaRef { handle: 0xB2 }),
        app_data_dir: None,
        is_top_app: None,
        pkg_data_info_list: None,
        whitelisted_data_info_list: None,
        bind_mount_app_data_dirs: None,
        bind_mount_app_storage_dirs: None,
    };
    let mut args = SpecializeAppProcessArgs::marshal(&raw);
    assert_eq!(args.start_child_zygote, Some(true));
    assert_eq!(args.app_data_dir, None);
    args.uid = Some(10500);
    args.start_child_zygote = Some(false);
    args.gid = Some(5);
    args.write_back(&mut raw);
    assert_eq!(raw.uid, Some(10500));
    assert_eq!(raw.start_child_zygote, Some(false));
    assert_eq!(raw.gid, None);
    assert_eq!(raw.se_info, Some(JavaRef { handle: 0xB0 }));
}
