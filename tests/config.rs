use cfs::config::{is_plain_name, ConfigError, ContainerBuilder, CONFIG_FAILURE_CODE};
use cfs::launch::{command_status_code, rm_cgroup_dir, Launch};
use cfs::protocol::Action;

#[test]
fn builder_sets_every_field() {
    let c = ContainerBuilder::new()
        .args(vec!["/bin/ls".to_string(), "-l".to_string()])
        .chroot_path("/srv/root".to_string())
        .max_pids(9)
        .cgroup_name("box")
        .hostname("host")
        .create();
    assert_eq!(c.args, vec!["/bin/ls".to_string(), "-l".to_string()]);
    assert_eq!(c.chroot_path, "/srv/root");
    assert_eq!(c.max_pids, 9);
    assert_eq!(c.cgroup_name, "box");
    assert_eq!(c.hostname, "host");
    assert_eq!(c.validate(), Ok(()));
}

#[test]
fn new_builder_is_empty() {
    let c = ContainerBuilder::new().create();
    assert!(c.args.is_empty());
    assert_eq!(c.chroot_path, "");
    assert_eq!(c.max_pids, 0);
    assert_eq!(c.validate(), Err(ConfigError::EmptyCommand));
}

#[test]
fn empty_command_is_refused() {
    let c = ContainerBuilder::new().chroot_path("/srv/root".to_string()).create();
    assert_eq!(c.validate(), Err(ConfigError::EmptyCommand));
    assert_eq!(Launch::new(c).err(), Some(ConfigError::EmptyCommand));
}

#[test]
fn relative_or_empty_root_is_refused() {
    for root in ["", "srv/root"] {
        let c = ContainerBuilder::new()
            .args(vec!["/bin/true".to_string()])
            .chroot_path(root.to_string())
            .create();
        assert_eq!(c.validate(), Err(ConfigError::RootPathNotAbsolute));
        assert_eq!(Launch::new(c).err(), Some(ConfigError::RootPathNotAbsolute));
    }
}

#[test]
fn group_removal_targets_the_named_group() {
    let c = ContainerBuilder::new().cgroup_name("web").create();
    assert_eq!(
        rm_cgroup_dir(&c),
        Some(Action::RemoveDirAll { path: "/sys/fs/cgroup/pids/web".to_string() })
    );
    for name in ["", "/", "/etc", "a/b", ".", ".."] {
        let c = ContainerBuilder::new().cgroup_name(name).create();
        assert_eq!(rm_cgroup_dir(&c), None);
    }
}

#[test]
fn status_code_prefers_exit_code_then_signal() {
    assert_eq!(command_status_code(Some(7), None), 7);
    assert_eq!(command_status_code(Some(0), Some(9)), 0);
    assert_eq!(command_status_code(None, Some(9)), 137);
    assert_eq!(command_status_code(None, Some(500)), 255);
    assert_eq!(command_status_code(None, None), 255);
}

#[test]
fn group_name_must_be_one_plain_component() {
    for name in ["", "/", "/etc", "../etc", "a/b", "t1/", ".", ".."] {
        let c = ContainerBuilder::new()
            .args(vec!["/bin/true".to_string()])
            .chroot_path("/srv/root".to_string())
            .cgroup_name(name)
            .create();
        assert!(!is_plain_name(name));
        assert_eq!(c.validate(), Err(ConfigError::InvalidGroupName));
        assert_eq!(Launch::new(c).err(), Some(ConfigError::InvalidGroupName));
    }
    for name in ["t1", "cfs-container", "...", ".a", "a.", "x"] {
        assert!(is_plain_name(name));
    }
    assert_eq!(ConfigError::InvalidGroupName.exit_code(), CONFIG_FAILURE_CODE);
}
