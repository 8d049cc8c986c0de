use cfs::cli::{check_var, check_var_u8, parse_invocation, parse_u8, usage, Invocation};
use cfs::decimal::to_decimal;
use cfs::paths::{cgroup_path, pwd_join};

fn strings(v: &[&str]) -> Vec<String> {
    v.iter().map(|a| a.to_string()).collect()
}

#[test]
fn decimal_rendering() {
    assert_eq!(to_decimal(0), "0");
    assert_eq!(to_decimal(7), "7");
    assert_eq!(to_decimal(20), "20");
    assert_eq!(to_decimal(255), "255");
    assert_eq!(to_decimal(4194304), "4194304");
    assert_eq!(to_decimal(u64::MAX), u64::MAX.to_string());
}

#[test]
fn join_paths() {
    assert_eq!(pwd_join("/tmp/root", "oldroot"), "/tmp/root/oldroot");
    assert_eq!(pwd_join("/tmp/root/", "oldroot"), "/tmp/root/oldroot");
    assert_eq!(pwd_join("/", "oldroot"), "/oldroot");
    assert_eq!(pwd_join("/tmp", "/etc"), "/etc");
    assert_eq!(pwd_join("", "a"), "a");
    assert_eq!(pwd_join("/a", ""), "/a/");
    assert_eq!(cgroup_path("t1"), "/sys/fs/cgroup/pids/t1");
}

#[test]
fn parse_bytes() {
    assert_eq!(parse_u8("0"), Some(0));
    assert_eq!(parse_u8("20"), Some(20));
    assert_eq!(parse_u8("+5"), Some(5));
    assert_eq!(parse_u8("255"), Some(255));
    assert_eq!(parse_u8("007"), Some(7));
    assert_eq!(parse_u8("256"), None);
    assert_eq!(parse_u8("99999999999"), None);
    assert_eq!(parse_u8(""), None);
    assert_eq!(parse_u8("+"), None);
    assert_eq!(parse_u8("-1"), None);
    assert_eq!(parse_u8("1a"), None);
    assert_eq!(parse_u8(" 1"), None);
    for n in 0..=255u16 {
        assert_eq!(parse_u8(&n.to_string()), n.to_string().parse::<u8>().ok());
    }
}

#[test]
fn byte_settings_fall_back_to_default() {
    assert_eq!(check_var_u8(Some("12"), 20), 12);
    assert_eq!(check_var_u8(Some("x"), 20), 20);
    assert_eq!(check_var_u8(Some("300"), 20), 20);
    assert_eq!(check_var_u8(None, 20), 20);
}

#[test]
fn string_settings_fall_back_to_default() {
    assert_eq!(check_var(Some("a".to_string()), Some("b")), Some("a".to_string()));
    assert_eq!(check_var(None, Some("b")), Some("b".to_string()));
    assert_eq!(check_var(None, None), None);
}

#[test]
fn command_line_dispatch() {
    assert_eq!(parse_invocation(&strings(&["cfs"])), Invocation::MissingArguments);
    assert_eq!(parse_invocation(&strings(&["cfs", "run"])), Invocation::MissingArguments);
    assert_eq!(
        parse_invocation(&strings(&["cfs", "run", "/bin/sh", "-c", "exit 7"])),
        Invocation::Run { args: strings(&["/bin/sh", "-c", "exit 7"]) }
    );
    assert_eq!(
        parse_invocation(&strings(&["cfs", "shell"])),
        Invocation::Unknown { command: "shell".to_string() }
    );
}

#[test]
fn usage_names_the_settings() {
    let u = usage();
    assert!(u.starts_with("usage: cfs run cmd arg1 arg2 ...\n"));
    assert!(u.contains("\n  CHROOT_PATH=<path to your root filesystem to run the process inside>"));
    assert!(u.ends_with("\n  CONTAINER_NAME=<name for container hostname>"));
}
