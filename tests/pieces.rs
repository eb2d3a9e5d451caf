use iocage_provision::command::{decimal, exec_create_group, exec_sudo_config, iocage_exec};
use iocage_provision::error::{CmdError, Error, IocageExecError};
use iocage_provision::gateway::{netstat_gateway, NetstatError};
use iocage_provision::host::{
    check_root, default_release, group_or_error, identity_of, release_from_kernel, user_or_error,
    HostGroup, HostUser, Identity,
};
use iocage_provision::output::{decode_line, indent, LineSplitter};
use iocage_provision::pkglist::{create_pkglist_json, pkglist_for_shell_name};

#[test]
fn decimal_values() {
    assert_eq!(decimal(0), "0");
    assert_eq!(decimal(7), "7");
    assert_eq!(decimal(10), "10");
    assert_eq!(decimal(1001), "1001");
    assert_eq!(decimal(u32::MAX), "4294967295");
}

#[test]
fn exec_invocation_shape() {
    let cmd = iocage_exec("box", "true");
    assert_eq!(cmd.program, "iocage");
    assert_eq!(cmd.args, vec!["exec", "box", "sh"]);
    assert_eq!(cmd.stdin.as_deref(), Some("set -eu\n\ntrue"));
    assert_eq!(cmd.envs, vec![("PYTHONUNBUFFERED".to_string(), "true".to_string())]);
    let sudo = exec_sudo_config("box");
    assert_eq!(
        sudo.stdin.as_deref(),
        Some("set -eu\n\necho '%wheel ALL=(ALL) NOPASSWD: ALL' >/usr/local/etc/sudoers.d/wheel")
    );
}

#[test]
fn group_script_uses_gid() {
    let id = Identity {
        user_name: "u".to_string(),
        uid: 0,
        group_name: "staff".to_string(),
        gid: 0,
        shell: "/bin/sh".to_string(),
    };
    let cmd = exec_create_group("j", &id);
    assert_eq!(cmd.stdin.as_deref(), Some("set -eu\n\npw groupadd -n 'staff' -g '0'"));
}

#[test]
fn pkglist_for_each_shell() {
    assert_eq!(pkglist_for_shell_name(None), r#"{"pkgs":[]}"#);
    assert_eq!(pkglist_for_shell_name(Some("bash")), r#"{"pkgs":["sudo","bash"]}"#);
    assert_eq!(pkglist_for_shell_name(Some("zsh")), r#"{"pkgs":["sudo"]}"#);
    assert_eq!(pkglist_for_shell_name(Some("")), r#"{"pkgs":["sudo"]}"#);
    assert_eq!(pkglist_for_shell_name(Some("bash5")), r#"{"pkgs":["sudo"]}"#);
}

fn with_shell(shell: &str) -> Identity {
    Identity {
        user_name: "u".to_string(),
        uid: 1,
        group_name: "g".to_string(),
        gid: 1,
        shell: shell.to_string(),
    }
}

#[test]
fn pkglist_reads_shell_file_name() {
    assert_eq!(create_pkglist_json(None), r#"{"pkgs":[]}"#);
    assert_eq!(
        create_pkglist_json(Some(&with_shell("/usr/local/bin/bash"))),
        r#"{"pkgs":["sudo","bash"]}"#
    );
    assert_eq!(create_pkglist_json(Some(&with_shell("/bin/csh"))), r#"{"pkgs":["sudo"]}"#);
    assert_eq!(create_pkglist_json(Some(&with_shell("/bin/bash/.."))), r#"{"pkgs":["sudo"]}"#);
    assert_eq!(create_pkglist_json(Some(&with_shell("/bin/bash/"))), r#"{"pkgs":["sudo","bash"]}"#);
    assert_eq!(create_pkglist_json(Some(&with_shell("/bin/bash/."))), r#"{"pkgs":["sudo","bash"]}"#);
    assert_eq!(create_pkglist_json(Some(&with_shell("bash"))), r#"{"pkgs":["sudo","bash"]}"#);
    assert_eq!(create_pkglist_json(Some(&with_shell("/"))), r#"{"pkgs":["sudo"]}"#);
}

#[test]
fn splitter_keeps_lines_once_in_order() {
    let data = b"one\r\ntwo\n\nthree\nfour";
    for cut in 1..data.len() {
        let mut s = LineSplitter::new();
        let mut lines = Vec::new();
        for chunk in data.chunks(cut) {
            lines.extend(s.push(chunk));
        }
        lines.extend(s.finish());
        let want: Vec<Vec<u8>> = vec![
            b"one".to_vec(),
            b"two".to_vec(),
            b"".to_vec(),
            b"three".to_vec(),
            b"four".to_vec(),
        ];
        assert_eq!(lines, want, "chunk size {}", cut);
    }
}

#[test]
fn splitter_interleaved_streams() {
    let mut out = LineSplitter::new();
    let mut err = LineSplitter::new();
    let mut seen_out = Vec::new();
    let mut seen_err = Vec::new();
    for i in 0..50u32 {
        let line = format!("out {}\n", i);
        seen_out.extend(out.push(line.as_bytes()));
        if i % 3 == 0 {
            let line = format!("err {}\n", i);
            seen_err.extend(err.push(&line.as_bytes()[..2]));
            seen_err.extend(err.push(&line.as_bytes()[2..]));
        }
    }
    assert!(out.finish().is_none());
    assert!(err.finish().is_none());
    assert_eq!(seen_out.len(), 50);
    assert_eq!(seen_err.len(), 17);
    for (i, l) in seen_out.iter().enumerate() {
        assert_eq!(l, format!("out {}", i).as_bytes());
    }
    for (k, l) in seen_err.iter().enumerate() {
        assert_eq!(l, format!("err {}", k * 3).as_bytes());
    }
}

#[test]
fn splitter_empty_stream() {
    let s = LineSplitter::new();
    assert!(s.finish().is_none());
    let mut s = LineSplitter::new();
    assert_eq!(s.push(b"\n"), vec![Vec::<u8>::new()]);
    assert!(s.finish().is_none());
}

#[test]
fn decode_and_indent() {
    assert_eq!(decode_line("héllo".as_bytes().to_vec(), "stdout").unwrap(), "héllo");
    assert!(matches!(decode_line(vec![0xff, 0x41], "stderr"), Err(CmdError::Thread("stderr"))));
    assert_eq!(indent("x"), "        x");
}

#[test]
fn ssh_script_has_one_command_per_line() {
    let cmd = iocage_provision::command::exec_ssh_service("j");
    let script = cmd.stdin.unwrap();
    assert!(!script.contains(';') && !script.contains("&&"));
    assert_eq!(
        script.lines().collect::<Vec<_>>(),
        vec!["set -eu", "", "sysrc -f /etc/rc.conf sshd_enable=\"YES\"", "service sshd start"]
    );
}

#[test]
fn release_names() {
    assert_eq!(release_from_kernel("11.2-STABLE"), "11.2-RELEASE");
    assert_eq!(release_from_kernel("13.1-RELEASE-p9"), "13.1-RELEASE");
    assert_eq!(release_from_kernel("12.0-CURRENT"), "12.0-CURRENT");
    assert_eq!(release_from_kernel("STABLE"), "RELEASE");
    assert_eq!(release_from_kernel("6.1.0"), "6.1.0");
    assert_eq!(release_from_kernel(""), "");
    assert_eq!(release_from_kernel("a-"), "a-");
}

#[test]
fn host_release_is_read() {
    let r = default_release().expect("uname works");
    assert!(!r.is_empty());
}

#[test]
fn root_check() {
    assert!(check_root(0).is_ok());
    assert!(matches!(check_root(1000), Err(Error::NotRoot)));
}

#[test]
fn lookups_map_to_errors() {
    match user_or_error("nobody-here", None) {
        Err(Error::NoUser(name)) => assert_eq!(name, "nobody-here"),
        other => panic!("unexpected {:?}", other),
    }
    let u = HostUser { name: "a".to_string(), uid: 5, primary_gid: 6, shell: "/bin/sh".to_string() };
    assert_eq!(user_or_error("a", Some(u.clone())).unwrap().uid, 5);
    assert!(matches!(group_or_error(42, None), Err(Error::NoGid(42))));
    let g = HostGroup { name: "grp".to_string(), gid: 6 };
    let id = identity_of(u, group_or_error(6, Some(g)).unwrap());
    assert_eq!(id.user_name, "a");
    assert_eq!(id.group_name, "grp");
    assert_eq!(id.gid, 6);
    assert_eq!(id.uid, 5);
}

#[test]
fn netstat_tables() {
    let table = "Routing tables\n\nInternet:\nDestination        Gateway            Flags     Netif Expire\ndefault            192.168.0.1        UGS         em0\n127.0.0.1          link#2             UH          lo0\n";
    assert_eq!(netstat_gateway(table).unwrap(), "192.168.0.1");
    assert_eq!(netstat_gateway("default\t10.0.0.1\r\n").unwrap(), "10.0.0.1");
    assert_eq!(netstat_gateway("x\ndefault   \n"), Err(NetstatError::SecondColumnNotFound));
    assert_eq!(netstat_gateway("nothing here\n"), Err(NetstatError::DefaultLineNotFound));
    assert_eq!(netstat_gateway(""), Err(NetstatError::DefaultLineNotFound));
    assert_eq!(netstat_gateway(" default 1.2.3.4"), Err(NetstatError::DefaultLineNotFound));
    assert_eq!(NetstatError::DefaultLineNotFound.message(), "default line not found");
}

#[test]
fn error_messages() {
    assert_eq!(Error::NoGid(20).message(), "system group id not found; gid=20");
    assert_eq!(Error::NoUser("jdoe".to_string()).message(), "system user not found; user=jdoe");
    assert_eq!(Error::NotRoot.message(), "root privileges required");
    assert_eq!(
        Error::ExecSudoConfig(IocageExecError(CmdError::Failed(1))).message(),
        "failed to prepare sudo config"
    );
    assert_eq!(CmdError::Failed(-1).message(), "command exited with non-zero code; code=-1");
    assert_eq!(CmdError::Failed(i32::MIN).message(), "command exited with non-zero code; code=-2147483648");
    assert_eq!(CmdError::Failed(2).message(), "command exited with non-zero code; code=2");
    assert_eq!(CmdError::StreamCapture("stdout").message(), "stream was not captured; stream=stdout");
    assert_eq!(IocageExecError(CmdError::Failed(1)).message(), "iocage exec command failed");
}
