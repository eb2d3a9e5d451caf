use iocage_provision::command::{CommandInvocation, JailSpec};
use iocage_provision::error::{CmdError, Error};
use iocage_provision::host::Identity;
use iocage_provision::workflow::{exit_verdict, Action, Event, Phase, Provisioner, ProvisioningRequest};

fn ferris_jail() -> JailSpec {
    JailSpec {
        name: "ferris".to_string(),
        ip: "192.168.0.100/24".to_string(),
        gateway: "192.168.0.1".to_string(),
        release: "13.1-RELEASE".to_string(),
        thick: false,
    }
}

fn jdoe() -> Identity {
    Identity {
        user_name: "jdoe".to_string(),
        uid: 1001,
        group_name: "jdoe".to_string(),
        gid: 1002,
        shell: "/usr/local/bin/bash".to_string(),
    }
}

fn request(identity: Option<Identity>, ssh: bool) -> ProvisioningRequest {
    ProvisioningRequest { jail: ferris_jail(), identity, ssh }
}

fn strs(v: &[String]) -> Vec<&str> {
    v.iter().map(|s| s.as_str()).collect()
}

/// Runs a request against a runner that answers every command with `answer`,
/// returning the commands run and the final result.
fn run_all(
    req: ProvisioningRequest,
    mut answer: impl FnMut(usize) -> Result<Option<i32>, CmdError>,
) -> (String, Vec<CommandInvocation>, Result<(), Error>) {
    let (mut p, first) = Provisioner::new(req);
    let json = match first {
        Action::WritePkglist(json) => json,
        other => panic!("unexpected first action {:?}", other),
    };
    let mut action = p.advance(Event::PkglistWritten("/tmp/pkglist12345.json".to_string()));
    let mut ran = Vec::new();
    loop {
        match action {
            Action::Run(cmd) => {
                ran.push(cmd);
                action = p.advance(Event::StepRan(answer(ran.len() - 1)));
            }
            Action::Finish(result) => return (json, ran, result),
            Action::WritePkglist(_) => panic!("package list asked for twice"),
        }
    }
}

#[test]
fn end_to_end_ferris_creates_only() {
    let (json, ran, result) = run_all(request(None, false), |_| Ok(Some(0)));
    assert_eq!(json, r#"{"pkgs":[]}"#);
    assert!(result.is_ok());
    assert_eq!(ran.len(), 1);
    let cmd = &ran[0];
    assert_eq!(cmd.program, "iocage");
    assert_eq!(
        strs(&cmd.args),
        vec![
            "create",
            "--name",
            "ferris",
            "--release",
            "13.1-RELEASE",
            "--pkglist",
            "/tmp/pkglist12345.json",
            "--force",
            "vnet=on",
            "ip4_addr=vnet0|192.168.0.100/24",
            "defaultrouter=192.168.0.1",
            "resolver=none",
            "boot=on",
        ]
    );
    assert_eq!(cmd.envs, vec![("PYTHONUNBUFFERED".to_string(), "true".to_string())]);
    assert!(cmd.stdin.is_none());
}

#[test]
fn thick_jail_adds_flag() {
    let mut req = request(None, false);
    req.jail.thick = true;
    let (_, ran, _) = run_all(req, |_| Ok(Some(0)));
    assert_eq!(ran[0].args[8], "--thickjail");
    assert_eq!(ran[0].args[9], "vnet=on");
    assert_eq!(ran[0].args.len(), 14);
}

#[test]
fn ssh_only_runs_create_then_ssh() {
    let (_, ran, result) = run_all(request(None, true), |_| Ok(Some(0)));
    assert!(result.is_ok());
    assert_eq!(ran.len(), 2);
    assert_eq!(strs(&ran[1].args), vec!["exec", "ferris", "sh"]);
    assert_eq!(
        ran[1].stdin.as_deref(),
        Some("set -eu\n\nsysrc -f /etc/rc.conf sshd_enable=\"YES\"\nservice sshd start")
    );
}

#[test]
fn identity_steps_run_in_order() {
    let (json, ran, result) = run_all(request(Some(jdoe()), true), |_| Ok(Some(0)));
    assert_eq!(json, r#"{"pkgs":["sudo","bash"]}"#);
    assert!(result.is_ok());
    let scripts: Vec<&str> = ran[1..].iter().map(|c| c.stdin.as_deref().unwrap()).collect();
    assert_eq!(ran[0].args[0], "create");
    assert_eq!(
        scripts,
        vec![
            "set -eu\n\necho '%wheel ALL=(ALL) NOPASSWD: ALL' >/usr/local/etc/sudoers.d/wheel",
            "set -eu\n\npw groupadd -n 'jdoe' -g '1002'",
            "set -eu\n\npw useradd -n 'jdoe' -u '1001' -g 'jdoe' -G wheel -m -s '/usr/local/bin/bash'",
            "set -eu\n\nsysrc -f /etc/rc.conf sshd_enable=\"YES\"\nservice sshd start",
        ]
    );
}

#[test]
fn identity_without_ssh_runs_four_steps() {
    let mut id = jdoe();
    id.shell = "/bin/sh".to_string();
    let (json, ran, result) = run_all(request(Some(id), false), |_| Ok(Some(0)));
    assert_eq!(json, r#"{"pkgs":["sudo"]}"#);
    assert!(result.is_ok());
    assert_eq!(ran.len(), 4);
}

#[test]
fn failure_stops_and_names_each_step() {
    for failing in 0..5 {
        let (_, ran, result) = run_all(request(Some(jdoe()), true), |i| {
            if i == failing {
                Ok(Some(3))
            } else {
                Ok(Some(0))
            }
        });
        assert_eq!(ran.len(), failing + 1);
        let err = result.unwrap_err();
        let cause = match (failing, err) {
            (0, Error::IocageCreate(e)) => e,
            (1, Error::ExecSudoConfig(e)) => e.0,
            (2, Error::ExecCreateGroup(e)) => e.0,
            (3, Error::ExecCreateUser(e)) => e.0,
            (4, Error::ExecSshService(e)) => e.0,
            (i, e) => panic!("step {} failed with {:?}", i, e),
        };
        assert!(matches!(cause, CmdError::Failed(3)));
    }
}

#[test]
fn runner_error_is_attributed_to_step() {
    let (_, ran, result) = run_all(request(Some(jdoe()), false), |i| {
        if i == 1 {
            Err(CmdError::StreamCapture("stdin"))
        } else {
            Ok(Some(0))
        }
    });
    assert_eq!(ran.len(), 2);
    match result {
        Err(Error::ExecSudoConfig(e)) => assert!(matches!(e.0, CmdError::StreamCapture("stdin"))),
        other => panic!("unexpected {:?}", other),
    }
}

#[test]
fn signal_death_fails_with_minus_one() {
    let (_, _, result) = run_all(request(None, false), |_| Ok(None));
    assert!(matches!(result, Err(Error::IocageCreate(CmdError::Failed(-1)))));
}

#[test]
fn exit_verdict_cases() {
    assert!(exit_verdict(Ok(Some(0))).is_ok());
    assert!(matches!(exit_verdict(Ok(Some(1))), Err(CmdError::Failed(1))));
    assert!(matches!(exit_verdict(Ok(Some(-7))), Err(CmdError::Failed(-7))));
    assert!(matches!(exit_verdict(Ok(None)), Err(CmdError::Failed(-1))));
    assert!(matches!(exit_verdict(Err(CmdError::Thread("stdout"))), Err(CmdError::Thread("stdout"))));
}

#[test]
fn pkglist_failure_runs_nothing() {
    let (mut p, _) = Provisioner::new(request(Some(jdoe()), true));
    let err = std::io::Error::new(std::io::ErrorKind::Other, "disk full");
    match p.advance(Event::PkglistFailed(err)) {
        Action::Finish(Err(Error::CreatePkglistJson(e))) => assert_eq!(e.to_string(), "disk full"),
        other => panic!("unexpected {:?}", other),
    }
    assert_eq!(p.phase, Phase::Failed);
    assert_eq!(p.issued, 0);
}

#[test]
fn replay_gives_same_invocations() {
    let req = request(Some(jdoe()), true);
    let (json1, ran1, r1) = run_all(req.clone(), |_| Ok(Some(0)));
    let (json2, ran2, r2) = run_all(req, |_| Ok(Some(0)));
    assert!(r1.is_ok() && r2.is_ok());
    assert_eq!(json1, json2);
    assert_eq!(format!("{:?}", ran1), format!("{:?}", ran2));
    assert_eq!(ran1.len(), 5);
}
