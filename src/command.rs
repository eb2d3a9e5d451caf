//! The external commands that provisioning runs, built as plain values.

use crate::host::Identity;
use vstd::prelude::*;

verus! {

/// The jail to create.
#[derive(Debug, Clone)]
pub struct JailSpec {
    /// The jail's name.
    pub name: String,
    /// The jail's address and prefix length, as in `192.168.0.100/24`.
    pub ip: String,
    /// The address of the default router.
    pub gateway: String,
    /// The release the jail is based on, as in `13.1-RELEASE`.
    pub release: String,
    /// Whether the jail is a thick jail.
    pub thick: bool,
}

/// One external command: program, arguments, environment overrides and the
/// text fed to its standard input.
#[derive(Debug, Clone)]
pub struct CommandInvocation {
    pub program: String,
    pub args: Vec<String>,
    pub envs: Vec<(String, String)>,
    pub stdin: Option<String>,
}

/// The mathematical value of a `CommandInvocation`.
pub struct InvocationView {
    pub program: Seq<char>,
    pub args: Seq<Seq<char>>,
    pub envs: Seq<(Seq<char>, Seq<char>)>,
    pub stdin: Option<Seq<char>>,
}

impl View for CommandInvocation {
    type V = InvocationView;

    open spec fn view(&self) -> InvocationView {
        InvocationView {
            program: self.program@,
            args: self.args@.map_values(|a: String| a@),
            envs: self.envs@.map_values(|e: (String, String)| (e.0@, e.1@)),
            stdin: match self.stdin {
                Some(s) => Some(s@),
                None => None,
            },
        }
    }
}

/// The text of one decimal digit.
pub open spec fn digit_text(d: nat) -> Seq<char> {
    if d == 0 {
        "0"@
    } else if d == 1 {
        "1"@
    } else if d == 2 {
        "2"@
    } else if d == 3 {
        "3"@
    } else if d == 4 {
        "4"@
    } else if d == 5 {
        "5"@
    } else if d == 6 {
        "6"@
    } else if d == 7 {
        "7"@
    } else if d == 8 {
        "8"@
    } else {
        "9"@
    }
}

/// The decimal notation of `n`, without leading zeros.
pub open spec fn decimal_text(n: nat) -> Seq<char>
    decreases n,
{
    if n < 10 {
        digit_text(n)
    } else {
        decimal_text(n / 10) + digit_text(n % 10)
    }
}

fn digit_str(d: u32) -> (r: &'static str)
    requires
        d < 10,
    ensures
        r@ == digit_text(d as nat),
{
    if d == 0 {
        "0"
    } else if d == 1 {
        "1"
    } else if d == 2 {
        "2"
    } else if d == 3 {
        "3"
    } else if d == 4 {
        "4"
    } else if d == 5 {
        "5"
    } else if d == 6 {
        "6"
    } else if d == 7 {
        "7"
    } else if d == 8 {
        "8"
    } else {
        "9"
    }
}

/// Writes `n` in decimal.
pub fn decimal(n: u32) -> (r: String)
    ensures
        r@ == decimal_text(n as nat),
    decreases n,
{
    if n < 10 {
        String::from_str(digit_str(n))
    } else {
        let mut s = decimal(n / 10);
        s.append(digit_str(n % 10));
        s
    }
}

/// The environment override that keeps iocage, a Python program, from
/// buffering its output when it does not run in a terminal.
pub open spec fn unbuffered_envs() -> Seq<(Seq<char>, Seq<char>)> {
    seq![("PYTHONUNBUFFERED"@, "true"@)]
}

fn unbuffered_env_vec() -> (r: Vec<(String, String)>)
    ensures
        r@.map_values(|e: (String, String)| (e.0@, e.1@)) == unbuffered_envs(),
{
    let mut v: Vec<(String, String)> = Vec::new();
    v.push((String::from_str("PYTHONUNBUFFERED"), String::from_str("true")));
    assert(v@.map_values(|e: (String, String)| (e.0@, e.1@)) =~= unbuffered_envs());
    v
}

/// The arguments of `iocage` that create `jail` with the package list at `pkglist`.
pub open spec fn create_args(jail: JailSpec, pkglist: Seq<char>) -> Seq<Seq<char>> {
    seq![
        "create"@,
        "--name"@,
        jail.name@,
        "--release"@,
        jail.release@,
        "--pkglist"@,
        pkglist,
        "--force"@,
    ] + (if jail.thick {
        seq!["--thickjail"@]
    } else {
        Seq::empty()
    }) + seq![
        "vnet=on"@,
        "ip4_addr=vnet0|"@ + jail.ip@,
        "defaultrouter="@ + jail.gateway@,
        "resolver=none"@,
        "boot=on"@,
    ]
}

/// The invocation that creates `jail` with the package list at `pkglist`.
pub open spec fn create_invocation(jail: JailSpec, pkglist: Seq<char>) -> InvocationView {
    InvocationView {
        program: "iocage"@,
        args: create_args(jail, pkglist),
        envs: unbuffered_envs(),
        stdin: None,
    }
}

/// The invocation that runs `script` with `sh` inside the jail `jail_name`;
/// the shell stops at the first command that fails.
pub open spec fn exec_invocation(jail_name: Seq<char>, script: Seq<char>) -> InvocationView {
    InvocationView {
        program: "iocage"@,
        args: seq!["exec"@, jail_name, "sh"@],
        envs: unbuffered_envs(),
        stdin: Some("set -eu\n\n"@ + script),
    }
}

/// Builds the invocation that creates `jail` with the package list at `pkglist`.
pub fn run_iocage_create(jail: &JailSpec, pkglist: &str) -> (r: CommandInvocation)
    ensures
        r@ == create_invocation(*jail, pkglist@),
{
    let mut args: Vec<String> = Vec::new();
    args.push(String::from_str("create"));
    args.push(String::from_str("--name"));
    args.push(jail.name.clone());
    args.push(String::from_str("--release"));
    args.push(jail.release.clone());
    args.push(String::from_str("--pkglist"));
    args.push(String::from_str(pkglist));
    args.push(String::from_str("--force"));
    if jail.thick {
        args.push(String::from_str("--thickjail"));
    }
    args.push(String::from_str("vnet=on"));
    args.push(String::from_str("ip4_addr=vnet0|").concat(jail.ip.as_str()));
    args.push(String::from_str("defaultrouter=").concat(jail.gateway.as_str()));
    args.push(String::from_str("resolver=none"));
    args.push(String::from_str("boot=on"));
    let r = CommandInvocation {
        program: String::from_str("iocage"),
        args,
        envs: unbuffered_env_vec(),
        stdin: None,
    };
    assert(r@.args =~= create_args(*jail, pkglist@));
    r
}

/// Builds the invocation that runs `script` inside the jail `jail_name`.
pub fn iocage_exec(jail_name: &str, script: &str) -> (r: CommandInvocation)
    ensures
        r@ == exec_invocation(jail_name@, script@),
{
    let mut args: Vec<String> = Vec::new();
    args.push(String::from_str("exec"));
    args.push(String::from_str(jail_name));
    args.push(String::from_str("sh"));
    let r = CommandInvocation {
        program: String::from_str("iocage"),
        args,
        envs: unbuffered_env_vec(),
        stdin: Some(String::from_str("set -eu\n\n").concat(script)),
    };
    assert(r@.args =~= seq!["exec"@, jail_name@, "sh"@]);
    r
}

/// The script that lets the `wheel` group use sudo without a password.
pub open spec fn sudo_config_script() -> Seq<char> {
    "echo '%wheel ALL=(ALL) NOPASSWD: ALL' >/usr/local/etc/sudoers.d/wheel"@
}

/// The script that creates the identity's primary group.
pub open spec fn create_group_script(id: Identity) -> Seq<char> {
    "pw groupadd -n '"@ + id.group_name@ + "' -g '"@ + decimal_text(id.gid as nat) + "'"@
}

/// The script that creates the identity's user, in its primary group and in `wheel`.
pub open spec fn create_user_script(id: Identity) -> Seq<char> {
    "pw useradd -n '"@ + id.user_name@ + "' -u '"@ + decimal_text(id.uid as nat) + "' -g '"@
        + id.group_name@ + "' -G wheel -m -s '"@ + id.shell@ + "'"@
}

/// The script that enables the SSH service at boot and then starts it, one
/// command per line, so that `set -eu` stops after a failing `sysrc`.
pub open spec fn ssh_service_script() -> Seq<char> {
    "sysrc -f /etc/rc.conf sshd_enable=\"YES\"\nservice sshd start"@
}

/// Builds the invocation that prepares the sudo config in the given jail.
pub fn exec_sudo_config(jail_name: &str) -> (r: CommandInvocation)
    ensures
        r@ == exec_invocation(jail_name@, sudo_config_script()),
{
    iocage_exec(jail_name, "echo '%wheel ALL=(ALL) NOPASSWD: ALL' >/usr/local/etc/sudoers.d/wheel")
}

/// Builds the invocation that creates the identity's group in the given jail.
pub fn exec_create_group(jail_name: &str, id: &Identity) -> (r: CommandInvocation)
    ensures
        r@ == exec_invocation(jail_name@, create_group_script(*id)),
{
    let mut s = String::from_str("pw groupadd -n '");
    s.append(id.group_name.as_str());
    s.append("' -g '");
    let gid = decimal(id.gid);
    s.append(gid.as_str());
    s.append("'");
    iocage_exec(jail_name, s.as_str())
}

/// Builds the invocation that creates the identity's user in the given jail.
pub fn exec_create_user(jail_name: &str, id: &Identity) -> (r: CommandInvocation)
    ensures
        r@ == exec_invocation(jail_name@, create_user_script(*id)),
{
    let mut s = String::from_str("pw useradd -n '");
    s.append(id.user_name.as_str());
    s.append("' -u '");
    let uid = decimal(id.uid);
    s.append(uid.as_str());
    s.append("' -g '");
    s.append(id.group_name.as_str());
    s.append("' -G wheel -m -s '");
    s.append(id.shell.as_str());
    s.append("'");
    iocage_exec(jail_name, s.as_str())
}

/// Builds the invocation that enables and starts the SSH service in the given jail.
pub fn exec_ssh_service(jail_name: &str) -> (r: CommandInvocation)
    ensures
        r@ == exec_invocation(jail_name@, ssh_service_script()),
{
    iocage_exec(jail_name, "sysrc -f /etc/rc.conf sshd_enable=\"YES\"\nservice sshd start")
}

/// The text holds neither `;` nor `&`, so no command is chained to another
/// and each line of a script runs under `set -eu` on its own.
pub open spec fn no_command_separators(s: Seq<char>) -> bool {
    forall|i: int| 0 <= i < s.len() ==> #[trigger] s[i] != ';' && s[i] != '&'
}

proof fn lemma_separators_concat(a: Seq<char>, b: Seq<char>)
    requires
        no_command_separators(a),
        no_command_separators(b),
    ensures
        no_command_separators(a + b),
{
    assert forall|i: int| 0 <= i < (a + b).len() implies #[trigger] (a + b)[i] != ';' && (a
        + b)[i] != '&' by {
        if i < a.len() {
            assert((a + b)[i] == a[i]);
        } else {
            assert((a + b)[i] == b[i - a.len()]);
        }
    }
}

proof fn lemma_decimal_no_separators(n: nat)
    ensures
        no_command_separators(decimal_text(n)),
    decreases n,
{
    reveal_strlit("0");
    reveal_strlit("1");
    reveal_strlit("2");
    reveal_strlit("3");
    reveal_strlit("4");
    reveal_strlit("5");
    reveal_strlit("6");
    reveal_strlit("7");
    reveal_strlit("8");
    reveal_strlit("9");
    if n >= 10 {
        lemma_decimal_no_separators(n / 10);
        lemma_separators_concat(decimal_text(n / 10), digit_text(n % 10));
    }
}

/// The scripts run inside a jail chain no commands with `;` or `&&`: those of
/// the sudo config and the SSH service never, and those of the group and the
/// user as long as the names and the shell path hold neither `;` nor `&`.
pub proof fn law_scripts_chain_no_commands(id: Identity)
    requires
        no_command_separators(id.user_name@),
        no_command_separators(id.group_name@),
        no_command_separators(id.shell@),
    ensures
        no_command_separators(sudo_config_script()),
        no_command_separators(ssh_service_script()),
        no_command_separators(create_group_script(id)),
        no_command_separators(create_user_script(id)),
{
    reveal_strlit("echo '%wheel ALL=(ALL) NOPASSWD: ALL' >/usr/local/etc/sudoers.d/wheel");
    reveal_strlit("sysrc -f /etc/rc.conf sshd_enable=\"YES\"\nservice sshd start");
    reveal_strlit("pw groupadd -n '");
    reveal_strlit("' -g '");
    reveal_strlit("'");
    reveal_strlit("pw useradd -n '");
    reveal_strlit("' -u '");
    reveal_strlit("' -g '");
    reveal_strlit("' -G wheel -m -s '");
    lemma_decimal_no_separators(id.gid as nat);
    lemma_decimal_no_separators(id.uid as nat);
    let g1 = "pw groupadd -n '"@ + id.group_name@;
    lemma_separators_concat("pw groupadd -n '"@, id.group_name@);
    lemma_separators_concat(g1, "' -g '"@);
    lemma_separators_concat(g1 + "' -g '"@, decimal_text(id.gid as nat));
    lemma_separators_concat(g1 + "' -g '"@ + decimal_text(id.gid as nat), "'"@);
    let u1 = "pw useradd -n '"@ + id.user_name@;
    lemma_separators_concat("pw useradd -n '"@, id.user_name@);
    let u2 = u1 + "' -u '"@;
    lemma_separators_concat(u1, "' -u '"@);
    let u3 = u2 + decimal_text(id.uid as nat);
    lemma_separators_concat(u2, decimal_text(id.uid as nat));
    let u4 = u3 + "' -g '"@;
    lemma_separators_concat(u3, "' -g '"@);
    let u5 = u4 + id.group_name@;
    lemma_separators_concat(u4, id.group_name@);
    let u6 = u5 + "' -G wheel -m -s '"@;
    lemma_separators_concat(u5, "' -G wheel -m -s '"@);
    let u7 = u6 + id.shell@;
    lemma_separators_concat(u6, id.shell@);
    lemma_separators_concat(u7, "'"@);
}

} // verus!
