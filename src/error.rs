//! The errors that provisioning a jail can end in.

use crate::command::{decimal, decimal_text};
use vstd::prelude::*;

verus! {

/// Declares `std::io::Error` so that it can be carried inside the library's errors.
#[verifier::external_type_specification]
#[verifier::external_body]
pub struct ExIoError(std::io::Error);

/// Error type for provisioning a jail.
#[derive(Debug)]
pub enum Error {
    /// The package list file could not be written.
    CreatePkglistJson(std::io::Error),
    /// The step that creates the user's group failed.
    ExecCreateGroup(IocageExecError),
    /// The step that creates the user failed.
    ExecCreateUser(IocageExecError),
    /// The step that enables the SSH service failed.
    ExecSshService(IocageExecError),
    /// The step that prepares the sudo config failed.
    ExecSudoConfig(IocageExecError),
    /// Creating the jail failed.
    IocageCreate(CmdError),
    /// A system group id was not found.
    NoGid(u32),
    /// The effective user is not `root`.
    NotRoot,
    /// A system user name was not found.
    NoUser(String),
}

/// Error of one external command.
#[derive(Debug)]
pub enum CmdError {
    /// Waiting for the spawned command failed.
    ChildWait(std::io::Error),
    /// The command exited with a non-zero code (`-1` when killed by a signal).
    Failed(i32),
    /// The command could not be started.
    Spawn(String, std::io::Error),
    /// A standard stream of the command was not captured.
    StreamCapture(&'static str),
    /// Draining an output stream of the command failed.
    Thread(&'static str),
    /// Writing the command's standard input failed.
    StdinWrite(std::io::Error),
}

/// Error when a command run inside a jail fails.
#[derive(Debug)]
pub struct IocageExecError(pub CmdError);

/// The decimal notation of a signed number.
pub open spec fn signed_text(i: int) -> Seq<char> {
    if i < 0 {
        "-"@ + decimal_text((-i) as nat)
    } else {
        decimal_text(i as nat)
    }
}

fn signed_decimal(i: i32) -> (r: String)
    ensures
        r@ == signed_text(i as int),
{
    if i < 0 {
        let m = (-(i as i64)) as u32;
        String::from_str("-").concat(decimal(m).as_str())
    } else {
        decimal(i as u32)
    }
}

impl Error {
    /// The description of this error, without its cause.
    pub open spec fn message_text(&self) -> Seq<char> {
        match self {
            Error::CreatePkglistJson(_) => "could not generate json pkglist tempfile"@,
            Error::ExecCreateGroup(_) => "failed to create user group"@,
            Error::ExecCreateUser(_) => "failed to create user"@,
            Error::ExecSshService(_) => "failed to enable an SSH service"@,
            Error::ExecSudoConfig(_) => "failed to prepare sudo config"@,
            Error::IocageCreate(_) => "failed to create iocage jail"@,
            Error::NoGid(gid) => "system group id not found; gid="@ + decimal_text(*gid as nat),
            Error::NotRoot => "root privileges required"@,
            Error::NoUser(user) => "system user not found; user="@ + user@,
        }
    }

    /// Returns the description of this error, without its cause.
    pub fn message(&self) -> (r: String)
        ensures
            r@ == self.message_text(),
    {
        match self {
            Error::CreatePkglistJson(_) => String::from_str("could not generate json pkglist tempfile"),
            Error::ExecCreateGroup(_) => String::from_str("failed to create user group"),
            Error::ExecCreateUser(_) => String::from_str("failed to create user"),
            Error::ExecSshService(_) => String::from_str("failed to enable an SSH service"),
            Error::ExecSudoConfig(_) => String::from_str("failed to prepare sudo config"),
            Error::IocageCreate(_) => String::from_str("failed to create iocage jail"),
            Error::NoGid(gid) => String::from_str("system group id not found; gid=").concat(
                decimal(*gid).as_str(),
            ),
            Error::NotRoot => String::from_str("root privileges required"),
            Error::NoUser(user) => String::from_str("system user not found; user=").concat(
                user.as_str(),
            ),
        }
    }
}

impl CmdError {
    /// The description of this error, without its cause.
    pub open spec fn message_text(&self) -> Seq<char> {
        match self {
            CmdError::ChildWait(_) => "spawned command did not start"@,
            CmdError::Failed(code) => "command exited with non-zero code; code="@ + signed_text(
                *code as int,
            ),
            CmdError::Spawn(program, _) => "command failed to spawn; program="@ + program@,
            CmdError::StreamCapture(stream) => "stream was not captured; stream="@ + stream@,
            CmdError::Thread(stream) => "io stream thread failed; stream="@ + stream@,
            CmdError::StdinWrite(_) => "failed to write to stdin"@,
        }
    }

    /// Returns the description of this error, without its cause.
    pub fn message(&self) -> (r: String)
        ensures
            r@ == self.message_text(),
    {
        match self {
            CmdError::ChildWait(_) => String::from_str("spawned command did not start"),
            CmdError::Failed(code) => String::from_str(
                "command exited with non-zero code; code=",
            ).concat(signed_decimal(*code).as_str()),
            CmdError::Spawn(program, _) => String::from_str(
                "command failed to spawn; program=",
            ).concat(program.as_str()),
            CmdError::StreamCapture(stream) => String::from_str(
                "stream was not captured; stream=",
            ).concat(stream),
            CmdError::Thread(stream) => String::from_str("io stream thread failed; stream=").concat(
                stream,
            ),
            CmdError::StdinWrite(_) => String::from_str("failed to write to stdin"),
        }
    }
}

impl IocageExecError {
    /// The description of this error, without its cause.
    pub open spec fn message_text(&self) -> Seq<char> {
        "iocage exec command failed"@
    }

    /// Returns the description of this error, without its cause.
    pub fn message(&self) -> (r: String)
        ensures
            r@ == self.message_text(),
    {
        String::from_str("iocage exec command failed")
    }
}

} // verus!
