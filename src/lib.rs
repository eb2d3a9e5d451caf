//! Provisions an iocage jail: builds the commands that create and set up a
//! jail, decides the order in which they run and how their failures are
//! reported, and turns the raw output of a running command into lines.

pub mod command;
pub mod error;
pub mod gateway;
pub mod host;
pub mod output;
pub mod pkglist;
pub mod workflow;
pub mod text;
