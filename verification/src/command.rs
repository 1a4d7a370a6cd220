//! Commands and instance operations, and the fixed tables that map request
//! strings to them.

use crate::strings::str_eq;
use vstd::prelude::*;
use vstd::std_specs::convert::FromSpecImpl;

verus! {

/// Type of commands which can be run.
#[derive(Debug, Clone, Copy, PartialEq, Eq, Structural)]
pub enum Command {
    Ec2Control,
    GetToken,
    Invalid,
}

/// The command that a command string stands for. `"validate-token"` is an
/// alias of `"get-token"`; anything unknown is `Invalid`.
pub open spec fn command_of(s: Seq<char>) -> Command {
    if s == "ec2-control"@ {
        Command::Ec2Control
    } else if s == "get-token"@ || s == "validate-token"@ {
        Command::GetToken
    } else {
        Command::Invalid
    }
}

impl From<&str> for Command {
    fn from(command: &str) -> (c: Command) {
        if str_eq(command, "ec2-control") {
            Command::Ec2Control
        } else if str_eq(command, "get-token") || str_eq(command, "validate-token") {
            Command::GetToken
        } else {
            Command::Invalid
        }
    }
}

impl FromSpecImpl<&str> for Command {
    open spec fn obeys_from_spec() -> bool {
        true
    }

    open spec fn from_spec(command: &str) -> Command {
        command_of(command@)
    }
}

impl From<String> for Command {
    fn from(command: String) -> (c: Command) {
        Command::from(command.as_str())
    }
}

impl FromSpecImpl<String> for Command {
    open spec fn obeys_from_spec() -> bool {
        true
    }

    open spec fn from_spec(command: String) -> Command {
        command_of(command@)
    }
}

/// Type of operation to be performed on the instance.
#[derive(Debug, Clone, Copy, PartialEq, Eq, Structural)]
pub enum Ec2Op {
    On,
    Off,
    Status,
    Invalid,
}

/// The operation that an operation string stands for; anything unknown is
/// `Invalid`.
pub open spec fn op_of(s: Seq<char>) -> Ec2Op {
    if s == "on"@ {
        Ec2Op::On
    } else if s == "off"@ {
        Ec2Op::Off
    } else if s == "status"@ {
        Ec2Op::Status
    } else {
        Ec2Op::Invalid
    }
}

impl From<&str> for Ec2Op {
    fn from(s: &str) -> (op: Ec2Op) {
        if str_eq(s, "on") {
            Ec2Op::On
        } else if str_eq(s, "off") {
            Ec2Op::Off
        } else if str_eq(s, "status") {
            Ec2Op::Status
        } else {
            Ec2Op::Invalid
        }
    }
}

impl FromSpecImpl<&str> for Ec2Op {
    open spec fn obeys_from_spec() -> bool {
        true
    }

    open spec fn from_spec(s: &str) -> Ec2Op {
        op_of(s@)
    }
}

impl From<String> for Ec2Op {
    fn from(s: String) -> (op: Ec2Op) {
        Ec2Op::from(s.as_str())
    }
}

impl FromSpecImpl<String> for Ec2Op {
    open spec fn obeys_from_spec() -> bool {
        true
    }

    open spec fn from_spec(s: String) -> Ec2Op {
        op_of(s@)
    }
}

} // verus!
