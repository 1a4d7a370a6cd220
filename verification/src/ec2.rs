//! The instance capability's data: power states, control results, and how a
//! backend's report and failure are turned into them.

use crate::errors::AdminErr;
use crate::json::{json_null, json_object, json_string, json_view, JsonValue};
use vstd::prelude::*;
use vstd::std_specs::convert::FromSpecImpl;

verus! {

/// State of an EC2 instance.
#[derive(Debug, Clone, Copy, PartialEq, Eq, Structural)]
pub enum Ec2Status {
    Off,
    On,
    Pending,
    Terminated,
    Unknown,
}

/// The status that a backend state code stands for. Codes outside the table
/// are `Unknown`, so that a transient code never fails a request.
pub open spec fn status_of(code: int) -> Ec2Status {
    if code == 0 || code == 32 || code == 64 {
        Ec2Status::Pending
    } else if code == 16 {
        Ec2Status::On
    } else if code == 80 {
        Ec2Status::Off
    } else if code == 48 {
        Ec2Status::Terminated
    } else {
        Ec2Status::Unknown
    }
}

/// A code that stands for the given status: the one that the backend gives
/// for it, and for `Unknown` a code that the backend never gives.
pub open spec fn code_of(status: Ec2Status) -> int {
    match status {
        Ec2Status::Pending => 0,
        Ec2Status::On => 16,
        Ec2Status::Terminated => 48,
        Ec2Status::Off => 80,
        Ec2Status::Unknown => -1,
    }
}

impl From<i32> for Ec2Status {
    fn from(n: i32) -> (status: Ec2Status) {
        match n {
            0 | 32 | 64 => Ec2Status::Pending,
            16 => Ec2Status::On,
            80 => Ec2Status::Off,
            48 => Ec2Status::Terminated,
            _ => Ec2Status::Unknown,
        }
    }
}

impl FromSpecImpl<i32> for Ec2Status {
    open spec fn obeys_from_spec() -> bool {
        true
    }

    open spec fn from_spec(n: i32) -> Ec2Status {
        status_of(n as int)
    }
}

/// The name under which a status appears in a response.
pub open spec fn status_name(status: Ec2Status) -> Seq<char> {
    match status {
        Ec2Status::Off => "Off"@,
        Ec2Status::On => "On"@,
        Ec2Status::Pending => "Pending"@,
        Ec2Status::Terminated => "Terminated"@,
        Ec2Status::Unknown => "Unknown"@,
    }
}

impl Ec2Status {
    /// The name under which the status appears in a response.
    pub fn name(&self) -> (s: &'static str)
        ensures
            s@ == status_name(*self),
    {
        match self {
            Ec2Status::Off => "Off",
            Ec2Status::On => "On",
            Ec2Status::Pending => "Pending",
            Ec2Status::Terminated => "Terminated",
            Ec2Status::Unknown => "Unknown",
        }
    }
}

/// What the backend reports of the instance: its raw state code and its
/// public address, if it has one.
#[derive(Debug, Clone, PartialEq, Eq)]
pub struct InstanceState {
    pub state: i32,
    pub public_ip: Option<String>,
}

/// How a call to the backend can fail.
#[derive(Debug, Clone, PartialEq, Eq)]
pub enum Ec2ControlError {
    InstanceNotFound,
    Unknown(String),
}

/// Response from EC2 control.
#[derive(Debug, Clone, PartialEq, Eq)]
pub struct Ec2CtrlRes {
    pub status: Ec2Status,
    pub ip: Option<String>,
}

/// An [`Ec2CtrlRes`] with its address as a sequence of characters.
pub struct Ec2CtrlResView {
    pub status: Ec2Status,
    pub ip: Option<Seq<char>>,
}

impl View for Ec2CtrlRes {
    type V = Ec2CtrlResView;

    open spec fn view(&self) -> Ec2CtrlResView {
        Ec2CtrlResView {
            status: self.status,
            ip: match self.ip {
                Some(ip) => Some(ip@),
                None => None,
            },
        }
    }
}

impl From<InstanceState> for Ec2CtrlRes {
    fn from(s: InstanceState) -> (res: Ec2CtrlRes) {
        Ec2CtrlRes { status: Ec2Status::from(s.state), ip: s.public_ip }
    }
}

impl FromSpecImpl<InstanceState> for Ec2CtrlRes {
    open spec fn obeys_from_spec() -> bool {
        true
    }

    open spec fn from_spec(s: InstanceState) -> Ec2CtrlRes {
        Ec2CtrlRes { status: status_of(s.state as int), ip: s.public_ip }
    }
}

impl From<Ec2ControlError> for AdminErr {
    fn from(e: Ec2ControlError) -> (err: AdminErr) {
        match e {
            Ec2ControlError::InstanceNotFound => AdminErr::Ec2None,
            Ec2ControlError::Unknown(s) => AdminErr::Ec2Unknown(s),
        }
    }
}

impl FromSpecImpl<Ec2ControlError> for AdminErr {
    open spec fn obeys_from_spec() -> bool {
        true
    }

    open spec fn from_spec(e: Ec2ControlError) -> AdminErr {
        match e {
            Ec2ControlError::InstanceNotFound => AdminErr::Ec2None,
            Ec2ControlError::Unknown(s) => AdminErr::Ec2Unknown(s),
        }
    }
}

/// The response body of a control result: an object with the status by name
/// and the address, `null` where there is none.
pub open spec fn ctrl_res_json(res: Ec2CtrlResView) -> JsonValue {
    JsonValue::Object(
        map![
            "status"@ => JsonValue::Str(status_name(res.status)),
            "ip"@ => match res.ip {
                Some(ip) => JsonValue::Str(ip),
                None => JsonValue::Null,
            },
        ],
    )
}

impl Ec2CtrlRes {
    /// The result as a JSON response body.
    pub fn to_json(&self) -> (body: serde_json::Value)
        ensures
            json_view(body) == ctrl_res_json(self@),
    {
        let status = json_string(self.status.name().to_owned());
        let ip = match &self.ip {
            Some(ip) => json_string(ip.clone()),
            None => json_null(),
        };
        let mut fields: Vec<(String, serde_json::Value)> = Vec::new();
        fields.push(("status".to_owned(), status));
        fields.push(("ip".to_owned(), ip));
        proof {
            reveal_strlit("status");
            reveal_strlit("ip");
            assert("status"@.len() != "ip"@.len());
        }
        let body = json_object(fields);
        proof {
            let members = json_view(body)->Object_0;
            let expected = ctrl_res_json(self@)->Object_0;
            assert(fields@[0].0@ == "status"@);
            assert(fields@[1].0@ == "ip"@);
            assert(members =~= expected);
        }
        body
    }
}

} // verus!
