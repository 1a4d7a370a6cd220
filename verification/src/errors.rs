//! The single error type of the pipeline and its canonical messages.

use vstd::prelude::*;
use vstd::string::StringExecFns;

verus! {

/// A payload field that is present but of the wrong shape.
#[derive(Debug, Clone, PartialEq, Eq)]
pub struct TypeErr {
    pub fieldname: String,
    pub recieved_type: String,
    pub expected_type: String,
}

/// A [`TypeErr`] with its strings as sequences of characters.
pub struct TypeErrView {
    pub fieldname: Seq<char>,
    pub recieved_type: Seq<char>,
    pub expected_type: Seq<char>,
}

impl View for TypeErr {
    type V = TypeErrView;

    open spec fn view(&self) -> TypeErrView {
        TypeErrView {
            fieldname: self.fieldname@,
            recieved_type: self.recieved_type@,
            expected_type: self.expected_type@,
        }
    }
}

/// The message of a [`TypeErr`].
pub open spec fn type_err_message(e: TypeErrView) -> Seq<char> {
    "For the field "@ + e.fieldname + ", we were expecting type "@ + e.expected_type
        + ", but found "@ + e.recieved_type + " instead.Try using the correct type"@
}

impl TypeErr {
    /// The human-readable rendering of the error.
    pub fn to_string(&self) -> (s: String)
        ensures
            s@ == type_err_message(self@),
    {
        let mut s = "For the field ".to_owned();
        s.append(self.fieldname.as_str());
        s.append(", we were expecting type ");
        s.append(self.expected_type.as_str());
        s.append(", but found ");
        s.append(self.recieved_type.as_str());
        s.append(" instead.Try using the correct type");
        s
    }
}

/// All the ways in which a request can fail.
#[derive(Debug, Clone, PartialEq, Eq)]
pub enum AdminErr {
    /// A required environment variable is absent.
    ConfNone(String),
    /// A required payload field is absent.
    DataNone(String),
    /// A payload field is present but of the wrong shape.
    TypeErr(TypeErr),
    /// The command string is not recognized.
    InvdCmd(String),
    /// The operation string is not recognized.
    InvdEc2Op(String),
    /// The `command` field is missing.
    CmdNone,
    /// The presented token failed validation.
    InvdToken,
    /// The target instance does not exist.
    Ec2None,
    /// A protected command was invoked without a token.
    TokenNone,
    /// Any other backend failure.
    Ec2Unknown(String),
    /// The password did not match at token issuance.
    InvdCreds,
    /// Catch-all for what cannot happen.
    Unknown,
}

/// An [`AdminErr`] with its strings as sequences of characters.
pub enum AdminErrView {
    ConfNone(Seq<char>),
    DataNone(Seq<char>),
    TypeErr(TypeErrView),
    InvdCmd(Seq<char>),
    InvdEc2Op(Seq<char>),
    CmdNone,
    InvdToken,
    Ec2None,
    TokenNone,
    Ec2Unknown(Seq<char>),
    InvdCreds,
    Unknown,
}

impl View for AdminErr {
    type V = AdminErrView;

    open spec fn view(&self) -> AdminErrView {
        match self {
            AdminErr::ConfNone(name) => AdminErrView::ConfNone(name@),
            AdminErr::DataNone(field) => AdminErrView::DataNone(field@),
            AdminErr::TypeErr(e) => AdminErrView::TypeErr(e@),
            AdminErr::InvdCmd(raw) => AdminErrView::InvdCmd(raw@),
            AdminErr::InvdEc2Op(raw) => AdminErrView::InvdEc2Op(raw@),
            AdminErr::CmdNone => AdminErrView::CmdNone,
            AdminErr::InvdToken => AdminErrView::InvdToken,
            AdminErr::Ec2None => AdminErrView::Ec2None,
            AdminErr::TokenNone => AdminErrView::TokenNone,
            AdminErr::Ec2Unknown(msg) => AdminErrView::Ec2Unknown(msg@),
            AdminErr::InvdCreds => AdminErrView::InvdCreds,
            AdminErr::Unknown => AdminErrView::Unknown,
        }
    }
}

/// The canonical message of each kind of error.
pub open spec fn message(e: AdminErrView) -> Seq<char> {
    match e {
        AdminErrView::ConfNone(name) => name + " was not configured"@,
        AdminErrView::DataNone(field) => field
            + " is missing from the data field, please add it in the data object"@,
        AdminErrView::TypeErr(err) => type_err_message(err),
        AdminErrView::InvdCmd(raw) => "The given command "@ + raw
            + " is invalid, please enter a valid command"@,
        AdminErrView::InvdEc2Op(raw) => raw + ", is an invalid ec2 operation"@,
        AdminErrView::CmdNone => "The command field is missing,add an valid command to it"@,
        AdminErrView::InvdToken => "The auth token is invalid"@,
        AdminErrView::Ec2None => "Ec2 Instance not found"@,
        AdminErrView::TokenNone => "The auth token is missing"@,
        AdminErrView::Ec2Unknown(msg) => "Ec2 Error: "@ + msg,
        AdminErrView::InvdCreds => "The provided credientials are invalid"@,
        AdminErrView::Unknown => "Unknown Error"@,
    }
}

/// A result with both sides taken by their views.
pub open spec fn result_view<T: View>(res: Result<T, AdminErr>) -> Result<T::V, AdminErrView> {
    match res {
        Ok(value) => Ok(value@),
        Err(e) => Err(e@),
    }
}

impl AdminErr {
    /// The human-readable rendering of the error, which is what a caller
    /// sees in the `msg` field of an error response.
    pub fn to_string(&self) -> (s: String)
        ensures
            s@ == message(self@),
    {
        match self {
            AdminErr::ConfNone(name) => {
                let mut s = name.clone();
                s.append(" was not configured");
                s
            },
            AdminErr::DataNone(field) => {
                let mut s = field.clone();
                s.append(" is missing from the data field, please add it in the data object");
                s
            },
            AdminErr::TypeErr(err) => err.to_string(),
            AdminErr::InvdCmd(raw) => {
                let mut s = "The given command ".to_owned();
                s.append(raw.as_str());
                s.append(" is invalid, please enter a valid command");
                s
            },
            AdminErr::InvdEc2Op(raw) => {
                let mut s = raw.clone();
                s.append(", is an invalid ec2 operation");
                s
            },
            AdminErr::CmdNone => "The command field is missing,add an valid command to it".to_owned(),
            AdminErr::InvdToken => "The auth token is invalid".to_owned(),
            AdminErr::Ec2None => "Ec2 Instance not found".to_owned(),
            AdminErr::TokenNone => "The auth token is missing".to_owned(),
            AdminErr::Ec2Unknown(msg) => {
                let mut s = "Ec2 Error: ".to_owned();
                s.append(msg.as_str());
                s
            },
            AdminErr::InvdCreds => "The provided credientials are invalid".to_owned(),
            AdminErr::Unknown => "Unknown Error".to_owned(),
        }
    }
}

} // verus!
