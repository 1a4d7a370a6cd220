//! Command runners: the runner that puts the two capabilities behind the
//! single interface that the router uses, and the exchange of a password for
//! a token.

use crate::capability::{Auth, Cmd, Ec2Ctrl};
use crate::command::Ec2Op;
use crate::ec2::{Ec2CtrlRes, Ec2CtrlResView};
use crate::errors::{result_view, AdminErr, AdminErrView};
use crate::jwt_auth::{get_default_token, token_at, token_issued_at};
use crate::strings::{str_eq, text};
use vstd::prelude::*;

verus! {

/// Bundles an auth service and an instance service. It adds no policy.
pub struct CmdRunner<TAuth, TEc2> where TAuth: Auth + Send + Sync, TEc2: Ec2Ctrl + Send + Sync {
    pub auth: TAuth,
    pub ec2: TEc2,
}

impl<A, E> CmdRunner<A, E> where A: Auth + Send + Sync, E: Ec2Ctrl + Send + Sync {
    pub fn new(auth_service: A, ec2_service: E) -> (runner: CmdRunner<A, E>)
        ensures
            runner.auth == auth_service,
            runner.ec2 == ec2_service,
    {
        CmdRunner { auth: auth_service, ec2: ec2_service }
    }
}

impl<A, E> Cmd for CmdRunner<A, E> where A: Auth + Send + Sync, E: Ec2Ctrl + Send + Sync {
    open spec fn may_check(&self, token: Seq<char>, ok: bool) -> bool {
        self.auth.may_validate(token, ok)
    }

    open spec fn may_issue(&self, pwd: Seq<char>, res: Result<Seq<char>, AdminErrView>) -> bool {
        self.auth.may_issue(pwd, res)
    }

    open spec fn may_control(&self, op: Ec2Op, res: Result<Ec2CtrlResView, AdminErrView>) -> bool {
        match op {
            Ec2Op::Invalid => res == Err::<Ec2CtrlResView, AdminErrView>(
                AdminErrView::InvdEc2Op("Invalid"@),
            ),
            _ => self.ec2.may_answer(op, res),
        }
    }

    fn check_token(&self, token: &str) -> (ok: bool) {
        self.auth.validate_token(token)
    }

    fn get_token(&self, pwd: &str) -> (res: Result<String, AdminErr>) {
        self.auth.get_token(pwd)
    }

    fn ec2_control(&self, op: &Ec2Op) -> (res: Result<Ec2CtrlRes, AdminErr>) {
        match op {
            Ec2Op::On => self.ec2.on(),
            Ec2Op::Off => self.ec2.off(),
            Ec2Op::Status => self.ec2.status(),
            Ec2Op::Invalid => Err(AdminErr::InvdEc2Op("Invalid".to_owned())),
        }
    }
}

/// The seconds for which an issued token is valid.
pub const TOKEN_LIFETIME: u64 = 3600;

/// What issuing a token gives at the second `now`: the token, or `Unknown`
/// where none could be signed.
pub open spec fn issued_at(jwt_secret: Seq<char>, now: u64) -> Result<Seq<char>, AdminErrView> {
    match token_issued_at(jwt_secret, now, TOKEN_LIFETIME) {
        Some(token) => Ok(token),
        None => Err(AdminErrView::Unknown),
    }
}

/// What asking for a token gives at the second `now`: `InvdCreds` unless the
/// presented password is, character for character, the configured one.
pub open spec fn token_for(
    password: Seq<char>,
    correct_password: Seq<char>,
    jwt_secret: Seq<char>,
    now: u64,
) -> Result<Seq<char>, AdminErrView> {
    if password != correct_password {
        Err(AdminErrView::InvdCreds)
    } else {
        issued_at(jwt_secret, now)
    }
}

/// Issues a token in exchange for the password, as of the second `now`.
pub fn get_token_at(password: &str, correct_password: &str, jwt_secret: &str, now: u64) -> (res:
    Result<String, AdminErr>)
    ensures
        result_view(res) == token_for(password@, correct_password@, jwt_secret@, now),
{
    if !str_eq(password, correct_password) {
        return Err(AdminErr::InvdCreds);
    }
    match token_at(jwt_secret, now, TOKEN_LIFETIME) {
        Some(token) => Ok(token),
        None => Err(AdminErr::Unknown),
    }
}

/// Issues a token in exchange for the password. A wrong password is always
/// refused with `InvdCreds`; the right one gives what issuing gives at some
/// reading of the clock.
pub fn get_token(password: &str, correct_password: &str, jwt_secret: &str) -> (res: Result<
    String,
    AdminErr,
>)
    ensures
        exists|now: u64|
            result_view(res) == #[trigger] token_for(
                password@,
                correct_password@,
                jwt_secret@,
                now,
            ),
{
    if !str_eq(password, correct_password) {
        assert(result_view(Err::<String, AdminErr>(AdminErr::InvdCreds)) == token_for(
            password@,
            correct_password@,
            jwt_secret@,
            0,
        ));
        return Err(AdminErr::InvdCreds);
    }
    let token = get_default_token(jwt_secret, TOKEN_LIFETIME);
    let ghost now = choose|now: u64|
        text(token) == #[trigger] token_issued_at(jwt_secret@, now, TOKEN_LIFETIME);
    let res = match token {
        Some(token) => Ok(token),
        None => Err(AdminErr::Unknown),
    };
    assert(result_view(res) == token_for(password@, correct_password@, jwt_secret@, now));
    res
}

} // verus!
