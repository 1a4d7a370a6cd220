//! The capabilities that the router depends on.
//!
//! Each trait pairs its operations with a relation that says which answers
//! an implementation may give. The router's contracts are stated over these
//! relations, so they hold for every implementation, whatever stands behind
//! it, and say exactly what is handed to each call.
//!
//! A relation is `true` unless an implementation states its own: one that
//! promises nothing may answer anything, and nothing is taken on trust from
//! an implementation that was not verified.

use crate::command::Ec2Op;
use crate::ec2::{Ec2CtrlRes, Ec2CtrlResView};
use crate::errors::{result_view, AdminErr, AdminErrView};
use vstd::prelude::*;

verus! {

/// Can provide auth service.
pub trait Auth {
    /// Whether `res` is an answer that `get_token` may give for `pwd`.
    open spec fn may_issue(&self, pwd: Seq<char>, res: Result<Seq<char>, AdminErrView>) -> bool {
        true
    }

    /// Whether `ok` is an answer that `validate_token` may give for `token`.
    open spec fn may_validate(&self, token: Seq<char>, ok: bool) -> bool {
        true
    }

    /// Issues a bearer token in exchange for the password.
    fn get_token(&self, pwd: &str) -> (res: Result<String, AdminErr>)
        ensures
            self.may_issue(pwd@, result_view(res)),
    ;

    /// Whether the token is valid now. Never fails: any error is `false`.
    fn validate_token(&self, token: &str) -> (ok: bool)
        ensures
            self.may_validate(token@, ok),
    ;
}

/// Can provide ec2 control service for one instance.
pub trait Ec2Ctrl {
    /// Whether `res` is an answer that the operation `op` may give.
    open spec fn may_answer(&self, op: Ec2Op, res: Result<Ec2CtrlResView, AdminErrView>) -> bool {
        true
    }

    /// Reads the current state and public address.
    fn status(&self) -> (res: Result<Ec2CtrlRes, AdminErr>)
        ensures
            self.may_answer(Ec2Op::Status, result_view(res)),
    ;

    /// Requests the transition to running.
    fn on(&self) -> (res: Result<Ec2CtrlRes, AdminErr>)
        ensures
            self.may_answer(Ec2Op::On, result_view(res)),
    ;

    /// Requests the transition to stopped.
    fn off(&self) -> (res: Result<Ec2CtrlRes, AdminErr>)
        ensures
            self.may_answer(Ec2Op::Off, result_view(res)),
    ;
}

/// Can provide command functionality: the two capabilities behind one
/// interface, with the configuration captured at construction.
pub trait Cmd {
    /// Whether `ok` is an answer that `check_token` may give for `token`.
    open spec fn may_check(&self, token: Seq<char>, ok: bool) -> bool {
        true
    }

    /// Whether `res` is an answer that `get_token` may give for `pwd`.
    open spec fn may_issue(&self, pwd: Seq<char>, res: Result<Seq<char>, AdminErrView>) -> bool {
        true
    }

    /// Whether `res` is an answer that `ec2_control` may give for `op`.
    open spec fn may_control(&self, op: Ec2Op, res: Result<Ec2CtrlResView, AdminErrView>) -> bool {
        true
    }

    fn check_token(&self, token: &str) -> (ok: bool)
        ensures
            self.may_check(token@, ok),
    ;

    fn get_token(&self, pwd: &str) -> (res: Result<String, AdminErr>)
        ensures
            self.may_issue(pwd@, result_view(res)),
    ;

    fn ec2_control(&self, op: &Ec2Op) -> (res: Result<Ec2CtrlRes, AdminErr>)
        ensures
            self.may_control(*op, result_view(res)),
    ;
}

/// Can run commands with the configuration handed along with each call.
pub trait RunCommands {
    /// Whether `res` is an answer that `get_token` may give for these
    /// arguments.
    open spec fn may_issue(
        &self,
        pwd: Seq<char>,
        config_pwd: Seq<char>,
        jwt_secret: Seq<char>,
        res: Result<Seq<char>, AdminErrView>,
    ) -> bool {
        true
    }

    /// Whether `ok` is an answer that `check_token` may give for these
    /// arguments.
    open spec fn may_check(&self, token: Seq<char>, secret: Seq<char>, ok: bool) -> bool {
        true
    }

    /// Whether `res` is an answer that `ec2_control` may give for these
    /// arguments.
    open spec fn may_control(
        &self,
        instance_id: Seq<char>,
        op: Ec2Op,
        res: Result<Ec2CtrlResView, AdminErrView>,
    ) -> bool {
        true
    }

    fn get_token(&self, pwd: &str, config_pwd: &str, jwt_secret: &str) -> (res: Result<
        String,
        AdminErr,
    >)
        ensures
            self.may_issue(pwd@, config_pwd@, jwt_secret@, result_view(res)),
    ;

    fn check_token(&self, token: &str, secret: &str) -> (ok: bool)
        ensures
            self.may_check(token@, secret@, ok),
    ;

    fn ec2_control(&self, instance_id: &str, op: &Ec2Op) -> (res: Result<Ec2CtrlRes, AdminErr>)
        ensures
            self.may_control(instance_id@, *op, result_view(res)),
    ;
}

} // verus!
