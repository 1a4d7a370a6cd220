//! The router: the one place that decides in which order a request is
//! checked and which capability is asked.
//!
//! The order is strict and an earlier failure preempts a later one:
//! configuration, command presence, command parse, token presence, token
//! validation, payload decoding, capability call. Every decision is a
//! function with an exact contract; [`admin`] and [`Router`] run them against
//! a capability set and say, over the capability's own relations, what was
//! asked and what the answer was turned into.

use crate::capability::{Cmd, RunCommands};
use crate::command::{command_of, op_of, Command, Ec2Op};
use crate::config::{config_of, Config, Env, EnvView};
use crate::ec2::{ctrl_res_json, Ec2CtrlRes, Ec2CtrlResView};
use crate::errors::{result_view, AdminErr, AdminErrView, TypeErr, TypeErrView};
use crate::json::{json_object, json_string, json_view, member, text_of, value_as_str, value_get, JsonValue};
use crate::strings::text;
use vstd::prelude::*;

verus! {

/// Arguments provided to the router to perform routing.
pub struct RouteArgs {
    pub token: Option<String>,
    pub command: Option<String>,
    pub data: Option<serde_json::Value>,
}

/// [`RouteArgs`] as mathematical values.
pub struct RouteArgsView {
    pub token: Option<Seq<char>>,
    pub command: Option<Seq<char>>,
    pub data: Option<JsonValue>,
}

/// The document of an optional payload.
pub open spec fn payload_view(data: Option<serde_json::Value>) -> Option<JsonValue> {
    match data {
        Some(v) => Some(json_view(v)),
        None => None,
    }
}

impl View for RouteArgs {
    type V = RouteArgsView;

    open spec fn view(&self) -> RouteArgsView {
        RouteArgsView {
            token: text(self.token),
            command: text(self.command),
            data: payload_view(self.data),
        }
    }
}

/// What the router returns, as mathematical values.
pub open spec fn outcome_view(res: Result<serde_json::Value, AdminErr>) -> Result<
    JsonValue,
    AdminErrView,
> {
    match res {
        Ok(body) => Ok(json_view(body)),
        Err(e) => Err(e@),
    }
}

/// The outcome of a request that fails with `e`.
pub open spec fn refused(e: AdminErrView) -> Result<JsonValue, AdminErrView> {
    Err(e)
}

/// The command that a request may go on with: `CmdNone` where the command
/// is absent, `InvdCmd` with the raw string where it is unknown, `TokenNone`
/// where there is no token and the command is not `GetToken`.
pub open spec fn command_gate(args: RouteArgsView) -> Result<Command, AdminErrView> {
    match args.command {
        None => Err(AdminErrView::CmdNone),
        Some(raw) => if command_of(raw) == Command::Invalid {
            Err(AdminErrView::InvdCmd(raw))
        } else if args.token is None && command_of(raw) != Command::GetToken {
            Err(AdminErrView::TokenNone)
        } else {
            Ok(command_of(raw))
        },
    }
}

/// A checked command or its error, with strings as sequences.
pub open spec fn gate_view(res: Result<Command, AdminErr>) -> Result<Command, AdminErrView> {
    match res {
        Ok(command) => Ok(command),
        Err(e) => Err(e@),
    }
}

/// Checks that a command is present, that it is known, and that a token is
/// presented where the command needs one. A token may accompany `GetToken`;
/// its absence there is no failure.
pub fn check_command(args: &RouteArgs) -> (res: Result<Command, AdminErr>)
    ensures
        gate_view(res) == command_gate(args@),
{
    match &args.command {
        None => Err(AdminErr::CmdNone),
        Some(raw) => {
            let command = Command::from(raw.as_str());
            match command {
                Command::Invalid => Err(AdminErr::InvdCmd(raw.clone())),
                Command::GetToken => Ok(command),
                Command::Ec2Control => if args.token.is_none() {
                    Err(AdminErr::TokenNone)
                } else {
                    Ok(command)
                },
            }
        },
    }
}

/// The string under `field` in a payload: `DataNone` where the payload or
/// the field is missing, `TypeErr` where the field is no string.
pub open spec fn payload_text(data: Option<JsonValue>, field: Seq<char>) -> Result<
    Seq<char>,
    AdminErrView,
> {
    match data {
        None => Err(AdminErrView::DataNone(field)),
        Some(payload) => match member(payload, field) {
            None => Err(AdminErrView::DataNone(field)),
            Some(value) => match text_of(value) {
                Some(s) => Ok(s),
                None => Err(
                    AdminErrView::TypeErr(
                        TypeErrView {
                            fieldname: field,
                            recieved_type: "unknown"@,
                            expected_type: "string"@,
                        },
                    ),
                ),
            },
        },
    }
}

/// Reads a required string field of a payload.
pub fn payload_field(data: &Option<serde_json::Value>, field: &str) -> (res: Result<
    String,
    AdminErr,
>)
    ensures
        result_view(res) == payload_text(payload_view(*data), field@),
{
    match data {
        None => Err(AdminErr::DataNone(field.to_owned())),
        Some(payload) => match value_get(payload, field) {
            None => Err(AdminErr::DataNone(field.to_owned())),
            Some(value) => match value_as_str(value) {
                Some(s) => Ok(s.to_owned()),
                None => Err(
                    AdminErr::TypeErr(
                        TypeErr {
                            fieldname: field.to_owned(),
                            recieved_type: "unknown".to_owned(),
                            expected_type: "string".to_owned(),
                        },
                    ),
                ),
            },
        },
    }
}

/// The payload of a token request.
#[derive(Debug, Clone, PartialEq, Eq)]
pub struct GetTokenData {
    pub password: String,
}

impl View for GetTokenData {
    type V = Seq<char>;

    open spec fn view(&self) -> Seq<char> {
        self.password@
    }
}

impl GetTokenData {
    /// Decodes the payload: the field `password` must be there and be a
    /// string.
    pub fn decode(data: &Option<serde_json::Value>) -> (res: Result<GetTokenData, AdminErr>)
        ensures
            result_view(res) == payload_text(payload_view(*data), "password"@),
    {
        match payload_field(data, "password") {
            Ok(password) => Ok(GetTokenData { password }),
            Err(e) => Err(e),
        }
    }
}

/// The payload of an instance control request.
#[derive(Debug, Clone, PartialEq, Eq)]
pub struct Ec2ControlData {
    pub operation: String,
}

impl View for Ec2ControlData {
    type V = Seq<char>;

    open spec fn view(&self) -> Seq<char> {
        self.operation@
    }
}

impl Ec2ControlData {
    /// Decodes the payload: the field `operation` must be there and be a
    /// string.
    pub fn decode(data: &Option<serde_json::Value>) -> (res: Result<Ec2ControlData, AdminErr>)
        ensures
            result_view(res) == payload_text(payload_view(*data), "operation"@),
    {
        match payload_field(data, "operation") {
            Ok(operation) => Ok(Ec2ControlData { operation }),
            Err(e) => Err(e),
        }
    }
}

/// A capability call that a request has been decoded to.
#[derive(Debug, Clone, PartialEq, Eq)]
pub enum Call {
    /// Issue a token in exchange for this password.
    GetToken(GetTokenData),
    /// Perform this operation on the instance.
    Ec2Control(Ec2Op),
}

/// A [`Call`] with its strings as sequences of characters.
pub enum CallView {
    GetToken(Seq<char>),
    Ec2Control(Ec2Op),
}

impl View for Call {
    type V = CallView;

    open spec fn view(&self) -> CallView {
        match self {
            Call::GetToken(data) => CallView::GetToken(data@),
            Call::Ec2Control(op) => CallView::Ec2Control(*op),
        }
    }
}

/// The call that a command and its payload stand for. An operation that is
/// not known is refused with `InvdEc2Op` and the raw string.
pub open spec fn call_of(command: Command, data: Option<JsonValue>) -> Result<
    CallView,
    AdminErrView,
> {
    match command {
        Command::GetToken => match payload_text(data, "password"@) {
            Ok(password) => Ok(CallView::GetToken(password)),
            Err(e) => Err(e),
        },
        Command::Ec2Control => match payload_text(data, "operation"@) {
            Ok(raw) => if op_of(raw) == Ec2Op::Invalid {
                Err(AdminErrView::InvdEc2Op(raw))
            } else {
                Ok(CallView::Ec2Control(op_of(raw)))
            },
            Err(e) => Err(e),
        },
        Command::Invalid => Err(AdminErrView::Unknown),
    }
}

/// Decodes the payload of a command into the capability call to make.
pub fn decode_call(command: Command, data: &Option<serde_json::Value>) -> (res: Result<
    Call,
    AdminErr,
>)
    ensures
        result_view(res) == call_of(command, payload_view(*data)),
{
    match command {
        Command::GetToken => match GetTokenData::decode(data) {
            Ok(params) => Ok(Call::GetToken(params)),
            Err(e) => Err(e),
        },
        Command::Ec2Control => match Ec2ControlData::decode(data) {
            Ok(params) => {
                let op = Ec2Op::from(params.operation.as_str());
                match op {
                    Ec2Op::Invalid => Err(AdminErr::InvdEc2Op(params.operation)),
                    _ => Ok(Call::Ec2Control(op)),
                }
            },
            Err(e) => Err(e),
        },
        Command::Invalid => Err(AdminErr::Unknown),
    }
}

/// The response body that carries an issued token.
pub open spec fn token_body(token: Seq<char>) -> JsonValue {
    JsonValue::Object(map!["token"@ => JsonValue::Str(token)])
}

/// What the router makes of the answer to a token request: any failure is
/// `InvdCreds`.
pub open spec fn issue_outcome(issued: Result<Seq<char>, AdminErrView>) -> Result<
    JsonValue,
    AdminErrView,
> {
    match issued {
        Ok(token) => Ok(token_body(token)),
        Err(_) => Err(AdminErrView::InvdCreds),
    }
}

/// Shapes the answer to a token request.
pub fn token_reply(issued: Result<String, AdminErr>) -> (res: Result<serde_json::Value, AdminErr>)
    ensures
        outcome_view(res) == issue_outcome(result_view(issued)),
{
    match issued {
        Ok(token) => {
            let mut fields: Vec<(String, serde_json::Value)> = Vec::new();
            fields.push(("token".to_owned(), json_string(token)));
            let body = json_object(fields);
            proof {
                assert(fields@[0].0@ == "token"@);
                assert(json_view(body)->Object_0 =~= token_body(token@)->Object_0);
            }
            Ok(body)
        },
        Err(_) => Err(AdminErr::InvdCreds),
    }
}

/// What the router makes of the answer to an instance operation: the error
/// unchanged, or the result as a response body.
pub open spec fn control_outcome(controlled: Result<Ec2CtrlResView, AdminErrView>) -> Result<
    JsonValue,
    AdminErrView,
> {
    match controlled {
        Ok(r) => Ok(ctrl_res_json(r)),
        Err(e) => Err(e),
    }
}

/// Shapes the answer to an instance operation.
pub fn ec2_reply(controlled: Result<Ec2CtrlRes, AdminErr>) -> (res: Result<
    serde_json::Value,
    AdminErr,
>)
    ensures
        outcome_view(res) == control_outcome(result_view(controlled)),
{
    match controlled {
        Ok(r) => Ok(r.to_json()),
        Err(e) => Err(e),
    }
}

/// What the capabilities answered in the course of one request. An answer
/// to a call that was not made has no bearing on the outcome.
pub struct Answers {
    /// The answer of the token check.
    pub token_ok: bool,
    /// The answer of the token issuance.
    pub issued: Result<Seq<char>, AdminErrView>,
    /// The answer of the instance operation.
    pub controlled: Result<Ec2CtrlResView, AdminErrView>,
}

/// The outcome of a request whose configuration has been checked, given
/// what the capabilities answer. A presented token is validated whatever
/// the command is, and a failed validation preempts the payload.
pub open spec fn route_outcome(args: RouteArgsView, answers: Answers) -> Result<
    JsonValue,
    AdminErrView,
> {
    match command_gate(args) {
        Err(e) => Err(e),
        Ok(command) => if args.token is Some && !answers.token_ok {
            Err(AdminErrView::InvdToken)
        } else {
            match call_of(command, args.data) {
                Err(e) => Err(e),
                Ok(CallView::GetToken(_)) => issue_outcome(answers.issued),
                Ok(CallView::Ec2Control(_)) => control_outcome(answers.controlled),
            }
        },
    }
}

/// The outcome of a request, given what the capabilities answer.
pub open spec fn admin_outcome(env: EnvView, args: RouteArgsView, answers: Answers) -> Result<
    JsonValue,
    AdminErrView,
> {
    match config_of(env) {
        Err(e) => Err(e),
        Ok(_) => route_outcome(args, answers),
    }
}

/// Whether the router has come to decode the payload: the command was
/// accepted, and the token, where one was presented, was found valid.
pub open spec fn authorized(args: RouteArgsView, answers: Answers) -> bool {
    command_gate(args) is Ok && (args.token is None || answers.token_ok)
}

/// Whether `answers` holds, for each call that the request leads to, an
/// answer that `cmd` may give to exactly that call.
pub open spec fn route_asks<T: Cmd>(cmd: T, args: RouteArgsView, answers: Answers) -> bool {
    &&& command_gate(args) is Ok && args.token is Some ==> cmd.may_check(
        args.token->0,
        answers.token_ok,
    )
    &&& authorized(args, answers) ==> match call_of(command_gate(args)->Ok_0, args.data) {
        Ok(CallView::GetToken(password)) => cmd.may_issue(password, answers.issued),
        Ok(CallView::Ec2Control(op)) => cmd.may_control(op, answers.controlled),
        Err(_) => true,
    }
}

/// Whether `answers` holds, for each call that the request leads to, an
/// answer that `cmd` may give to exactly that call, the configuration
/// handed along.
pub open spec fn admin_asks<T: RunCommands>(
    cmd: T,
    env: EnvView,
    args: RouteArgsView,
    answers: Answers,
) -> bool {
    config_of(env) matches Ok(config) ==> {
        &&& command_gate(args) is Ok && args.token is Some ==> cmd.may_check(
            args.token->0,
            config.jwt_secret,
            answers.token_ok,
        )
        &&& authorized(args, answers) ==> match call_of(command_gate(args)->Ok_0, args.data) {
            Ok(CallView::GetToken(password)) => cmd.may_issue(
                password,
                config.password,
                config.jwt_secret,
                answers.issued,
            ),
            Ok(CallView::Ec2Control(op)) => cmd.may_control(
                config.instance_id,
                op,
                answers.controlled,
            ),
            Err(_) => true,
        }
    }
}

/// Handles one request: checks the configuration, then the command and the
/// token, decodes the payload and asks the capability.
///
/// The result is the outcome for some answers of the capability set, each
/// of them an answer that `cmd` may give to the very call that the request
/// leads to. No capability is asked before the command is known and the
/// token, where one is needed or presented, has been found valid.
pub fn admin<T: RunCommands>(env: Env, args: RouteArgs, cmd: T) -> (res: Result<
    serde_json::Value,
    AdminErr,
>)
    ensures
        exists|answers: Answers| #[trigger]
            admin_asks(cmd, env@, args@, answers) && outcome_view(res) == admin_outcome(
                env@,
                args@,
                answers,
            ),
{
    let ghost env0 = env@;
    let ghost idle = Answers {
        token_ok: true,
        issued: Err(AdminErrView::Unknown),
        controlled: Err(AdminErrView::Unknown),
    };
    let config = match Config::load(env) {
        Ok(config) => config,
        Err(e) => {
            assert(admin_asks(cmd, env0, args@, idle));
            return Err(e);
        },
    };
    let command = match check_command(&args) {
        Ok(command) => command,
        Err(e) => {
            assert(admin_asks(cmd, env0, args@, idle));
            return Err(e);
        },
    };
    if let Some(token) = &args.token {
        let ok = cmd.check_token(token.as_str(), config.jwt_secret.as_str());
        if !ok {
            assert(admin_asks(cmd, env0, args@, Answers { token_ok: false, ..idle }));
            return Err(AdminErr::InvdToken);
        }
    }
    match decode_call(command, &args.data) {
        Err(e) => {
            assert(admin_asks(cmd, env0, args@, idle));
            Err(e)
        },
        Ok(Call::GetToken(params)) => {
            let issued = cmd.get_token(
                params.password.as_str(),
                config.password.as_str(),
                config.jwt_secret.as_str(),
            );
            assert(admin_asks(cmd, env0, args@, Answers { issued: result_view(issued), ..idle }));
            token_reply(issued)
        },
        Ok(Call::Ec2Control(op)) => {
            let controlled = cmd.ec2_control(config.instance_id.as_str(), &op);
            assert(admin_asks(
                cmd,
                env0,
                args@,
                Answers { controlled: result_view(controlled), ..idle },
            ));
            ec2_reply(controlled)
        },
    }
}

/// Can provide our routing functionality.
pub trait Route {
    /// Whether `res` is a result that `route` may give for `args`.
    open spec fn may_route(&self, args: RouteArgsView, res: Result<JsonValue, AdminErrView>) -> bool {
        true
    }

    fn route(&self, args: RouteArgs) -> (res: Result<serde_json::Value, AdminErr>)
        ensures
            self.may_route(args@, outcome_view(res)),
    ;
}

/// Routes requests to a command runner whose configuration was captured
/// when it was built.
pub struct Router<T: Cmd + Sync + Send> {
    pub cmd: T,
}

impl<T: Cmd + Sync + Send> Router<T> {
    pub fn new(cmd: T) -> (router: Router<T>)
        ensures
            router.cmd == cmd,
    {
        Router { cmd }
    }
}

impl<T: Cmd + Sync + Send> Route for Router<T> {
    /// The result is the outcome for some answers of the command runner,
    /// each of them an answer that it may give to the very call that the
    /// request leads to.
    open spec fn may_route(&self, args: RouteArgsView, res: Result<JsonValue, AdminErrView>) -> bool {
        exists|answers: Answers| #[trigger]
            route_asks(self.cmd, args, answers) && res == route_outcome(args, answers)
    }

    fn route(&self, args: RouteArgs) -> (res: Result<serde_json::Value, AdminErr>) {
        let ghost idle = Answers {
            token_ok: true,
            issued: Err(AdminErrView::Unknown),
            controlled: Err(AdminErrView::Unknown),
        };
        let command = match check_command(&args) {
            Ok(command) => command,
            Err(e) => {
                assert(route_asks(self.cmd, args@, idle));
                return Err(e);
            },
        };
        if let Some(token) = &args.token {
            let ok = self.cmd.check_token(token.as_str());
            if !ok {
                assert(route_asks(self.cmd, args@, Answers { token_ok: false, ..idle }));
                return Err(AdminErr::InvdToken);
            }
        }
        match decode_call(command, &args.data) {
            Err(e) => {
                assert(route_asks(self.cmd, args@, idle));
                Err(e)
            },
            Ok(Call::GetToken(params)) => {
                let issued = self.cmd.get_token(params.password.as_str());
                assert(route_asks(
                    self.cmd,
                    args@,
                    Answers { issued: result_view(issued), ..idle },
                ));
                token_reply(issued)
            },
            Ok(Call::Ec2Control(op)) => {
                let controlled = self.cmd.ec2_control(&op);
                assert(route_asks(
                    self.cmd,
                    args@,
                    Answers { controlled: result_view(controlled), ..idle },
                ));
                ec2_reply(controlled)
            },
        }
    }
}

} // verus!
