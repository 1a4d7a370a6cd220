//! What holds of the pipeline for every request, proved from the
//! definitions that the contracts use.

use crate::command::{command_of, Command};
use crate::command_runners::token_for;
use crate::config::{config_of, EnvView};
use crate::ec2::{code_of, status_of, Ec2Status};
use crate::errors::{message, AdminErrView};
use crate::lambda_http::{error_response, envelope, http_error_of, msg_body, response_of, status_of_error};
use crate::router::{
    admin_outcome, authorized, call_of, command_gate, control_outcome, issue_outcome,
    refused, route_outcome, Answers, CallView, RouteArgsView,
};
use vstd::prelude::*;

verus! {

/// Whether all three variables of the environment are set.
pub open spec fn complete(env: EnvView) -> bool {
    env.jwt_secret is Some && env.password is Some && env.instance_id is Some
}

/// A request without `JWT_SECRET` is answered with status 500 and the
/// message "JWT_SECRET was not configured", whatever else it holds and
/// whatever the capabilities would answer.
pub proof fn lemma_missing_secret(env: EnvView, args: RouteArgsView, answers: Answers)
    requires
        env.jwt_secret is None,
    ensures
        admin_outcome(env, args, answers) == refused(
            AdminErrView::ConfNone("JWT_SECRET"@),
        ),
        response_of(admin_outcome(env, args, answers)) == envelope(
            500,
            msg_body(Some("JWT_SECRET was not configured"@)),
        ),
{
    reveal_strlit("JWT_SECRET");
    reveal_strlit(" was not configured");
    reveal_strlit("JWT_SECRET was not configured");
    assert(message(AdminErrView::ConfNone("JWT_SECRET"@)) =~= "JWT_SECRET was not configured"@);
}

/// The configuration is complete exactly where all three variables are set,
/// and then it holds their values: a partial configuration is never handed
/// on. The first missing variable is the one reported.
pub proof fn lemma_config_is_all_or_nothing(env: EnvView)
    ensures
        config_of(env) is Ok <==> complete(env),
        config_of(env) matches Ok(config) ==> Some(config.jwt_secret) == env.jwt_secret && Some(
            config.password,
        ) == env.password && Some(config.instance_id) == env.instance_id,
        env.jwt_secret is None ==> config_of(env) == Err::<crate::config::ConfigView, AdminErrView>(
            AdminErrView::ConfNone("JWT_SECRET"@),
        ),
        env.jwt_secret is Some && env.password is None ==> config_of(env) == Err::<
            crate::config::ConfigView,
            AdminErrView,
        >(AdminErrView::ConfNone("PWD"@)),
        env.jwt_secret is Some && env.password is Some && env.instance_id is None ==> config_of(env)
            == Err::<crate::config::ConfigView, AdminErrView>(AdminErrView::ConfNone("EC2_ID"@)),
{
}

/// With complete configuration, a request without a command is answered
/// with status 400 and the message that the command field is missing.
pub proof fn lemma_missing_command(env: EnvView, args: RouteArgsView, answers: Answers)
    requires
        complete(env),
        args.command is None,
    ensures
        admin_outcome(env, args, answers) == refused(
            AdminErrView::CmdNone,
        ),
        response_of(admin_outcome(env, args, answers)) == envelope(
            400,
            msg_body(Some("The command field is missing,add an valid command to it"@)),
        ),
{
}

/// With complete configuration, a known command other than `GetToken` that
/// comes without a token is answered with `TokenNone`, and its status is
/// 400: only a token that fails validation gives 403.
pub proof fn lemma_missing_token(env: EnvView, args: RouteArgsView, answers: Answers)
    requires
        complete(env),
        args.command is Some,
        command_of(args.command->0) != Command::Invalid,
        command_of(args.command->0) != Command::GetToken,
        args.token is None,
    ensures
        admin_outcome(env, args, answers) == refused(
            AdminErrView::TokenNone,
        ),
        response_of(admin_outcome(env, args, answers)) == envelope(
            400,
            msg_body(Some("The auth token is missing"@)),
        ),
        forall|e: AdminErrView| #[trigger] status_of_error(e) == 403 <==> e == AdminErrView::InvdToken,
{
}

/// The two spellings of the token command stand for the same command, and a
/// request is routed alike under either.
pub proof fn lemma_token_command_alias(args: RouteArgsView, answers: Answers)
    ensures
        command_of("get-token"@) == Command::GetToken,
        command_of("validate-token"@) == Command::GetToken,
        route_outcome(RouteArgsView { command: Some("validate-token"@), ..args }, answers)
            == route_outcome(RouteArgsView { command: Some("get-token"@), ..args }, answers),
{
    reveal_strlit("ec2-control");
    reveal_strlit("get-token");
    reveal_strlit("validate-token");
    assert("ec2-control"@.len() == 11);
    assert("get-token"@.len() == 9);
    assert("validate-token"@.len() == 14);
}

/// Every status is the status of its own code: the table of state codes
/// reaches each of the five states, and reading a state's code back gives
/// that state.
pub proof fn lemma_status_of_code_of(status: Ec2Status)
    ensures
        status_of(code_of(status)) == status,
{
}

/// The outcome of a request is the error of the earliest check that it
/// fails: configuration, then the presence of the command, then its
/// spelling, then the presence of a token, then the token's validity, then
/// the payload. Only a request that passes them all gets what the
/// capability answered.
pub proof fn lemma_earliest_failure_wins(env: EnvView, args: RouteArgsView, answers: Answers)
    ensures
        config_of(env) matches Err(e) ==> admin_outcome(env, args, answers) == refused(e),
        complete(env) && args.command is None ==> admin_outcome(env, args, answers) == refused(AdminErrView::CmdNone),
        complete(env) && args.command is Some && command_of(args.command->0) == Command::Invalid
            ==> admin_outcome(env, args, answers) == refused(
            AdminErrView::InvdCmd(args.command->0),
        ),
        complete(env) && args.command is Some && command_of(args.command->0)
            == Command::Ec2Control && args.token is None ==> admin_outcome(env, args, answers)
            == refused(AdminErrView::TokenNone),
        complete(env) && command_gate(args) is Ok && args.token is Some && !answers.token_ok
            ==> admin_outcome(env, args, answers) == refused(
            AdminErrView::InvdToken,
        ),
        complete(env) && authorized(args, answers) ==> match call_of(
            command_gate(args)->Ok_0,
            args.data,
        ) {
            Err(e) => admin_outcome(env, args, answers) == refused(e),
            Ok(CallView::GetToken(_)) => admin_outcome(env, args, answers) == issue_outcome(
                answers.issued,
            ),
            Ok(CallView::Ec2Control(_)) => admin_outcome(env, args, answers) == control_outcome(
                answers.controlled,
            ),
        },
{
}

/// The router comes to ask for a token or for an instance operation only
/// where the command is `GetToken` and no token was presented, or where the
/// presented token was found valid.
pub proof fn lemma_no_call_without_authorization(args: RouteArgsView, answers: Answers)
    requires
        authorized(args, answers),
    ensures
        (args.token is None && command_gate(args) == Ok::<Command, AdminErrView>(
            Command::GetToken,
        )) || (args.token is Some && answers.token_ok),
{
}

/// A request that is not authorized ends in an error, whatever the
/// capabilities would have answered to a call.
pub proof fn lemma_unauthorized_is_refused(
    args: RouteArgsView,
    answers: Answers,
    others: Answers,
)
    requires
        !authorized(args, answers),
        others.token_ok == answers.token_ok,
    ensures
        route_outcome(args, answers) is Err,
        route_outcome(args, others) == route_outcome(args, answers),
{
}

/// A password is exchanged for a token only where it is, character for
/// character, the configured one: any other is refused with `InvdCreds`, and
/// the configured one never is.
pub proof fn lemma_password_decides_issuance(
    password: Seq<char>,
    correct_password: Seq<char>,
    jwt_secret: Seq<char>,
    now: u64,
)
    ensures
        password != correct_password ==> token_for(password, correct_password, jwt_secret, now)
            == Err::<Seq<char>, AdminErrView>(AdminErrView::InvdCreds),
        password == correct_password ==> token_for(password, correct_password, jwt_secret, now)
            != Err::<Seq<char>, AdminErrView>(AdminErrView::InvdCreds),
{
}

/// An error response carries the status of the error's kind and its
/// canonical message, and nothing of the request.
pub proof fn lemma_error_response(e: AdminErrView)
    ensures
        response_of(Err(e)) == error_response(http_error_of(e)),
        response_of(Err(e)) == envelope(status_of_error(e), msg_body(Some(message(e)))),
        status_of_error(e) == 500 || status_of_error(e) == 403 || status_of_error(e) == 400,
{
}

} // verus!
