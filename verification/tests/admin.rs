use ec2_admin::capability::RunCommands;
use ec2_admin::command::{Command, Ec2Op};
use ec2_admin::config::{Config, Env};
use ec2_admin::ec2::{Ec2CtrlRes, Ec2Status};
use ec2_admin::errors::{AdminErr, TypeErr};
use ec2_admin::router::{
    admin, check_command, decode_call, ec2_reply, payload_field, token_reply, Call,
    Ec2ControlData, GetTokenData, RouteArgs,
};
use serde_json::Value;
use std::cell::RefCell;

struct MockRunner();

impl RunCommands for MockRunner {
    fn get_token(
        &self,
        _pwd: &str,
        _config_pwd: &str,
        _jwt_secret: &str,
    ) -> Result<String, AdminErr> {
        Ok("12345".into())
    }

    fn check_token(&self, _token: &str, _secret: &str) -> bool {
        true
    }

    fn ec2_control(&self, _instance_id: &str, _op: &Ec2Op) -> Result<Ec2CtrlRes, AdminErr> {
        Ok(Ec2CtrlRes { status: Ec2Status::On, ip: Some("12.3.45.3".into()) })
    }
}

/// Answers as it is told and writes down every call that it gets.
struct Recorder {
    token_ok: bool,
    issued: Result<String, AdminErr>,
    controlled: Result<Ec2CtrlRes, AdminErr>,
    calls: RefCell<Vec<String>>,
}

impl Recorder {
    fn new() -> Recorder {
        Recorder {
            token_ok: true,
            issued: Ok("tok".to_string()),
            controlled: Ok(Ec2CtrlRes { status: Ec2Status::Off, ip: None }),
            calls: RefCell::new(Vec::new()),
        }
    }
}

impl RunCommands for &Recorder {
    fn get_token(&self, pwd: &str, config_pwd: &str, jwt_secret: &str) -> Result<String, AdminErr> {
        self.calls.borrow_mut().push(format!("get_token({pwd},{config_pwd},{jwt_secret})"));
        self.issued.clone()
    }

    fn check_token(&self, token: &str, secret: &str) -> bool {
        self.calls.borrow_mut().push(format!("check_token({token},{secret})"));
        self.token_ok
    }

    fn ec2_control(&self, instance_id: &str, op: &Ec2Op) -> Result<Ec2CtrlRes, AdminErr> {
        self.calls.borrow_mut().push(format!("ec2_control({instance_id},{op:?})"));
        self.controlled.clone()
    }
}

fn env(jwt_secret: Option<&str>, password: Option<&str>, instance_id: Option<&str>) -> Env {
    Env {
        jwt_secret: jwt_secret.map(str::to_string),
        password: password.map(str::to_string),
        instance_id: instance_id.map(str::to_string),
    }
}

fn full_env() -> Env {
    env(Some("12345"), Some("12345"), Some("12345"))
}

fn json(text: &str) -> Value {
    serde_json::from_str(text).unwrap()
}

fn args(token: Option<&str>, command: Option<&str>, data: Option<&str>) -> RouteArgs {
    RouteArgs {
        token: token.map(str::to_string),
        command: command.map(str::to_string),
        data: data.map(json),
    }
}

#[test]
fn jwt_env_err() {
    let args = RouteArgs { token: None, command: None, data: None };
    let res = admin(env(None, None, None), args, MockRunner());
    assert!(res.is_err());
    let res = res.unwrap_err();
    assert_eq!(
        format!("{}", res.to_string()),
        format!("{}", AdminErr::ConfNone("JWT_SECRET".to_string()).to_string())
    );
}

#[test]
fn pwd_env_err() {
    let args = RouteArgs { token: None, command: None, data: None };
    let res = admin(env(Some("12345"), None, None), args, MockRunner());
    assert!(res.is_err());
    let res = res.unwrap_err();
    assert_eq!(
        format!("{}", res.to_string()),
        format!("{}", AdminErr::ConfNone("PWD".to_string()).to_string())
    );
}

#[test]
fn ec2_id_env_err() {
    let args = RouteArgs { token: None, command: None, data: None };
    let res = admin(env(Some("12345"), Some("12345"), None), args, MockRunner());
    assert!(res.is_err());
    let res = res.unwrap_err();
    assert_eq!(
        format!("{}", res.to_string()),
        format!("{}", AdminErr::ConfNone("EC2_ID".to_string()).to_string())
    );
}

#[test]
fn missing_command() {
    let args = RouteArgs { token: None, command: None, data: None };
    let res = admin(full_env(), args, MockRunner());
    assert!(res.is_err());
    let res = res.unwrap_err();
    assert_eq!(format!("{}", res.to_string()), format!("{}", AdminErr::CmdNone.to_string()));
}

#[test]
fn unauth() {
    let args = RouteArgs { token: None, command: Some("ec2-control".to_string()), data: None };
    let res = admin(full_env(), args, MockRunner());
    assert!(res.is_err());
    let res = res.unwrap_err();
    assert_eq!(format!("{}", res.to_string()), format!("{}", AdminErr::TokenNone.to_string()));
}

#[test]
fn get_token() {
    let args = RouteArgs {
        token: None,
        command: Some("get-token".to_string()),
        data: Some(json(r#"{"password":"12345"}"#)),
    };
    let res = admin(full_env(), args, MockRunner());
    assert!(res.is_ok());
    let res = res.unwrap();
    assert_eq!(json(r#"{"token":"12345"}"#), res)
}

#[test]
fn get_status() {
    let args = RouteArgs {
        token: Some("1234".to_string()),
        command: Some("ec2-control".to_string()),
        data: Some(json(r#"{"operation":"on"}"#)),
    };
    let res = admin(full_env(), args, MockRunner());
    assert!(res.is_ok());
    let res = res.unwrap();
    assert_eq!(json(r#"{"status":"On","ip":"12.3.45.3"}"#), res)
}

#[test]
fn errors_are_the_variants_themselves() {
    let none = || RouteArgs { token: None, command: None, data: None };
    assert_eq!(
        admin(env(None, Some("p"), Some("i")), none(), MockRunner()),
        Err(AdminErr::ConfNone("JWT_SECRET".to_string()))
    );
    assert_eq!(
        admin(env(Some("s"), None, Some("i")), none(), MockRunner()),
        Err(AdminErr::ConfNone("PWD".to_string()))
    );
    assert_eq!(
        admin(env(Some("s"), Some("p"), None), none(), MockRunner()),
        Err(AdminErr::ConfNone("EC2_ID".to_string()))
    );
    assert_eq!(admin(full_env(), none(), MockRunner()), Err(AdminErr::CmdNone));
}

#[test]
fn config_load_keeps_the_three_values() {
    let config = Config::load(env(Some("secret"), Some("pass"), Some("i-0abc"))).unwrap();
    assert_eq!(
        config,
        Config {
            jwt_secret: "secret".to_string(),
            password: "pass".to_string(),
            instance_id: "i-0abc".to_string(),
        }
    );
    assert_eq!(
        Config::load(env(None, None, None)),
        Err(AdminErr::ConfNone("JWT_SECRET".to_string()))
    );
    assert_eq!(
        Config::load(env(Some(""), None, None)),
        Err(AdminErr::ConfNone("PWD".to_string()))
    );
}

#[test]
fn missing_config_preempts_everything_and_asks_nothing() {
    let recorder = Recorder::new();
    let res = admin(
        env(None, Some("pw"), Some("id")),
        args(Some("t"), Some("ec2-control"), Some(r#"{"operation":"on"}"#)),
        &recorder,
    );
    assert_eq!(res, Err(AdminErr::ConfNone("JWT_SECRET".to_string())));
    assert!(recorder.calls.borrow().is_empty());
}

#[test]
fn unknown_command_is_invalid_not_missing() {
    let res = admin(full_env(), args(None, Some("reboot"), None), MockRunner());
    assert_eq!(res, Err(AdminErr::InvdCmd("reboot".to_string())));
    let res = admin(full_env(), args(Some("t"), Some(""), None), MockRunner());
    assert_eq!(res, Err(AdminErr::InvdCmd("".to_string())));
}

#[test]
fn unknown_command_preempts_missing_token() {
    let recorder = Recorder::new();
    let res = admin(full_env(), args(None, Some("Get-Token"), None), &recorder);
    assert_eq!(res, Err(AdminErr::InvdCmd("Get-Token".to_string())));
    assert!(recorder.calls.borrow().is_empty());
}

#[test]
fn missing_token_preempts_missing_payload() {
    let recorder = Recorder::new();
    let res = admin(full_env(), args(None, Some("ec2-control"), None), &recorder);
    assert_eq!(res, Err(AdminErr::TokenNone));
    assert!(recorder.calls.borrow().is_empty());
}

#[test]
fn invalid_token_preempts_payload_and_capability() {
    let mut recorder = Recorder::new();
    recorder.token_ok = false;
    let res = admin(
        env(Some("sec"), Some("pw"), Some("id")),
        args(Some("bad"), Some("ec2-control"), None),
        &recorder,
    );
    assert_eq!(res, Err(AdminErr::InvdToken));
    assert_eq!(*recorder.calls.borrow(), vec!["check_token(bad,sec)".to_string()]);
}

#[test]
fn empty_token_is_present_and_is_validated() {
    let mut recorder = Recorder::new();
    recorder.token_ok = false;
    let res = admin(
        env(Some("sec"), Some("pw"), Some("id")),
        args(Some(""), Some("ec2-control"), Some(r#"{"operation":"on"}"#)),
        &recorder,
    );
    assert_eq!(res, Err(AdminErr::InvdToken));
    assert_eq!(*recorder.calls.borrow(), vec!["check_token(,sec)".to_string()]);
}

#[test]
fn token_with_get_token_is_validated_first() {
    let mut recorder = Recorder::new();
    recorder.token_ok = false;
    let res = admin(
        env(Some("sec"), Some("pw"), Some("id")),
        args(Some("stale"), Some("get-token"), Some(r#"{"password":"pw"}"#)),
        &recorder,
    );
    assert_eq!(res, Err(AdminErr::InvdToken));
    assert_eq!(*recorder.calls.borrow(), vec!["check_token(stale,sec)".to_string()]);
}

#[test]
fn get_token_hands_password_and_configuration_to_the_capability() {
    let recorder = Recorder::new();
    let res = admin(
        env(Some("sec"), Some("pw"), Some("id")),
        args(None, Some("get-token"), Some(r#"{"password":"guess"}"#)),
        &recorder,
    );
    assert_eq!(res, Ok(json(r#"{"token":"tok"}"#)));
    assert_eq!(*recorder.calls.borrow(), vec!["get_token(guess,pw,sec)".to_string()]);
}

#[test]
fn validate_token_is_dispatched_as_get_token() {
    let recorder = Recorder::new();
    let res = admin(
        env(Some("sec"), Some("pw"), Some("id")),
        args(None, Some("validate-token"), Some(r#"{"password":"guess"}"#)),
        &recorder,
    );
    assert_eq!(res, Ok(json(r#"{"token":"tok"}"#)));
    assert_eq!(*recorder.calls.borrow(), vec!["get_token(guess,pw,sec)".to_string()]);
}

#[test]
fn any_failure_of_issuance_is_invalid_credentials() {
    let mut recorder = Recorder::new();
    recorder.issued = Err(AdminErr::Unknown);
    let res =
        admin(full_env(), args(None, Some("get-token"), Some(r#"{"password":"x"}"#)), &recorder);
    assert_eq!(res, Err(AdminErr::InvdCreds));
}

#[test]
fn ec2_control_hands_instance_and_operation_to_the_capability() {
    let recorder = Recorder::new();
    let res = admin(
        env(Some("sec"), Some("pw"), Some("i-77")),
        args(Some("t"), Some("ec2-control"), Some(r#"{"operation":"status"}"#)),
        &recorder,
    );
    assert_eq!(res, Ok(json(r#"{"status":"Off","ip":null}"#)));
    assert_eq!(
        *recorder.calls.borrow(),
        vec!["check_token(t,sec)".to_string(), "ec2_control(i-77,Status)".to_string()]
    );
}

#[test]
fn ec2_error_surfaces_unchanged() {
    let mut recorder = Recorder::new();
    recorder.controlled = Err(AdminErr::Ec2None);
    let res = admin(
        full_env(),
        args(Some("t"), Some("ec2-control"), Some(r#"{"operation":"off"}"#)),
        &recorder,
    );
    assert_eq!(res, Err(AdminErr::Ec2None));
    recorder.controlled = Err(AdminErr::Ec2Unknown("throttled".to_string()));
    let res = admin(
        full_env(),
        args(Some("t"), Some("ec2-control"), Some(r#"{"operation":"off"}"#)),
        &recorder,
    );
    assert_eq!(res, Err(AdminErr::Ec2Unknown("throttled".to_string())));
}

#[test]
fn unknown_operation_is_refused_before_the_capability() {
    let recorder = Recorder::new();
    let res = admin(
        full_env(),
        args(Some("t"), Some("ec2-control"), Some(r#"{"operation":"reboot"}"#)),
        &recorder,
    );
    assert_eq!(res, Err(AdminErr::InvdEc2Op("reboot".to_string())));
    assert_eq!(*recorder.calls.borrow(), vec!["check_token(t,12345)".to_string()]);
}

#[test]
fn payload_errors_name_the_field() {
    let field_missing = |command: &str, data: Option<&str>| {
        admin(full_env(), args(Some("t"), Some(command), data), MockRunner())
    };
    assert_eq!(
        field_missing("get-token", None),
        Err(AdminErr::DataNone("password".to_string()))
    );
    assert_eq!(
        field_missing("get-token", Some(r#"{"operation":"on"}"#)),
        Err(AdminErr::DataNone("password".to_string()))
    );
    assert_eq!(
        field_missing("ec2-control", None),
        Err(AdminErr::DataNone("operation".to_string()))
    );
    assert_eq!(
        field_missing("ec2-control", Some("[1,2]")),
        Err(AdminErr::DataNone("operation".to_string()))
    );
    assert_eq!(
        field_missing("get-token", Some(r#"{"password":12345}"#)),
        Err(AdminErr::TypeErr(TypeErr {
            fieldname: "password".to_string(),
            recieved_type: "unknown".to_string(),
            expected_type: "string".to_string(),
        }))
    );
    assert_eq!(
        field_missing("ec2-control", Some(r#"{"operation":null}"#)),
        Err(AdminErr::TypeErr(TypeErr {
            fieldname: "operation".to_string(),
            recieved_type: "unknown".to_string(),
            expected_type: "string".to_string(),
        }))
    );
}

#[test]
fn check_command_on_each_kind_of_request() {
    assert_eq!(check_command(&args(None, None, None)), Err(AdminErr::CmdNone));
    assert_eq!(check_command(&args(Some("t"), None, None)), Err(AdminErr::CmdNone));
    assert_eq!(check_command(&args(None, Some("get-token"), None)), Ok(Command::GetToken));
    assert_eq!(check_command(&args(None, Some("validate-token"), None)), Ok(Command::GetToken));
    assert_eq!(check_command(&args(Some("t"), Some("get-token"), None)), Ok(Command::GetToken));
    assert_eq!(check_command(&args(None, Some("ec2-control"), None)), Err(AdminErr::TokenNone));
    assert_eq!(
        check_command(&args(Some(""), Some("ec2-control"), None)),
        Ok(Command::Ec2Control)
    );
    assert_eq!(
        check_command(&args(Some("t"), Some("ec2_control"), None)),
        Err(AdminErr::InvdCmd("ec2_control".to_string()))
    );
}

#[test]
fn payload_field_reads_the_string_not_the_document() {
    let data = Some(json(r#"{"password":"hunter2","n":1}"#));
    assert_eq!(payload_field(&data, "password"), Ok("hunter2".to_string()));
    assert_eq!(payload_field(&data, "n").unwrap_err().to_string(),
        "For the field n, we were expecting type string, but found unknown instead.Try using the correct type");
    assert_eq!(payload_field(&data, "m"), Err(AdminErr::DataNone("m".to_string())));
    assert_eq!(payload_field(&None, "m"), Err(AdminErr::DataNone("m".to_string())));
    assert_eq!(
        payload_field(&Some(json(r#""password""#)), "password"),
        Err(AdminErr::DataNone("password".to_string()))
    );
}

#[test]
fn decode_call_on_each_command() {
    assert_eq!(
        decode_call(Command::GetToken, &Some(json(r#"{"password":"pw"}"#))),
        Ok(Call::GetToken(GetTokenData { password: "pw".to_string() }))
    );
    assert_eq!(
        decode_call(Command::Ec2Control, &Some(json(r#"{"operation":"on"}"#))),
        Ok(Call::Ec2Control(Ec2Op::On))
    );
    assert_eq!(
        decode_call(Command::Ec2Control, &Some(json(r#"{"operation":"off"}"#))),
        Ok(Call::Ec2Control(Ec2Op::Off))
    );
    assert_eq!(
        decode_call(Command::Ec2Control, &Some(json(r#"{"operation":"status"}"#))),
        Ok(Call::Ec2Control(Ec2Op::Status))
    );
    assert_eq!(
        decode_call(Command::Ec2Control, &Some(json(r#"{"operation":"ON"}"#))),
        Err(AdminErr::InvdEc2Op("ON".to_string()))
    );
    assert_eq!(decode_call(Command::Invalid, &None), Err(AdminErr::Unknown));
    assert_eq!(
        Ec2ControlData::decode(&Some(json(r#"{"operation":"anything"}"#))),
        Ok(Ec2ControlData { operation: "anything".to_string() })
    );
    assert_eq!(GetTokenData::decode(&None), Err(AdminErr::DataNone("password".to_string())));
}

#[test]
fn replies_shape_the_answers() {
    assert_eq!(token_reply(Ok("abc".to_string())), Ok(json(r#"{"token":"abc"}"#)));
    assert_eq!(token_reply(Ok(String::new())), Ok(json(r#"{"token":""}"#)));
    assert_eq!(token_reply(Err(AdminErr::Ec2None)), Err(AdminErr::InvdCreds));
    assert_eq!(
        ec2_reply(Ok(Ec2CtrlRes { status: Ec2Status::Terminated, ip: None })),
        Ok(json(r#"{"status":"Terminated","ip":null}"#))
    );
    assert_eq!(
        ec2_reply(Ok(Ec2CtrlRes { status: Ec2Status::Pending, ip: Some("".to_string()) })),
        Ok(json(r#"{"status":"Pending","ip":""}"#))
    );
    assert_eq!(ec2_reply(Err(AdminErr::InvdToken)), Err(AdminErr::InvdToken));
}
