use ec2_admin::errors::{AdminErr, TypeErr};

#[test]
fn each_kind_of_error_has_its_message() {
    let s = |x: &str| x.to_string();
    assert_eq!(AdminErr::ConfNone(s("JWT_SECRET")).to_string(), "JWT_SECRET was not configured");
    assert_eq!(AdminErr::ConfNone(s("PWD")).to_string(), "PWD was not configured");
    assert_eq!(
        AdminErr::DataNone(s("password")).to_string(),
        "password is missing from the data field, please add it in the data object"
    );
    assert_eq!(
        AdminErr::InvdCmd(s("reboot")).to_string(),
        "The given command reboot is invalid, please enter a valid command"
    );
    assert_eq!(AdminErr::InvdEc2Op(s("spin")).to_string(), "spin, is an invalid ec2 operation");
    assert_eq!(
        AdminErr::CmdNone.to_string(),
        "The command field is missing,add an valid command to it"
    );
    assert_eq!(AdminErr::InvdToken.to_string(), "The auth token is invalid");
    assert_eq!(AdminErr::Ec2None.to_string(), "Ec2 Instance not found");
    assert_eq!(AdminErr::TokenNone.to_string(), "The auth token is missing");
    assert_eq!(AdminErr::Ec2Unknown(s("timed out")).to_string(), "Ec2 Error: timed out");
    assert_eq!(AdminErr::InvdCreds.to_string(), "The provided credientials are invalid");
    assert_eq!(AdminErr::Unknown.to_string(), "Unknown Error");
}

#[test]
fn type_error_names_field_and_both_types() {
    let err = TypeErr {
        fieldname: "operation".to_string(),
        recieved_type: "number".to_string(),
        expected_type: "string".to_string(),
    };
    let expected = "For the field operation, we were expecting type string, but found number \
                    instead.Try using the correct type";
    assert_eq!(err.to_string(), expected);
    assert_eq!(AdminErr::TypeErr(err).to_string(), expected);
}

#[test]
fn messages_take_their_argument_verbatim() {
    assert_eq!(AdminErr::ConfNone(String::new()).to_string(), " was not configured");
    assert_eq!(AdminErr::Ec2Unknown(String::new()).to_string(), "Ec2 Error: ");
    assert_eq!(
        AdminErr::InvdCmd("a b\u{e9}".to_string()).to_string(),
        "The given command a b\u{e9} is invalid, please enter a valid command"
    );
}
