//! Configuration: the three environment variables that every request needs.

use crate::errors::{result_view, AdminErr, AdminErrView};
use crate::strings::text;
use vstd::prelude::*;

verus! {

/// The environment as it was read at request entry. A variable that is not
/// set is `None`.
#[derive(Debug, Clone, PartialEq, Eq)]
pub struct Env {
    /// `JWT_SECRET`
    pub jwt_secret: Option<String>,
    /// `PASSWORD`
    pub password: Option<String>,
    /// `EC2_ID`
    pub instance_id: Option<String>,
}

/// An [`Env`] with its strings as sequences of characters.
pub struct EnvView {
    pub jwt_secret: Option<Seq<char>>,
    pub password: Option<Seq<char>>,
    pub instance_id: Option<Seq<char>>,
}

impl View for Env {
    type V = EnvView;

    open spec fn view(&self) -> EnvView {
        EnvView {
            jwt_secret: text(self.jwt_secret),
            password: text(self.password),
            instance_id: text(self.instance_id),
        }
    }
}

/// The complete configuration of a request. It is read-only once loaded.
#[derive(Debug, Clone, PartialEq, Eq)]
pub struct Config {
    pub jwt_secret: String,
    pub password: String,
    pub instance_id: String,
}

/// A [`Config`] with its strings as sequences of characters.
pub struct ConfigView {
    pub jwt_secret: Seq<char>,
    pub password: Seq<char>,
    pub instance_id: Seq<char>,
}

impl View for Config {
    type V = ConfigView;

    open spec fn view(&self) -> ConfigView {
        ConfigView {
            jwt_secret: self.jwt_secret@,
            password: self.password@,
            instance_id: self.instance_id@,
        }
    }
}

/// The configuration that an environment gives: the three values where all
/// are set, else the error for the first that is missing, in the order
/// secret, password, instance. The password is reported under the name
/// `PWD`.
pub open spec fn config_of(env: EnvView) -> Result<ConfigView, AdminErrView> {
    if env.jwt_secret is None {
        Err(AdminErrView::ConfNone("JWT_SECRET"@))
    } else if env.password is None {
        Err(AdminErrView::ConfNone("PWD"@))
    } else if env.instance_id is None {
        Err(AdminErrView::ConfNone("EC2_ID"@))
    } else {
        Ok(
            ConfigView {
                jwt_secret: env.jwt_secret->0,
                password: env.password->0,
                instance_id: env.instance_id->0,
            },
        )
    }
}

impl Config {
    /// Checks that the environment is complete. Partial configuration is
    /// never handed on.
    pub fn load(env: Env) -> (res: Result<Config, AdminErr>)
        ensures
            result_view(res) == config_of(env@),
    {
        let jwt_secret = match env.jwt_secret {
            Some(s) => s,
            None => {
                return Err(AdminErr::ConfNone("JWT_SECRET".to_owned()));
            },
        };
        let password = match env.password {
            Some(s) => s,
            None => {
                return Err(AdminErr::ConfNone("PWD".to_owned()));
            },
        };
        let instance_id = match env.instance_id {
            Some(s) => s,
            None => {
                return Err(AdminErr::ConfNone("EC2_ID".to_owned()));
            },
        };
        Ok(Config { jwt_secret, password, instance_id })
    }
}

} // verus!
