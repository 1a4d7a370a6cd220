//! The token capability with its configuration captured at construction.

use crate::capability::Auth;
use crate::command_runners::{get_token, token_for};
use crate::errors::{result_view, AdminErr, AdminErrView};
use crate::jwt_auth::{decode_default_token, token_check_at};
use crate::strings::text;
use vstd::prelude::*;

verus! {

/// Issues tokens in exchange for the configured password and validates
/// them against the configured secret.
pub struct AuthService {
    pub secret: String,
    pub pwd: String,
}

/// The strings of an [`AuthService`] as sequences of characters.
pub struct AuthServiceView {
    pub secret: Seq<char>,
    pub pwd: Seq<char>,
}

impl View for AuthService {
    type V = AuthServiceView;

    open spec fn view(&self) -> AuthServiceView {
        AuthServiceView { secret: self.secret@, pwd: self.pwd@ }
    }
}

/// The service that the two variables give: the error for the first that is
/// missing, the secret before the password.
pub open spec fn auth_service_of(jwt_secret: Option<Seq<char>>, password: Option<Seq<char>>) -> Result<
    AuthServiceView,
    AdminErrView,
> {
    if jwt_secret is None {
        Err(AdminErrView::ConfNone("JWT_SECRET"@))
    } else if password is None {
        Err(AdminErrView::ConfNone("PWD"@))
    } else {
        Ok(AuthServiceView { secret: jwt_secret->0, pwd: password->0 })
    }
}

impl AuthService {
    /// Builds the service from the signing secret and the password as they
    /// were read from the environment.
    pub fn new(jwt_secret: Option<String>, password: Option<String>) -> (res: Result<
        AuthService,
        AdminErr,
    >)
        ensures
            result_view(res) == auth_service_of(text(jwt_secret), text(password)),
    {
        let secret = match jwt_secret {
            Some(s) => s,
            None => {
                return Err(AdminErr::ConfNone("JWT_SECRET".to_owned()));
            },
        };
        let pwd = match password {
            Some(s) => s,
            None => {
                return Err(AdminErr::ConfNone("PWD".to_owned()));
            },
        };
        Ok(AuthService { pwd, secret })
    }
}

impl Auth for AuthService {
    /// A wrong password gives `InvdCreds`; the right one gives the token
    /// issued at some reading of the clock.
    open spec fn may_issue(&self, pwd: Seq<char>, res: Result<Seq<char>, AdminErrView>) -> bool {
        exists|now: u64| res == #[trigger] token_for(pwd, self.pwd@, self.secret@, now)
    }

    /// The answer is whether the check of exactly this token under the
    /// service's own secret succeeds at some reading of the clock. A text
    /// without a dot is never a valid token.
    open spec fn may_validate(&self, token: Seq<char>, ok: bool) -> bool {
        &&& exists|now: u64| ok == (#[trigger] token_check_at(token, self.secret@, now) is Ok)
        &&& !token.contains('.') ==> !ok
    }

    fn get_token(&self, pwd: &str) -> (res: Result<String, AdminErr>) {
        get_token(pwd, self.pwd.as_str(), self.secret.as_str())
    }

    fn validate_token(&self, token: &str) -> (ok: bool) {
        let res = decode_default_token(token, self.secret.as_str());
        let ghost now = choose|now: u64| res == #[trigger] token_check_at(token@, self.secret@, now);
        let ok = res.is_ok();
        assert(ok == (token_check_at(token@, self.secret@, now) is Ok));
        ok
    }
}

} // verus!
