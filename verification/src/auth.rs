//! Who may use the gateway, and what a session token says.
//!
//! Signing and checking tokens, and reading credentials out of a request, are
//! the gateway's business. What is decided here is what follows from them:
//! which claims a caller ends up with, or why it is turned away.

use vstd::prelude::*;
use vstd::string::StringExecFns;

verus! {

/// Seconds a freshly issued token stays valid.
pub const TOKEN_LIFETIME_SECS: u64 = 7200;

/// Seconds before its issue from which a token is already accepted, to allow
/// for clocks that disagree.
pub const NOT_BEFORE_LEEWAY_SECS: u64 = 60;

/// The body that answers a request for a session.
#[derive(Debug)]
pub struct AuthBody {
    /// The signed token.
    pub access_token: String,
    /// How the token is to be presented: always `Bearer`.
    pub token_type: String,
}

impl AuthBody {
    /// Wraps a signed token for the caller.
    pub fn new(access_token: String) -> (body: AuthBody)
        ensures
            body.access_token == access_token,
            body.token_type@ == "Bearer"@,
    {
        AuthBody { access_token, token_type: "Bearer".to_owned() }
    }
}

/// What a session token asserts.
#[derive(Debug)]
pub struct Claims {
    /// Who the token was issued to.
    pub sub: String,
    /// Whom it is meant for.
    pub aud: String,
    /// Who issued it.
    pub iss: String,
    /// Seconds since the epoch after which it is no longer valid.
    pub exp: u64,
    /// Seconds since the epoch before which it is not yet valid.
    pub nbf: u64,
    /// Seconds since the epoch at which it was issued.
    pub iat: u64,
}

/// Why a caller was turned away.
#[derive(Clone, Copy, Debug, PartialEq, Eq, Structural)]
pub enum AuthError {
    /// The name and password presented are not the gateway's.
    WrongCredentials,
    /// A token could not be signed.
    TokenCreation,
    /// No usable credentials, or a token that does not verify.
    InvalidToken,
}

/// What a request presented by way of credentials.
#[derive(Debug)]
pub enum Presented {
    /// A bearer token; `Some` with its claims if it verified, `None` if not.
    Bearer(Option<Claims>),
    /// A name and a password.
    Basic { username: String, password: String },
    /// Nothing that could be read as either.
    Nothing,
}

/// The name the gateway accepts.
pub open spec fn operator_name() -> Seq<char> {
    "vimarrow"@
}

/// The password the gateway accepts.
pub open spec fn operator_password() -> Seq<char> {
    "toor21"@
}

/// A name and password are turned away only if neither of them is the
/// gateway's.
pub open spec fn turned_away(username: Seq<char>, password: Seq<char>) -> bool {
    username != operator_name() && password != operator_password()
}

/// The times `now` allows a token to be issued at: early enough that the
/// expiry fits, late enough that the leeway does.
pub open spec fn issuable_at(now: u64) -> bool {
    NOT_BEFORE_LEEWAY_SECS <= now <= u64::MAX - TOKEN_LIFETIME_SECS
}

impl Claims {
    /// True when these are exactly the claims issued to `subject` at `now`.
    pub open spec fn issued_to(&self, subject: Seq<char>, now: u64) -> bool {
        &&& self.sub@ == subject
        &&& self.aud@ == "orbit1"@
        &&& self.iss@ == "satellite"@
        &&& self.iat == now
        &&& self.exp == now + TOKEN_LIFETIME_SECS
        &&& self.nbf == now - NOT_BEFORE_LEEWAY_SECS
    }

    /// Issues claims to `subject` at `now`, in seconds since the epoch: valid
    /// from a minute before `now` until two hours after it.
    pub fn issue(subject: String, now: u64) -> (claims: Claims)
        requires
            issuable_at(now),
        ensures
            claims.issued_to(subject@, now),
    {
        Claims {
            sub: subject,
            aud: "orbit1".to_owned(),
            iss: "satellite".to_owned(),
            iat: now,
            exp: now + TOKEN_LIFETIME_SECS,
            nbf: now - NOT_BEFORE_LEEWAY_SECS,
        }
    }

    /// Two lines naming the subject and the audience.
    pub fn describe(&self) -> (text: String)
        ensures
            text@ == "Email: "@ + self.sub@ + "\nCompany: "@ + self.aud@,
    {
        let text = String::from_str("Email: ");
        let text = text.concat(self.sub.as_str());
        let text = text.concat("\nCompany: ");
        text.concat(self.aud.as_str())
    }
}

/// Whether a name and password are turned away.
pub fn rejects(username: &str, password: &str) -> (rejected: bool)
    ensures
        rejected == turned_away(username@, password@),
{
    let name_differs = username.to_owned() != "vimarrow".to_owned();
    let password_differs = password.to_owned() != "toor21".to_owned();
    name_differs && password_differs
}

/// Decides what a request's credentials amount to.
///
/// A bearer token that verified gives its own claims; one that did not is an
/// invalid token, and so is a request that presented nothing. A name and
/// password that are turned away are wrong credentials; any other pair is
/// issued fresh claims in the name presented, at `now`.
pub fn authenticate(presented: Presented, now: u64) -> (decided: Result<Claims, AuthError>)
    requires
        presented is Basic ==> issuable_at(now),
    ensures
        match presented {
            Presented::Bearer(Some(claims)) => decided == Ok::<Claims, AuthError>(claims),
            Presented::Bearer(None) => decided == Err::<Claims, AuthError>(
                AuthError::InvalidToken,
            ),
            Presented::Nothing => decided == Err::<Claims, AuthError>(AuthError::InvalidToken),
            Presented::Basic { username, password } => if turned_away(username@, password@) {
                decided == Err::<Claims, AuthError>(AuthError::WrongCredentials)
            } else {
                decided matches Ok(claims) && claims.issued_to(username@, now)
            },
        },
{
    match presented {
        Presented::Bearer(Some(claims)) => Ok(claims),
        Presented::Bearer(None) => Err(AuthError::InvalidToken),
        Presented::Nothing => Err(AuthError::InvalidToken),
        Presented::Basic { username, password } => {
            if rejects(username.as_str(), password.as_str()) {
                Err(AuthError::WrongCredentials)
            } else {
                Ok(Claims::issue(username, now))
            }
        },
    }
}

/// The challenge sent with every refusal, whatever its reason.
pub fn challenge() -> (header: &'static str)
    ensures
        header@ == "Basic realm='orbit1'"@,
{
    "Basic realm='orbit1'"
}

/// Knowing either the name or the password is enough to be issued claims,
/// whatever else is presented with it.
pub proof fn one_secret_suffices(username: Seq<char>, password: Seq<char>)
    ensures
        !turned_away(operator_name(), password),
        !turned_away(username, operator_password()),
{
}

} // verus!
