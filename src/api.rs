use vstd::prelude::*;
use vstd::string::*;

verus! {

/// Shown when an email is too short.
pub const EMAIL_TOO_SHORT: &'static str = "length of email need be more than 6";

/// Shown when a password is too short.
pub const PASSWORD_TOO_SHORT: &'static str = "length of password need to be more than 6";

/// The shortest email and password accepted, in characters.
pub const MIN_CREDENTIAL_LEN: usize = 6;

/// Why an email and password pair is refused before any other work, if it is.
pub open spec fn credentials_error(email: Seq<char>, password: Seq<char>) -> Option<Seq<char>> {
    if email.len() < MIN_CREDENTIAL_LEN {
        Some(EMAIL_TOO_SHORT@)
    } else if password.len() < MIN_CREDENTIAL_LEN {
        Some(PASSWORD_TOO_SHORT@)
    } else {
        None
    }
}

/// Checks the lengths of an email and a password.
pub fn check_credentials(email: &str, password: &str) -> (r: Result<(), String>)
    ensures
        match credentials_error(email@, password@) {
            None => r is Ok,
            Some(m) => r matches Err(x) && x@ == m,
        },
{
    if email.unicode_len() < MIN_CREDENTIAL_LEN {
        return Err(String::from_str(EMAIL_TOO_SHORT));
    }
    if password.unicode_len() < MIN_CREDENTIAL_LEN {
        return Err(String::from_str(PASSWORD_TOO_SHORT));
    }
    Ok(())
}

/// A registration request.
pub struct RegisterPayload {
    pub email: String,
    pub password: String,
}

impl RegisterPayload {
    pub fn new(email: String, password: String) -> (r: RegisterPayload)
        ensures
            r.email == email,
            r.password == password,
    {
        RegisterPayload { email, password }
    }

    /// Refuses an email or a password shorter than six characters.
    pub fn validate(&self) -> (r: Result<(), String>)
        ensures
            match credentials_error(self.email@, self.password@) {
                None => r is Ok,
                Some(m) => r matches Err(x) && x@ == m,
            },
    {
        check_credentials(self.email.as_str(), self.password.as_str())
    }
}

/// A login request.
pub struct LoginPayload {
    pub email: String,
    pub password: String,
}

impl LoginPayload {
    pub fn new(email: String, password: String) -> (r: LoginPayload)
        ensures
            r.email == email,
            r.password == password,
    {
        LoginPayload { email, password }
    }

    /// Refuses an email or a password shorter than six characters.
    pub fn validate(&self) -> (r: Result<(), String>)
        ensures
            match credentials_error(self.email@, self.password@) {
                None => r is Ok,
                Some(m) => r matches Err(x) && x@ == m,
            },
    {
        check_credentials(self.email.as_str(), self.password.as_str())
    }
}

/// The answer to a successful registration.
#[derive(Debug)]
pub struct RegisterResponse {
    pub token: String,
}

impl RegisterResponse {
    pub fn new(token: String) -> (r: RegisterResponse)
        ensures
            r.token == token,
    {
        RegisterResponse { token }
    }
}

/// The answer to a successful login.
#[derive(Debug)]
pub struct LoginResponse {
    pub token: String,
}

impl LoginResponse {
    pub fn new(token: String) -> (r: LoginResponse)
        ensures
            r.token == token,
    {
        LoginResponse { token }
    }
}

/// The answer to a request for the caller's own record.
#[derive(Debug)]
pub struct GetUserSelfResponse {
    pub id: i64,
    pub email: String,
}

impl GetUserSelfResponse {
    pub fn new(id: i64, email: String) -> (r: GetUserSelfResponse)
        ensures
            r.id == id,
            r.email == email,
    {
        GetUserSelfResponse { id, email }
    }
}

/// A body that carries one message, sent with every failure.
#[derive(Debug)]
pub struct Response {
    pub message: String,
}

impl Response {
    pub fn new(message: String) -> (r: Response)
        ensures
            r.message == message,
    {
        Response { message }
    }
}

/// The identity a request acts for, as handed to handlers.
#[derive(Debug)]
pub struct User {
    pub id: i64,
    pub email: String,
}

impl User {
    pub fn new(id: i64, email: String) -> (r: User)
        ensures
            r.id == id,
            r.email == email,
    {
        User { id, email }
    }
}

} // verus!
