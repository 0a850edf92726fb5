//! Request and response bodies, credentials, and the error types that the
//! service hands back to callers.

use vstd::prelude::*;

verus! {

/// Catch-all application error carrying a human-readable description.
#[derive(Debug)]
pub struct AppError(pub String);

impl AppError {
    /// Wraps a description into an application error.
    pub fn new(message: String) -> (r: AppError)
        ensures
            r.0@ == message@,
    {
        AppError(message)
    }

    /// The description carried by this error.
    pub fn message(&self) -> (r: &String)
        ensures
            r@ == self.0@,
    {
        &self.0
    }
}

/// Rejections of the credential check on the authenticated endpoints.
#[derive(Debug)]
pub enum AuthError {
    WrongCredentials,
    MissingCredentials,
    TokenCreation,
    InvalidToken,
}

impl AuthError {
    /// The HTTP status code and message that this rejection is reported with.
    pub fn response_parts(&self) -> (r: (u16, &'static str))
        ensures
            self is WrongCredentials ==> r.0 == 401 && r.1@ == "wrong credentials"@,
            self is MissingCredentials ==> r.0 == 400 && r.1@ == "missing credentials"@,
            self is InvalidToken ==> r.0 == 400 && r.1@ == "invalid token"@,
            self is TokenCreation ==> r.0 == 500 && r.1@ == "token create error"@,
    {
        match self {
            AuthError::WrongCredentials => (401, "wrong credentials"),
            AuthError::MissingCredentials => (400, "missing credentials"),
            AuthError::InvalidToken => (400, "invalid token"),
            AuthError::TokenCreation => (500, "token create error"),
        }
    }
}

/// Credentials presented on login; either field may be missing.
#[derive(Debug)]
pub struct AuthPayload {
    pub username: Option<String>,
    pub password: Option<String>,
}

impl AuthPayload {
    /// Both fields are required; a payload missing either is rejected.
    pub fn validate(&self) -> (r: Result<(), AuthError>)
        ensures
            r is Ok <==> self.username is Some && self.password is Some,
            r matches Err(e) ==> e is MissingCredentials,
    {
        if self.username.is_some() && self.password.is_some() {
            Ok(())
        } else {
            Err(AuthError::MissingCredentials)
        }
    }
}

/// Token handed back after a successful login.
#[derive(Debug)]
pub struct AuthBody {
    pub access_token: String,
    pub token_type: String,
}

impl AuthBody {
    pub fn new(access_token: String) -> (r: AuthBody)
        ensures
            r.access_token@ == access_token@,
            r.token_type@ == "Bearer"@,
    {
        AuthBody { access_token, token_type: "Bearer".to_string() }
    }
}

/// Profile returned to an authenticated user.
#[derive(Debug)]
pub struct UserBody {
    pub name: String,
    pub age: u8,
    pub role: String,
}

impl UserBody {
    pub fn new(name: &str) -> (r: UserBody)
        ensures
            r.name@ == name@,
            r.age == 36,
            r.role@ == "administrator"@,
    {
        UserBody { name: name.to_string(), age: 36, role: "administrator".to_string() }
    }
}

/// Parameters of a registration request.
#[derive(Debug)]
pub struct RegisterPayload {
    pub username: String,
    pub password: String,
}

/// Claims carried inside a bearer token.
#[derive(Debug)]
pub struct Claims {
    pub username: String,
    pub exp: usize,
}

/// A user row as stored by the persistent collaborator.
#[derive(Debug)]
pub struct UserModel {
    pub id: String,
    pub username: String,
    pub password: String,
}

} // verus!
