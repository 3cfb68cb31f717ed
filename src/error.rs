use vstd::prelude::*;
use vstd::string::*;

verus! {

/// Failures that account and file operations report.
#[derive(Debug, Clone, Copy, PartialEq, Eq, Structural)]
pub enum AccountError {
    /// The username is already bound to a record.
    AlreadyExists,
    /// No record exists for the username.
    UserNotFound,
    /// A record exists but the credential does not match it.
    InvalidCredential,
    /// The remote provider's call to create a container failed.
    ProvisioningFailed,
    /// The remote provider created a container but returned no identifier for it.
    MissingContainerId,
    /// A listing or upload call to the remote provider failed.
    RemoteOperationFailed,
    /// The request lacks a required part or holds an unusable value.
    MalformedRequest,
}

/// The HTTP status that answers a request failing with `e`.
pub open spec fn status_of(e: AccountError) -> u16 {
    match e {
        AccountError::AlreadyExists => 409,
        AccountError::UserNotFound => 404,
        AccountError::InvalidCredential => 401,
        AccountError::ProvisioningFailed => 500,
        AccountError::MissingContainerId => 500,
        AccountError::RemoteOperationFailed => 500,
        AccountError::MalformedRequest => 400,
    }
}

/// The message that answers a request failing with `e`.
pub open spec fn message_of(e: AccountError) -> Seq<char> {
    match e {
        AccountError::AlreadyExists => "Username already exists"@,
        AccountError::UserNotFound => "User not found"@,
        AccountError::InvalidCredential => "Invalid username or password"@,
        AccountError::ProvisioningFailed => "Failed to create user folder."@,
        AccountError::MissingContainerId => "Failed to get folder ID."@,
        AccountError::RemoteOperationFailed => "Remote storage request failed"@,
        AccountError::MalformedRequest => "Malformed request"@,
    }
}

impl AccountError {
    /// The HTTP status for this failure.
    pub fn status(&self) -> (r: u16)
        ensures
            r == status_of(*self),
    {
        match self {
            AccountError::AlreadyExists => 409,
            AccountError::UserNotFound => 404,
            AccountError::InvalidCredential => 401,
            AccountError::ProvisioningFailed => 500,
            AccountError::MissingContainerId => 500,
            AccountError::RemoteOperationFailed => 500,
            AccountError::MalformedRequest => 400,
        }
    }

    /// A short message for the caller; it never names which part of a login was wrong.
    pub fn message(&self) -> (r: String)
        ensures
            r@ == message_of(*self),
    {
        let text: &str = match self {
            AccountError::AlreadyExists => "Username already exists",
            AccountError::UserNotFound => "User not found",
            AccountError::InvalidCredential => "Invalid username or password",
            AccountError::ProvisioningFailed => "Failed to create user folder.",
            AccountError::MissingContainerId => "Failed to get folder ID.",
            AccountError::RemoteOperationFailed => "Remote storage request failed",
            AccountError::MalformedRequest => "Malformed request",
        };
        String::from_str(text)
    }
}

} // verus!
