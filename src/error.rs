use vstd::prelude::*;

verus! {

/// Why an operation on the registry failed. A failed operation leaves the
/// registry as it was.
#[derive(Clone, Copy, Debug, PartialEq, Eq, Structural)]
pub enum ErrorCode {
    /// The username is longer than 32 bytes.
    UsernameTooLong,
    /// The username is empty.
    UsernameEmpty,
    /// The claimed owner is not the owner stored in the record.
    Unauthorized,
    /// No record exists at the derived address.
    RecordNotFound,
    /// A record already exists at the derived address.
    RecordAlreadyExists,
    /// No valid address can be derived for the signer.
    AddressUnavailable,
    /// The github handle is longer than its 64-byte capacity.
    GithubTooLong,
    /// The twitter handle is longer than its 64-byte capacity.
    TwitterTooLong,
    /// The content hash is longer than its 128-byte capacity.
    IpfsHashTooLong,
}

impl ErrorCode {
    /// The message that the error carries.
    pub fn message(&self) -> (r: &'static str)
        ensures
            r@ == match self {
                ErrorCode::UsernameTooLong => "Username cannot exceed 32 characters"@,
                ErrorCode::UsernameEmpty => "Username cannot be empty"@,
                ErrorCode::Unauthorized => "You are not authorized to perform this action"@,
                ErrorCode::RecordNotFound => "No identity record exists at this address"@,
                ErrorCode::RecordAlreadyExists => "An identity record already exists at this address"@,
                ErrorCode::AddressUnavailable => "No valid record address can be derived"@,
                ErrorCode::GithubTooLong => "Github handle cannot exceed 64 bytes"@,
                ErrorCode::TwitterTooLong => "Twitter handle cannot exceed 64 bytes"@,
                ErrorCode::IpfsHashTooLong => "IPFS hash cannot exceed 128 bytes"@,
            },
    {
        match self {
            ErrorCode::UsernameTooLong => "Username cannot exceed 32 characters",
            ErrorCode::UsernameEmpty => "Username cannot be empty",
            ErrorCode::Unauthorized => "You are not authorized to perform this action",
            ErrorCode::RecordNotFound => "No identity record exists at this address",
            ErrorCode::RecordAlreadyExists => "An identity record already exists at this address",
            ErrorCode::AddressUnavailable => "No valid record address can be derived",
            ErrorCode::GithubTooLong => "Github handle cannot exceed 64 bytes",
            ErrorCode::TwitterTooLong => "Twitter handle cannot exceed 64 bytes",
            ErrorCode::IpfsHashTooLong => "IPFS hash cannot exceed 128 bytes",
        }
    }
}

} // verus!
