//! The error type shared by every vault operation.
use vstd::prelude::*;

verus! {

#[verifier::external_type_specification]
#[verifier::external_body]
pub struct ExIoError(std::io::Error);

/// Central error type for all vault operations.
#[derive(Debug)]
pub enum VaultError {
    /// The master password does not open the vault.
    WrongPassword,
    /// An operation that needs an unlocked vault was attempted while locked.
    Locked,
    /// No entry (or metadata key) with the given name exists.
    NotFound(String),
    /// Key derivation, encryption or decryption failed.
    Crypto(String),
    /// The database or a serialised value could not be read or written.
    Storage(String),
    /// An extension reported a failure.
    Extension { name: String, reason: String },
    /// An operating-system I/O failure.
    Io(std::io::Error),
}

pub type Result<T> = std::result::Result<T, VaultError>;

/// The text shown for an error, as the error's `Display` writes it.
pub open spec fn error_text(e: VaultError) -> Seq<char> {
    match e {
        VaultError::WrongPassword => "wrong master password"@,
        VaultError::Locked => "vault is locked"@,
        VaultError::NotFound(s) => "entry not found: "@ + s@,
        VaultError::Crypto(s) => "crypto error: "@ + s@,
        VaultError::Storage(s) => "storage error: "@ + s@,
        VaultError::Extension { name, reason } => "extension '"@ + name@ + "' error: "@ + reason@,
        VaultError::Io(_) => Seq::empty(),
    }
}

/// Trusted: the `Display` text of a `std::io::Error`, which depends on the
/// operating system; nothing is stated of it.
#[verifier::external_body]
fn io_error_text(e: &std::io::Error) -> String {
    e.to_string()
}

impl VaultError {
    /// The human-readable message of this error (what `{e}` prints).
    ///
    /// For `Io` the message is the operating system's text, of which the
    /// contract says nothing.
    pub fn message(&self) -> (r: String)
        ensures
            !(self is Io) ==> r@ == error_text(*self),
    {
        match self {
            VaultError::WrongPassword => String::from_str("wrong master password"),
            VaultError::Locked => String::from_str("vault is locked"),
            VaultError::NotFound(s) => String::from_str("entry not found: ").concat(s.as_str()),
            VaultError::Crypto(s) => String::from_str("crypto error: ").concat(s.as_str()),
            VaultError::Storage(s) => String::from_str("storage error: ").concat(s.as_str()),
            VaultError::Extension { name, reason } => {
                let r = String::from_str("extension '").concat(name.as_str());
                r.concat("' error: ").concat(reason.as_str())
            },
            VaultError::Io(e) => io_error_text(e),
        }
    }
}

} // verus!
