//! The failures a keystore operation can report.

use vstd::prelude::*;

verus! {

/// Why a keystore operation did not produce a result.
#[derive(Clone, Copy, Debug, PartialEq, Eq, Structural)]
pub enum KeystoreError {
    /// No keyfile is stored under the wallet name.
    NotFound,
    /// A keyfile is already stored under the wallet name.
    Conflict,
    /// The cipher refused the key derived from the password.
    Unauthorized,
    /// A keyfile field is malformed or names an unknown key derivation.
    FormatError,
    /// Key or signature bytes do not fit the signature scheme.
    SchemeError,
    /// The backing store failed.
    IOError,
}

/// An outcome with its value seen through its view.
pub open spec fn outcome<T: View>(r: Result<T, KeystoreError>) -> Result<T::V, KeystoreError> {
    match r {
        Ok(value) => Ok(value@),
        Err(e) => Err(e),
    }
}

/// A value that may be missing, seen through its view.
pub open spec fn optional<T: View>(o: Option<T>) -> Option<T::V> {
    match o {
        Some(value) => Some(value@),
        None => None,
    }
}

/// An outcome whose value may be missing, seen through its view.
pub open spec fn optional_outcome<T: View>(r: Result<Option<T>, KeystoreError>) -> Result<
    Option<T::V>,
    KeystoreError,
> {
    match r {
        Ok(o) => Ok(optional(o)),
        Err(e) => Err(e),
    }
}

impl KeystoreError {
    /// The HTTP status a service reports for this failure.
    pub open spec fn status_code(self) -> int {
        match self {
            KeystoreError::NotFound => 404,
            KeystoreError::Conflict => 409,
            KeystoreError::Unauthorized => 401,
            KeystoreError::FormatError => 400,
            KeystoreError::SchemeError => 400,
            KeystoreError::IOError => 500,
        }
    }

    /// Computes [`Self::status_code`].
    pub fn status(&self) -> (code: u16)
        ensures
            code == self.status_code(),
    {
        match self {
            KeystoreError::NotFound => 404,
            KeystoreError::Conflict => 409,
            KeystoreError::Unauthorized => 401,
            KeystoreError::FormatError => 400,
            KeystoreError::SchemeError => 400,
            KeystoreError::IOError => 500,
        }
    }
}

} // verus!
