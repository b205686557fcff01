use vstd::prelude::*;

verus! {

/// A named input value: a query parameter of the product listing or a
/// configuration setting.
#[derive(Debug, Clone, Copy, PartialEq, Eq, Structural)]
pub enum Field {
    Limit,
    Offset,
    Port,
    DbPort,
}

/// Every failure that the library reports.
#[derive(Debug, Clone, Copy, PartialEq, Eq, Structural)]
pub enum ApiError {
    /// An input value is not a decimal integer of the expected type.
    ParseError(Field),
    /// A query parameter is an integer outside its allowed range.
    OutOfRange(Field),
    /// Login failed: unknown username, wrong password or unusable stored
    /// hash, deliberately not told apart.
    InvalidCredentials,
    /// The stored hash is not a well-formed encoded hash.
    HashingError,
    /// The token does not decrypt, or its claims are malformed.
    CannotDecryptToken,
    /// A token could not be built (the key is not 32 bytes, or the clock is out of range).
    CannotIssueToken,
    /// The token is outside its validity window.
    TokenExpired,
    /// A store operation failed (constraint violation, unexpected row count).
    DatabaseQueryError,
    /// The caller is authenticated but does not own the record.
    Unauthorized,
}

} // verus!
