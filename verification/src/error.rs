//! Error values returned by the library.

use vstd::prelude::*;

verus! {

/// Why a value received from the exchange could not be turned into a typed one.
#[derive(Clone, Copy, Debug, PartialEq, Eq, Structural)]
pub enum DecodeError {
    /// A numeric field is not a decimal number that `Decimal` can hold.
    InvalidDecimal,
    /// An order-book level has fewer than the two entries `[price, quantity]`.
    ShortBookLevel,
}

/// Why a request could not be signed.
#[derive(Clone, Copy, Debug, PartialEq, Eq, Structural)]
pub enum SigningError {
    /// The secret cannot key the hash.
    InvalidKey,
}

/// Why a request could not be built.
#[derive(Clone, Copy, Debug, PartialEq, Eq, Structural)]
pub enum RequestError {
    /// The verb is none of `GET`, `POST`, `PUT` and `DELETE`.
    UnsupportedVerb,
    /// The request could not be signed.
    Signing(SigningError),
}

/// Which required setting is missing.
#[derive(Clone, Copy, Debug, PartialEq, Eq, Structural)]
pub enum ConfigError {
    MissingApiKey,
    MissingApiSecret,
    MissingMarket,
    MissingStrategy,
}

} // verus!
