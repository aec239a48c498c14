use vstd::prelude::*;

verus! {

/// Why an invocation of the registry or the oracle was aborted.
///
/// Every failure aborts the whole invocation: an operation that returns one of
/// these leaves the state it was called on untouched.
#[derive(Clone, Copy, Debug, PartialEq, Eq, Structural)]
pub enum Error {
    /// The registry's configuration holds no oracle address.
    ConfigMissing,
    /// A parcel id is zero or beyond the registry's capacity.
    InvalidParcelId,
    /// A parcel id already has a geo record.
    DuplicateMint,
    /// No administrator identity is recorded.
    OwnerMissing,
    /// The registry's configuration holds no payment token.
    PaymentTokenMissing,
    /// The registry's configuration holds no price.
    PriceMissing,
    /// The oracle holds no record for the requested asset.
    MetricsNotFound,
    /// No geo record exists for the requested parcel.
    GeoNotFound,
    /// A health code outside `0..=3`.
    InvalidHealthCode,
    /// The identity whose consent the operation needs did not give it.
    Unauthorized,
    /// The payment token refused to move the price.
    TransferRejected,
}

} // verus!
