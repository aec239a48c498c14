use std::collections::HashMap;
use vstd::prelude::*;

use crate::error::Error;
use crate::metrics::ImpactMetrics;
use crate::oracle::{record_of, BoscoraOracle};

verus! {

broadcast use vstd::std_specs::hash::group_hash_axioms;

/// The registry's key space: instance configuration, and one geo record per
/// parcel id.
#[derive(Clone, Copy, Debug, PartialEq, Eq, Structural)]
pub enum DataKey {
    OracleContract,
    Geo(u32),
    MaxParcels,
    PaymentToken,
    Price,
}

/// Where a parcel lies, in degrees scaled to integers.
#[derive(Clone, Copy, Debug, PartialEq, Eq, Structural)]
pub struct GeoCoordinates {
    pub latitude: i32,
    pub longitude: i32,
}

/// Collection-wide settings, fixed at construction.
pub struct RegistryConfig<A> {
    /// Address of the oracle that `get_live_impact` reads.
    pub oracle: A,
    /// Largest parcel id that can be minted.
    pub max_parcels: u32,
    /// Token in which parcels are paid for.
    pub payment_token: A,
    /// Amount of the payment token charged per parcel.
    pub price: i128,
}

/// Which error, if any, stops a mint of `token_id` before payment, given the
/// registry's capacity and whether the id already has a geo record. Consent
/// is checked first, then the id's range, then whether it is taken.
pub open spec fn mint_check(max_parcels: u32, taken: bool, token_id: u32, authorized: bool) -> Result<
    (),
    Error,
> {
    if !authorized {
        Err(Error::Unauthorized)
    } else if token_id == 0 || token_id > max_parcels {
        Err(Error::InvalidParcelId)
    } else if taken {
        Err(Error::DuplicateMint)
    } else {
        Ok(())
    }
}

/// The outcome of a mint, given whether the payment went through.
pub open spec fn mint_result(
    max_parcels: u32,
    minted: Map<u32, GeoCoordinates>,
    token_id: u32,
    authorized: bool,
    paid: bool,
) -> Result<(), Error> {
    match mint_check(max_parcels, minted.contains_key(token_id), token_id, authorized) {
        Err(e) => Err(e),
        Ok(()) => if paid {
            Ok(())
        } else {
            Err(Error::TransferRejected)
        },
    }
}

/// What `get_live_impact` returns for what the oracle answered.
pub open spec fn live_impact_of(fetched: Option<ImpactMetrics>) -> Result<ImpactMetrics, Error> {
    match fetched {
        Some(m) => Ok(m),
        None => Err(Error::MetricsNotFound),
    }
}

/// Registry of priced, geo-tagged parcels.
///
/// `A` is the type of an identity or a contract address. Each minted parcel
/// has exactly one geo record and one owner.
pub struct BoscoraNFT<A> {
    admin: A,
    config: RegistryConfig<A>,
    geo: HashMap<u32, GeoCoordinates>,
    owners: HashMap<u32, A>,
}

impl<A> BoscoraNFT<A> {
    /// The administrator identity, which receives every payment.
    pub closed spec fn admin_spec(&self) -> A {
        self.admin
    }

    pub closed spec fn oracle_spec(&self) -> A {
        self.config.oracle
    }

    pub closed spec fn max_parcels_spec(&self) -> u32 {
        self.config.max_parcels
    }

    pub closed spec fn payment_token_spec(&self) -> A {
        self.config.payment_token
    }

    pub closed spec fn price_spec(&self) -> i128 {
        self.config.price
    }

    /// The geo record of each minted parcel, by parcel id.
    pub closed spec fn geo_records(&self) -> Map<u32, GeoCoordinates> {
        self.geo@
    }

    /// The owner of each minted parcel, by parcel id.
    pub closed spec fn owners(&self) -> Map<u32, A> {
        self.owners@
    }

    /// Every minted parcel has an id in range, a geo record and an owner.
    pub closed spec fn wf(&self) -> bool {
        &&& self.geo@.dom() == self.owners@.dom()
        &&& forall|id: u32| #[trigger]
            self.geo@.contains_key(id) ==> 1 <= id <= self.config.max_parcels
    }

    /// The configuration is unchanged between `self` and `other`.
    pub open spec fn same_config(&self, other: &Self) -> bool {
        &&& other.admin_spec() == self.admin_spec()
        &&& other.oracle_spec() == self.oracle_spec()
        &&& other.max_parcels_spec() == self.max_parcels_spec()
        &&& other.payment_token_spec() == self.payment_token_spec()
        &&& other.price_spec() == self.price_spec()
    }

    /// A registry with the given administrator and configuration, in which
    /// no parcel is minted.
    pub fn new(admin: A, oracle: A, max_parcels: u32, payment_token: A, price: i128) -> (r: Self)
        ensures
            r.wf(),
            r.admin_spec() == admin,
            r.oracle_spec() == oracle,
            r.max_parcels_spec() == max_parcels,
            r.payment_token_spec() == payment_token,
            r.price_spec() == price,
            r.geo_records() == Map::<u32, GeoCoordinates>::empty(),
            r.owners() == Map::<u32, A>::empty(),
    {
        BoscoraNFT {
            admin,
            config: RegistryConfig { oracle, max_parcels, payment_token, price },
            geo: HashMap::new(),
            owners: HashMap::new(),
        }
    }

    /// The administrator identity.
    pub fn admin(&self) -> (r: &A)
        ensures
            *r == self.admin_spec(),
    {
        &self.admin
    }

    /// The configuration set at construction.
    pub fn config(&self) -> (r: &RegistryConfig<A>)
        ensures
            r.oracle == self.oracle_spec(),
            r.max_parcels == self.max_parcels_spec(),
            r.payment_token == self.payment_token_spec(),
            r.price == self.price_spec(),
    {
        &self.config
    }

    /// Whether an entry is stored under `key`. The configuration keys are
    /// always present; a geo key is present once its parcel is minted.
    pub fn has(&self, key: &DataKey) -> (r: bool)
        ensures
            r == match *key {
                DataKey::Geo(id) => self.geo_records().contains_key(id),
                _ => true,
            },
    {
        match key {
            DataKey::Geo(id) => self.geo.contains_key(id),
            _ => true,
        }
    }

    /// The price that minting `token_id` charges, or the error that stops
    /// the mint before any payment.
    ///
    /// `authorized` is whether the identity that is to own the parcel
    /// consented to the mint. The price goes from that identity to
    /// `admin()` in `config().payment_token`; on an error no payment is
    /// owed.
    pub fn mint_price(&self, token_id: u32, authorized: bool) -> (r: Result<i128, Error>)
        ensures
            r == (match mint_check(
                self.max_parcels_spec(),
                self.geo_records().contains_key(token_id),
                token_id,
                authorized,
            ) {
                Ok(()) => Ok(self.price_spec()),
                Err(e) => Err(e),
            }),
    {
        let taken = self.geo.contains_key(&token_id);
        match check_mint(self.config.max_parcels, taken, token_id, authorized) {
            Ok(()) => Ok(self.config.price),
            Err(e) => Err(e),
        }
    }

    /// Mints parcel `token_id` to `to` with the geo record `geo`.
    ///
    /// `authorized` is whether `to` consented to this mint, and `paid`
    /// whether the payment of `mint_price` went through. The checks come in
    /// the order of `mint_check`, then the payment; on success the parcel
    /// gets its owner and its geo record, and on any error nothing changes.
    pub fn mint(
        &mut self,
        to: A,
        token_id: u32,
        geo: GeoCoordinates,
        authorized: bool,
        paid: bool,
    ) -> (r: Result<(), Error>)
        requires
            old(self).wf(),
        ensures
            final(self).wf(),
            old(self).same_config(final(self)),
            r == mint_result(old(self).max_parcels_spec(), old(self).geo_records(), token_id, authorized, paid),
            r is Ok ==> final(self).geo_records() == old(self).geo_records().insert(token_id, geo),
            r is Ok ==> final(self).owners() == old(self).owners().insert(token_id, to),
            r is Err ==> final(self).geo_records() == old(self).geo_records(),
            r is Err ==> final(self).owners() == old(self).owners(),
    {
        match self.mint_price(token_id, authorized) {
            Err(e) => return Err(e),
            Ok(_) => {},
        }
        if !paid {
            return Err(Error::TransferRejected);
        }
        self.owners.insert(token_id, to);
        self.geo.insert(token_id, geo);
        assert(self.geo@.dom() =~= self.owners@.dom());
        Ok(())
    }

    /// The geo record of parcel `token_id`; `GeoNotFound` if it is not
    /// minted.
    pub fn geo_coordinates(&self, token_id: u32) -> (r: Result<GeoCoordinates, Error>)
        ensures
            self.geo_records().contains_key(token_id) ==> r == Ok::<GeoCoordinates, Error>(
                self.geo_records()[token_id],
            ),
            !self.geo_records().contains_key(token_id) ==> r == Err::<GeoCoordinates, Error>(
                Error::GeoNotFound,
            ),
    {
        match self.geo.get(&token_id) {
            Some(g) => Ok(*g),
            None => Err(Error::GeoNotFound),
        }
    }

    /// The owner of parcel `token_id`, or `None` if it is not minted.
    pub fn owner_of(&self, token_id: u32) -> (r: Option<&A>)
        ensures
            r is Some <==> self.owners().contains_key(token_id),
            r is Some ==> *r.unwrap() == self.owners()[token_id],
    {
        self.owners.get(&token_id)
    }

    /// A fixed descriptive link, the same for every parcel.
    pub fn token_uri(&self, token_id: u32) -> (r: &'static str)
        ensures
            r@ == "ipfs://boscora-dynamic-impact-oracle"@,
    {
        "ipfs://boscora-dynamic-impact-oracle"
    }

    /// The live measurements of parcel `token_id`, as `oracle` holds them.
    ///
    /// `oracle` is the instance at `config().oracle`. The record is
    /// returned unchanged; `MetricsNotFound` when the oracle has none.
    pub fn get_live_impact(&self, token_id: u32, oracle: &BoscoraOracle<A>) -> (r: Result<
        ImpactMetrics,
        Error,
    >)
        ensures
            r == live_impact_of(record_of(oracle.records(), token_id)),
    {
        forward_metrics(oracle.get_metrics(token_id))
    }
}

/// Decides whether a mint of `token_id` may go on to payment, given the
/// registry's capacity, whether the id already has a geo record, and whether
/// the identity that is to own it consented.
pub fn check_mint(max_parcels: u32, taken: bool, token_id: u32, authorized: bool) -> (r: Result<
    (),
    Error,
>)
    ensures
        r == mint_check(max_parcels, taken, token_id, authorized),
{
    if !authorized {
        return Err(Error::Unauthorized);
    }
    if token_id == 0 || token_id > max_parcels {
        return Err(Error::InvalidParcelId);
    }
    if taken {
        return Err(Error::DuplicateMint);
    }
    Ok(())
}

/// Turns the oracle's answer into the result of `get_live_impact`: the
/// record itself, or `MetricsNotFound`.
pub fn forward_metrics(fetched: Option<ImpactMetrics>) -> (r: Result<ImpactMetrics, Error>)
    ensures
        r == live_impact_of(fetched),
{
    match fetched {
        Some(m) => Ok(m),
        None => Err(Error::MetricsNotFound),
    }
}

/// A parcel id in range that is not yet minted can be minted once, by a
/// consenting owner who pays; after that, every further mint of it by a
/// consenting identity fails with `DuplicateMint`, whatever the payment.
pub proof fn lemma_mint_once(
    max_parcels: u32,
    minted: Map<u32, GeoCoordinates>,
    token_id: u32,
    geo: GeoCoordinates,
    paid_again: bool,
)
    requires
        1 <= token_id <= max_parcels,
        !minted.contains_key(token_id),
    ensures
        mint_result(max_parcels, minted, token_id, true, true) == Ok::<(), Error>(()),
        mint_result(max_parcels, minted.insert(token_id, geo), token_id, true, paid_again)
            == Err::<(), Error>(Error::DuplicateMint),
{
}

/// A mint of an id that is zero or beyond capacity, by a consenting
/// identity, fails with `InvalidParcelId` before any payment is owed,
/// whatever is already minted and whether or not a payment would go
/// through.
pub proof fn lemma_invalid_id_never_pays(
    max_parcels: u32,
    minted: Map<u32, GeoCoordinates>,
    token_id: u32,
    paid: bool,
)
    requires
        token_id == 0 || token_id > max_parcels,
    ensures
        mint_check(max_parcels, minted.contains_key(token_id), token_id, true) == Err::<(), Error>(
            Error::InvalidParcelId,
        ),
        mint_result(max_parcels, minted, token_id, true, paid) == Err::<(), Error>(
            Error::InvalidParcelId,
        ),
{
}

/// Without the consent of the identity that is to own the parcel, a mint
/// never succeeds.
pub proof fn lemma_mint_needs_consent(
    max_parcels: u32,
    minted: Map<u32, GeoCoordinates>,
    token_id: u32,
    paid: bool,
)
    ensures
        mint_result(max_parcels, minted, token_id, false, paid) == Err::<(), Error>(
            Error::Unauthorized,
        ),
{
}

} // verus!
