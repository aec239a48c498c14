use std::collections::HashMap;
use vstd::prelude::*;

use crate::error::Error;
use crate::metrics::{health_of_code, HealthStatus, ImpactMetrics};

verus! {

broadcast use vstd::std_specs::hash::group_hash_axioms;

/// The oracle's key space: one record per asset id.
#[derive(Clone, Copy, Debug, PartialEq, Eq, Structural)]
pub enum DataKey {
    OracleData(u32),
}

/// The record that `add_price` starts from when an asset has none.
pub open spec fn default_metrics() -> ImpactMetrics {
    ImpactMetrics { biomass: 0, co2_captured: 0, health: HealthStatus::Germinating }
}

/// The record stored for `asset_id` after `add_price(asset_id, price)`:
/// the prior record, or the default one, with its biomass replaced.
pub open spec fn priced_record(
    records: Map<u32, ImpactMetrics>,
    asset_id: u32,
    price: i128,
) -> ImpactMetrics {
    priced(record_of(records, asset_id), price)
}

/// `existing`, or the default record when there is none, with its biomass
/// replaced by `price`.
pub open spec fn priced(existing: Option<ImpactMetrics>, price: i128) -> ImpactMetrics {
    let base = match existing {
        Some(m) => m,
        None => default_metrics(),
    };
    ImpactMetrics { biomass: price, ..base }
}

/// The record for `asset_id`, if any.
pub open spec fn record_of(records: Map<u32, ImpactMetrics>, asset_id: u32) -> Option<
    ImpactMetrics,
> {
    if records.contains_key(asset_id) {
        Some(records[asset_id])
    } else {
        None
    }
}

/// Single-writer store of impact measurements, keyed by asset id.
///
/// `A` is the type of an identity. Only the administrator recorded at
/// construction may write; anyone may read.
pub struct BoscoraOracle<A> {
    admin: A,
    records: HashMap<u32, ImpactMetrics>,
}

impl<A> BoscoraOracle<A> {
    /// The administrator identity.
    pub closed spec fn admin_spec(&self) -> A {
        self.admin
    }

    /// The stored records, by asset id.
    pub closed spec fn records(&self) -> Map<u32, ImpactMetrics> {
        self.records@
    }

    /// An oracle administered by `admin`, holding no records.
    pub fn new(admin: A) -> (r: Self)
        ensures
            r.admin_spec() == admin,
            r.records() == Map::<u32, ImpactMetrics>::empty(),
    {
        BoscoraOracle { admin, records: HashMap::new() }
    }

    /// The administrator identity, whose consent every write needs.
    pub fn admin(&self) -> (r: &A)
        ensures
            *r == self.admin_spec(),
    {
        &self.admin
    }

    /// Whether a record is stored under `key`.
    pub fn has(&self, key: &DataKey) -> (r: bool)
        ensures
            r == match *key {
                DataKey::OracleData(id) => self.records().contains_key(id),
            },
    {
        match key {
            DataKey::OracleData(id) => self.records.contains_key(id),
        }
    }

    /// The full record for `asset_id`, or `None` if there is none.
    pub fn get_metrics(&self, asset_id: u32) -> (r: Option<ImpactMetrics>)
        ensures
            r == record_of(self.records(), asset_id),
    {
        match self.records.get(&asset_id) {
            Some(m) => Some(*m),
            None => None,
        }
    }

    /// The biomass of the record for `asset_id`, read as a last price, or
    /// `None` if there is no record.
    pub fn lastprice(&self, asset_id: u32) -> (r: Option<i128>)
        ensures
            r == match record_of(self.records(), asset_id) {
                Some(m) => Some(m.biomass),
                None => None,
            },
    {
        match self.get_metrics(asset_id) {
            Some(m) => Some(m.biomass),
            None => None,
        }
    }

    /// Sets the biomass of the record for `asset_id` to `price`, starting
    /// from the default record when there is none; the other fields keep
    /// their values.
    ///
    /// `authorized` is whether the administrator consented to this call;
    /// without it the call fails with `Unauthorized` and changes nothing.
    pub fn add_price(&mut self, asset_id: u32, price: i128, authorized: bool) -> (r: Result<
        (),
        Error,
    >)
        ensures
            final(self).admin_spec() == old(self).admin_spec(),
            r == (if authorized {
                Ok(())
            } else {
                Err(Error::Unauthorized)
            }),
            r is Ok ==> final(self).records() == old(self).records().insert(
                asset_id,
                priced_record(old(self).records(), asset_id, price),
            ),
            r is Err ==> final(self).records() == old(self).records(),
    {
        if !authorized {
            return Err(Error::Unauthorized);
        }
        let metrics = with_price(self.get_metrics(asset_id), price);
        self.records.insert(asset_id, metrics);
        Ok(())
    }

    /// Replaces the record for `asset_id` with the given measurements.
    ///
    /// Fails with `Unauthorized` when the administrator did not consent, and
    /// otherwise with `InvalidHealthCode` when `health` is not in `0..=3`;
    /// a failed call leaves every record as it was.
    pub fn update_impact_metrics(
        &mut self,
        asset_id: u32,
        biomass: i128,
        co2: i128,
        health: u32,
        authorized: bool,
    ) -> (r: Result<(), Error>)
        ensures
            final(self).admin_spec() == old(self).admin_spec(),
            !authorized ==> r == Err::<(), Error>(Error::Unauthorized),
            authorized && health > 3 ==> r == Err::<(), Error>(Error::InvalidHealthCode),
            authorized && health <= 3 ==> r == Ok::<(), Error>(()),
            r is Ok ==> final(self).records() == old(self).records().insert(
                asset_id,
                ImpactMetrics {
                    biomass,
                    co2_captured: co2,
                    health: health_of_code(health).unwrap(),
                },
            ),
            r is Err ==> final(self).records() == old(self).records(),
    {
        if !authorized {
            return Err(Error::Unauthorized);
        }
        let metrics = match metrics_from_code(biomass, co2, health) {
            Ok(m) => m,
            Err(e) => return Err(e),
        };
        self.records.insert(asset_id, metrics);
        Ok(())
    }
}

/// The record that `add_price` stores: `existing`, or the default record
/// when there is none, with its biomass set to `price`.
pub fn with_price(existing: Option<ImpactMetrics>, price: i128) -> (r: ImpactMetrics)
    ensures
        r == priced(existing, price),
{
    let base = match existing {
        Some(m) => m,
        None => ImpactMetrics { biomass: 0, co2_captured: 0, health: HealthStatus::Germinating },
    };
    ImpactMetrics { biomass: price, ..base }
}

/// The record that `update_impact_metrics` stores, or `InvalidHealthCode`
/// when `health` is not in `0..=3`.
pub fn metrics_from_code(biomass: i128, co2: i128, health: u32) -> (r: Result<ImpactMetrics, Error>)
    ensures
        health <= 3 ==> r == Ok::<ImpactMetrics, Error>(
            ImpactMetrics { biomass, co2_captured: co2, health: health_of_code(health).unwrap() },
        ),
        health > 3 ==> r == Err::<ImpactMetrics, Error>(Error::InvalidHealthCode),
{
    match HealthStatus::from_code(health) {
        Some(status) => Ok(ImpactMetrics { biomass, co2_captured: co2, health: status }),
        None => Err(Error::InvalidHealthCode),
    }
}

/// `add_price` on an asset with no record creates one holding the given
/// biomass, no captured CO2 and the `Germinating` status; a second
/// `add_price` on it changes the biomass alone.
pub proof fn lemma_add_price_keeps_other_fields(
    records: Map<u32, ImpactMetrics>,
    asset_id: u32,
    price: i128,
    next_price: i128,
)
    requires
        !records.contains_key(asset_id),
    ensures
        ({
            let first = priced_record(records, asset_id, price);
            let second = priced_record(records.insert(asset_id, first), asset_id, next_price);
            &&& first == ImpactMetrics {
                biomass: price,
                co2_captured: 0,
                health: HealthStatus::Germinating,
            }
            &&& second.biomass == next_price
            &&& second.co2_captured == first.co2_captured
            &&& second.health == first.health
        }),
{
}

} // verus!
