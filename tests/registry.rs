use boscora::error::Error;
use boscora::metrics::{HealthStatus, ImpactMetrics};
use boscora::oracle::BoscoraOracle;
use boscora::registry::{check_mint, forward_metrics, BoscoraNFT, DataKey, GeoCoordinates};

const ADMIN: &str = "admin";
const ORACLE: &str = "oracle";
const TOKEN: &str = "payment-token";

fn registry() -> BoscoraNFT<&'static str> {
    BoscoraNFT::new(ADMIN, ORACLE, 500u32, TOKEN, 50_000_0000_i128)
}

#[test]
fn test_complete_boscora_flow() {
    let rpi_signer = "rpi";
    let investor = "investor";

    let mut oracle = BoscoraOracle::new(rpi_signer);
    let mut nft = registry();

    let token_id = 101;
    let geo = GeoCoordinates { latitude: -34, longitude: -58 };

    // The investor holds 100_000_0000 of the payment token, more than the price.
    let balance: i128 = 100_000_0000;
    let price = nft.mint_price(token_id, true).unwrap();
    assert_eq!(price, 50_000_0000);
    assert!(balance >= price);
    assert_eq!(nft.config().payment_token, TOKEN);
    assert_eq!(*nft.admin(), ADMIN);

    nft.mint(investor, token_id, geo, true, true).unwrap();
    assert_eq!(nft.owner_of(token_id), Some(&investor));
    assert_eq!(nft.geo_coordinates(token_id), Ok(geo));

    oracle.update_impact_metrics(token_id, 1500, 450, 3, true).unwrap();

    let impact = nft.get_live_impact(token_id, &oracle).unwrap();
    assert_eq!(impact.biomass, 1500);
    assert_eq!(impact.co2_captured, 450);
    assert_eq!(impact.health, HealthStatus::Planted);
}

#[test]
fn test_unauthorized_mint() {
    let mut nft = registry();
    let attacker = "attacker";
    let r = nft.mint(attacker, 1, GeoCoordinates { latitude: 0, longitude: 0 }, false, true);
    assert_eq!(r, Err(Error::Unauthorized));
    assert_eq!(nft.owner_of(1), None);
    assert_eq!(nft.geo_coordinates(1), Err(Error::GeoNotFound));
    assert!(!nft.has(&DataKey::Geo(1)));
}

#[test]
fn mint_twice_is_duplicate_whoever_asks() {
    let mut nft = registry();
    let geo = GeoCoordinates { latitude: 1, longitude: 2 };
    assert_eq!(nft.mint("alice", 7, geo, true, true), Ok(()));
    let other = GeoCoordinates { latitude: 9, longitude: 9 };
    assert_eq!(nft.mint("bob", 7, other, true, true), Err(Error::DuplicateMint));
    assert_eq!(nft.mint("alice", 7, other, true, true), Err(Error::DuplicateMint));
    assert_eq!(nft.mint_price(7, true), Err(Error::DuplicateMint));
    assert_eq!(nft.owner_of(7), Some(&"alice"));
    assert_eq!(nft.geo_coordinates(7), Ok(geo));
}

#[test]
fn mint_bounds_of_the_id_range() {
    let mut nft = registry();
    let geo = GeoCoordinates { latitude: 0, longitude: 0 };
    assert_eq!(nft.mint_price(0, true), Err(Error::InvalidParcelId));
    assert_eq!(nft.mint_price(501, true), Err(Error::InvalidParcelId));
    assert_eq!(nft.mint_price(u32::MAX, true), Err(Error::InvalidParcelId));
    assert_eq!(nft.mint("a", 0, geo, true, true), Err(Error::InvalidParcelId));
    assert_eq!(nft.mint("a", 501, geo, true, true), Err(Error::InvalidParcelId));
    assert_eq!(nft.owner_of(0), None);
    assert_eq!(nft.mint("a", 1, geo, true, true), Ok(()));
    assert_eq!(nft.mint("a", 500, geo, true, true), Ok(()));
    assert_eq!(nft.owner_of(500), Some(&"a"));
}

#[test]
fn mint_consent_is_checked_before_the_id() {
    let mut nft = registry();
    let geo = GeoCoordinates { latitude: 0, longitude: 0 };
    assert_eq!(nft.mint_price(0, false), Err(Error::Unauthorized));
    assert_eq!(nft.mint("a", 0, geo, false, true), Err(Error::Unauthorized));
}

#[test]
fn rejected_payment_leaves_parcel_unminted() {
    let mut nft = registry();
    let geo = GeoCoordinates { latitude: 3, longitude: 4 };
    assert_eq!(nft.mint("a", 3, geo, true, false), Err(Error::TransferRejected));
    assert_eq!(nft.owner_of(3), None);
    assert!(!nft.has(&DataKey::Geo(3)));
    assert_eq!(nft.mint("a", 3, geo, true, true), Ok(()));
    assert!(nft.has(&DataKey::Geo(3)));
}

#[test]
fn configuration_is_kept() {
    let nft = registry();
    let config = nft.config();
    assert_eq!(config.oracle, ORACLE);
    assert_eq!(config.max_parcels, 500);
    assert_eq!(config.payment_token, TOKEN);
    assert_eq!(config.price, 50_000_0000);
    assert!(nft.has(&DataKey::OracleContract));
    assert!(nft.has(&DataKey::MaxParcels));
    assert!(nft.has(&DataKey::PaymentToken));
    assert!(nft.has(&DataKey::Price));
}

#[test]
fn token_uri_is_fixed() {
    let nft = registry();
    assert_eq!(nft.token_uri(1), "ipfs://boscora-dynamic-impact-oracle");
    assert_eq!(nft.token_uri(400), "ipfs://boscora-dynamic-impact-oracle");
}

#[test]
fn live_impact_without_record_is_not_found() {
    let nft = registry();
    let oracle = BoscoraOracle::new("rpi");
    assert_eq!(nft.get_live_impact(101, &oracle), Err(Error::MetricsNotFound));
    assert_eq!(forward_metrics(None), Err(Error::MetricsNotFound));
    let m = ImpactMetrics { biomass: -5, co2_captured: 8, health: HealthStatus::Sprouted };
    assert_eq!(forward_metrics(Some(m)), Ok(m));
}

#[test]
fn live_impact_follows_oracle_updates() {
    let mut nft = registry();
    let mut oracle = BoscoraOracle::new("rpi");
    // Oracle records are not tied to minted parcels.
    oracle.add_price(42, 77, true).unwrap();
    let expected = ImpactMetrics { biomass: 77, co2_captured: 0, health: HealthStatus::Germinating };
    assert_eq!(nft.get_live_impact(42, &oracle), Ok(expected));
    oracle.update_impact_metrics(42, 10, 20, 2, true).unwrap();
    let updated = ImpactMetrics { biomass: 10, co2_captured: 20, health: HealthStatus::ReadyForTransplant };
    assert_eq!(nft.get_live_impact(42, &oracle), Ok(updated));
    nft.mint("a", 42, GeoCoordinates { latitude: 0, longitude: 0 }, true, true).unwrap();
    assert_eq!(nft.get_live_impact(42, &oracle), Ok(updated));
}

#[test]
fn end_to_end_at_full_price() {
    let mut nft = BoscoraNFT::new(ADMIN, ORACLE, 500u32, TOKEN, 500_000_000_000_i128);
    let mut oracle = BoscoraOracle::new("rpi");
    assert_eq!(nft.mint_price(101, true), Ok(500_000_000_000));
    let geo = GeoCoordinates { latitude: -34, longitude: -58 };
    nft.mint("a", 101, geo, true, true).unwrap();
    assert_eq!(nft.owner_of(101), Some(&"a"));
    assert_eq!(nft.geo_coordinates(101), Ok(GeoCoordinates { latitude: -34, longitude: -58 }));
    oracle.update_impact_metrics(101, 1500, 450, 3, true).unwrap();
    let expected = ImpactMetrics { biomass: 1500, co2_captured: 450, health: HealthStatus::Planted };
    assert_eq!(nft.get_live_impact(101, &oracle), Ok(expected));
}

#[test]
fn check_mint_order_of_errors() {
    assert_eq!(check_mint(500, true, 0, false), Err(Error::Unauthorized));
    assert_eq!(check_mint(500, true, 0, true), Err(Error::InvalidParcelId));
    assert_eq!(check_mint(500, true, 501, true), Err(Error::InvalidParcelId));
    assert_eq!(check_mint(500, true, 500, true), Err(Error::DuplicateMint));
    assert_eq!(check_mint(500, false, 500, true), Ok(()));
    assert_eq!(check_mint(0, false, 1, true), Err(Error::InvalidParcelId));
}
