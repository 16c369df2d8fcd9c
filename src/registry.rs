//! The fixed bijection between the assets this service reports and the
//! ledger's feed identifiers.

use vstd::prelude::*;

verus! {

/// An asset whose USD price is fed to the ledger.
#[derive(Clone, Copy, Debug, PartialEq, Eq, Structural)]
pub enum Asset {
    Eth,
    Dot,
    Ksm,
    Btc,
}

/// Raised when a feed identifier names no registered asset.
#[derive(Clone, Copy, Debug, PartialEq, Eq, Structural)]
pub enum RegistryError {
    UnknownFeed { feed_id: u32 },
}

/// The registered assets in the order their feeds were created on the
/// ledger: the feed identifier of each is its position here.
pub open spec fn registry_spec() -> Seq<Asset> {
    seq![Asset::Eth, Asset::Dot, Asset::Ksm, Asset::Btc]
}

pub open spec fn feed_id_spec(asset: Asset) -> u32 {
    match asset {
        Asset::Eth => 0,
        Asset::Dot => 1,
        Asset::Ksm => 2,
        Asset::Btc => 3,
    }
}

pub open spec fn asset_spec(feed_id: u32) -> Option<Asset> {
    if feed_id == 0 {
        Some(Asset::Eth)
    } else if feed_id == 1 {
        Some(Asset::Dot)
    } else if feed_id == 2 {
        Some(Asset::Ksm)
    } else if feed_id == 3 {
        Some(Asset::Btc)
    } else {
        None
    }
}

pub open spec fn description_spec(asset: Asset) -> Seq<char> {
    match asset {
        Asset::Eth => "MIN-ETH"@,
        Asset::Dot => "MIN-DOT"@,
        Asset::Ksm => "MIN-KSM"@,
        Asset::Btc => "MIN-BTC"@,
    }
}

/// The identifier under which the quote source lists an asset.
pub open spec fn quote_symbol_spec(asset: Asset) -> Seq<char> {
    match asset {
        Asset::Eth => "ethereum"@,
        Asset::Dot => "polkadot"@,
        Asset::Ksm => "kusama"@,
        Asset::Btc => "bitcoin"@,
    }
}

/// The ledger feed that carries the price of `asset`.
pub fn get_feed_id(asset: Asset) -> (r: u32)
    ensures
        r == feed_id_spec(asset),
{
    match asset {
        Asset::Eth => 0,
        Asset::Dot => 1,
        Asset::Ksm => 2,
        Asset::Btc => 3,
    }
}

/// The asset whose price the feed `feed_id` carries.
pub fn asset_of_feed(feed_id: u32) -> (r: Result<Asset, RegistryError>)
    ensures
        r == (match asset_spec(feed_id) {
            Some(a) => Ok(a),
            None => Err(RegistryError::UnknownFeed { feed_id }),
        }),
{
    match feed_id {
        0 => Ok(Asset::Eth),
        1 => Ok(Asset::Dot),
        2 => Ok(Asset::Ksm),
        3 => Ok(Asset::Btc),
        _ => Err(RegistryError::UnknownFeed { feed_id }),
    }
}

/// The human-readable description the feed of `asset` is created with.
pub fn get_feed_description(asset: Asset) -> (r: &'static str)
    ensures
        r@ == description_spec(asset),
{
    match asset {
        Asset::Eth => "MIN-ETH",
        Asset::Dot => "MIN-DOT",
        Asset::Ksm => "MIN-KSM",
        Asset::Btc => "MIN-BTC",
    }
}

/// The quote source's identifier for `asset`.
pub fn underlying_to_string(asset: Asset) -> (r: &'static str)
    ensures
        r@ == quote_symbol_spec(asset),
{
    match asset {
        Asset::Eth => "ethereum",
        Asset::Dot => "polkadot",
        Asset::Ksm => "kusama",
        Asset::Btc => "bitcoin",
    }
}

/// The registered assets, in feed-creation order.
pub fn registered_assets() -> (r: Vec<Asset>)
    ensures
        r@ == registry_spec(),
{
    let r = vec![Asset::Eth, Asset::Dot, Asset::Ksm, Asset::Btc];
    assert(r@ =~= registry_spec());
    r
}

/// The asset-to-feed mapping is a bijection between the four registered
/// assets and the feed identifiers 0 to 3, `asset_of_feed` is the exact
/// inverse of `get_feed_id`, and each asset's feed identifier is its
/// position in the creation order.
pub proof fn lemma_feed_bijection()
    ensures
        feed_id_spec(Asset::Eth) == 0,
        feed_id_spec(Asset::Dot) == 1,
        feed_id_spec(Asset::Ksm) == 2,
        feed_id_spec(Asset::Btc) == 3,
        forall|a: Asset| #[trigger] asset_spec(feed_id_spec(a)) == Some(a),
        forall|id: u32|
            #[trigger] asset_spec(id) matches Some(a) ==> feed_id_spec(a) == id,
        forall|id: u32| #[trigger] asset_spec(id) is None <==> id >= 4,
        forall|i: int|
            0 <= i < registry_spec().len() ==> feed_id_spec(#[trigger] registry_spec()[i]) == i,
        forall|a: Asset| #[trigger] registry_spec().contains(a),
{
    assert forall|a: Asset| #[trigger] registry_spec().contains(a) by {
        match a {
            Asset::Eth => assert(registry_spec()[0] == a),
            Asset::Dot => assert(registry_spec()[1] == a),
            Asset::Ksm => assert(registry_spec()[2] == a),
            Asset::Btc => assert(registry_spec()[3] == a),
        }
    }
}

} // verus!
