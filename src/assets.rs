use vstd::prelude::*;

verus! {

/// An account: a 32-byte public key.
pub type AccountId = [u8; 32];

/// A quantity of an asset.
pub type Balance = u128;

/// Identifier of a fungible asset: the native token or a local asset.
#[derive(Clone, Copy, Debug, PartialEq, Eq, PartialOrd, Ord, Hash, Structural)]
pub enum AssetKind {
    /// The chain's native token.
    Native,
    /// A local asset, by its numeric id.
    Local(u32),
}

impl From<u32> for AssetKind {
    fn from(asset_id: u32) -> (r: AssetKind) {
        AssetKind::Local(asset_id)
    }
}

impl vstd::std_specs::convert::FromSpecImpl<u32> for AssetKind {
    open spec fn obeys_from_spec() -> bool {
        true
    }

    open spec fn from_spec(v: u32) -> AssetKind {
        AssetKind::Local(v)
    }
}

/// Tells native balances apart from local asset ids.
pub struct NativeOrAssetIdConverter;

impl NativeOrAssetIdConverter {
    /// `None` for the native token, the asset id for a local asset.
    pub fn convert(asset_kind: AssetKind) -> (r: Option<u32>)
        ensures
            r == match asset_kind {
                AssetKind::Native => None,
                AssetKind::Local(id) => Some(id),
            },
    {
        match asset_kind {
            AssetKind::Native => None,
            AssetKind::Local(asset_id) => Some(asset_id),
        }
    }
}

} // verus!
