use vstd::prelude::*;

verus! {

/// The numeric identifier of a Roblox asset, universe, place, badge,
/// product or pass.
pub type AssetId = u64;

/// The numeric identifier of a Roblox asset type.
pub type AssetTypeId = u32;

/// Who owns, or pays for, a created resource.
#[derive(Clone, Copy, Debug, PartialEq, Eq, Structural)]
pub enum CreatorType {
    User,
    Group,
}

} // verus!
