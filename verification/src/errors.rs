use vstd::prelude::*;

verus! {

/// The failures a supply audit can end in.  Every error is terminal for the
/// run: a partial sum has no meaning against the supply equation.
#[derive(Debug)]
pub enum SupplyError {
    /// The chain-data path is invalid or inaccessible; raised before any
    /// chain read.
    Configuration,
    /// The tip, or a block or header along the walk to genesis, could not be
    /// read.  Carries the height that failed, so an operator can tell "still
    /// syncing" from a damaged database.
    NotSynced { height: u64 },
    /// An offset scalar or a commitment failed to parse as a valid group
    /// scalar or element; indicates on-disk corruption.
    MalformedData,
    /// The two sides of the supply equation disagree after a fully
    /// successful traversal.  Carries the hexadecimal rendering of each side
    /// so the discrepancy can be cross-checked by hand.
    Mismatch { lhs_hex: Vec<u8>, rhs_hex: Vec<u8> },
}

} // verus!
