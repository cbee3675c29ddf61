use vstd::prelude::*;

use mwc_core::consensus::calc_mwc_block_overage;
use mwc_core::global;
use mwc_core::global::ChainTypes;

verus! {

/// The total coinbase issuance of the main network through a given height,
/// genesis reward included: the network's monetary policy, a pure function
/// of the height.
pub uninterp spec fn issuance_through(height: u64) -> u64;

/// Relies on `calc_mwc_block_overage` of mwc_core, with
/// `global::set_local_chain_type` pinning the main network's consensus
/// parameters first: for that fixed network the cumulative issuance through
/// a height is a function of the height alone.
#[verifier::external_body]
pub(crate) fn total_issuance(height: u64) -> (r: u64)
    ensures
        r == issuance_through(height),
{
    global::set_local_chain_type(ChainTypes::Mainnet);
    calc_mwc_block_overage(height, true)
}

} // verus!
