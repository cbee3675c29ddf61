//! Cryptographic audit of a MimbleWimble chain's monetary supply.
//!
//! The library proves, for a pinned chain tip, the supply identity
//! `sum(UTXO commitments) == sum(kernel excesses) + offset*G + reward*H`
//! over Pedersen commitments.  It owns the commitment arithmetic interface,
//! the two accumulation passes (the unspent-output sum and the walk from the
//! tip back to genesis collecting kernel excesses), the equation evaluator,
//! and the hexadecimal rendering of both sides.  Reading the node's chain
//! database is left to the caller, which feeds plain values in.

mod accumulate;
mod equation;
mod errors;
mod hexfmt;
mod paths;
mod pedersen;
mod policy;

pub use accumulate::feedable;
pub use accumulate::lemma_walk_complete;
pub use accumulate::sum_outputs;
pub use accumulate::walk_unchanged;
pub use accumulate::FetchOutcome;
pub use accumulate::HeaderInfo;
pub use accumulate::KernelWalk;
pub use equation::conclude_audit;
pub use equation::evaluate_equation;
pub use equation::rhs_of;
pub use equation::AuditReport;
pub use equation::Verdict;
pub use errors::SupplyError;
pub use hexfmt::encode_hex;
pub use hexfmt::hex_of;
pub use paths::expand_home;
pub use paths::require_chain_path;
pub use pedersen::commit;
pub use pedersen::commit_point;
pub use pedersen::commit_to_value_only;
pub use pedersen::fold_sum;
pub use pedersen::lemma_value_commit_reproducible;
pub use pedersen::scalar_ok;
pub use pedersen::sum_commitments;
pub use pedersen::sum_point;
pub use pedersen::value_commit_point;
pub use pedersen::views_of;
pub use pedersen::Commitment;
pub use policy::issuance_through;
