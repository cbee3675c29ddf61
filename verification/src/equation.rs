use vstd::prelude::*;

use crate::accumulate::sum_outputs;
use crate::accumulate::HeaderInfo;
use crate::accumulate::KernelWalk;
use crate::errors::SupplyError;
use crate::hexfmt::hex_of;
use crate::pedersen::commit;
use crate::pedersen::commit_point;
use crate::pedersen::commit_to_value_only;
use crate::pedersen::fold_sum;
use crate::pedersen::scalar_ok;
use crate::pedersen::sum_commitments;
use crate::pedersen::sum_point;
use crate::pedersen::value_commit_point;
use crate::pedersen::views_of;
use crate::pedersen::Commitment;
use crate::policy::issuance_through;
use crate::policy::total_issuance;

verus! {

/// The outcome of comparing the two sides of the supply equation, with the
/// hexadecimal rendering of each side for the operator to cross-check.
pub struct Verdict {
    /// True exactly when the two sides are the same curve point.
    pub valid: bool,
    /// Hexadecimal rendering of the left-hand side, the unspent-output sum.
    pub lhs_hex: Vec<u8>,
    /// Hexadecimal rendering of the right-hand side.
    pub rhs_hex: Vec<u8>,
}

/// The record of a completed audit whose equation closed.
pub struct AuditReport {
    /// The pinned tip height the audit ran against.
    pub tip_height: u64,
    /// How many unspent outputs went into the left-hand side.
    pub utxo_count: u64,
    /// How many kernel excesses the walk to genesis collected.
    pub kernel_count: u64,
    /// The total coinbase issuance owed through the tip height.
    pub total_reward: u64,
    /// Hexadecimal rendering of the left-hand side.
    pub lhs_hex: Vec<u8>,
    /// Hexadecimal rendering of the right-hand side.
    pub rhs_hex: Vec<u8>,
}

/// The right-hand side of the supply equation: the outcome of summing the
/// kernel-excess sum, the offset commitment `offset*G`, and the reward
/// commitment `reward*H`.
pub open spec fn rhs_of(excess_sum: Seq<u8>, offset: Seq<u8>, total_reward: u64) -> Option<
    Seq<u8>,
> {
    sum_point(
        seq![excess_sum, commit_point(0, offset), value_commit_point(total_reward)],
        Seq::empty(),
    )
}

/// Evaluates the supply equation `lhs == excess_sum + offset*G + reward*H`.
/// Builds the offset commitment (a commitment to value zero under the
/// offset scalar as blinding), the reward commitment (zero blinding, since
/// the reward is public), sums the right-hand side, and compares the two
/// sides by exact point equality.  Fails with malformed data exactly when
/// the offset is not a valid 32-byte scalar or the curve library rejects
/// the sum.
pub fn evaluate_equation(
    lhs: &Commitment,
    excess_sum: &Commitment,
    offset: &Vec<u8>,
    total_reward: u64,
) -> (r: Result<Verdict, SupplyError>)
    requires
        lhs.wf(),
        excess_sum.wf(),
    ensures
        offset@.len() == 32 && scalar_ok(offset@) ==> (rhs_of(excess_sum@, offset@, total_reward)
            matches Some(b) ==> (r matches Ok(v) && (v.valid <==> lhs@ == b) && v.lhs_hex@
            == hex_of(lhs@) && v.rhs_hex@ == hex_of(b))),
        !(offset@.len() == 32 && scalar_ok(offset@)) || rhs_of(
            excess_sum@,
            offset@,
            total_reward,
        ) is None ==> (r matches Err(e) && e is MalformedData),
{
    let offset_commit = match commit(0, offset) {
        Ok(c) => c,
        Err(e) => {
            return Err(e);
        },
    };
    let reward_commit = commit_to_value_only(total_reward);
    let mut pos: Vec<Commitment> = Vec::new();
    pos.push(excess_sum.duplicate());
    pos.push(offset_commit);
    pos.push(reward_commit);
    let empty: Vec<Commitment> = Vec::new();
    proof {
        assert(views_of(pos@) =~= seq![
            excess_sum@,
            commit_point(0, offset@),
            value_commit_point(total_reward),
        ]);
        assert(views_of(empty@) =~= Seq::<Seq<u8>>::empty());
    }
    let rhs = match sum_commitments(&pos, &empty) {
        Ok(c) => c,
        Err(e) => {
            return Err(e);
        },
    };
    let valid = lhs.same_point(&rhs);
    Ok(Verdict { valid, lhs_hex: lhs.hex(), rhs_hex: rhs.hex() })
}

/// Concludes the audit over fully collected traversal results: folds the
/// unspent outputs into the left-hand side, folds the finished walk's
/// kernel excesses, asks the network's monetary policy for the issuance
/// owed through the tip, and evaluates the supply identity at the pinned
/// header.  A closed equation yields the report; differing sides are the
/// supply mismatch the audit exists to detect, carried with both renderings.
pub fn conclude_audit(outputs: &Vec<Commitment>, walk: &KernelWalk, tip: &HeaderInfo) -> (r: Result<
    AuditReport,
    SupplyError,
>)
    requires
        forall|i: int| 0 <= i < outputs@.len() ==> (#[trigger] outputs@[i]).wf(),
        tip.wf(),
        walk.wf(),
        walk.done,
        walk.tip_height == tip.height,
    ensures
        ({
            let u = fold_sum(outputs@);
            let k = fold_sum(walk.excesses@);
            let reward = issuance_through(tip.height);
            let rhs = rhs_of(k->Some_0, tip.total_kernel_offset@, reward);
            &&& (r is Ok <==> (u is Some && k is Some && scalar_ok(tip.total_kernel_offset@)
                && rhs is Some && u->Some_0 == rhs->Some_0))
            &&& (r matches Ok(rep) ==> (rep.tip_height == tip.height && rep.utxo_count
                == outputs@.len() && rep.kernel_count == walk.excesses@.len() && rep.total_reward
                == reward && rep.lhs_hex@ == hex_of(u->Some_0) && rep.rhs_hex@ == hex_of(
                rhs->Some_0,
            )))
            &&& ((u is None || k is None || !scalar_ok(tip.total_kernel_offset@)
                || rhs is None) ==> (r matches Err(e) && e is MalformedData))
            &&& ((u is Some && k is Some && scalar_ok(tip.total_kernel_offset@) && rhs is Some
                && u->Some_0 != rhs->Some_0) ==> (r matches Err(SupplyError::Mismatch {
                lhs_hex,
                rhs_hex,
            }) && lhs_hex@ == hex_of(u->Some_0) && rhs_hex@ == hex_of(rhs->Some_0)))
        }),
{
    let folded = match sum_outputs(outputs) {
        Ok(p) => p,
        Err(e) => {
            return Err(e);
        },
    };
    let lhs = folded.0;
    let utxo_count = folded.1;
    let empty: Vec<Commitment> = Vec::new();
    proof {
        assert(views_of(empty@) =~= Seq::<Seq<u8>>::empty());
    }
    let excess_sum = match sum_commitments(&walk.excesses, &empty) {
        Ok(c) => c,
        Err(e) => {
            return Err(e);
        },
    };
    let total_reward = total_issuance(tip.height);
    let verdict = match evaluate_equation(&lhs, &excess_sum, &tip.total_kernel_offset, total_reward)
        {
        Ok(v) => v,
        Err(e) => {
            return Err(e);
        },
    };
    if verdict.valid {
        Ok(
            AuditReport {
                tip_height: tip.height,
                utxo_count,
                kernel_count: walk.excesses.len() as u64,
                total_reward,
                lhs_hex: verdict.lhs_hex,
                rhs_hex: verdict.rhs_hex,
            },
        )
    } else {
        Err(SupplyError::Mismatch { lhs_hex: verdict.lhs_hex, rhs_hex: verdict.rhs_hex })
    }
}

} // verus!
