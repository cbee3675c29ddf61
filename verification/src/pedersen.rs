use vstd::prelude::*;

use mwc_util::secp::key::SecretKey;
use mwc_util::secp::pedersen::Commitment as RawCommitment;
use mwc_util::secp::ContextFlag;
use mwc_util::secp::Secp256k1;

use crate::errors::SupplyError;
use crate::hexfmt::encode_hex;
use crate::hexfmt::hex_of;
use crate::paths::copy_bytes;

verus! {

/// The 33-byte serialization of the Pedersen commitment `value*H + blind*G`,
/// for a 32-byte blinding scalar accepted by the curve.  The point is a
/// function of the value and the scalar alone.
pub uninterp spec fn commit_point(value: u64, blind: Seq<u8>) -> Seq<u8>;

/// The 33-byte serialization of the Pedersen commitment to `value` under a
/// zero blinding factor, `value*H`.  A function of the value alone.
pub uninterp spec fn value_commit_point(value: u64) -> Seq<u8>;

/// Whether 32 bytes form a valid secret scalar of the curve (nonzero and
/// below the group order).  A function of the bytes alone.
pub uninterp spec fn scalar_ok(blind: Seq<u8>) -> bool;

/// The outcome of summing commitment points, `sum(pos) - sum(neg)`: the
/// 33-byte serialization of the resulting group element, or `None` where the
/// curve library rejects the operands.  A function of the operand bytes
/// alone.
pub uninterp spec fn sum_point(pos: Seq<Seq<u8>>, neg: Seq<Seq<u8>>) -> Option<Seq<u8>>;

/// A Pedersen commitment: an opaque elliptic-curve point held as its 33-byte
/// serialization.  Two commitments are the same point exactly when their
/// bytes are equal.
pub struct Commitment {
    bytes: Vec<u8>,
}

impl View for Commitment {
    type V = Seq<u8>;

    closed spec fn view(&self) -> Seq<u8> {
        self.bytes@
    }
}

/// The byte views of a sequence of commitments, in order.
pub open spec fn views_of(cs: Seq<Commitment>) -> Seq<Seq<u8>> {
    Seq::new(cs.len(), |i: int| cs[i]@)
}

/// The homomorphic fold of a list of commitments: the outcome of summing
/// all of its points, with nothing subtracted.
pub open spec fn fold_sum(cs: Seq<Commitment>) -> Option<Seq<u8>> {
    sum_point(views_of(cs), Seq::empty())
}

/// Relies on `SecretKey::from_slice` and `Secp256k1::commit` of mwc_util's
/// secp: `from_slice` accepts exactly the 32-byte valid scalars, and with a
/// commit-capable context `commit` then returns the Pedersen commitment
/// determined by the value and the scalar.
#[verifier::external_body]
fn raw_commit(value: u64, blind: &Vec<u8>) -> (r: Option<Vec<u8>>)
    ensures
        r is Some <==> (blind@.len() == 32 && scalar_ok(blind@)),
        r matches Some(b) ==> (b@ == commit_point(value, blind@) && b@.len() == 33),
{
    let secp = Secp256k1::with_caps(ContextFlag::Commit);
    let key = match SecretKey::from_slice(&secp, blind.as_slice()) {
        Ok(k) => k,
        Err(_) => return None,
    };
    match secp.commit(value, key) {
        Ok(c) => Some(c.0.to_vec()),
        Err(_) => None,
    }
}

/// Relies on `Secp256k1::commit_value` of mwc_util's secp: with a
/// commit-capable context it always returns the commitment to the value
/// under a zero blinding factor.
#[verifier::external_body]
fn raw_commit_value(value: u64) -> (r: Option<Vec<u8>>)
    ensures
        r is Some,
        r matches Some(b) ==> (b@ == value_commit_point(value) && b@.len() == 33),
{
    let secp = Secp256k1::with_caps(ContextFlag::Commit);
    match secp.commit_value(value) {
        Ok(c) => Some(c.0.to_vec()),
        Err(_) => None,
    }
}

/// Relies on `Secp256k1::commit_sum` of mwc_util's secp: it parses the
/// 33-byte operands, adds the positive and subtracts the negative points,
/// and serializes the sum, failing exactly where the curve library rejects
/// the operands.  The outcome is a function of the operand bytes alone.
#[verifier::external_body]
fn raw_commit_sum(pos: &Vec<Commitment>, neg: &Vec<Commitment>) -> (r: Option<Vec<u8>>)
    requires
        forall|i: int| 0 <= i < pos@.len() ==> (#[trigger] pos@[i])@.len() == 33,
        forall|i: int| 0 <= i < neg@.len() ==> (#[trigger] neg@[i])@.len() == 33,
    ensures
        r is Some <==> sum_point(views_of(pos@), views_of(neg@)) is Some,
        r matches Some(b) ==> (b@ == sum_point(views_of(pos@), views_of(neg@))->Some_0
            && b@.len() == 33),
{
    let secp = Secp256k1::with_caps(ContextFlag::Commit);
    let ps: Vec<RawCommitment> = pos.iter().map(|c| RawCommitment::from_vec(c.bytes.clone())).collect();
    let ns: Vec<RawCommitment> = neg.iter().map(|c| RawCommitment::from_vec(c.bytes.clone())).collect();
    match secp.commit_sum(ps, ns) {
        Ok(c) => Some(c.0.to_vec()),
        Err(_) => None,
    }
}

impl Commitment {
    /// A commitment is well formed when it holds exactly the 33 bytes of a
    /// serialized curve point.
    pub open spec fn wf(&self) -> bool {
        self@.len() == 33
    }

    /// Wraps 33 raw bytes as a commitment; any other length is malformed
    /// data.
    pub fn from_bytes(bytes: Vec<u8>) -> (r: Result<Commitment, SupplyError>)
        ensures
            bytes@.len() == 33 ==> (r matches Ok(c) && c@ == bytes@ && c.wf()),
            bytes@.len() != 33 ==> (r matches Err(e) && e is MalformedData),
    {
        if bytes.len() == 33 {
            Ok(Commitment { bytes })
        } else {
            Err(SupplyError::MalformedData)
        }
    }

    /// The serialized point.
    pub fn bytes(&self) -> (r: &Vec<u8>)
        ensures
            r@ == self@,
    {
        &self.bytes
    }

    /// An equal copy of the commitment.
    pub fn duplicate(&self) -> (r: Commitment)
        ensures
            r@ == self@,
    {
        Commitment { bytes: copy_bytes(&self.bytes) }
    }

    /// The lowercase hexadecimal rendering of the point.
    pub fn hex(&self) -> (r: Vec<u8>)
        ensures
            r@ == hex_of(self@),
    {
        encode_hex(&self.bytes)
    }

    /// Exact point equality: true exactly when the serializations agree.
    /// The comparison reads every byte; it does not stop at the first
    /// difference.
    pub fn same_point(&self, other: &Commitment) -> (r: bool)
        ensures
            r == (self@ == other@),
    {
        if self.bytes.len() != other.bytes.len() {
            return false;
        }
        let n = self.bytes.len();
        let mut eq = true;
        let mut i: usize = 0;
        while i < n
            invariant
                i <= n,
                n == self@.len(),
                n == other@.len(),
                eq <==> (forall|j: int| 0 <= j < i ==> self@[j] == other@[j]),
            decreases n - i,
        {
            eq = eq && (self.bytes[i] == other.bytes[i]);
            i += 1;
        }
        proof {
            if eq {
                assert(self@ =~= other@);
            } else {
                assert(self@ == other@ ==> forall|j: int| 0 <= j < n ==> self@[j] == other@[j]);
            }
        }
        eq
    }
}

/// Builds the Pedersen commitment `value*H + blinding*G`.  Succeeds exactly
/// when the blinding factor is a 32-byte valid scalar; anything else is
/// malformed data.
pub fn commit(value: u64, blinding: &Vec<u8>) -> (r: Result<Commitment, SupplyError>)
    ensures
        blinding@.len() == 32 && scalar_ok(blinding@) ==> (r matches Ok(c) && c@
            == commit_point(value, blinding@) && c.wf()),
        !(blinding@.len() == 32 && scalar_ok(blinding@)) ==> (r matches Err(e) && e
            is MalformedData),
{
    match raw_commit(value, blinding) {
        Some(b) => Ok(Commitment { bytes: b }),
        None => Err(SupplyError::MalformedData),
    }
}

/// Builds the commitment to `value` under a zero blinding factor,
/// `value*H`.  The value is public, so nothing needs hiding and the call
/// cannot fail.
pub fn commit_to_value_only(value: u64) -> (r: Commitment)
    ensures
        r@ == value_commit_point(value),
        r.wf(),
{
    let b = raw_commit_value(value).unwrap();
    Commitment { bytes: b }
}

/// The homomorphic sum `sum(positive) - sum(negative)` of commitment
/// points.  An operand set the curve library rejects is malformed data.
pub fn sum_commitments(positive: &Vec<Commitment>, negative: &Vec<Commitment>) -> (r: Result<
    Commitment,
    SupplyError,
>)
    requires
        forall|i: int| 0 <= i < positive@.len() ==> (#[trigger] positive@[i]).wf(),
        forall|i: int| 0 <= i < negative@.len() ==> (#[trigger] negative@[i]).wf(),
    ensures
        sum_point(views_of(positive@), views_of(negative@)) matches Some(b) ==> (r matches Ok(c)
            && c@ == b && c.wf()),
        sum_point(views_of(positive@), views_of(negative@)) is None ==> (r matches Err(e) && e
            is MalformedData),
{
    match raw_commit_sum(positive, negative) {
        Some(b) => Ok(Commitment { bytes: b }),
        None => Err(SupplyError::MalformedData),
    }
}

/// The value-only commitment is reproducible: it carries no randomness, so
/// any two commitments built for the same value are the same point.
pub proof fn lemma_value_commit_reproducible(a: Commitment, b: Commitment, v: u64)
    requires
        a@ == value_commit_point(v),
        b@ == value_commit_point(v),
    ensures
        a@ == b@,
{
}

} // verus!
