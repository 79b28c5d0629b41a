//! The reserve that keeps a record stored: the host's rent policy, asked for
//! the least balance of a slot by the length of its data.

use solana_program::rent::Rent;
use vstd::prelude::*;

verus! {

/// The longest data for which the host names a reserve.
pub const MAX_DATA_LEN: u64 = 10_485_760;

/// The bytes that the host counts for a slot besides its data.
pub const STORAGE_OVERHEAD: u64 = 128;

/// The highest rate that the host takes under the threshold 1.
pub const MAX_RATE: u64 = 1_759_197_129_867;

/// The highest rate that the host takes under the threshold 2.
pub const MAX_DOUBLED_RATE: u64 = 879_598_564_933;

/// The rent policy of the host, field by field as the host publishes it.
#[derive(Clone, Copy, Debug, PartialEq, Eq)]
pub struct RentPolicy {
    pub lamports_per_byte: u64,
    /// The factor on the rate, a 64-bit float in its little-endian bytes.
    pub exemption_threshold: [u8; 8],
    pub burn_percent: u8,
}

/// Whether the six low bytes of a threshold are zero, as they are in the
/// floats 1 and 2.
pub open spec fn has_zero_mantissa(threshold: Seq<u8>) -> bool {
    &&& threshold.len() == 8
    &&& threshold[0] == 0
    &&& threshold[1] == 0
    &&& threshold[2] == 0
    &&& threshold[3] == 0
    &&& threshold[4] == 0
    &&& threshold[5] == 0
}

/// Whether the threshold is the float 1.
pub open spec fn is_threshold_one(threshold: Seq<u8>) -> bool {
    has_zero_mantissa(threshold) && threshold[6] == 240 && threshold[7] == 63
}

/// Whether the threshold is the float 2.
pub open spec fn is_threshold_two(threshold: Seq<u8>) -> bool {
    has_zero_mantissa(threshold) && threshold[6] == 0 && threshold[7] == 64
}

/// Whether the threshold is one of the two for which the host computes in
/// integers. Under any other it needs floating point, which it does not have
/// on every target.
pub open spec fn is_standard_threshold(threshold: Seq<u8>) -> bool {
    is_threshold_one(threshold) || is_threshold_two(threshold)
}

/// The least balance of a slot with `data_len` bytes of data under a standard
/// threshold: the rate times the length with its overhead, doubled under the
/// threshold 2, and `None` beyond the longest data or the highest rate.
pub open spec fn standard_reserve(
    lamports_per_byte: u64,
    exemption_threshold: Seq<u8>,
    data_len: usize,
) -> Option<u64> {
    if data_len > MAX_DATA_LEN {
        None
    } else if is_threshold_one(exemption_threshold) {
        if lamports_per_byte > MAX_RATE {
            None
        } else {
            Some(((STORAGE_OVERHEAD + data_len) * lamports_per_byte) as u64)
        }
    } else if lamports_per_byte > MAX_DOUBLED_RATE {
        None
    } else {
        Some((2 * (STORAGE_OVERHEAD + data_len) * lamports_per_byte) as u64)
    }
}

/// Within the host's bounds the reserve fits 64 bits, so that
/// `standard_reserve` is the product itself.
pub proof fn lemma_standard_reserve_fits(lamports_per_byte: u64, data_len: usize)
    requires
        data_len <= MAX_DATA_LEN,
    ensures
        lamports_per_byte <= MAX_RATE ==> (STORAGE_OVERHEAD + data_len) * lamports_per_byte
            <= u64::MAX,
        lamports_per_byte <= MAX_DOUBLED_RATE ==> 2 * (STORAGE_OVERHEAD + data_len)
            * lamports_per_byte <= u64::MAX,
{
    let size = STORAGE_OVERHEAD + data_len;
    if lamports_per_byte <= MAX_RATE {
        assert(size * lamports_per_byte <= 10_485_888 * 1_759_197_129_867) by (nonlinear_arith)
            requires
                0 <= size <= 10_485_888,
                0 <= lamports_per_byte <= 1_759_197_129_867,
        ;
    }
    if lamports_per_byte <= MAX_DOUBLED_RATE {
        assert(2 * size * lamports_per_byte <= 2 * 10_485_888 * 879_598_564_933)
            by (nonlinear_arith)
            requires
                0 <= size <= 10_485_888,
                0 <= lamports_per_byte <= 879_598_564_933,
        ;
    }
}

/// Calls `Rent::try_minimum_balance` on the policy with these fields. Under
/// the thresholds 1 and 2 the host answers in integers: nothing for data
/// longer than it stores or a rate beyond its bound, else the rate times the
/// length with its overhead, doubled under the threshold 2. The other
/// thresholds are left out: there the host computes in floating point.
#[verifier::external_body]
#[allow(deprecated)]
fn try_minimum_balance(
    lamports_per_byte: u64,
    exemption_threshold: &[u8; 8],
    burn_percent: u8,
    data_len: usize,
) -> (balance: Option<u64>)
    requires
        is_standard_threshold(exemption_threshold@),
    ensures
        balance == standard_reserve(lamports_per_byte, exemption_threshold@, data_len),
{
    let rent = Rent { lamports_per_byte, exemption_threshold: *exemption_threshold, burn_percent };
    rent.try_minimum_balance(data_len)
}

/// The reserve of a record of `data_len` bytes under `policy`: what the host
/// names under a standard threshold, and `None` under any other.
pub open spec fn min_reserve(policy: RentPolicy, data_len: usize) -> Option<u64> {
    if is_standard_threshold(policy.exemption_threshold@) {
        standard_reserve(policy.lamports_per_byte, policy.exemption_threshold@, data_len)
    } else {
        None
    }
}

impl RentPolicy {
    fn has_standard_threshold(&self) -> (standard: bool)
        ensures
            standard == is_standard_threshold(self.exemption_threshold@),
    {
        let t = &self.exemption_threshold;
        t[0] == 0 && t[1] == 0 && t[2] == 0 && t[3] == 0 && t[4] == 0 && t[5] == 0 && (t[6] == 240
            && t[7] == 63 || t[6] == 0 && t[7] == 64)
    }

    /// The least balance that a new record of `data_len` bytes must be funded
    /// with, or `None` where the policy names none.
    pub fn min_reserve(&self, data_len: usize) -> (reserve: Option<u64>)
        ensures
            reserve == min_reserve(*self, data_len),
    {
        if self.has_standard_threshold() {
            try_minimum_balance(
                self.lamports_per_byte,
                &self.exemption_threshold,
                self.burn_percent,
                data_len,
            )
        } else {
            None
        }
    }
}

} // verus!
