//! Deriving a current value from the submission ledger: staleness filter,
//! lower-bound median, and quorum and sign checks.

use crate::errors::OnDemandError;
use crate::fixed_point::decimal_from_scaled;
use crate::fixed_point::fits_decimal;
use crate::fixed_point::try_decimal_from_scaled;
use crate::fixed_point::PRECISION;
use crate::record::OracleSubmission;
use crate::record::PullFeedAccountData;
use rust_decimal::Decimal;
use vstd::pervasive::VecAdditionalExecFns;
use vstd::prelude::*;
use vstd::relations::sorted_by;
use vstd::relations::total_ordering;
use vstd::seq_lib::lemma_sorted_unique;

verus! {

/// The ascending order on submitted values.
pub open spec fn value_leq() -> spec_fn(i128, i128) -> bool {
    |x: i128, y: i128| x <= y
}

/// The ascending order on values is a total ordering.
pub proof fn lemma_value_leq_total()
    ensures
        total_ordering(value_leq()),
{
}

/// The list of values sorted ascending.
pub open spec fn sorted_ascending(s: Seq<i128>) -> Seq<i128> {
    s.sort_by(value_leq())
}

/// The lower-bound median of a non-empty list: the element at index
/// `len / 2` of the sorted list — the exact middle for an odd length, the
/// upper of the two middle elements for an even one.
pub open spec fn spec_lower_bound_median(s: Seq<i128>) -> i128
    recommends
        s.len() > 0,
{
    sorted_ascending(s)[s.len() as int / 2]
}

/// Swapping two positions of a list leaves its multiset of values unchanged.
proof fn lemma_swap_preserves_multiset(s: Seq<i128>, a: int, b: int)
    requires
        0 <= a < s.len(),
        0 <= b < s.len(),
        a != b,
    ensures
        s.update(a, s[b]).update(b, s[a]).to_multiset() == s.to_multiset(),
{
    broadcast use vstd::seq_lib::group_to_multiset_ensures;
    broadcast use vstd::multiset::group_multiset_axioms;

    let s1 = s.update(a, s[b]);
    let s2 = s1.update(b, s[a]);
    assert(s.to_multiset().contains(s[a]));
    assert(s1.to_multiset().contains(s1[b]));
    assert(s1.to_multiset() == s.to_multiset().insert(s[b]).remove(s[a]));
    assert(s2.to_multiset() == s1.to_multiset().insert(s[a]).remove(s1[b]));
    assert(s2.to_multiset() =~= s.to_multiset());
}

/// Sorts a list of values ascending in place.
fn sort_values(v: &mut Vec<i128>)
    ensures
        final(v)@ == sorted_ascending(old(v)@),
        final(v)@.len() == old(v)@.len(),
{
    let ghost orig: Seq<i128> = v@;
    proof {
        broadcast use vstd::seq_lib::group_to_multiset_ensures;

        lemma_value_leq_total();
        orig.lemma_sort_by_ensures(value_leq());
    }
    let n: usize = v.len();
    let mut i: usize = 1;
    while i < n
        invariant
            1 <= i <= n || (n == 0 && i == 1),
            n == v@.len(),
            v@.to_multiset() == orig.to_multiset(),
            forall|a: int, b: int| 0 <= a < b < i ==> v@[a] <= v@[b],
        decreases n - i,
    {
        let mut j: usize = i;
        while j > 0 && v[j - 1] > v[j]
            invariant
                0 <= j <= i < n,
                n == v@.len(),
                v@.to_multiset() == orig.to_multiset(),
                forall|a: int, b: int| 0 <= a < b <= i && b != j ==> v@[a] <= v@[b],
            decreases j,
        {
            let x = v[j - 1];
            let y = v[j];
            proof {
                lemma_swap_preserves_multiset(v@, j - 1, j as int);
            }
            v.set(j - 1, y);
            v.set(j, x);
            j -= 1;
        }
        i += 1;
    }
    proof {
        broadcast use vstd::seq_lib::group_to_multiset_ensures;

        if n == 0 {
            assert(v@.to_multiset() =~= orig.to_multiset());
        }
        assert(sorted_by(v@, value_leq()));
        lemma_sorted_unique(v@, orig.sort_by(value_leq()), value_leq());
        assert(v@ =~= sorted_ascending(orig));
    }
}

/// Sorts the list ascending and returns its lower-bound median: the element
/// at index `len / 2` of the sorted list, or none for an empty list.
pub fn lower_bound_median(numbers: &mut Vec<i128>) -> (r: Option<i128>)
    ensures
        final(numbers)@ == sorted_ascending(old(numbers)@),
        old(numbers)@.len() == 0 ==> r is None,
        old(numbers)@.len() > 0 ==> r == Some(spec_lower_bound_median(old(numbers)@)),
{
    sort_values(numbers);
    let len: usize = numbers.len();
    if len == 0 {
        return None;
    }
    Some(numbers[len / 2])
}

/// The oldest slot still inside the staleness window: a submission is fresh
/// exactly when its slot lies strictly above this cutoff.  The subtraction
/// saturates at zero — a window wider than the clock keeps every populated
/// submission — rather than wrapping.
pub open spec fn spec_staleness_cutoff(current_slot: u64, max_staleness: u64) -> u64 {
    if max_staleness > current_slot {
        0
    } else {
        (current_slot - max_staleness) as u64
    }
}

/// The values of the populated prefix of the ledger — the submissions before
/// the first empty sentinel — whose slot lies strictly above the cutoff, in
/// ledger order.
pub open spec fn retained_values(subs: Seq<OracleSubmission>, cutoff: u64) -> Seq<i128>
    decreases subs.len(),
{
    if subs.len() == 0 || subs[0].slot == 0 {
        Seq::empty()
    } else if subs[0].slot > cutoff {
        seq![subs[0].value] + retained_values(subs.drop_first(), cutoff)
    } else {
        retained_values(subs.drop_first(), cutoff)
    }
}

/// What `get_value` returns for a ledger: the lower-bound median of the
/// fresh submissions as a decimal at scale 10^18; `NotEnoughSamples` where
/// fewer than `min_samples` submissions (or none at all) are fresh;
/// `IllegalFeedValue` where `only_positive` is set and the median is not
/// positive; `DecimalConversionError` where the median does not fit the
/// decimal type.
pub open spec fn spec_get_value(
    subs: Seq<OracleSubmission>,
    current_slot: u64,
    max_staleness: u64,
    min_samples: u32,
    only_positive: bool,
) -> Result<Decimal, OnDemandError> {
    let vals = retained_values(subs, spec_staleness_cutoff(current_slot, max_staleness));
    if vals.len() < min_samples || vals.len() == 0 {
        Err(OnDemandError::NotEnoughSamples)
    } else {
        let m = spec_lower_bound_median(vals);
        if only_positive && m <= 0 {
            Err(OnDemandError::IllegalFeedValue)
        } else if !fits_decimal(m as int) {
            Err(OnDemandError::DecimalConversionError)
        } else {
            Ok(decimal_from_scaled(m as int, PRECISION as int))
        }
    }
}

impl PullFeedAccountData {
    /// Returns the lower-bound median of the submissions made within the
    /// last `max_staleness` slots, as a decimal at scale 10^18.
    ///
    /// Fails with `NotEnoughSamples` where fewer than `min_samples`
    /// submissions are fresh (or none at all), with `IllegalFeedValue` where
    /// `only_positive` is set and the median is not positive, and with
    /// `DecimalConversionError` where the median does not fit the decimal
    /// type.
    pub fn get_value(
        &self,
        current_slot: u64,
        max_staleness: u64,
        min_samples: u32,
        only_positive: bool,
    ) -> (r: Result<Decimal, OnDemandError>)
        ensures
            r == spec_get_value(
                self.submissions@,
                current_slot,
                max_staleness,
                min_samples,
                only_positive,
            ),
    {
        let ghost subs = self.submissions@;
        let cutoff: u64 = if max_staleness > current_slot {
            0
        } else {
            current_slot - max_staleness
        };
        let mut vals: Vec<i128> = Vec::new();
        let n: usize = self.submissions.len();
        let mut i: usize = 0;
        proof {
            assert(subs.skip(0) =~= subs);
            assert(Seq::<i128>::empty() + retained_values(subs, cutoff) =~= retained_values(
                subs,
                cutoff,
            ));
        }
        while i < n && self.submissions[i].slot != 0
            invariant
                0 <= i <= n,
                n == subs.len(),
                subs == self.submissions@,
                cutoff == spec_staleness_cutoff(current_slot, max_staleness),
                retained_values(subs, cutoff) == vals@ + retained_values(
                    subs.skip(i as int),
                    cutoff,
                ),
            decreases n - i,
        {
            let ghost vals_before = vals@;
            if self.submissions[i].slot > cutoff {
                vals.push(self.submissions[i].value);
            }
            proof {
                let tail = subs.skip(i as int);
                assert(tail[0] == subs[i as int]);
                assert(tail.drop_first() =~= subs.skip(i as int + 1));
                if subs[i as int].slot > cutoff {
                    assert(vals@ =~= vals_before + seq![subs[i as int].value]);
                    assert((vals_before + seq![subs[i as int].value]) + retained_values(
                        subs.skip(i as int + 1),
                        cutoff,
                    ) =~= vals_before + (seq![subs[i as int].value] + retained_values(
                        subs.skip(i as int + 1),
                        cutoff,
                    )));
                }
            }
            i += 1;
        }
        proof {
            if i < n {
                assert(subs.skip(i as int)[0] == subs[i as int]);
            }
            assert(retained_values(subs.skip(i as int), cutoff) =~= Seq::<i128>::empty());
            assert(vals@ =~= retained_values(subs, cutoff));
        }
        if vals.len() < min_samples as usize {
            return Err(OnDemandError::NotEnoughSamples);
        }
        let median = match lower_bound_median(&mut vals) {
            Some(m) => m,
            None => {
                return Err(OnDemandError::NotEnoughSamples);
            },
        };
        if only_positive && median <= 0 {
            return Err(OnDemandError::IllegalFeedValue);
        }
        match try_decimal_from_scaled(median, PRECISION) {
            Ok(d) => Ok(d),
            Err(_) => Err(OnDemandError::DecimalConversionError),
        }
    }
}

} // verus!
