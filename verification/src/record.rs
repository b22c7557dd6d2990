//! The fixed-layout feed record and its decoder.
//!
//! A feed account holds an 8-byte type tag followed by a fixed-size record:
//! the submission ledger, identifiers and quorum parameters, the current
//! aggregate result, and a ring of historical snapshots.  Every multi-byte
//! field is little-endian, every padding and reserved region is kept
//! byte-for-byte, and decoding never looks at the meaning of field values.

use crate::codec::le_i128;
use crate::codec::le_i64;
use crate::codec::le_u32;
use crate::codec::le_u64;
use crate::codec::read_bytes;
use crate::codec::read_i128_le;
use crate::codec::read_i64_le;
use crate::codec::read_u32_le;
use crate::codec::read_u64_le;
use crate::errors::OnDemandError;
use crate::fixed_point::decimal_from_scaled;
use crate::fixed_point::fits_decimal;
use crate::fixed_point::try_decimal_from_scaled;
use crate::fixed_point::PRECISION;
use rust_decimal::Decimal;
use vstd::prelude::*;
use vstd::slice::slice_subrange;

verus! {

/// Length of the leading type tag.
pub const TAG_BYTES: usize = 8;

/// Size of one encoded `OracleSubmission`.
pub const SUBMISSION_BYTES: usize = 64;

/// Size of one encoded `CurrentResult`.
pub const CURRENT_RESULT_BYTES: usize = 128;

/// Size of one encoded `CompactResult`.
pub const COMPACT_RESULT_BYTES: usize = 16;

/// Size of the encoded record that follows the tag.
pub const RECORD_BYTES: usize = 3200;

/// Number of entries in the submission ledger and in the historical ring.
pub const LEDGER_CAPACITY: usize = 32;

/// The quorum-derived statistics of one evaluation, all fixed-point values at
/// scale 10^18.  `slot == 0` means that no result was ever computed, and
/// every accessor then reports absence.
pub struct CurrentResult {
    /// The median value of the submissions needed for quorum size.
    pub value: i128,
    /// The standard deviation of the submissions needed for quorum size.
    pub std_dev: i128,
    /// The mean of the submissions needed for quorum size.
    pub mean: i128,
    /// The range of the submissions needed for quorum size.
    pub range: i128,
    /// The minimum value of the submissions needed for quorum size.
    pub min_value: i128,
    /// The maximum value of the submissions needed for quorum size.
    pub max_value: i128,
    /// Padding bytes, kept as decoded.
    pub padding1: Vec<u8>,
    /// The slot at which this value was signed; zero means never computed.
    pub slot: u64,
    /// The slot at which the first considered submission was made.
    pub min_slot: u64,
    /// The slot at which the last considered submission was made.
    pub max_slot: u64,
}

/// One oracle's reported value at one point in time.  A submission whose
/// `slot` is zero is the empty sentinel that ends the populated prefix of
/// the ledger.
pub struct OracleSubmission {
    /// The 32-byte identifier of the oracle that submitted this value.
    pub oracle: Vec<u8>,
    /// The slot at which this value was signed.
    pub slot: u64,
    /// Padding bytes, kept as decoded.
    pub padding1: Vec<u8>,
    /// The value that was submitted, fixed-point at scale 10^18.
    pub value: i128,
}

/// A lower-precision historical snapshot of mean and standard deviation.
/// The two statistics are 32-bit IEEE 754 patterns; this crate keeps them as
/// their raw bits and never computes with them.
pub struct CompactResult {
    /// Bit pattern of the standard deviation of the snapshot.
    pub std_dev_bits: u32,
    /// Bit pattern of the mean of the snapshot.
    pub mean_bits: u32,
    /// The slot at which this snapshot was signed.
    pub slot: u64,
}

/// A decoded pull-feed account record.
pub struct PullFeedAccountData {
    /// The oracle submissions for this feed, exactly 32 entries.
    pub submissions: Vec<OracleSubmission>,
    /// The 32-byte identifier of the authority that can update the feed hash.
    pub authority: Vec<u8>,
    /// The 32-byte identifier of the queue whose oracles may submit.
    pub queue: Vec<u8>,
    /// SHA-256 hash of the job schema oracles execute for this feed.
    pub feed_hash: Vec<u8>,
    /// The slot at which this account was initialized.
    pub initialized_at: i64,
    /// Permission bits.
    pub permissions: u64,
    /// The greatest variance the aggregation process accepts.
    pub max_variance: u64,
    /// The fewest responses the aggregation process accepts.
    pub min_responses: u32,
    /// Human-readable name, 32 bytes.
    pub name: Vec<u8>,
    /// Padding bytes, kept as decoded.
    pub padding1: Vec<u8>,
    /// Index of the newest entry of the historical ring.
    pub historical_result_idx: u8,
    /// The fewest samples the aggregation process accepts.
    pub min_sample_size: u8,
    /// Timestamp of the last update.
    pub last_update_timestamp: i64,
    /// Slot of the address lookup table.
    pub lut_slot: u64,
    /// Reserved bytes, kept as decoded.
    pub _reserved1: Vec<u8>,
    /// The current aggregate result.
    pub result: CurrentResult,
    /// The staleness window the aggregation process used.
    pub max_staleness: u32,
    /// Padding bytes, kept as decoded.
    pub padding2: Vec<u8>,
    /// The ring of 32 historical snapshots.
    pub historical_results: Vec<CompactResult>,
    /// Reserved bytes, kept as decoded.
    pub _ebuf4: Vec<u8>,
    /// Reserved bytes, kept as decoded.
    pub _ebuf3: Vec<u8>,
    /// Reserved bytes, kept as decoded.
    pub _ebuf2: Vec<u8>,
}

/// The fixed type tag that identifies a pull-feed record.
pub open spec fn spec_discriminator() -> Seq<u8> {
    seq![196u8, 27u8, 108u8, 196u8, 10u8, 215u8, 219u8, 40u8]
}

/// Whether a buffer decodes successfully: it holds the tag and a full record.
pub open spec fn spec_parse_ok(s: Seq<u8>) -> bool {
    &&& s.len() >= TAG_BYTES + RECORD_BYTES
    &&& s.subrange(0, TAG_BYTES as int) == spec_discriminator()
}

/// Whether `s` is the decoding of the 64-byte region `b`.
pub open spec fn submission_represents(s: OracleSubmission, b: Seq<u8>) -> bool {
    &&& b.len() == SUBMISSION_BYTES
    &&& s.oracle@ == b.subrange(0, 32)
    &&& s.slot == le_u64(b, 32)
    &&& s.padding1@ == b.subrange(40, 48)
    &&& s.value as int == le_i128(b, 48)
}

/// Whether `c` is the decoding of the 128-byte region `b`.
pub open spec fn current_result_represents(c: CurrentResult, b: Seq<u8>) -> bool {
    &&& b.len() == CURRENT_RESULT_BYTES
    &&& c.value as int == le_i128(b, 0)
    &&& c.std_dev as int == le_i128(b, 16)
    &&& c.mean as int == le_i128(b, 32)
    &&& c.range as int == le_i128(b, 48)
    &&& c.min_value as int == le_i128(b, 64)
    &&& c.max_value as int == le_i128(b, 80)
    &&& c.padding1@ == b.subrange(96, 104)
    &&& c.slot == le_u64(b, 104)
    &&& c.min_slot == le_u64(b, 112)
    &&& c.max_slot == le_u64(b, 120)
}

/// Whether `c` is the decoding of the 16-byte region `b`.
pub open spec fn compact_result_represents(c: CompactResult, b: Seq<u8>) -> bool {
    &&& b.len() == COMPACT_RESULT_BYTES
    &&& c.std_dev_bits == le_u32(b, 0)
    &&& c.mean_bits == le_u32(b, 4)
    &&& c.slot == le_u64(b, 8)
}

/// Whether `r` is the decoding of the 3200-byte record region `b`: every
/// field equals the bytes at its documented offset.
pub open spec fn record_represents(r: PullFeedAccountData, b: Seq<u8>) -> bool {
    &&& b.len() == RECORD_BYTES
    &&& r.submissions@.len() == LEDGER_CAPACITY
    &&& forall|i: int|
        0 <= i < LEDGER_CAPACITY ==> submission_represents(
            #[trigger] r.submissions@[i],
            b.subrange(64 * i, 64 * i + 64),
        )
    &&& r.authority@ == b.subrange(2048, 2080)
    &&& r.queue@ == b.subrange(2080, 2112)
    &&& r.feed_hash@ == b.subrange(2112, 2144)
    &&& r.initialized_at as int == le_i64(b, 2144)
    &&& r.permissions == le_u64(b, 2152)
    &&& r.max_variance == le_u64(b, 2160)
    &&& r.min_responses == le_u32(b, 2168)
    &&& r.name@ == b.subrange(2172, 2204)
    &&& r.padding1@ == b.subrange(2204, 2206)
    &&& r.historical_result_idx == b[2206]
    &&& r.min_sample_size == b[2207]
    &&& r.last_update_timestamp as int == le_i64(b, 2208)
    &&& r.lut_slot == le_u64(b, 2216)
    &&& r._reserved1@ == b.subrange(2224, 2256)
    &&& current_result_represents(r.result, b.subrange(2256, 2384))
    &&& r.max_staleness == le_u32(b, 2384)
    &&& r.padding2@ == b.subrange(2388, 2400)
    &&& r.historical_results@.len() == LEDGER_CAPACITY
    &&& forall|i: int|
        0 <= i < LEDGER_CAPACITY ==> compact_result_represents(
            #[trigger] r.historical_results@[i],
            b.subrange(2400 + 16 * i, 2400 + 16 * i + 16),
        )
    &&& r._ebuf4@ == b.subrange(2912, 2920)
    &&& r._ebuf3@ == b.subrange(2920, 2944)
    &&& r._ebuf2@ == b.subrange(2944, 3200)
}

/// Decoding is a function of the buffer alone: any two records that decode
/// from the same bytes agree, bit for bit, on every field.  Together with
/// `parse` reading its buffer through a shared borrow, this makes repeated
/// decoding of an identical buffer idempotent.
pub proof fn lemma_decode_deterministic(r1: PullFeedAccountData, r2: PullFeedAccountData, b: Seq<u8>)
    requires
        record_represents(r1, b),
        record_represents(r2, b),
    ensures
        r1.submissions@.len() == r2.submissions@.len(),
        forall|i: int|
            0 <= i < r1.submissions@.len() ==> {
                &&& (#[trigger] r1.submissions@[i]).oracle@ == r2.submissions@[i].oracle@
                &&& r1.submissions@[i].slot == r2.submissions@[i].slot
                &&& r1.submissions@[i].padding1@ == r2.submissions@[i].padding1@
                &&& r1.submissions@[i].value == r2.submissions@[i].value
            },
        r1.authority@ == r2.authority@,
        r1.queue@ == r2.queue@,
        r1.feed_hash@ == r2.feed_hash@,
        r1.initialized_at == r2.initialized_at,
        r1.permissions == r2.permissions,
        r1.max_variance == r2.max_variance,
        r1.min_responses == r2.min_responses,
        r1.name@ == r2.name@,
        r1.padding1@ == r2.padding1@,
        r1.historical_result_idx == r2.historical_result_idx,
        r1.min_sample_size == r2.min_sample_size,
        r1.last_update_timestamp == r2.last_update_timestamp,
        r1.lut_slot == r2.lut_slot,
        r1._reserved1@ == r2._reserved1@,
        r1.result.value == r2.result.value,
        r1.result.std_dev == r2.result.std_dev,
        r1.result.mean == r2.result.mean,
        r1.result.range == r2.result.range,
        r1.result.min_value == r2.result.min_value,
        r1.result.max_value == r2.result.max_value,
        r1.result.padding1@ == r2.result.padding1@,
        r1.result.slot == r2.result.slot,
        r1.result.min_slot == r2.result.min_slot,
        r1.result.max_slot == r2.result.max_slot,
        r1.max_staleness == r2.max_staleness,
        r1.historical_results@.len() == r2.historical_results@.len(),
        forall|i: int|
            0 <= i < r1.historical_results@.len() ==> {
                &&& (#[trigger] r1.historical_results@[i]).std_dev_bits
                    == r2.historical_results@[i].std_dev_bits
                &&& r1.historical_results@[i].mean_bits == r2.historical_results@[i].mean_bits
                &&& r1.historical_results@[i].slot == r2.historical_results@[i].slot
            },
        r1._ebuf4@ == r2._ebuf4@,
        r1._ebuf3@ == r2._ebuf3@,
        r1._ebuf2@ == r2._ebuf2@,
{
    assert forall|i: int| 0 <= i < r1.submissions@.len() implies {
        &&& (#[trigger] r1.submissions@[i]).oracle@ == r2.submissions@[i].oracle@
        &&& r1.submissions@[i].slot == r2.submissions@[i].slot
        &&& r1.submissions@[i].padding1@ == r2.submissions@[i].padding1@
        &&& r1.submissions@[i].value == r2.submissions@[i].value
    } by {
        assert(submission_represents(r1.submissions@[i], b.subrange(64 * i, 64 * i + 64)));
        assert(submission_represents(r2.submissions@[i], b.subrange(64 * i, 64 * i + 64)));
    }
    assert forall|i: int| 0 <= i < r1.historical_results@.len() implies {
        &&& (#[trigger] r1.historical_results@[i]).std_dev_bits
            == r2.historical_results@[i].std_dev_bits
        &&& r1.historical_results@[i].mean_bits == r2.historical_results@[i].mean_bits
        &&& r1.historical_results@[i].slot == r2.historical_results@[i].slot
    } by {
        assert(compact_result_represents(
            r1.historical_results@[i],
            b.subrange(2400 + 16 * i, 2400 + 16 * i + 16),
        ));
        assert(compact_result_represents(
            r2.historical_results@[i],
            b.subrange(2400 + 16 * i, 2400 + 16 * i + 16),
        ));
    }
}

impl OracleSubmission {
    /// Whether this submission is the empty sentinel.
    pub fn is_empty(&self) -> (r: bool)
        ensures
            r <==> self.slot == 0,
    {
        self.slot == 0
    }

    /// The submitted value as a decimal at scale 10^18.
    pub fn value(&self) -> (r: Decimal)
        requires
            fits_decimal(self.value as int),
        ensures
            r == decimal_from_scaled(self.value as int, PRECISION as int),
    {
        let d = try_decimal_from_scaled(self.value, PRECISION);
        d.unwrap()
    }
}

impl CurrentResult {
    /// The median value of the quorum, absent while no result was computed.
    pub fn value(&self) -> (r: Option<Decimal>)
        requires
            self.slot != 0 ==> fits_decimal(self.value as int),
        ensures
            self.slot == 0 <==> r is None,
            self.slot != 0 ==> r == Some(decimal_from_scaled(self.value as int, PRECISION as int)),
    {
        if self.slot == 0 {
            return None;
        }
        let d = try_decimal_from_scaled(self.value, PRECISION);
        Some(d.unwrap())
    }

    /// The standard deviation of the quorum, absent while no result was
    /// computed.
    pub fn std_dev(&self) -> (r: Option<Decimal>)
        requires
            self.slot != 0 ==> fits_decimal(self.std_dev as int),
        ensures
            self.slot == 0 <==> r is None,
            self.slot != 0 ==> r == Some(
                decimal_from_scaled(self.std_dev as int, PRECISION as int),
            ),
    {
        if self.slot == 0 {
            return None;
        }
        let d = try_decimal_from_scaled(self.std_dev, PRECISION);
        Some(d.unwrap())
    }

    /// The mean of the quorum, absent while no result was computed.
    pub fn mean(&self) -> (r: Option<Decimal>)
        requires
            self.slot != 0 ==> fits_decimal(self.mean as int),
        ensures
            self.slot == 0 <==> r is None,
            self.slot != 0 ==> r == Some(decimal_from_scaled(self.mean as int, PRECISION as int)),
    {
        if self.slot == 0 {
            return None;
        }
        let d = try_decimal_from_scaled(self.mean, PRECISION);
        Some(d.unwrap())
    }

    /// The range of the quorum, absent while no result was computed.
    pub fn range(&self) -> (r: Option<Decimal>)
        requires
            self.slot != 0 ==> fits_decimal(self.range as int),
        ensures
            self.slot == 0 <==> r is None,
            self.slot != 0 ==> r == Some(decimal_from_scaled(self.range as int, PRECISION as int)),
    {
        if self.slot == 0 {
            return None;
        }
        let d = try_decimal_from_scaled(self.range, PRECISION);
        Some(d.unwrap())
    }

    /// The minimum value of the quorum, absent while no result was computed.
    pub fn min_value(&self) -> (r: Option<Decimal>)
        requires
            self.slot != 0 ==> fits_decimal(self.min_value as int),
        ensures
            self.slot == 0 <==> r is None,
            self.slot != 0 ==> r == Some(
                decimal_from_scaled(self.min_value as int, PRECISION as int),
            ),
    {
        if self.slot == 0 {
            return None;
        }
        let d = try_decimal_from_scaled(self.min_value, PRECISION);
        Some(d.unwrap())
    }

    /// The maximum value of the quorum, absent while no result was computed.
    pub fn max_value(&self) -> (r: Option<Decimal>)
        requires
            self.slot != 0 ==> fits_decimal(self.max_value as int),
        ensures
            self.slot == 0 <==> r is None,
            self.slot != 0 ==> r == Some(
                decimal_from_scaled(self.max_value as int, PRECISION as int),
            ),
    {
        if self.slot == 0 {
            return None;
        }
        let d = try_decimal_from_scaled(self.max_value, PRECISION);
        Some(d.unwrap())
    }

    /// The slot of the result, absent while no result was computed.
    pub fn result_slot(&self) -> (r: Option<u64>)
        ensures
            self.slot == 0 <==> r is None,
            self.slot != 0 ==> r == Some(self.slot),
    {
        if self.slot == 0 {
            return None;
        }
        Some(self.slot)
    }

    /// The first contributing slot, absent while no result was computed.
    pub fn min_slot(&self) -> (r: Option<u64>)
        ensures
            self.slot == 0 <==> r is None,
            self.slot != 0 ==> r == Some(self.min_slot),
    {
        if self.slot == 0 {
            return None;
        }
        Some(self.min_slot)
    }

    /// The last contributing slot, absent while no result was computed.
    pub fn max_slot(&self) -> (r: Option<u64>)
        ensures
            self.slot == 0 <==> r is None,
            self.slot != 0 ==> r == Some(self.max_slot),
    {
        if self.slot == 0 {
            return None;
        }
        Some(self.max_slot)
    }
}

impl PullFeedAccountData {
    /// The fixed type tag expected at the head of a feed account buffer.
    pub fn discriminator() -> (r: [u8; 8])
        ensures
            r@ == spec_discriminator(),
    {
        [196u8, 27u8, 108u8, 196u8, 10u8, 215u8, 219u8, 40u8]
    }

    /// Decodes a feed account buffer.
    ///
    /// Succeeds exactly on buffers that begin with the type tag and are long
    /// enough to hold a full record after it; every decoded field then equals
    /// the bytes at its documented offset.  A short buffer and a wrong tag
    /// both fail with `InvalidDiscriminator`.  The buffer is only read.
    pub fn parse(data: &[u8]) -> (r: Result<PullFeedAccountData, OnDemandError>)
        ensures
            r is Ok <==> spec_parse_ok(data@),
            r is Ok ==> record_represents(
                r->Ok_0,
                data@.subrange(TAG_BYTES as int, TAG_BYTES as int + RECORD_BYTES as int),
            ),
            r is Err ==> r->Err_0 is InvalidDiscriminator,
    {
        let n: usize = data.len();
        if n < TAG_BYTES {
            return Err(OnDemandError::InvalidDiscriminator);
        }
        let tag = Self::discriminator();
        let mut k: usize = 0;
        while k < TAG_BYTES
            invariant
                0 <= k <= TAG_BYTES,
                n == data@.len(),
                n >= TAG_BYTES,
                tag@ == spec_discriminator(),
                forall|j: int| 0 <= j < k ==> data@[j] == spec_discriminator()[j],
            decreases TAG_BYTES - k,
        {
            if data[k] != tag[k] {
                proof {
                    assert(data@.subrange(0, TAG_BYTES as int)[k as int] != spec_discriminator()[k as int]);
                }
                return Err(OnDemandError::InvalidDiscriminator);
            }
            k += 1;
        }
        proof {
            assert(data@.subrange(0, TAG_BYTES as int) =~= spec_discriminator());
        }
        if n < TAG_BYTES + RECORD_BYTES {
            return Err(OnDemandError::InvalidDiscriminator);
        }
        let body: &[u8] = slice_subrange(data, TAG_BYTES, TAG_BYTES + RECORD_BYTES);

        let mut submissions: Vec<OracleSubmission> = Vec::new();
        let mut i: usize = 0;
        while i < LEDGER_CAPACITY
            invariant
                0 <= i <= LEDGER_CAPACITY,
                body@.len() == RECORD_BYTES,
                submissions@.len() == i,
                forall|j: int|
                    0 <= j < i ==> submission_represents(
                        #[trigger] submissions@[j],
                        body@.subrange(64 * j, 64 * j + 64),
                    ),
            decreases LEDGER_CAPACITY - i,
        {
            let off: usize = SUBMISSION_BYTES * i;
            let sub = OracleSubmission {
                oracle: read_bytes(body, off, 32),
                slot: read_u64_le(body, off + 32),
                padding1: read_bytes(body, off + 40, 8),
                value: read_i128_le(body, off + 48),
            };
            proof {
                let chunk = body@.subrange(64 * i, 64 * i + 64);
                assert(chunk.subrange(0, 32) =~= body@.subrange(off as int, off as int + 32));
                assert(chunk.subrange(32, 40) =~= body@.subrange(off as int + 32, off as int + 40));
                assert(chunk.subrange(40, 48) =~= body@.subrange(off as int + 40, off as int + 48));
                assert(chunk.subrange(48, 64) =~= body@.subrange(off as int + 48, off as int + 64));
                assert(submission_represents(sub, chunk));
            }
            submissions.push(sub);
            i += 1;
        }

        let mut historical_results: Vec<CompactResult> = Vec::new();
        let mut h: usize = 0;
        while h < LEDGER_CAPACITY
            invariant
                0 <= h <= LEDGER_CAPACITY,
                body@.len() == RECORD_BYTES,
                historical_results@.len() == h,
                forall|j: int|
                    0 <= j < h ==> compact_result_represents(
                        #[trigger] historical_results@[j],
                        body@.subrange(2400 + 16 * j, 2400 + 16 * j + 16),
                    ),
            decreases LEDGER_CAPACITY - h,
        {
            let off: usize = 2400 + COMPACT_RESULT_BYTES * h;
            let snap = CompactResult {
                std_dev_bits: read_u32_le(body, off),
                mean_bits: read_u32_le(body, off + 4),
                slot: read_u64_le(body, off + 8),
            };
            proof {
                let chunk = body@.subrange(2400 + 16 * h, 2400 + 16 * h + 16);
                assert(chunk.subrange(0, 4) =~= body@.subrange(off as int, off as int + 4));
                assert(chunk.subrange(4, 8) =~= body@.subrange(off as int + 4, off as int + 8));
                assert(chunk.subrange(8, 16) =~= body@.subrange(off as int + 8, off as int + 16));
                assert(compact_result_represents(snap, chunk));
            }
            historical_results.push(snap);
            h += 1;
        }

        let result = CurrentResult {
            value: read_i128_le(body, 2256),
            std_dev: read_i128_le(body, 2272),
            mean: read_i128_le(body, 2288),
            range: read_i128_le(body, 2304),
            min_value: read_i128_le(body, 2320),
            max_value: read_i128_le(body, 2336),
            padding1: read_bytes(body, 2352, 8),
            slot: read_u64_le(body, 2360),
            min_slot: read_u64_le(body, 2368),
            max_slot: read_u64_le(body, 2376),
        };
        proof {
            let chunk = body@.subrange(2256, 2384);
            assert(chunk.subrange(0, 16) =~= body@.subrange(2256, 2272));
            assert(chunk.subrange(16, 32) =~= body@.subrange(2272, 2288));
            assert(chunk.subrange(32, 48) =~= body@.subrange(2288, 2304));
            assert(chunk.subrange(48, 64) =~= body@.subrange(2304, 2320));
            assert(chunk.subrange(64, 80) =~= body@.subrange(2320, 2336));
            assert(chunk.subrange(80, 96) =~= body@.subrange(2336, 2352));
            assert(chunk.subrange(96, 104) =~= body@.subrange(2352, 2360));
            assert(chunk.subrange(104, 112) =~= body@.subrange(2360, 2368));
            assert(chunk.subrange(112, 120) =~= body@.subrange(2368, 2376));
            assert(chunk.subrange(120, 128) =~= body@.subrange(2376, 2384));
            assert(current_result_represents(result, chunk));
        }

        let rec = PullFeedAccountData {
            submissions,
            authority: read_bytes(body, 2048, 32),
            queue: read_bytes(body, 2080, 32),
            feed_hash: read_bytes(body, 2112, 32),
            initialized_at: read_i64_le(body, 2144),
            permissions: read_u64_le(body, 2152),
            max_variance: read_u64_le(body, 2160),
            min_responses: read_u32_le(body, 2168),
            name: read_bytes(body, 2172, 32),
            padding1: read_bytes(body, 2204, 2),
            historical_result_idx: body[2206],
            min_sample_size: body[2207],
            last_update_timestamp: read_i64_le(body, 2208),
            lut_slot: read_u64_le(body, 2216),
            _reserved1: read_bytes(body, 2224, 32),
            result,
            max_staleness: read_u32_le(body, 2384),
            padding2: read_bytes(body, 2388, 12),
            historical_results,
            _ebuf4: read_bytes(body, 2912, 8),
            _ebuf3: read_bytes(body, 2920, 24),
            _ebuf2: read_bytes(body, 2944, 256),
        };
        proof {
            assert(record_represents(rec, body@));
        }
        Ok(rec)
    }

    /// The median value of the quorum, absent while no result was computed.
    pub fn value(&self) -> (r: Option<Decimal>)
        requires
            self.result.slot != 0 ==> fits_decimal(self.result.value as int),
        ensures
            self.result.slot == 0 <==> r is None,
            self.result.slot != 0 ==> r == Some(
                decimal_from_scaled(self.result.value as int, PRECISION as int),
            ),
    {
        self.result.value()
    }

    /// The standard deviation of the quorum, absent while no result was
    /// computed.
    pub fn std_dev(&self) -> (r: Option<Decimal>)
        requires
            self.result.slot != 0 ==> fits_decimal(self.result.std_dev as int),
        ensures
            self.result.slot == 0 <==> r is None,
            self.result.slot != 0 ==> r == Some(
                decimal_from_scaled(self.result.std_dev as int, PRECISION as int),
            ),
    {
        self.result.std_dev()
    }

    /// The mean of the quorum, absent while no result was computed.
    pub fn mean(&self) -> (r: Option<Decimal>)
        requires
            self.result.slot != 0 ==> fits_decimal(self.result.mean as int),
        ensures
            self.result.slot == 0 <==> r is None,
            self.result.slot != 0 ==> r == Some(
                decimal_from_scaled(self.result.mean as int, PRECISION as int),
            ),
    {
        self.result.mean()
    }

    /// The range of the quorum, absent while no result was computed.
    pub fn range(&self) -> (r: Option<Decimal>)
        requires
            self.result.slot != 0 ==> fits_decimal(self.result.range as int),
        ensures
            self.result.slot == 0 <==> r is None,
            self.result.slot != 0 ==> r == Some(
                decimal_from_scaled(self.result.range as int, PRECISION as int),
            ),
    {
        self.result.range()
    }

    /// The minimum value of the quorum, absent while no result was computed.
    pub fn min_value(&self) -> (r: Option<Decimal>)
        requires
            self.result.slot != 0 ==> fits_decimal(self.result.min_value as int),
        ensures
            self.result.slot == 0 <==> r is None,
            self.result.slot != 0 ==> r == Some(
                decimal_from_scaled(self.result.min_value as int, PRECISION as int),
            ),
    {
        self.result.min_value()
    }

    /// The maximum value of the quorum, absent while no result was computed.
    pub fn max_value(&self) -> (r: Option<Decimal>)
        requires
            self.result.slot != 0 ==> fits_decimal(self.result.max_value as int),
        ensures
            self.result.slot == 0 <==> r is None,
            self.result.slot != 0 ==> r == Some(
                decimal_from_scaled(self.result.max_value as int, PRECISION as int),
            ),
    {
        self.result.max_value()
    }
}

} // verus!
