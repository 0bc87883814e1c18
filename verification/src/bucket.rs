//! Budgets that refill with time.

use std::time::Duration;

use vstd::prelude::*;
use vivid_protocol::resource::{ResourceError, TokenBucket};

use crate::live::MAXIMUM_PACING_SLEEP_US;
use crate::number::{difference, sum, unsigned_64};

verus! {

/// Anchors that may be active at once.
pub const MAX_ACTIVE_ANCHORS: u64 = 4096;

/// Anchors whose markers are remembered.
pub const MAX_SEEN_ANCHORS: usize = 8192;

/// Anchor markers that are verified per second and session.
pub const MARKER_ADMISSION_RATE: u64 = 4096;

/// Why a budget refused.
#[verifier::external_type_specification]
#[verifier::external_body]
pub struct ExResourceError(vivid_protocol::resource::ResourceError);

/// A budget that refills with time, held by the protocol's own type.
#[verifier::external_type_specification]
#[verifier::external_body]
pub struct ExTokenBucket(vivid_protocol::resource::TokenBucket);

/// What a budget holds. Part of a token is kept as the billionths that were earned of it.
pub struct BucketView {
    pub rate: u64,
    pub capacity: u64,
    pub tokens: u64,
    pub remainder: u64,
}

/// What the protocol's budget holds.
pub uninterp spec fn bucket_view(bucket: TokenBucket) -> BucketView;

/// The larger of two numbers.
pub open spec fn larger(left: u64, right: u64) -> u64 {
    if left >= right {
        left
    } else {
        right
    }
}

/// What a budget earns in some time, in billionths of a token, with what it had of one.
pub open spec fn earned(bucket: BucketView, elapsed_us: u64) -> int {
    bucket.rate * (elapsed_us * 1_000) + bucket.remainder
}

/// A budget after some time, and whether what it earned could be counted.
pub open spec fn replenished(bucket: BucketView, elapsed_us: u64) -> (BucketView, bool) {
    let numerator = earned(bucket, elapsed_us);
    if numerator > u128::MAX {
        (bucket, false)
    } else if numerator / 1_000_000_000 > u64::MAX {
        (BucketView { remainder: (numerator % 1_000_000_000) as u64, ..bucket }, false)
    } else {
        let tokens = bucket.tokens + numerator / 1_000_000_000;
        (
            BucketView {
                remainder: (numerator % 1_000_000_000) as u64,
                tokens: if tokens >= bucket.capacity {
                    bucket.capacity
                } else {
                    tokens as u64
                },
                ..bucket
            },
            true,
        )
    }
}

/// How long a budget that holds too little takes to hold enough, in billionths of a second.
pub open spec fn shortage_nanos(bucket: BucketView, units: u64) -> int {
    let owed = (units - bucket.tokens) * 1_000_000_000 - bucket.remainder;
    ((if owed < 0 {
        0
    } else {
        owed
    }) + bucket.rate - 1) / bucket.rate as int
}

/// `vivid_protocol::resource::TokenBucket::new`: a full budget that holds one second's tokens, or
/// one largest charge where that is more.
#[verifier::external_body]
fn new_bucket(rate_per_second: u64, maximum_record_charge: u64) -> (r: TokenBucket)
    ensures
        bucket_view(r) == (BucketView {
            rate: rate_per_second,
            capacity: larger(rate_per_second, maximum_record_charge),
            tokens: larger(rate_per_second, maximum_record_charge),
            remainder: 0,
        }),
{
    TokenBucket::new(rate_per_second, maximum_record_charge)
}

/// `vivid_protocol::resource::TokenBucket::replenish`: whole tokens earned are added up to the
/// capacity, the rest of one is kept, and what cannot be counted is refused.
#[verifier::external_body]
fn replenish(bucket: &mut TokenBucket, elapsed_us: u64) -> (r: Result<(), ResourceError>)
    ensures
        r is Ok <==> replenished(bucket_view(*old(bucket)), elapsed_us).1,
        bucket_view(*final(bucket)) == replenished(bucket_view(*old(bucket)), elapsed_us).0,
{
    bucket.replenish(Duration::from_micros(elapsed_us))
}

/// `vivid_protocol::resource::TokenBucket::charge`: tokens are spent if and only if there are
/// enough of them.
#[verifier::external_body]
fn charge(bucket: &mut TokenBucket, units: u64) -> (r: Result<(), ResourceError>)
    ensures
        r is Ok <==> units <= bucket_view(*old(bucket)).tokens,
        bucket_view(*final(bucket)) == (if units <= bucket_view(*old(bucket)).tokens {
            BucketView {
                tokens: (bucket_view(*old(bucket)).tokens - units) as u64,
                ..bucket_view(*old(bucket))
            }
        } else {
            bucket_view(*old(bucket))
        }),
{
    bucket.charge(units)
}

/// Why a budget refuses for good.
#[derive(Debug, Clone, Copy, PartialEq, Eq, Structural)]
pub enum BudgetError {
    /// What was earned, or the wait, cannot be counted.
    Overflow,
    /// The charge is larger than the budget can ever hold.
    ExceedsContract,
}

impl BudgetError {
    /// What is said of the refusal.
    pub open spec fn text_spec(self) -> Seq<char> {
        match self {
            BudgetError::Overflow => "resource accounting overflow"@,
            BudgetError::ExceedsContract => {
                "resource request exceeds contract for MediaRecordsPerSecond"@
            },
        }
    }

    /// What is said of the refusal.
    pub fn text(self) -> (r: &'static str)
        ensures
            r@ == self.text_spec(),
    {
        match self {
            BudgetError::Overflow => "resource accounting overflow",
            BudgetError::ExceedsContract => {
                "resource request exceeds contract for MediaRecordsPerSecond"
            },
        }
    }
}

/// How long until a charge can be made: not at all, never, or in some billionths of a second.
pub open spec fn charge_wait(bucket: BucketView, units: u64) -> Result<Option<u64>, BudgetError> {
    if units <= bucket.tokens {
        Ok(None)
    } else if units > bucket.capacity || bucket.rate == 0 {
        Err(BudgetError::ExceedsContract)
    } else if shortage_nanos(bucket, units) > u64::MAX {
        Err(BudgetError::Overflow)
    } else {
        Ok(Some(shortage_nanos(bucket, units) as u64))
    }
}

/// `vivid_protocol::resource::TokenBucket::time_until`: no wait for a charge that can be made now,
/// a refusal for one that never can, else the time until enough was earned, rounded up.
#[verifier::external_body]
fn time_until(bucket: &TokenBucket, units: u64) -> (r: Result<Option<u64>, BudgetError>)
    ensures
        r == charge_wait(bucket_view(*bucket), units),
{
    match bucket.time_until(units) {
        Ok(wait) => Ok(wait.map(|wait| wait.as_nanos() as u64)),
        Err(ResourceError::Overflow) => Err(BudgetError::Overflow),
        Err(_) => Err(BudgetError::ExceedsContract),
    }
}

/// A session's budget for verifying markers. Verifying one is a keyed hash on the thread that
/// parses terminal output, so a flood of forged markers has to be bounded before it is verified.
pub struct MarkerAdmission {
    pub bucket: TokenBucket,
    pub replenished_us: u64,
    /// Markers that were let through.
    pub admitted: u64,
}

/// A full budget of anchor markers.
pub open spec fn full_markers() -> BucketView {
    BucketView {
        rate: MARKER_ADMISSION_RATE,
        capacity: MARKER_ADMISSION_RATE,
        tokens: MARKER_ADMISSION_RATE,
        remainder: 0,
    }
}

impl MarkerAdmission {
    /// A full budget.
    pub fn new(now_us: u64) -> (r: Self)
        ensures
            bucket_view(r.bucket) == full_markers(),
            r.replenished_us == now_us,
            r.admitted == 0,
    {
        MarkerAdmission {
            bucket: new_bucket(MARKER_ADMISSION_RATE, 1),
            replenished_us: now_us,
            admitted: 0,
        }
    }

    /// Let one marker through to verification, or refuse to do the work.
    pub fn admit_marker(&mut self, now_us: u64) -> (r: bool)
        ensures
            final(self).replenished_us == now_us,
            r == marker_admitted(
                bucket_view(old(self).bucket),
                unsigned_64(now_us - old(self).replenished_us),
            ).1,
            bucket_view(final(self).bucket) == marker_admitted(
                bucket_view(old(self).bucket),
                unsigned_64(now_us - old(self).replenished_us),
            ).0,
            final(self).admitted == (if r {
                unsigned_64(old(self).admitted + 1)
            } else {
                old(self).admitted
            }),
    {
        let elapsed = difference(now_us, self.replenished_us);
        self.replenished_us = now_us;
        if replenish(&mut self.bucket, elapsed).is_err() {
            return false;
        }
        if charge(&mut self.bucket, 1).is_err() {
            return false;
        }
        self.admitted = sum(self.admitted, 1);
        true
    }
}

/// A marker budget after one more marker, and whether it was let through.
pub open spec fn marker_admitted(bucket: BucketView, elapsed_us: u64) -> (BucketView, bool) {
    let (filled, counted) = replenished(bucket, elapsed_us);
    if counted && filled.tokens >= 1 {
        (BucketView { tokens: (filled.tokens - 1) as u64, ..filled }, true)
    } else {
        (filled, false)
    }
}

/// What a budget is worth, in billionths of a token.
pub open spec fn worth(bucket: BucketView) -> int {
    bucket.tokens * 1_000_000_000 + bucket.remainder
}

/// Every marker that is let through is paid for: what a session gets verified in any time is bounded
/// by what its budget held and what it earned in that time.
pub proof fn an_admitted_marker_is_paid_for(bucket: BucketView, elapsed_us: u64)
    requires
        bucket.tokens <= bucket.capacity,
    ensures
        ({
            let (after, admitted) = marker_admitted(bucket, elapsed_us);
            &&& worth(after) + (if admitted {
                1_000_000_000int
            } else {
                0
            }) <= worth(bucket) + bucket.rate * (elapsed_us * 1_000)
            &&& after.tokens <= after.capacity
            &&& after.capacity == bucket.capacity
            &&& after.rate == bucket.rate
        }),
{
    let numerator = earned(bucket, elapsed_us);
    assert(bucket.rate * (elapsed_us * 1_000) >= 0) by (nonlinear_arith)
        requires
            bucket.rate >= 0,
            elapsed_us >= 0,
    ;
    vstd::arithmetic::div_mod::lemma_fundamental_div_mod(numerator, 1_000_000_000);
}

/// What a track's reader does with a record.
#[derive(Debug, Clone, Copy, PartialEq, Eq, Structural)]
pub enum Pace {
    /// Handle it now.
    Now,
    /// Look again after this many billionths of a second.
    Sleep(u64),
    /// The track can never carry it.
    Exceeded(BudgetError),
}

/// The budgets of a track's channel.
pub struct IngressPace {
    pub bytes: TokenBucket,
    pub records: TokenBucket,
    pub updated_us: u64,
}

/// The longer of two waits, where one that is absent is none.
pub open spec fn longer(left: Option<u64>, right: Option<u64>) -> Option<u64> {
    match (left, right) {
        (Some(left), Some(right)) => Some(
            if left >= right {
                left
            } else {
                right
            },
        ),
        (Some(wait), None) => Some(wait),
        (None, other) => other,
    }
}

/// What happens to a record of some length, and the byte and record budgets after it.
pub open spec fn paced(bytes: BucketView, records: BucketView, elapsed_us: u64, length: u64) -> (
    Pace,
    BucketView,
    BucketView,
) {
    let (full_bytes, bytes_counted) = replenished(bytes, elapsed_us);
    let (full_records, records_counted) = replenished(records, elapsed_us);
    if !bytes_counted {
        (Pace::Exceeded(BudgetError::Overflow), full_bytes, records)
    } else if !records_counted {
        (Pace::Exceeded(BudgetError::Overflow), full_bytes, full_records)
    } else {
        match (charge_wait(full_bytes, length), charge_wait(full_records, 1)) {
            (Ok(bytes_wait), Ok(records_wait)) => match longer(bytes_wait, records_wait) {
                Some(wait) => (
                    Pace::Sleep(
                        if wait <= MAXIMUM_PACING_SLEEP_US * 1_000 {
                            wait
                        } else {
                            (MAXIMUM_PACING_SLEEP_US * 1_000) as u64
                        },
                    ),
                    full_bytes,
                    full_records,
                ),
                None => (
                    Pace::Now,
                    BucketView { tokens: (full_bytes.tokens - length) as u64, ..full_bytes },
                    BucketView { tokens: (full_records.tokens - 1) as u64, ..full_records },
                ),
            },
            (Err(error), _) => (Pace::Exceeded(error), full_bytes, full_records),
            (Ok(_), Err(error)) => (Pace::Exceeded(error), full_bytes, full_records),
        }
    }
}

impl IngressPace {
    /// Full budgets for what a track may send: its bits each second, in bytes rounded up, one
    /// largest record, and its records each second.
    pub fn new(
        maximum_bits_per_second: u64,
        maximum_records_per_second: u64,
        maximum_record_body: u32,
        now_us: u64,
    ) -> (r: Self)
        ensures
            ({
                let rate = byte_rate(maximum_bits_per_second);
                let capacity = larger(rate, maximum_record_body as u64);
                &&& bucket_view(r.bytes) == (BucketView {
                    rate,
                    capacity,
                    tokens: capacity,
                    remainder: 0,
                })
                &&& bucket_view(r.records) == (BucketView {
                    rate: maximum_records_per_second,
                    capacity: larger(maximum_records_per_second, 1),
                    tokens: larger(maximum_records_per_second, 1),
                    remainder: 0,
                })
                &&& r.updated_us == now_us
            }),
    {
        let rate: u64 = match maximum_bits_per_second.checked_add(7) {
            Some(bits) => bits / 8,
            None => u64::MAX,
        };
        IngressPace {
            bytes: new_bucket(rate, maximum_record_body as u64),
            records: new_bucket(maximum_records_per_second, 1),
            updated_us: now_us,
        }
    }

    /// What to do with a record of some length. Transport buffering can turn a well paced stream
    /// into a burst, so a record waits rather than costing the track; one that is larger than the
    /// budget can ever hold is refused, because waiting for it would never end.
    pub fn pace_ingress(&mut self, body_bytes: u64, now_us: u64) -> (r: Pace)
        ensures
            ({
                let elapsed = unsigned_64(now_us - old(self).updated_us);
                let after = paced(
                    bucket_view(old(self).bytes),
                    bucket_view(old(self).records),
                    elapsed,
                    body_bytes,
                );
                &&& r == after.0
                &&& bucket_view(final(self).bytes) == after.1
                &&& bucket_view(final(self).records) == after.2
                &&& final(self).updated_us == now_us
            }),
    {
        let elapsed = difference(now_us, self.updated_us);
        self.updated_us = now_us;
        if replenish(&mut self.bytes, elapsed).is_err() {
            return Pace::Exceeded(BudgetError::Overflow);
        }
        if replenish(&mut self.records, elapsed).is_err() {
            return Pace::Exceeded(BudgetError::Overflow);
        }
        let bytes_wait = match time_until(&self.bytes, body_bytes) {
            Ok(wait) => wait,
            Err(error) => {
                return Pace::Exceeded(error);
            },
        };
        let records_wait = match time_until(&self.records, 1) {
            Ok(wait) => wait,
            Err(error) => {
                return Pace::Exceeded(error);
            },
        };
        let wait: u64 = match (bytes_wait, records_wait) {
            (Some(left), Some(right)) => if left >= right {
                left
            } else {
                right
            },
            (Some(wait), None) => wait,
            (None, Some(wait)) => wait,
            (None, None) => {
                if charge(&mut self.bytes, body_bytes).is_err() {
                    return Pace::Exceeded(BudgetError::ExceedsContract);
                }
                if charge(&mut self.records, 1).is_err() {
                    return Pace::Exceeded(BudgetError::ExceedsContract);
                }
                return Pace::Now;
            },
        };
        if wait <= 50_000_000 {
            Pace::Sleep(wait)
        } else {
            Pace::Sleep(50_000_000)
        }
    }
}

/// How many bytes each second a bit rate is, rounded up.
pub open spec fn byte_rate(bits_per_second: u64) -> u64 {
    if bits_per_second + 7 > u64::MAX {
        u64::MAX
    } else {
        ((bits_per_second + 7) / 8) as u64
    }
}

/// A body is let through only when both budgets can pay for it, and then both are charged: the one
/// of bytes by its length, the one of records by one. Otherwise nothing is charged, and the wait
/// is no longer than the pacing limit.
pub proof fn a_body_is_paid_for_or_waits(
    pace: &mut IngressPace,
    body_bytes: u64,
    now_us: u64,
    r: Pace,
)
    requires
        call_ensures(IngressPace::pace_ingress, (pace, body_bytes, now_us), r),
    ensures
        ({
            let elapsed = if now_us >= old(pace).updated_us {
                (now_us - old(pace).updated_us) as u64
            } else {
                0
            };
            let bytes = replenished(bucket_view(old(pace).bytes), elapsed).0;
            let records = replenished(bucket_view(old(pace).records), elapsed).0;
            let after_bytes = bucket_view(final(pace).bytes);
            let after_records = bucket_view(final(pace).records);
            &&& final(pace).updated_us == now_us
            &&& r is Now ==> {
                &&& after_bytes.tokens + body_bytes == bytes.tokens
                &&& after_records.tokens + 1 == records.tokens
            }
            &&& r is Sleep ==> after_bytes == bytes && after_records == records && (bytes.tokens
                < body_bytes || records.tokens < 1)
            &&& r matches Pace::Sleep(wait_ns) ==> wait_ns <= 50_000_000
            &&& r is Exceeded ==> after_bytes.tokens <= bytes.tokens || after_bytes == bucket_view(
                old(pace).bytes,
            )
            &&& r == Pace::Exceeded(BudgetError::ExceedsContract) ==> body_bytes > bytes.capacity
                || bytes.rate == 0 || records.capacity < 1 || records.rate == 0
        }),
{
}

/// The wait for a charge is long enough to earn what is missing, and no nanosecond longer than that
/// takes.
pub proof fn a_wait_earns_what_is_missing(bucket: BucketView, units: u64)
    requires
        bucket.rate > 0,
        units > bucket.tokens,
    ensures
        charge_wait(bucket, units) matches Ok(Some(wait_ns)) ==> {
            &&& worth(bucket) + bucket.rate * wait_ns >= units * 1_000_000_000
            &&& wait_ns > 0 ==> worth(bucket) + bucket.rate * (wait_ns - 1) < units * 1_000_000_000
        },
        charge_wait(bucket, units) != Ok::<Option<u64>, BudgetError>(None),
        units > bucket.capacity ==> charge_wait(bucket, units) == Err::<Option<u64>, BudgetError>(
            BudgetError::ExceedsContract,
        ),
{
    let owed = (units - bucket.tokens) * 1_000_000_000 - bucket.remainder;
    let asked = if owed < 0 {
        0
    } else {
        owed
    };
    let rate = bucket.rate as int;
    let wait = (asked + rate - 1) / rate;
    assert(wait == shortage_nanos(bucket, units));
    vstd::arithmetic::div_mod::lemma_fundamental_div_mod(asked + rate - 1, rate);
    vstd::arithmetic::div_mod::lemma_mod_bound(asked + rate - 1, rate);
    assert(rate * (wait - 1) == rate * wait - rate) by (nonlinear_arith);
    if owed < 0 {
        vstd::arithmetic::div_mod::lemma_basic_div(rate - 1, rate);
        assert(rate * 0 == 0) by (nonlinear_arith);
    }
}

/// What can be paid at once is never made to wait.
pub proof fn what_can_be_paid_does_not_wait(bucket: BucketView, units: u64)
    ensures
        charge_wait(bucket, units) == Ok::<Option<u64>, BudgetError>(None) <==> units
            <= bucket.tokens,
{
}

/// A budget earns its rate for the time that passed, to the last nanosecond, and never holds more
/// than its capacity; its rate and its capacity stay what they are.
pub proof fn a_budget_earns_its_rate(bucket: BucketView, elapsed_us: u64)
    requires
        bucket.tokens <= bucket.capacity,
    ensures
        ({
            let (after, counted) = replenished(bucket, elapsed_us);
            &&& after.rate == bucket.rate && after.capacity == bucket.capacity
            &&& after.tokens <= after.capacity
            &&& after.tokens >= bucket.tokens
            &&& counted && after.tokens < after.capacity ==> worth(after) == worth(bucket)
                + bucket.rate * elapsed_us * 1_000
            &&& counted ==> after.remainder < 1_000_000_000
        }),
{
    assert(bucket.rate * (elapsed_us * 1_000) == bucket.rate * elapsed_us * 1_000)
        by (nonlinear_arith);
    assert(bucket.rate * (elapsed_us * 1_000) >= 0) by (nonlinear_arith)
        requires
            bucket.rate >= 0,
            elapsed_us >= 0,
    ;
}

/// The byte rate of a track is the smallest that carries its bits.
pub proof fn a_byte_rate_carries_the_bits(bits_per_second: u64)
    requires
        bits_per_second <= u64::MAX - 7,
    ensures
        byte_rate(bits_per_second) * 8 >= bits_per_second,
        byte_rate(bits_per_second) * 8 < bits_per_second + 8,
{
}

/// A fresh pace lets a burst of a second, or of one whole record, through at once.
pub proof fn a_fresh_pace_is_full(
    maximum_bits_per_second: u64,
    maximum_records_per_second: u64,
    maximum_record_body: u32,
    now_us: u64,
    r: IngressPace,
)
    requires
        call_ensures(
            IngressPace::new,
            (maximum_bits_per_second, maximum_records_per_second, maximum_record_body, now_us),
            r,
        ),
        maximum_bits_per_second <= u64::MAX - 7,
    ensures
        bucket_view(r.bytes).tokens * 8 >= maximum_bits_per_second,
        bucket_view(r.bytes).tokens >= maximum_record_body,
        bucket_view(r.bytes).tokens == bucket_view(r.bytes).capacity,
        maximum_bits_per_second <= bucket_view(r.bytes).rate * 8 < maximum_bits_per_second + 8,
        bucket_view(r.records).rate == maximum_records_per_second,
        bucket_view(r.records).tokens >= 1 && bucket_view(r.records).tokens
            >= maximum_records_per_second,
        r.updated_us == now_us,
{
}

/// A budget that is broken says so in one of two ways.
pub proof fn a_broken_budget_says_why()
    ensures
        BudgetError::Overflow.text_spec() == "resource accounting overflow"@,
        BudgetError::ExceedsContract.text_spec()
            == "resource request exceeds contract for MediaRecordsPerSecond"@,
{
}

} // verus!
