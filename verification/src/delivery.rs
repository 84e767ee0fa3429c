//! One firing of a task: delivery attempts, bounded retries and the wait
//! between them.

use vstd::arithmetic::power::{lemma_pow_adds, lemma_pow_positive, pow};
use vstd::prelude::*;

use crate::duration::Duration;
use crate::task::TaskStatus;

verus! {

/// The longest wait between two attempts, in milliseconds: one day.
pub const BACKOFF_CAP_MILLIS: u64 = 86_400_000;

/// The wait before retry number `retries` (counted from zero), in
/// milliseconds.
///
/// The curve is e^(2.5 * retries) seconds, held to whole milliseconds and
/// to one day at most: 1 s, 12.182 s, 148.413 s, 1808.042 s and
/// 22026.465 s, and a day from the sixth retry on (e^12.5 seconds are
/// already more than three days).
pub open spec fn backoff_millis(retries: nat) -> nat {
    if retries == 0 {
        1_000
    } else if retries == 1 {
        12_182
    } else if retries == 2 {
        148_413
    } else if retries == 3 {
        1_808_042
    } else if retries == 4 {
        22_026_465
    } else {
        BACKOFF_CAP_MILLIS as nat
    }
}

/// The wait before retry number `attempts`, counted from zero.
pub fn backoff(attempts: u32) -> (delay: Duration)
    ensures
        delay == Duration::of_millis(backoff_millis(attempts as nat)),
{
    let millis: u64 = if attempts == 0 {
        1_000
    } else if attempts == 1 {
        12_182
    } else if attempts == 2 {
        148_413
    } else if attempts == 3 {
        1_808_042
    } else if attempts == 4 {
        22_026_465
    } else {
        BACKOFF_CAP_MILLIS
    };
    Duration::from_millis(millis)
}

/// The wait never shrinks from one retry to the next, and grows for as
/// long as it is under the cap.
pub proof fn backoff_is_monotonic(earlier: nat, later: nat)
    requires
        earlier <= later,
    ensures
        backoff_millis(earlier) <= backoff_millis(later),
        earlier < later && backoff_millis(earlier) < BACKOFF_CAP_MILLIS ==> backoff_millis(earlier)
            < backoff_millis(later),
{
}

/// The wait is at least a second and at most a day, and it is a day from
/// the sixth retry on.
pub proof fn backoff_is_capped(retries: nat)
    ensures
        1_000 <= backoff_millis(retries) <= BACKOFF_CAP_MILLIS,
        retries >= 5 ==> backoff_millis(retries) == BACKOFF_CAP_MILLIS,
{
}

/// A number below Euler's number e, the base of the curve, in billionths.
pub open spec fn euler_below() -> int {
    2_718_281_828
}

/// A number above Euler's number e, in billionths.
pub open spec fn euler_above() -> int {
    2_718_281_829
}

/// Whether `millis` milliseconds are no more than e^(2.5 * retries)
/// seconds. Whole numbers say so once both sides are squared and counted
/// in the same fractions: (millis / 1000)^2 is no more than e^(5 *
/// retries), for e as small as `euler_below` has it.
pub open spec fn within_curve(millis: nat, retries: nat) -> bool {
    millis * millis * pow(1_000_000_000, 5 * retries) <= 1_000_000 * pow(
        euler_below(),
        5 * retries,
    )
}

/// Whether `millis` milliseconds are more than e^(2.5 * retries) seconds:
/// (millis / 1000)^2 is more than e^(5 * retries), for e as large as
/// `euler_above` has it.
pub open spec fn beyond_curve(millis: nat, retries: nat) -> bool {
    1_000_000 * pow(euler_above(), 5 * retries) < millis * millis * pow(
        1_000_000_000,
        5 * retries,
    )
}

/// The square of a number, written out, times a unit.
proof fn lemma_square_times(millis: nat, square: nat, unit: int)
    requires
        millis * millis == square,
    ensures
        millis * millis * unit == square * unit,
{
}

/// The first five waits are the curve, rounded down to the millisecond.
proof fn lemma_waits_under_the_cap(millis: nat, retries: nat)
    requires
        (retries == 0 && millis == 1_000) || (retries == 1 && millis == 12_182) || (retries == 2
            && millis == 148_413) || (retries == 3 && millis == 1_808_042) || (retries == 4
            && millis == 22_026_465),
    ensures
        within_curve(millis, retries),
        beyond_curve(millis + 1, retries),
{
    reveal_with_fuel(pow, 21);
    let unit = pow(1_000_000_000, 5 * retries);
    let low = pow(euler_below(), 5 * retries);
    let high = pow(euler_above(), 5 * retries);
    if retries == 0 {
        assert(unit == 1 && low == 1 && high == 1);
        lemma_square_times(1_000, 1_000_000, unit);
        lemma_square_times(1_001, 1_002_001, unit);
    } else if retries == 1 {
        assert(unit == pow(1_000_000_000, 5));
        assert(low == pow(2_718_281_828, 5));
        assert(high == pow(2_718_281_829, 5));
        lemma_square_times(12_182, 148_401_124, unit);
        lemma_square_times(12_183, 148_425_489, unit);
    } else if retries == 2 {
        assert(unit == pow(1_000_000_000, 10));
        assert(low == pow(2_718_281_828, 10));
        assert(high == pow(2_718_281_829, 10));
        lemma_square_times(148_413, 22_026_418_569, unit);
        lemma_square_times(148_414, 22_026_715_396, unit);
    } else if retries == 3 {
        assert(unit == pow(1_000_000_000, 15));
        assert(low == pow(2_718_281_828, 15));
        assert(high == pow(2_718_281_829, 15));
        lemma_square_times(1_808_042, 3_269_015_873_764, unit);
        lemma_square_times(1_808_043, 3_269_019_489_849, unit);
    } else {
        assert(unit == pow(1_000_000_000, 20));
        assert(low == pow(2_718_281_828, 20));
        assert(high == pow(2_718_281_829, 20));
        lemma_square_times(22_026_465, 485_165_160_396_225, unit);
        lemma_square_times(22_026_466, 485_165_204_449_156, unit);
    }
}

/// From the sixth retry on the curve lies above the cap.
proof fn lemma_curve_passes_the_cap(retries: nat)
    requires
        retries >= 5,
    ensures
        within_curve(BACKOFF_CAP_MILLIS as nat, retries),
    decreases retries,
{
    let unit = pow(1_000_000_000, 5 * retries);
    let low = pow(euler_below(), 5 * retries);
    if retries == 5 {
        reveal_with_fuel(pow, 26);
        assert(unit == pow(1_000_000_000, 25));
        assert(low == pow(2_718_281_828, 25));
        lemma_square_times(86_400_000, 7_464_960_000_000_000, unit);
    } else {
        let before = (retries - 1) as nat;
        lemma_curve_passes_the_cap(before);
        let unit_before = pow(1_000_000_000, 5 * before);
        let low_before = pow(euler_below(), 5 * before);
        lemma_pow_adds(1_000_000_000, 5 * before, 5);
        lemma_pow_adds(euler_below(), 5 * before, 5);
        lemma_pow_positive(1_000_000_000, 5 * before);
        lemma_pow_positive(euler_below(), 5 * before);
        let unit_five = pow(1_000_000_000, 5);
        let low_five = pow(euler_below(), 5);
        assert(0 < unit_five <= low_five) by {
            reveal_with_fuel(pow, 6);
        }
        assert(86_400_000 * 86_400_000 * (unit_before * unit_five) <= 1_000_000 * (low_before
            * low_five)) by (nonlinear_arith)
            requires
                86_400_000 * 86_400_000 * unit_before <= 1_000_000 * low_before,
                0 < unit_five <= low_five,
                0 < unit_before,
                0 < low_before,
        ;
    }
}

/// The waits are the curve e^(2.5 * retries) seconds, held to one day:
/// under the cap a wait is the curve rounded down to the millisecond, and
/// from the sixth retry on the curve lies above the cap. This holds for
/// every number between `euler_below` and `euler_above` in the place of e,
/// and e is one of them.
pub proof fn backoff_follows_the_curve(retries: nat)
    ensures
        retries < 5 ==> within_curve(backoff_millis(retries), retries) && beyond_curve(
            backoff_millis(retries) + 1,
            retries,
        ),
        retries >= 5 ==> backoff_millis(retries) == BACKOFF_CAP_MILLIS && within_curve(
            BACKOFF_CAP_MILLIS as nat,
            retries,
        ),
{
    if retries < 5 {
        lemma_waits_under_the_cap(backoff_millis(retries), retries);
    } else {
        lemma_curve_passes_the_cap(retries);
    }
}

/// How one delivery attempt ended.
#[derive(Clone, Copy, Debug, PartialEq, Eq, Structural)]
pub enum AttemptResult {
    /// The endpoint answered, with whatever HTTP status.
    Delivered,
    /// The connection failed: refused, timed out, name not resolved.
    NetworkError,
    /// The body could not be encoded, so nothing was sent.
    SerializationError,
}

/// Why a delivery was given up.
#[derive(Clone, Copy, Debug, PartialEq, Eq, Structural)]
pub enum DeliveryError {
    /// Every attempt that was allowed failed on the network.
    NetworkError,
    /// The body could not be encoded.
    SerializationError,
}

/// Where a delivery stands.
#[derive(Clone, Copy, Debug, PartialEq, Eq, Structural)]
pub enum DeliveryPhase {
    /// No attempt has ended yet.
    Pending,
    /// An attempt failed and another one is due.
    Retry,
    /// An attempt got through.
    Delivered,
    /// The delivery was given up.
    Failed(DeliveryError),
}

/// What the caller has to do after an attempt.
#[derive(Clone, Copy, Debug, PartialEq, Eq, Structural)]
pub enum DeliveryAction {
    /// The callback was delivered. Nothing is written, nothing is left to do.
    Finish,
    /// Record the status `Retry`, wait for `delay`, then attempt again.
    Retry { delay: Duration },
    /// Record the status `Failed` and report `error`. There is no further attempt.
    Fail { error: DeliveryError },
    /// The delivery had ended before. Nothing is written, nothing is left to do.
    Stopped,
}

/// The state of one delivery: how many attempts were made, out of how many.
#[derive(Clone, Copy, Debug, PartialEq, Eq, Structural)]
pub struct Delivery {
    /// The attempts that one delivery may make in all.
    pub max_attempts: u32,
    /// The attempts made so far.
    pub attempts: u32,
    pub phase: DeliveryPhase,
}

impl DeliveryAction {
    /// The status that the action has the caller record, if any.
    pub open spec fn written(self) -> Option<TaskStatus> {
        match self {
            DeliveryAction::Retry { .. } => Some(TaskStatus::Retry),
            DeliveryAction::Fail { .. } => Some(TaskStatus::Failed),
            _ => None,
        }
    }
}

impl DeliveryAction {
    /// The status that the action has the caller record, if any.
    pub fn status_to_record(&self) -> (status: Option<TaskStatus>)
        ensures
            status == self.written(),
    {
        match self {
            DeliveryAction::Retry { .. } => Some(TaskStatus::Retry),
            DeliveryAction::Fail { .. } => Some(TaskStatus::Failed),
            _ => None,
        }
    }
}

impl Delivery {
    /// The state before the first attempt.
    pub open spec fn fresh(max_attempts: u32) -> Delivery {
        Delivery { max_attempts, attempts: 0, phase: DeliveryPhase::Pending }
    }

    /// What holds of every state that a delivery can reach.
    pub open spec fn well_formed(self) -> bool {
        &&& 1 <= self.max_attempts
        &&& self.attempts <= self.max_attempts
        &&& self.phase == DeliveryPhase::Pending ==> self.attempts == 0
        &&& self.phase == DeliveryPhase::Retry ==> 1 <= self.attempts < self.max_attempts
        &&& self.phase == DeliveryPhase::Delivered ==> 1 <= self.attempts
        &&& self.phase == DeliveryPhase::Failed(DeliveryError::NetworkError) ==> self.attempts
            == self.max_attempts
        &&& self.phase == DeliveryPhase::Failed(DeliveryError::SerializationError)
            ==> self.attempts < self.max_attempts
    }

    /// Whether the delivery has ended, one way or the other.
    pub open spec fn ended(self) -> bool {
        self.phase == DeliveryPhase::Delivered || self.phase is Failed
    }

    /// The state after an attempt that ended with `result`, and what the
    /// caller has to do then.
    ///
    /// A network failure is retried while attempts are left: the wait
    /// before retry number n, counted from zero, is `backoff_millis(n)`. The
    /// attempt that uses up the last one fails the delivery. A body that
    /// cannot be encoded fails it at once. A delivery that has ended
    /// stays as it is.
    pub open spec fn step(self, result: AttemptResult) -> (Delivery, DeliveryAction) {
        if self.ended() {
            (self, DeliveryAction::Stopped)
        } else {
            match result {
                AttemptResult::Delivered => (
                    Delivery {
                        attempts: (self.attempts + 1) as u32,
                        phase: DeliveryPhase::Delivered,
                        ..self
                    },
                    DeliveryAction::Finish,
                ),
                AttemptResult::SerializationError => (
                    Delivery {
                        phase: DeliveryPhase::Failed(DeliveryError::SerializationError),
                        ..self
                    },
                    DeliveryAction::Fail { error: DeliveryError::SerializationError },
                ),
                AttemptResult::NetworkError => if self.attempts + 1 < self.max_attempts {
                    (
                        Delivery {
                            attempts: (self.attempts + 1) as u32,
                            phase: DeliveryPhase::Retry,
                            ..self
                        },
                        DeliveryAction::Retry {
                            delay: Duration::of_millis(backoff_millis(self.attempts as nat)),
                        },
                    )
                } else {
                    (
                        Delivery {
                            attempts: (self.attempts + 1) as u32,
                            phase: DeliveryPhase::Failed(DeliveryError::NetworkError),
                            ..self
                        },
                        DeliveryAction::Fail { error: DeliveryError::NetworkError },
                    )
                },
            }
        }
    }

    /// The state after attempts that ended with `results`, in this order.
    pub open spec fn run(self, results: Seq<AttemptResult>) -> Delivery
        decreases results.len(),
    {
        if results.len() == 0 {
            self
        } else {
            self.step(results[0]).0.run(results.drop_first())
        }
    }

    /// What the caller records over attempts that ended with `results`,
    /// in the order in which it records it: each status, with the attempts
    /// made by then.
    pub open spec fn writes(self, results: Seq<AttemptResult>) -> Seq<(TaskStatus, u32)>
        decreases results.len(),
    {
        if results.len() == 0 {
            Seq::empty()
        } else {
            let (next, action) = self.step(results[0]);
            let rest = next.writes(results.drop_first());
            match action.written() {
                Some(status) => seq![(status, next.attempts)] + rest,
                None => rest,
            }
        }
    }

    /// The status that was last recorded for this delivery. A delivery
    /// that got through leaves the status as the attempt found it.
    pub open spec fn status(self) -> TaskStatus {
        match self.phase {
            DeliveryPhase::Pending => TaskStatus::Pending,
            DeliveryPhase::Retry => TaskStatus::Retry,
            DeliveryPhase::Delivered => if self.attempts <= 1 {
                TaskStatus::Pending
            } else {
                TaskStatus::Retry
            },
            DeliveryPhase::Failed(_) => TaskStatus::Failed,
        }
    }

    /// Whether this is a state that a delivery can reach.
    pub fn is_well_formed(&self) -> (ok: bool)
        ensures
            ok == self.well_formed(),
    {
        1 <= self.max_attempts && match self.phase {
            DeliveryPhase::Pending => self.attempts == 0,
            DeliveryPhase::Retry => 1 <= self.attempts && self.attempts < self.max_attempts,
            DeliveryPhase::Delivered => 1 <= self.attempts && self.attempts <= self.max_attempts,
            DeliveryPhase::Failed(DeliveryError::NetworkError) => self.attempts
                == self.max_attempts,
            DeliveryPhase::Failed(DeliveryError::SerializationError) => self.attempts
                < self.max_attempts,
        }
    }

    /// Takes in how an attempt ended, and says what to do next.
    pub fn record(&mut self, result: AttemptResult) -> (action: DeliveryAction)
        requires
            old(self).well_formed(),
        ensures
            final(self).well_formed(),
            *final(self) == old(self).step(result).0,
            action == old(self).step(result).1,
    {
        match self.phase {
            DeliveryPhase::Delivered | DeliveryPhase::Failed(_) => {
                return DeliveryAction::Stopped;
            },
            _ => {},
        }
        match result {
            AttemptResult::Delivered => {
                self.attempts = self.attempts + 1;
                self.phase = DeliveryPhase::Delivered;
                DeliveryAction::Finish
            },
            AttemptResult::SerializationError => {
                self.phase = DeliveryPhase::Failed(DeliveryError::SerializationError);
                DeliveryAction::Fail { error: DeliveryError::SerializationError }
            },
            AttemptResult::NetworkError => {
                let retries: u32 = self.attempts;
                self.attempts = self.attempts + 1;
                if self.attempts < self.max_attempts {
                    self.phase = DeliveryPhase::Retry;
                    DeliveryAction::Retry { delay: backoff(retries) }
                } else {
                    self.phase = DeliveryPhase::Failed(DeliveryError::NetworkError);
                    DeliveryAction::Fail { error: DeliveryError::NetworkError }
                }
            },
        }
    }

    /// The status that was last recorded for this delivery.
    pub fn last_status(&self) -> (status: TaskStatus)
        ensures
            status == self.status(),
    {
        match self.phase {
            DeliveryPhase::Pending => TaskStatus::Pending,
            DeliveryPhase::Retry => TaskStatus::Retry,
            DeliveryPhase::Delivered => if self.attempts <= 1 {
                TaskStatus::Pending
            } else {
                TaskStatus::Retry
            },
            DeliveryPhase::Failed(_) => TaskStatus::Failed,
        }
    }
}

/// The waits that the caller makes over attempts that ended with
/// `results`: one before each retry, in order.
pub open spec fn waits(start: Delivery, results: Seq<AttemptResult>) -> Seq<Duration>
    decreases results.len(),
{
    if results.len() == 0 {
        Seq::empty()
    } else {
        let (next, action) = start.step(results[0]);
        let rest = waits(next, results.drop_first());
        match action {
            DeliveryAction::Retry { delay } => seq![delay] + rest,
            _ => rest,
        }
    }
}

/// Every state that a delivery reaches is well formed: the attempts made
/// never exceed the attempts allowed.
pub proof fn run_stays_well_formed(start: Delivery, results: Seq<AttemptResult>)
    requires
        start.well_formed(),
    ensures
        start.run(results).well_formed(),
        start.run(results).max_attempts == start.max_attempts,
        start.run(results).attempts >= start.attempts,
    decreases results.len(),
{
    if results.len() > 0 {
        run_stays_well_formed(start.step(results[0]).0, results.drop_first());
    }
}

/// A delivery that has ended is final: whatever is reported afterwards,
/// its state stays as it is, no status is recorded and nothing is waited
/// for. In particular no status follows `Failed`.
pub proof fn ended_delivery_is_final(start: Delivery, results: Seq<AttemptResult>)
    requires
        start.ended(),
    ensures
        start.run(results) == start,
        start.writes(results) == Seq::<(TaskStatus, u32)>::empty(),
        waits(start, results) == Seq::<Duration>::empty(),
    decreases results.len(),
{
    if results.len() > 0 {
        ended_delivery_is_final(start, results.drop_first());
    }
}

/// A delivery records no status but `Retry` and `Failed`, and `Failed`
/// only as the last one. The attempts that it records never exceed the
/// attempts allowed.
pub proof fn writes_end_with_failed(start: Delivery, results: Seq<AttemptResult>)
    requires
        start.well_formed(),
    ensures
        forall|i: int|
            0 <= i < start.writes(results).len() ==> {
                let (status, attempts) = #[trigger] start.writes(results)[i];
                &&& status == TaskStatus::Retry || (status == TaskStatus::Failed && i
                    == start.writes(results).len() - 1)
                &&& attempts <= start.max_attempts
            },
    decreases results.len(),
{
    if results.len() > 0 {
        let next = start.step(results[0]).0;
        writes_end_with_failed(next, results.drop_first());
        if next.ended() {
            ended_delivery_is_final(next, results.drop_first());
        }
    }
}

/// A delivery whose first attempt gets through records no status at all:
/// the task is never marked `Retry` or `Failed`, and it is not waited for.
pub proof fn delivered_at_once_records_nothing(max_attempts: u32, results: Seq<AttemptResult>)
    requires
        max_attempts >= 1,
        results.len() >= 1,
        results[0] == AttemptResult::Delivered,
    ensures
        Delivery::fresh(max_attempts).writes(results) == Seq::<(TaskStatus, u32)>::empty(),
        waits(Delivery::fresh(max_attempts), results) == Seq::<Duration>::empty(),
        Delivery::fresh(max_attempts).run(results) == (Delivery {
            max_attempts,
            attempts: 1,
            phase: DeliveryPhase::Delivered,
        }),
{
    let next = Delivery::fresh(max_attempts).step(results[0]).0;
    ended_delivery_is_final(next, results.drop_first());
}

/// From a delivery that has not ended, `lost` network failures and then
/// an answer lead through one `Retry` for each failure to `Delivered`.
proof fn lemma_lost_then_delivered(start: Delivery, lost: nat, results: Seq<AttemptResult>)
    requires
        start.well_formed(),
        !start.ended(),
        start.attempts + lost < start.max_attempts,
        results.len() > lost,
        forall|i: int| 0 <= i < lost ==> results[i] == AttemptResult::NetworkError,
        results[lost as int] == AttemptResult::Delivered,
    ensures
        start.writes(results) == Seq::new(
            lost,
            |i: int| (TaskStatus::Retry, (start.attempts + 1 + i) as u32),
        ),
        waits(start, results) == Seq::new(
            lost,
            |i: int| Duration::of_millis(backoff_millis((start.attempts + i) as nat)),
        ),
        start.run(results) == (Delivery {
            max_attempts: start.max_attempts,
            attempts: (start.attempts + lost + 1) as u32,
            phase: DeliveryPhase::Delivered,
        }),
    decreases lost,
{
    let next = start.step(results[0]).0;
    let rest = results.drop_first();
    if lost == 0 {
        ended_delivery_is_final(next, rest);
    } else {
        assert forall|i: int| 0 <= i < lost - 1 implies rest[i]
            == AttemptResult::NetworkError by {
            assert(rest[i] == results[i + 1]);
        }
        assert(rest[lost - 1] == results[lost as int]);
        lemma_lost_then_delivered(next, (lost - 1) as nat, rest);
    }
    assert(start.writes(results) =~= Seq::new(
        lost,
        |i: int| (TaskStatus::Retry, (start.attempts + 1 + i) as u32),
    ));
    assert(waits(start, results) =~= Seq::new(
        lost,
        |i: int| Duration::of_millis(backoff_millis((start.attempts + i) as nat)),
    ));
}

/// A delivery that loses `lost` attempts on the network and then gets
/// through is marked `Retry` once for each lost attempt, and never
/// `Failed`. It ends as delivered with one attempt more than were lost,
/// and the wait before retry number n, counted from zero, is
/// `backoff_millis(n)`. What is reported after the answer changes
/// nothing.
pub proof fn delivered_after_retries(max_attempts: u32, lost: nat, results: Seq<AttemptResult>)
    requires
        lost < max_attempts,
        results.len() > lost,
        forall|i: int| 0 <= i < lost ==> results[i] == AttemptResult::NetworkError,
        results[lost as int] == AttemptResult::Delivered,
    ensures
        Delivery::fresh(max_attempts).writes(results) == Seq::new(
            lost,
            |i: int| (TaskStatus::Retry, (i + 1) as u32),
        ),
        waits(Delivery::fresh(max_attempts), results) == Seq::new(
            lost,
            |i: int| Duration::of_millis(backoff_millis(i as nat)),
        ),
        Delivery::fresh(max_attempts).run(results) == (Delivery {
            max_attempts,
            attempts: (lost + 1) as u32,
            phase: DeliveryPhase::Delivered,
        }),
{
    lemma_lost_then_delivered(Delivery::fresh(max_attempts), lost, results);
    assert(Delivery::fresh(max_attempts).writes(results) =~= Seq::new(
        lost,
        |i: int| (TaskStatus::Retry, (i + 1) as u32),
    ));
    assert(waits(Delivery::fresh(max_attempts), results) =~= Seq::new(
        lost,
        |i: int| Duration::of_millis(backoff_millis(i as nat)),
    ));
}

/// From a delivery that has not ended, network failures alone lead through
/// one `Retry` for each attempt that is left but the last, and then to
/// `Failed`, with every allowed attempt made.
proof fn lemma_network_failures(start: Delivery, results: Seq<AttemptResult>)
    requires
        start.well_formed(),
        !start.ended(),
        results.len() >= start.max_attempts - start.attempts,
        forall|i: int| 0 <= i < results.len() ==> results[i] == AttemptResult::NetworkError,
    ensures
        start.writes(results) == Seq::new(
            (start.max_attempts - start.attempts - 1) as nat,
            |i: int| (TaskStatus::Retry, (start.attempts + 1 + i) as u32),
        ) + seq![(TaskStatus::Failed, start.max_attempts)],
        waits(start, results) == Seq::new(
            (start.max_attempts - start.attempts - 1) as nat,
            |i: int| Duration::of_millis(backoff_millis((start.attempts + i) as nat)),
        ),
        start.run(results) == (Delivery {
            max_attempts: start.max_attempts,
            attempts: start.max_attempts,
            phase: DeliveryPhase::Failed(DeliveryError::NetworkError),
        }),
    decreases results.len(),
{
    let next = start.step(results[0]).0;
    let rest = results.drop_first();
    if start.attempts + 1 < start.max_attempts {
        assert forall|i: int| 0 <= i < rest.len() implies rest[i]
            == AttemptResult::NetworkError by {}
        lemma_network_failures(next, rest);
    } else {
        ended_delivery_is_final(next, rest);
    }
    assert(start.writes(results) =~= Seq::new(
        (start.max_attempts - start.attempts - 1) as nat,
        |i: int| (TaskStatus::Retry, (start.attempts + 1 + i) as u32),
    ) + seq![(TaskStatus::Failed, start.max_attempts)]);
    assert(waits(start, results) =~= Seq::new(
        (start.max_attempts - start.attempts - 1) as nat,
        |i: int| Duration::of_millis(backoff_millis((start.attempts + i) as nat)),
    ));
}

/// A delivery whose every attempt fails on the network is marked `Retry`
/// once for each allowed attempt but the last, and then `Failed`. With
/// `Failed` it records as many attempts as are allowed. The wait before
/// retry number n, counted from zero, is `backoff_millis(n)`.
pub proof fn network_failures_exhaust_attempts(max_attempts: u32, results: Seq<AttemptResult>)
    requires
        max_attempts >= 1,
        results.len() >= max_attempts,
        forall|i: int| 0 <= i < results.len() ==> results[i] == AttemptResult::NetworkError,
    ensures
        Delivery::fresh(max_attempts).writes(results) == Seq::new(
            (max_attempts - 1) as nat,
            |i: int| (TaskStatus::Retry, (i + 1) as u32),
        ) + seq![(TaskStatus::Failed, max_attempts)],
        waits(Delivery::fresh(max_attempts), results) == Seq::new(
            (max_attempts - 1) as nat,
            |i: int| Duration::of_millis(backoff_millis(i as nat)),
        ),
        Delivery::fresh(max_attempts).run(results) == (Delivery {
            max_attempts,
            attempts: max_attempts,
            phase: DeliveryPhase::Failed(DeliveryError::NetworkError),
        }),
{
    lemma_network_failures(Delivery::fresh(max_attempts), results);
    assert(waits(Delivery::fresh(max_attempts), results) =~= Seq::new(
        (max_attempts - 1) as nat,
        |i: int| Duration::of_millis(backoff_millis(i as nat)),
    ));
}

/// Begins the delivery of one firing: no attempt made yet, and a counter
/// of its own.
pub fn start_request(max_attempts: u32) -> (delivery: Delivery)
    requires
        max_attempts >= 1,
    ensures
        delivery == Delivery::fresh(max_attempts),
        delivery.well_formed(),
{
    Delivery { max_attempts, attempts: 0, phase: DeliveryPhase::Pending }
}

} // verus!
