//! Transfer speed and remaining-time estimation.
//!
//! [`DataTransferEta`] tracks a monotonically growing byte counter for one
//! transfer.  Each time at least a second has passed since the last recorded
//! second boundary, the bytes seen during that second are pushed into a
//! bounded history of the five most recent per-second deltas.  The remaining
//! time is estimated from the average of those deltas and rendered as a
//! human-readable string.

use vstd::prelude::*;
use std::collections::VecDeque;

verus! {

/// Number of per-second throughput samples the estimator keeps.
const STEPS_TRACK_COUNT: usize = 5;

/// Abstract state of a [`DataTransferEta`].
pub ghost struct EtaView {
    /// Total length of the transfer in bytes.
    pub total_len: nat,
    /// Cumulative bytes transferred so far.
    pub total_transferred: nat,
    /// Bytes counted since the last second boundary.
    pub bucket: nat,
    /// Per-second deltas, newest first, at most five.
    pub history: Seq<nat>,
    /// Clock reading (milliseconds) at the last second boundary.
    pub anchor: Option<nat>,
    /// Number of second boundaries crossed so far.
    pub seconds_elapsed: nat,
}

impl EtaView {
    /// Well-formedness: the history is bounded and every counter fits the
    /// machine word it is stored in.
    pub open spec fn wf(self) -> bool {
        &&& self.history.len() <= 5
        &&& self.bucket <= self.total_transferred
        &&& self.total_len <= usize::MAX
        &&& self.total_transferred <= usize::MAX
        &&& self.seconds_elapsed <= usize::MAX
        &&& (forall|i: int| 0 <= i < self.history.len() ==> #[trigger] self.history[i] <= usize::MAX)
        &&& (match self.anchor {
            Option::Some(t) => t <= u64::MAX,
            Option::None => true,
        })
    }
}

/// State of a freshly created estimator for a transfer of `total_len` bytes.
pub open spec fn eta_initial(total_len: nat) -> EtaView {
    EtaView {
        total_len,
        total_transferred: 0,
        bucket: 0,
        history: Seq::empty(),
        anchor: Option::None,
        seconds_elapsed: 0,
    }
}

/// One `step_with` call observed at clock reading `now` (milliseconds),
/// with the cumulative counter at `total_transferred`.
pub open spec fn eta_step(v: EtaView, total_transferred: nat, now: nat) -> EtaView {
    let bucket: nat = (v.bucket + total_transferred - v.total_transferred) as nat;
    match v.anchor {
        Option::None => EtaView {
            total_transferred,
            bucket,
            anchor: Option::Some(now),
            ..v
        },
        Option::Some(anchor) => {
            if now >= anchor + 1000 {
                EtaView {
                    total_transferred,
                    bucket: 0,
                    anchor: Option::Some(now),
                    seconds_elapsed: (v.seconds_elapsed + 1) as nat,
                    history: seq![bucket].add(
                        if v.history.len() == 5 {
                            v.history.take(4)
                        } else {
                            v.history
                        },
                    ),
                    ..v
                }
            } else {
                EtaView { total_transferred, bucket, ..v }
            }
        },
    }
}

/// Sum of all samples in a history.
pub open spec fn seq_sum(s: Seq<nat>) -> nat
    decreases s.len(),
{
    if s.len() == 0 {
        0
    } else {
        (seq_sum(s.drop_last()) + s.last()) as nat
    }
}

/// Whole seconds the transfer is estimated to still need, capped at
/// `u32::MAX`.  Meaningful only when `seq_sum(v.history) > 0`; the average
/// speed is `seq_sum / len`, so `remaining / speed = remaining * len / sum`.
pub open spec fn eta_seconds(v: EtaView) -> nat {
    let remaining: nat = if v.total_transferred >= v.total_len {
        0
    } else {
        (v.total_len - v.total_transferred) as nat
    };
    let raw = remaining * v.history.len() / seq_sum(v.history);
    if raw > u32::MAX {
        u32::MAX as nat
    } else {
        raw as nat
    }
}

/// The character standing for decimal digit `d`.
pub open spec fn digit_char(d: nat) -> char {
    if d == 0 {
        '0'
    } else if d == 1 {
        '1'
    } else if d == 2 {
        '2'
    } else if d == 3 {
        '3'
    } else if d == 4 {
        '4'
    } else if d == 5 {
        '5'
    } else if d == 6 {
        '6'
    } else if d == 7 {
        '7'
    } else if d == 8 {
        '8'
    } else {
        '9'
    }
}

/// Decimal rendering of `n`, most significant digit first.
pub open spec fn dec_chars(n: nat) -> Seq<char>
    decreases n,
{
    if n < 10 {
        seq![digit_char(n)]
    } else {
        dec_chars(n / 10).add(seq![digit_char(n % 10)])
    }
}

/// `s` padded on the left with spaces to at least two characters.
pub open spec fn pad2_chars(s: Seq<char>) -> Seq<char> {
    if s.len() >= 2 {
        s
    } else {
        " "@.add(s)
    }
}

/// `s` padded on the left with spaces to at least three characters.
pub open spec fn pad3_chars(s: Seq<char>) -> Seq<char> {
    if s.len() >= 3 {
        s
    } else if s.len() == 2 {
        " "@.add(s)
    } else {
        "  "@.add(s)
    }
}

/// English pluralization of "hour".
pub open spec fn hour_label(n: nat) -> Seq<char> {
    if n == 1 {
        "hour"@
    } else {
        "hours"@
    }
}

/// English pluralization of "minute".
pub open spec fn minute_label(n: nat) -> Seq<char> {
    if n == 1 {
        "minute"@
    } else {
        "minutes"@
    }
}

/// English pluralization of "second".
pub open spec fn second_label(n: nat) -> Seq<char> {
    if n == 1 {
        "second"@
    } else {
        "seconds"@
    }
}

/// The exact string `get_estimate_string` returns for estimator state `v`.
///
/// A zero average speed (no samples, or only zero samples) renders as
/// "Unknown"; beyond 6000 seconds the estimate is shown as hours plus
/// minutes, beyond 100 seconds as minutes plus seconds, otherwise as
/// seconds alone.
pub open spec fn estimate_chars(v: EtaView) -> Seq<char> {
    if seq_sum(v.history) == 0 {
        "Unknown"@
    } else {
        let sec = eta_seconds(v);
        if sec > 6000 {
            pad3_chars(dec_chars(sec / 3600)).add(" "@).add(hour_label(sec / 3600)).add(" "@).add(
                pad2_chars(dec_chars(sec % 3600 / 60)),
            ).add(" "@).add(minute_label(sec % 3600 / 60))
        } else if sec > 100 {
            pad3_chars(dec_chars(sec / 60)).add(" "@).add(minute_label(sec / 60)).add(" "@).add(
                pad2_chars(dec_chars(sec % 60)),
            ).add(" "@).add(second_label(sec % 60))
        } else {
            pad3_chars(dec_chars(sec)).add(" "@).add(second_label(sec))
        }
    }
}

/// Relies on `std::time::SystemTime::now` for the wall-clock reading that
/// separates one throughput sample from the next.  Nothing is assumed of the
/// returned value: every caller states what holds for any reading.
#[verifier::external_body]
fn clock_millis() -> u64 {
    match std::time::SystemTime::now().duration_since(std::time::UNIX_EPOCH) {
        Ok(d) => d.as_millis() as u64,
        Err(_) => 0,
    }
}

/// Estimates the remaining time of a data transfer from a monotonically
/// growing cumulative byte counter.
#[derive(Debug)]
pub struct DataTransferEta {
    /// Total length of the transfer in bytes.
    pub total_len: usize,
    total_transferred: usize,
    transferred_this_sec: usize,
    transferred_last_few_secs: VecDeque<usize>,
    last_sec: Option<u64>,
    seconds_elapsed: usize,
}

impl View for DataTransferEta {
    type V = EtaView;

    closed spec fn view(&self) -> EtaView {
        EtaView {
            total_len: self.total_len as nat,
            total_transferred: self.total_transferred as nat,
            bucket: self.transferred_this_sec as nat,
            history: self.transferred_last_few_secs@.map_values(|x: usize| x as nat),
            anchor: match self.last_sec {
                Option::None => Option::None,
                Option::Some(t) => Option::Some(t as nat),
            },
            seconds_elapsed: self.seconds_elapsed as nat,
        }
    }
}

impl DataTransferEta {
    /// A fresh estimator for a transfer of `len` bytes; all counters zero.
    pub fn new(len: usize) -> (r: Self)
        ensures
            r@ == eta_initial(len as nat),
            r@.wf(),
    {
        let r = DataTransferEta {
            total_len: len,
            total_transferred: 0,
            transferred_this_sec: 0,
            transferred_last_few_secs: VecDeque::new(),
            last_sec: Option::None,
            seconds_elapsed: 0,
        };
        proof {
            assert(r@.history =~= eta_initial(len as nat).history);
            assert(r@ =~= eta_initial(len as nat));
        }
        r
    }

    /// Records that the cumulative counter has reached `total_transferred`,
    /// using the clock reading `now` in milliseconds.  On the first call the
    /// anchor is set without touching the history; afterwards, once at least
    /// a second has passed since the anchor, the current bucket is pushed
    /// into the bounded history (evicting the oldest of five) and the bucket
    /// and anchor are reset.
    pub fn step_with_at(&mut self, total_transferred: usize, now: u64)
        requires
            old(self)@.wf(),
            old(self)@.total_transferred <= total_transferred,
            old(self)@.seconds_elapsed < usize::MAX,
        ensures
            final(self)@ == eta_step(old(self)@, total_transferred as nat, now as nat),
            final(self)@.wf(),
    {
        let len_delta: usize = total_transferred - self.total_transferred;
        self.transferred_this_sec = self.transferred_this_sec + len_delta;
        self.total_transferred = total_transferred;

        match self.last_sec {
            Option::None => {
                self.last_sec = Option::Some(now);
            },
            Option::Some(start) => {
                let elapsed: u64 = if now >= start {
                    now - start
                } else {
                    0
                };
                if elapsed >= 1000 {
                    self.seconds_elapsed = self.seconds_elapsed + 1;
                    self.last_sec = Option::Some(now);
                    if self.transferred_last_few_secs.len() == STEPS_TRACK_COUNT {
                        self.transferred_last_few_secs.pop_back();
                    }
                    self.transferred_last_few_secs.push_front(self.transferred_this_sec);
                    self.transferred_this_sec = 0;
                }
            },
        };
        proof {
            assert(self@.history =~= eta_step(old(self)@, total_transferred as nat, now as nat).history);
            assert(self@ =~= eta_step(old(self)@, total_transferred as nat, now as nat));
        }
    }

    /// Records that the cumulative counter has reached `total_transferred`,
    /// reading the clock itself.  The state changes exactly as
    /// [`Self::step_with_at`] describes, for whatever the clock returned.
    pub fn step_with(&mut self, total_transferred: usize)
        requires
            old(self)@.wf(),
            old(self)@.total_transferred <= total_transferred,
            old(self)@.seconds_elapsed < usize::MAX,
        ensures
            exists|now: nat| final(self)@ == eta_step(old(self)@, total_transferred as nat, now),
            final(self)@.wf(),
    {
        let now = clock_millis();
        self.step_with_at(total_transferred, now);
        proof {
            assert(self@ == eta_step(old(self)@, total_transferred as nat, now as nat));
        }
    }

    /// Records a counter reading that may not be monotonic: a reading below
    /// the stored total (a late or duplicated event) leaves the state
    /// untouched, as does a saturated boundary counter; otherwise the state
    /// changes exactly as [`Self::step_with_at`] describes.
    pub fn observe_at(&mut self, total_transferred: usize, now: u64)
        requires
            old(self)@.wf(),
        ensures
            final(self)@.wf(),
            (old(self)@.total_transferred <= total_transferred && old(self)@.seconds_elapsed
                < usize::MAX) ==> final(self)@ == eta_step(
                old(self)@,
                total_transferred as nat,
                now as nat,
            ),
            !(old(self)@.total_transferred <= total_transferred && old(self)@.seconds_elapsed
                < usize::MAX) ==> final(self)@ == old(self)@,
    {
        if self.total_transferred <= total_transferred && self.seconds_elapsed < usize::MAX {
            self.step_with_at(total_transferred, now);
        }
    }

    /// Resets every counter, the history and the anchor; the total length is
    /// overwritten when `total_len` carries a value and kept otherwise.
    pub fn prepare_for_new_transfer(&mut self, total_len: Option<usize>)
        ensures
            final(self)@ == eta_initial(
                match total_len {
                    Option::Some(t) => t as nat,
                    Option::None => old(self)@.total_len,
                },
            ),
            final(self)@.wf(),
    {
        if let Option::Some(total_len) = total_len {
            self.total_len = total_len;
        }
        self.total_transferred = 0;
        self.transferred_this_sec = 0;
        self.transferred_last_few_secs.clear();
        self.seconds_elapsed = 0;
        self.last_sec = Option::None;
        proof {
            let target = eta_initial(
                match total_len {
                    Option::Some(t) => t as nat,
                    Option::None => old(self)@.total_len,
                },
            );
            assert(self@.history =~= target.history);
            assert(self@ =~= target);
        }
    }

    /// An independent copy with the same abstract state.
    pub fn duplicate(&self) -> (r: Self)
        ensures
            r@ == self@,
    {
        let r = DataTransferEta {
            total_len: self.total_len,
            total_transferred: self.total_transferred,
            transferred_this_sec: self.transferred_this_sec,
            transferred_last_few_secs: self.transferred_last_few_secs.clone(),
            last_sec: self.last_sec,
            seconds_elapsed: self.seconds_elapsed,
        };
        proof {
            assert(r@ =~= self@);
        }
        r
    }

    /// Renders the estimated remaining time exactly as [`estimate_chars`]
    /// describes.
    pub fn get_estimate_string(&self) -> (r: String)
        requires
            self@.wf(),
        ensures
            r@ == estimate_chars(self@),
    {
        let len: usize = self.transferred_last_few_secs.len();
        let mut sum: u128 = 0;
        let mut i: usize = 0;
        while i < len
            invariant
                i <= len,
                len == self@.history.len(),
                len == self.transferred_last_few_secs@.len(),
                self@.wf(),
                sum as nat == seq_sum(self@.history.take(i as int)),
                sum <= i as u128 * 0xffff_ffff_ffff_ffffu128,
            decreases len - i,
        {
            let sample: usize = self.transferred_last_few_secs[i];
            proof {
                assert(self@.history.take(i + 1).drop_last() =~= self@.history.take(i as int));
                assert(self@.history.take(i + 1).last() == self@.history[i as int]);
                assert(self@.history[i as int] <= usize::MAX);
                assert(sum + sample as u128 <= (i + 1) as u128 * 0xffff_ffff_ffff_ffffu128)
                    by (nonlinear_arith)
                    requires
                        sum <= i as u128 * 0xffff_ffff_ffff_ffffu128,
                        sample as u128 <= 0xffff_ffff_ffff_ffffu128,
                        i < 0xffff_ffff_ffff_ffffu128,
                ;
            }
            sum = sum + sample as u128;
            i = i + 1;
        }
        proof {
            assert(self@.history.take(len as int) =~= self@.history);
        }

        if sum == 0 {
            return String::from_str("Unknown");
        }

        let remaining: usize = if self.total_transferred >= self.total_len {
            0
        } else {
            self.total_len - self.total_transferred
        };
        proof {
            assert(remaining as u128 * len as u128 <= 5 * 0xffff_ffff_ffff_ffffu128)
                by (nonlinear_arith)
                requires
                    remaining as u128 <= 0xffff_ffff_ffff_ffffu128,
                    len as u128 <= 5,
            ;
        }
        let raw: u128 = remaining as u128 * len as u128 / sum;
        let sec: u32 = if raw > 0xffff_ffffu128 {
            u32::MAX
        } else {
            raw as u32
        };
        proof {
            assert(sec as nat == eta_seconds(self@));
        }

        if sec > 6000 {
            let h: u32 = sec / 3600;
            let mi: u32 = sec % 3600 / 60;
            let mut r = pad3(u64_dec(h as u64));
            r.append(" ");
            r.append(hour_str(h as u64));
            r.append(" ");
            let p = pad2(u64_dec(mi as u64));
            r.append(p.as_str());
            r.append(" ");
            r.append(minute_str(mi as u64));
            r
        } else if sec > 100 {
            let m: u32 = sec / 60;
            let s2: u32 = sec % 60;
            let mut r = pad3(u64_dec(m as u64));
            r.append(" ");
            r.append(minute_str(m as u64));
            r.append(" ");
            let p = pad2(u64_dec(s2 as u64));
            r.append(p.as_str());
            r.append(" ");
            r.append(second_str(s2 as u64));
            r
        } else {
            let mut r = pad3(u64_dec(sec as u64));
            r.append(" ");
            r.append(second_str(sec as u64));
            r
        }
    }
}

impl Default for DataTransferEta {
    /// Same state as `new(0)`.
    fn default() -> (r: Self)
        ensures
            r@ == eta_initial(0),
            r@.wf(),
    {
        DataTransferEta::new(0)
    }
}

/// The one-character string for decimal digit `d`.
fn digit_str(d: u64) -> (s: &'static str)
    requires
        d < 10,
    ensures
        s@ == seq![digit_char(d as nat)],
{
    proof {
        reveal_strlit("0");
        reveal_strlit("1");
        reveal_strlit("2");
        reveal_strlit("3");
        reveal_strlit("4");
        reveal_strlit("5");
        reveal_strlit("6");
        reveal_strlit("7");
        reveal_strlit("8");
        reveal_strlit("9");
    }
    let s: &'static str = match d {
        0 => "0",
        1 => "1",
        2 => "2",
        3 => "3",
        4 => "4",
        5 => "5",
        6 => "6",
        7 => "7",
        8 => "8",
        _ => "9",
    };
    proof {
        assert(s@ =~= seq![digit_char(d as nat)]);
    }
    s
}

/// Decimal rendering of `n`.
fn u64_dec(n: u64) -> (s: String)
    ensures
        s@ == dec_chars(n as nat),
    decreases n,
{
    if n < 10 {
        String::from_str(digit_str(n))
    } else {
        let mut s = u64_dec(n / 10);
        let d = digit_str(n % 10);
        s.append(d);
        proof {
            assert((n / 10) as nat == n as nat / 10);
            assert((n % 10) as nat == n as nat % 10);
        }
        s
    }
}

/// Pads `s` on the left with spaces to at least two characters.
fn pad2(s: String) -> (r: String)
    ensures
        r@ == pad2_chars(s@),
{
    let n: usize = s.as_str().unicode_len();
    if n >= 2 {
        s
    } else {
        let mut r = String::from_str(" ");
        r.append(s.as_str());
        r
    }
}

/// Pads `s` on the left with spaces to at least three characters.
fn pad3(s: String) -> (r: String)
    ensures
        r@ == pad3_chars(s@),
{
    let n: usize = s.as_str().unicode_len();
    if n >= 3 {
        s
    } else if n == 2 {
        let mut r = String::from_str(" ");
        r.append(s.as_str());
        r
    } else {
        let mut r = String::from_str("  ");
        r.append(s.as_str());
        r
    }
}

/// English pluralization of "hour".
fn hour_str(n: u64) -> (s: &'static str)
    ensures
        s@ == hour_label(n as nat),
{
    if n == 1 {
        "hour"
    } else {
        "hours"
    }
}

/// English pluralization of "minute".
fn minute_str(n: u64) -> (s: &'static str)
    ensures
        s@ == minute_label(n as nat),
{
    if n == 1 {
        "minute"
    } else {
        "minutes"
    }
}

/// English pluralization of "second".
fn second_str(n: u64) -> (s: &'static str)
    ensures
        s@ == second_label(n as nat),
{
    if n == 1 {
        "second"
    } else {
        "seconds"
    }
}

/// A sum of samples is zero exactly when every sample is zero.
pub proof fn lemma_seq_sum_zero(s: Seq<nat>)
    ensures
        (seq_sum(s) == 0) <==> (forall|i: int| 0 <= i < s.len() ==> #[trigger] s[i] == 0),
    decreases s.len(),
{
    if s.len() > 0 {
        lemma_seq_sum_zero(s.drop_last());
        assert(forall|i: int| 0 <= i < s.len() - 1 ==> #[trigger] s[i] == s.drop_last()[i]);
    }
}

/// A decimal rendering is never empty and starts with a digit.
proof fn lemma_dec_chars_first(n: nat)
    ensures
        dec_chars(n).len() >= 1,
        is_digit_char(dec_chars(n)[0]),
    decreases n,
{
    if n >= 10 {
        lemma_dec_chars_first(n / 10);
    }
}

/// Whether `c` is one of the ten decimal digit characters.
pub open spec fn is_digit_char(c: char) -> bool {
    c == '0' || c == '1' || c == '2' || c == '3' || c == '4' || c == '5' || c == '6' || c == '7'
        || c == '8' || c == '9'
}

/// The rendered estimate reads "Unknown" exactly when the history holds no
/// sample or only zero samples.
pub proof fn lemma_estimate_unknown_iff(v: EtaView)
    ensures
        (estimate_chars(v) == "Unknown"@) <==> (v.history.len() == 0 || (forall|i: int|
            0 <= i < v.history.len() ==> #[trigger] v.history[i] == 0)),
{
    lemma_seq_sum_zero(v.history);
    reveal_strlit("Unknown");
    reveal_strlit(" ");
    reveal_strlit("  ");
    if seq_sum(v.history) != 0 {
        let sec = eta_seconds(v);
        let rendered = estimate_chars(v);
        let head = if sec > 6000 {
            pad3_chars(dec_chars(sec / 3600))
        } else if sec > 100 {
            pad3_chars(dec_chars(sec / 60))
        } else {
            pad3_chars(dec_chars(sec))
        };
        let inner = if sec > 6000 {
            sec / 3600
        } else if sec > 100 {
            sec / 60
        } else {
            sec
        };
        lemma_dec_chars_first(inner);
        assert(head.len() >= 1);
        assert(head[0] == ' ' || is_digit_char(head[0]));
        assert(rendered[0] == head[0]);
        assert("Unknown"@[0] == 'U');
        assert(rendered != "Unknown"@) by {
            if rendered == "Unknown"@ {
                assert(rendered[0] == "Unknown"@[0]);
            }
        }
    }
}

/// The state after a run of steps, the counter at `totals[k]` and the
/// clock at `times[k]` on the k-th step.
pub open spec fn eta_steps(v: EtaView, totals: Seq<nat>, times: Seq<nat>) -> EtaView
    decreases totals.len(),
{
    if totals.len() == 0 {
        v
    } else {
        eta_step(
            eta_steps(v, totals.drop_last(), times.drop_last()),
            totals.last(),
            times[totals.len() - 1],
        )
    }
}

/// The per-second deltas of a run: what each counter reading adds over its
/// predecessor (over `base` for the first).
pub open spec fn run_deltas(base: nat, totals: Seq<nat>) -> Seq<nat> {
    Seq::new(
        totals.len(),
        |k: int|
            (totals[k] - (
            if k == 0 {
                base
            } else {
                totals[k - 1]
            })) as nat,
    )
}

/// A run of readings in which every step crosses a second boundary: as
/// many clock readings as counter readings, each clock reading at least a
/// second after the one before (and the first at least a second after the
/// anchor), the counter monotone and within machine bounds.
pub open spec fn spaced_boundary_run(v: EtaView, totals: Seq<nat>, times: Seq<nat>) -> bool {
    &&& times.len() == totals.len()
    &&& (match v.anchor {
        Option::Some(a) => totals.len() > 0 ==> times[0] >= a + 1000,
        Option::None => totals.len() == 0,
    })
    &&& (forall|k: int| 1 <= k < times.len() ==> #[trigger] times[k] >= times[k - 1] + 1000)
    &&& (totals.len() > 0 ==> v.total_transferred <= totals[0])
    &&& (forall|k: int| 1 <= k < totals.len() ==> #[trigger] totals[k - 1] <= totals[k])
    &&& (forall|k: int| 0 <= k < totals.len() ==> #[trigger] totals[k] <= usize::MAX)
    &&& (forall|k: int| 0 <= k < times.len() ==> #[trigger] times[k] <= u64::MAX)
    &&& v.seconds_elapsed + totals.len() <= usize::MAX
}

/// How many samples the history holds after `n` boundary-crossing steps
/// from a fresh estimator: one per step, capped at five.
pub open spec fn capped_len(n: int) -> int {
    if n < 5 {
        n
    } else {
        5
    }
}

/// Starting from a fresh estimator (empty history, empty bucket), any run
/// of steps that each cross a second boundary leaves the history holding
/// exactly the most recent per-second deltas, newest first — never more
/// than five, with the oldest evicted first.
pub proof fn lemma_history_most_recent(v: EtaView, totals: Seq<nat>, times: Seq<nat>)
    requires
        v.wf(),
        v.bucket == 0,
        v.history == Seq::<nat>::empty(),
        spaced_boundary_run(v, totals, times),
    ensures
        eta_steps(v, totals, times).wf(),
        eta_steps(v, totals, times).history.len() == capped_len(totals.len() as int),
        eta_steps(v, totals, times).history =~= run_deltas(
            v.total_transferred,
            totals,
        ).reverse().take(capped_len(totals.len() as int)),
        eta_steps(v, totals, times).bucket == 0,
        totals.len() > 0 ==> eta_steps(v, totals, times).total_transferred == totals.last(),
        totals.len() > 0 ==> eta_steps(v, totals, times).anchor == Option::Some(
            times[totals.len() - 1],
        ),
        eta_steps(v, totals, times).seconds_elapsed == v.seconds_elapsed + totals.len(),
        eta_steps(v, totals, times).total_len == v.total_len,
    decreases totals.len(),
{
    let n = totals.len() as int;
    let deltas = run_deltas(v.total_transferred, totals);
    if n == 0 {
        assert(deltas.reverse().take(0) =~= Seq::<nat>::empty());
    } else {
        let shorter_totals = totals.drop_last();
        let shorter_times = times.drop_last();
        assert(spaced_boundary_run(v, shorter_totals, shorter_times)) by {
            assert(forall|k: int|
                0 <= k < shorter_totals.len() ==> #[trigger] shorter_totals[k] == totals[k]);
            assert(forall|k: int|
                0 <= k < shorter_times.len() ==> #[trigger] shorter_times[k] == times[k]);
        }
        lemma_history_most_recent(v, shorter_totals, shorter_times);
        let prev = eta_steps(v, shorter_totals, shorter_times);
        let prev_deltas = run_deltas(v.total_transferred, shorter_totals);
        assert(prev_deltas =~= deltas.drop_last());

        let stepped = eta_steps(v, totals, times);
        assert(stepped == eta_step(prev, totals.last(), times[n - 1]));
        assert(prev.total_transferred <= totals.last()) by {
            if n == 1 {
            } else {
                assert(totals[n - 2] <= totals[n - 1]);
            }
        }
        assert(match prev.anchor {
            Option::Some(a) => times[n - 1] >= a + 1000,
            Option::None => false,
        }) by {
            if n == 1 {
            } else {
                assert(times[n - 1] >= times[n - 2] + 1000);
            }
        }
        let newest: nat = (prev.bucket + totals.last() - prev.total_transferred) as nat;
        assert(newest == deltas[n - 1]);
        let kept = if prev.history.len() == 5 {
            prev.history.take(4)
        } else {
            prev.history
        };
        assert(stepped.history == seq![newest].add(kept));
        assert forall|i: int| 0 <= i < capped_len(n) implies stepped.history[i]
            == deltas.reverse().take(capped_len(n))[i] by {
            if i == 0 {
                assert(deltas.reverse()[0] == deltas[n - 1]);
            } else {
                assert(stepped.history[i] == kept[i - 1]);
                assert(kept[i - 1] == prev.history[i - 1]);
                assert(prev.history[i - 1] == prev_deltas.reverse()[i - 1]);
                assert(prev_deltas.reverse()[i - 1] == prev_deltas[(n - 1) - 1 - (i - 1)]);
                assert(prev_deltas[n - 1 - i] == deltas[n - 1 - i]);
                assert(deltas.reverse()[i] == deltas[n - 1 - i]);
            }
        }
        assert(stepped.history.len() == capped_len(n));
        assert(stepped.history =~= deltas.reverse().take(capped_len(n)));
        assert(stepped.wf()) by {
            assert(forall|i: int|
                0 <= i < stepped.history.len() ==> #[trigger] stepped.history[i] <= usize::MAX);
        }
    }
}

/// Stepping a well-formed estimator keeps it well-formed, never lets the
/// history exceed five samples, and, when the step crosses a second
/// boundary, records the bytes seen since the previous boundary as the
/// newest sample.
pub proof fn lemma_history_bounded(v: EtaView, total_transferred: nat, now: nat)
    requires
        v.wf(),
        v.total_transferred <= total_transferred,
        total_transferred <= usize::MAX,
        now <= u64::MAX,
        v.seconds_elapsed < usize::MAX,
    ensures
        eta_step(v, total_transferred, now).wf(),
        eta_step(v, total_transferred, now).history.len() <= 5,
        (match v.anchor {
            Option::Some(a) => now >= a + 1000,
            Option::None => false,
        }) ==> eta_step(v, total_transferred, now).history[0] == v.bucket + (total_transferred
            - v.total_transferred),
{
    let stepped = eta_step(v, total_transferred, now);
    match v.anchor {
        Option::Some(a) => {
            if now >= a + 1000 {
                let bucket: nat = (v.bucket + total_transferred - v.total_transferred) as nat;
                let kept = if v.history.len() == 5 {
                    v.history.take(4)
                } else {
                    v.history
                };
                assert(forall|i: int| 0 <= i < kept.len() ==> #[trigger] kept[i] <= usize::MAX);
                assert(forall|i: int|
                    0 <= i < stepped.history.len() ==> #[trigger] stepped.history[i]
                        <= usize::MAX);
            }
        },
        Option::None => {},
    }
}

} // verus!
