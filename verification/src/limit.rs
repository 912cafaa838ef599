//! Admission control over the dispatch rate.
//!
//! The limiter follows a virtual-scheduling discipline: the state is a single
//! theoretical arrival time `tat`, and a quota gives a burst capacity and a
//! replenish period.  A request arriving at `now` is admitted when
//! `tat <= now + (burst - 1) * period`; an admission moves `tat` forward by
//! one period.  Requests beyond the budget are told the earliest conforming
//! instant; they are delayed, never rejected.
//!
//! The module proves the throughput invariant: along any schedule of request
//! instants, no more than `burst` requests are admitted within any window of
//! one period ([`lemma_rate_limit_window`], and in counting form
//! [`lemma_rate_limit_window_count`]).

use vstd::prelude::*;

use crate::ConfigError;

verus! {

/// All request instants handed to the limiter must stay below this bound
/// (in nanoseconds, about 36 years), so that the virtual schedule never
/// overflows its word.
pub const MAX_TIME_NS: u64 = 0x1000_0000_0000_0000;

/// Upper bound on `burst * period_ns` for a well-formed quota.
pub const MAX_BUDGET_NS: u64 = 0x7000_0000_0000_0000;

/// The default replenish period: one request per 1.1 seconds of sustained
/// load once the burst allowance is spent.
pub const DEFAULT_PERIOD_NS: u64 = 1_100_000_000;

/// The default burst capacity.
pub const DEFAULT_BURST: u32 = 9;

/// A throughput quota: up to `burst` admissions within any window of
/// `period_ns` nanoseconds.
#[derive(Debug, Clone, Copy, PartialEq, Eq, Structural)]
pub struct Quota {
    /// Burst capacity: how many requests may be admitted close together.
    pub burst: u32,
    /// Replenish period in nanoseconds.
    pub period_ns: u64,
}

impl Quota {
    /// A quota is well formed when both parts are positive and the overall
    /// budget is small enough for the schedule arithmetic to stay in bounds.
    pub open spec fn wf(self) -> bool {
        1 <= self.burst && 1 <= self.period_ns && self.burst * self.period_ns
            <= MAX_BUDGET_NS
    }

    /// The tolerance of the virtual schedule: how far ahead of `now` the
    /// theoretical arrival time may run while requests are still admitted.
    pub open spec fn tau(self) -> int {
        (self.burst - 1) * self.period_ns
    }

    /// Builds the quota for a request-rate override: `rate` requests per
    /// default period.  A zero rate is a fatal misconfiguration.
    pub fn from_rate(rate: u32) -> (r: Result<Quota, ConfigError>)
        ensures
            rate == 0 ==> r == Result::<Quota, ConfigError>::Err(ConfigError::InvalidRateLimit),
            rate != 0 ==> r == Result::<Quota, ConfigError>::Ok(
                Quota { burst: rate, period_ns: DEFAULT_PERIOD_NS },
            ),
            rate != 0 ==> (Quota { burst: rate, period_ns: DEFAULT_PERIOD_NS }).wf(),
    {
        if rate == 0 {
            Err(ConfigError::InvalidRateLimit)
        } else {
            proof {
                assert(rate * DEFAULT_PERIOD_NS <= 0xFFFF_FFFF * DEFAULT_PERIOD_NS)
                    by (nonlinear_arith)
                    requires rate <= 0xFFFF_FFFFu32;
            }
            Ok(Quota { burst: rate, period_ns: DEFAULT_PERIOD_NS })
        }
    }

    /// The built-in default quota: 9 requests per 1.1-second window.
    pub fn default_quota() -> (r: Quota)
        ensures
            r == (Quota { burst: DEFAULT_BURST, period_ns: DEFAULT_PERIOD_NS }),
            r.wf(),
    {
        Quota { burst: DEFAULT_BURST, period_ns: DEFAULT_PERIOD_NS }
    }
}

/// Whether a request arriving at `now` is admitted against schedule `tat`.
pub open spec fn admits(q: Quota, tat: int, now: int) -> bool {
    tat <= now + q.tau()
}

/// The schedule after an admission at `now`.
pub open spec fn tat_after_admit(q: Quota, tat: int, now: int) -> int {
    (if tat > now {
        tat
    } else {
        now
    }) + q.period_ns
}

/// The schedule after one request at `now`: moved forward on admission,
/// untouched on delay.
pub open spec fn step_tat(q: Quota, tat: int, now: int) -> int {
    if admits(q, tat, now) {
        tat_after_admit(q, tat, now)
    } else {
        tat
    }
}

/// The schedule after a whole sequence of request instants.
pub open spec fn run_tat(q: Quota, tat0: int, times: Seq<int>) -> int
    decreases times.len(),
{
    if times.len() == 0 {
        tat0
    } else {
        step_tat(q, run_tat(q, tat0, times.drop_last()), times.last())
    }
}

/// The instants of the admitted requests, in order, along a sequence of
/// request instants.
pub open spec fn admitted(q: Quota, tat0: int, times: Seq<int>) -> Seq<int>
    decreases times.len(),
{
    if times.len() == 0 {
        Seq::<int>::empty()
    } else {
        let pre = admitted(q, tat0, times.drop_last());
        if admits(q, run_tat(q, tat0, times.drop_last()), times.last()) {
            pre.push(times.last())
        } else {
            pre
        }
    }
}

/// Non-decreasing sequences of instants.
pub open spec fn sorted(s: Seq<int>) -> bool {
    forall|i: int, j: int| 0 <= i <= j < s.len() ==> s[i] <= s[j]
}

/// After any run, the schedule sits at least `k` periods past the `k`-th
/// most recent admission: the virtual clock debits one full period per
/// admitted request.
proof fn lemma_schedule_debt(q: Quota, tat0: int, times: Seq<int>)
    requires
        q.wf(),
    ensures
        forall|j: int|
            0 <= j < admitted(q, tat0, times).len() ==> run_tat(q, tat0, times) >= admitted(
                q,
                tat0,
                times,
            )[j] + (admitted(q, tat0, times).len() - j) * q.period_ns,
    decreases times.len(),
{
    if times.len() == 0 {
    } else {
        let pre = times.drop_last();
        let now = times.last();
        let pre_tat = run_tat(q, tat0, pre);
        let pre_adm = admitted(q, tat0, pre);
        let m = pre_adm.len() as int;
        lemma_schedule_debt(q, tat0, pre);
        if admits(q, pre_tat, now) {
            let new_tat = run_tat(q, tat0, times);
            assert(new_tat == tat_after_admit(q, pre_tat, now));
            assert(new_tat >= pre_tat + q.period_ns);
            assert(new_tat >= now + q.period_ns);
            let adm = admitted(q, tat0, times);
            assert(adm == pre_adm.push(now));
            assert forall|j: int| 0 <= j < adm.len() implies new_tat >= adm[j] + (adm.len()
                - j) * q.period_ns by {
                if j < m {
                    assert(adm[j] == pre_adm[j]);
                    assert(pre_tat >= pre_adm[j] + (m - j) * q.period_ns);
                    assert((m + 1 - j) * q.period_ns == (m - j) * q.period_ns + q.period_ns)
                        by (nonlinear_arith);
                } else {
                    assert(adm[j] == now);
                    assert(adm.len() - j == 1);
                    assert((adm.len() - j) * q.period_ns == 1 * q.period_ns);
                }
            }
        } else {
            assert(admitted(q, tat0, times) == pre_adm);
            assert(run_tat(q, tat0, times) == pre_tat);
        }
    }
}

/// Spacing of admissions: requests that are `burst` apart in admission
/// order are at least one period apart in time.  In particular, with a
/// burst of one, every admission trails the previous one by at least a
/// full period.
pub proof fn lemma_admission_spacing(q: Quota, tat0: int, times: Seq<int>, i: int)
    requires
        q.wf(),
        0 <= i,
        i + q.burst < admitted(q, tat0, times).len(),
    ensures
        admitted(q, tat0, times)[i + q.burst] >= admitted(q, tat0, times)[i] + q.period_ns,
    decreases times.len(),
{
    let adm = admitted(q, tat0, times);
    let b = q.burst as int;
    if times.len() == 0 {
    } else {
        let pre = times.drop_last();
        let now = times.last();
        let pre_tat = run_tat(q, tat0, pre);
        let pre_adm = admitted(q, tat0, pre);
        let m = pre_adm.len() as int;
        if admits(q, pre_tat, now) {
            assert(adm == pre_adm.push(now));
            if i + b < m {
                lemma_admission_spacing(q, tat0, pre, i);
                assert(adm[i] == pre_adm[i]);
                assert(adm[i + b] == pre_adm[i + b]);
            } else {
                assert(i + b == m);
                assert(adm[i + b] == now);
                assert(adm[i] == pre_adm[i]);
                lemma_schedule_debt(q, tat0, pre);
                assert(pre_tat >= pre_adm[i] + (m - i) * q.period_ns);
                assert((m - i) * q.period_ns == b * q.period_ns);
                assert(pre_tat <= now + (b - 1) * q.period_ns);
                assert(b * q.period_ns == (b - 1) * q.period_ns + q.period_ns)
                    by (nonlinear_arith);
            }
        } else {
            assert(adm == pre_adm);
            lemma_admission_spacing(q, tat0, pre, i);
        }
    }
}

/// The admitted instants are themselves in order, and never past the last
/// request instant.
pub proof fn lemma_admitted_sorted(q: Quota, tat0: int, times: Seq<int>)
    requires
        sorted(times),
    ensures
        sorted(admitted(q, tat0, times)),
        forall|k: int|
            0 <= k < admitted(q, tat0, times).len() && times.len() > 0 ==> admitted(
                q,
                tat0,
                times,
            )[k] <= times.last(),
    decreases times.len(),
{
    if times.len() == 0 {
    } else {
        let pre = times.drop_last();
        let now = times.last();
        assert(sorted(pre)) by {
            assert forall|i: int, j: int| 0 <= i <= j < pre.len() implies pre[i] <= pre[j] by {
                assert(times[i] <= times[j]);
            }
        }
        lemma_admitted_sorted(q, tat0, pre);
        let pre_adm = admitted(q, tat0, pre);
        let adm = admitted(q, tat0, times);
        if pre.len() > 0 {
            assert(pre.last() == times[times.len() - 2]);
            assert(pre.last() <= now);
        }
        if admits(q, run_tat(q, tat0, pre), now) {
            assert(adm == pre_adm.push(now));
        } else {
            assert(adm == pre_adm);
        }
    }
}

/// The rate-limiting invariant: along any ordered schedule of request
/// instants — however many callers contribute to it — every group of
/// admitted requests that fall within one replenish period of each other
/// has at most `burst` members.  Since the admitted instants are sorted
/// ([`lemma_admitted_sorted`]), this says exactly that no window of one
/// period ever contains more than `burst` admissions.
pub proof fn lemma_rate_limit_window(q: Quota, tat0: int, times: Seq<int>, i: int, j: int)
    requires
        q.wf(),
        sorted(times),
        0 <= i <= j < admitted(q, tat0, times).len(),
        admitted(q, tat0, times)[j] < admitted(q, tat0, times)[i] + q.period_ns,
    ensures
        j - i < q.burst,
{
    let adm = admitted(q, tat0, times);
    let b = q.burst as int;
    if j - i >= b {
        lemma_admission_spacing(q, tat0, times, i);
        lemma_admitted_sorted(q, tat0, times);
        assert(adm[i + b] >= adm[i] + q.period_ns);
        assert(adm[j] >= adm[i + b]);
        assert(false);
    }
}

/// How many instants of `s` fall within the half-open window of the given
/// length starting at `lo`.
pub open spec fn count_in_window(s: Seq<int>, lo: int, len: int) -> int
    decreases s.len(),
{
    if s.len() == 0 {
        0
    } else {
        count_in_window(s.drop_last(), lo, len) + (if lo <= s.last() < lo + len {
            1int
        } else {
            0int
        })
    }
}

/// A prefix of a sorted schedule is sorted.
proof fn lemma_sorted_drop_last(s: Seq<int>)
    requires
        sorted(s),
        s.len() > 0,
    ensures
        sorted(s.drop_last()),
{
    let t = s.drop_last();
    assert forall|i: int, j: int| 0 <= i <= j < t.len() implies t[i] <= t[j] by {
        assert(s[i] <= s[j]);
    }
}

/// In a sorted schedule, the instants inside one window sit at a
/// contiguous block of indices whose size is the window count; the block's
/// first index is returned (and is meaningless when the count is zero).
proof fn lemma_window_block(s: Seq<int>, lo: int, len: int) -> (i: int)
    requires
        sorted(s),
    ensures
        0 <= count_in_window(s, lo, len) <= s.len(),
        count_in_window(s, lo, len) == 0 ==> forall|k: int|
            0 <= k < s.len() ==> !(lo <= #[trigger] s[k] < lo + len),
        count_in_window(s, lo, len) > 0 ==> {
            &&& 0 <= i
            &&& i + count_in_window(s, lo, len) <= s.len()
            &&& forall|k: int|
                0 <= k < s.len() ==> ((lo <= #[trigger] s[k] < lo + len) <==> (i <= k < i
                    + count_in_window(s, lo, len)))
        },
    decreases s.len(),
{
    if s.len() == 0 {
        0
    } else {
        let t = s.drop_last();
        let l = s.last();
        let cp = count_in_window(t, lo, len);
        let c = count_in_window(s, lo, len);
        lemma_sorted_drop_last(s);
        let ip = lemma_window_block(t, lo, len);
        if lo <= l < lo + len {
            if cp == 0 {
                let i = s.len() - 1;
                assert(c == 1);
                assert forall|k: int|
                    0 <= k < s.len() implies ((lo <= #[trigger] s[k] < lo + len) <==> (i <= k < i
                        + c)) by {
                    if k < i {
                        assert(t[k] == s[k]);
                        assert(!(lo <= t[k] < lo + len));
                    }
                }
                i
            } else {
                assert(ip + cp == t.len()) by {
                    if ip + cp < t.len() {
                        let k0 = ip + cp;
                        assert(!(lo <= t[k0] < lo + len));
                        assert(lo <= t[ip] < lo + len);
                        assert(s[ip] <= s[k0]);
                        assert(t[k0] >= lo + len);
                        assert(s[k0] <= s[s.len() - 1]);
                        assert(l >= lo + len);
                        assert(false);
                    }
                }
                assert(c == cp + 1);
                assert forall|k: int|
                    0 <= k < s.len() implies ((lo <= #[trigger] s[k] < lo + len) <==> (ip <= k
                        < ip + c)) by {
                    if k < s.len() - 1 {
                        assert(t[k] == s[k]);
                        assert((lo <= t[k] < lo + len) <==> (ip <= k < ip + cp));
                    } else {
                        assert(ip <= k < ip + c);
                    }
                }
                ip
            }
        } else {
            assert(c == cp);
            if cp > 0 {
                assert forall|k: int|
                    0 <= k < s.len() implies ((lo <= #[trigger] s[k] < lo + len) <==> (ip <= k
                        < ip + c)) by {
                    if k < s.len() - 1 {
                        assert(t[k] == s[k]);
                    } else {
                        assert(k == s.len() - 1);
                        assert(ip + c <= t.len());
                    }
                }
                ip
            } else {
                assert forall|k: int| 0 <= k < s.len() implies !(lo <= #[trigger] s[k] < lo
                    + len) by {
                    if k < s.len() - 1 {
                        assert(t[k] == s[k]);
                    }
                }
                0
            }
        }
    }
}

/// The rate-limiting invariant in its counting form: along any ordered
/// schedule of request instants, no window of one replenish period
/// contains more than `burst` admitted requests.
pub proof fn lemma_rate_limit_window_count(q: Quota, tat0: int, times: Seq<int>, lo: int)
    requires
        q.wf(),
        sorted(times),
    ensures
        count_in_window(admitted(q, tat0, times), lo, q.period_ns as int) <= q.burst,
{
    let adm = admitted(q, tat0, times);
    let p = q.period_ns as int;
    let b = q.burst as int;
    lemma_admitted_sorted(q, tat0, times);
    let i = lemma_window_block(adm, lo, p);
    let c = count_in_window(adm, lo, p);
    if c > b {
        let j = i + b;
        assert(lo <= adm[i] < lo + p);
        assert(lo <= adm[j] < lo + p);
        assert(adm[j] < adm[i] + p);
        lemma_rate_limit_window(q, tat0, times, i, j);
        assert(false);
    }
}

/// A decision of the limiter: go now, or come back no earlier than the
/// given instant.
#[derive(Debug, Clone, Copy, PartialEq, Eq, Structural)]
pub enum Admission {
    /// The request is within budget and may proceed.
    Admit,
    /// The budget is exhausted; the given instant (in nanoseconds) is the
    /// earliest at which a request could conform.
    RetryAt(u64),
}

/// The rate limiter: a quota plus the virtual schedule.
///
/// One instance governs all facades of one client handle; callers feed it
/// the current instant and obey its decisions.
#[derive(Debug, Clone, PartialEq, Eq, Structural)]
pub struct RateLimiter {
    /// The configured throughput quota.
    pub quota: Quota,
    /// The theoretical arrival time of the next request, in nanoseconds.
    pub tat: u64,
}

impl RateLimiter {
    /// Internal invariant: the quota is well formed and the schedule never
    /// runs more than one full budget past the latest admissible instant.
    pub open spec fn inv(self) -> bool {
        self.quota.wf() && self.tat <= MAX_TIME_NS + self.quota.burst * self.quota.period_ns
    }

    /// A fresh limiter with an empty schedule: the full burst is available
    /// at once.
    pub fn new(quota: Quota) -> (r: RateLimiter)
        requires
            quota.wf(),
        ensures
            r.quota == quota,
            r.tat == 0u64,
            r.inv(),
    {
        RateLimiter { quota, tat: 0 }
    }

    /// Decides one request arriving at `now` (nanoseconds on any monotonic
    /// clock).  Admission consumes one unit of budget by moving the
    /// schedule forward one period; a delayed request leaves the schedule
    /// untouched and learns the earliest conforming instant.
    pub fn check(&mut self, now: u64) -> (d: Admission)
        requires
            old(self).inv(),
            now <= MAX_TIME_NS,
        ensures
            final(self).quota == old(self).quota,
            final(self).inv(),
            final(self).tat as int == step_tat(old(self).quota, old(self).tat as int, now as int),
            admits(old(self).quota, old(self).tat as int, now as int) ==> d == Admission::Admit,
            !admits(old(self).quota, old(self).tat as int, now as int) ==> *final(self)
                == *old(self) && d == Admission::RetryAt(
                (old(self).tat as int - old(self).quota.tau()) as u64,
            ) && old(self).tat as int - old(self).quota.tau() > now,
    {
        let b = self.quota.burst;
        let p = self.quota.period_ns;
        proof {
            assert((b - 1) * p >= 0 && (b - 1) * p <= b * p) by (nonlinear_arith)
                requires 1 <= b && 1 <= p;
        }
        let tau: u64 = (b - 1) as u64 * p;
        if self.tat <= now + tau {
            proof {
                assert(b * p == (b - 1) * p + p) by (nonlinear_arith);
            }
            let base = if self.tat > now {
                self.tat
            } else {
                now
            };
            self.tat = base + p;
            Admission::Admit
        } else {
            Admission::RetryAt(self.tat - tau)
        }
    }
}

} // verus!
