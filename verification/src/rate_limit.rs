//! Fixed-window rate limiting per key.
//!
//! Each key has a window that starts at its first request; within a window of
//! `window_seconds` the key is allowed `max_requests` requests, and refused
//! after that until the window has passed.
use vstd::prelude::*;
use crate::store::Store;

verus! {

#[verifier::external_type_specification]
#[verifier::external_body]
pub struct ExInstant(std::time::Instant);

/// The present instant of the monotonic clock, `Instant::now`.
#[verifier::external_body]
fn instant_now() -> std::time::Instant {
    std::time::Instant::now()
}

/// Nanoseconds elapsed since `origin` on the monotonic clock, through
/// `Instant::elapsed`. Nothing is claimed of the value.
#[verifier::external_body]
fn nanos_since(origin: &std::time::Instant) -> u128 {
    origin.elapsed().as_nanos()
}

/// Rate limiter configuration
#[derive(Debug, Clone, Copy)]
pub struct RateLimitConfig {
    pub max_requests: u32,
    pub window_seconds: u64,
}

impl RateLimitConfig {
    pub fn new(max_requests: u32, window_seconds: u64) -> (r: Self)
        ensures
            r.max_requests == max_requests,
            r.window_seconds == window_seconds,
    {
        RateLimitConfig { max_requests, window_seconds }
    }
}

/// The requests counted in the current window of a key, and when (in
/// nanoseconds of the limiter's clock) that window started.
#[derive(Clone, Copy)]
struct RateLimitEntry {
    count: u64,
    window_start: u128,
}

impl RateLimitEntry {
    /// A window that starts at `now` with one request.
    fn new(now: u128) -> (r: Self)
        ensures
            r.count == 1,
            r.window_start == now,
    {
        RateLimitEntry { count: 1, window_start: now }
    }
}

/// Time elapsed from `start` to `now`; zero when `now` is earlier.
pub open spec fn elapsed(start: u128, now: u128) -> int {
    if now >= start { now - start } else { 0 }
}

/// One request of a key whose window is `entry` (`None` for a key never seen),
/// at the instant `now`: whether it is allowed, and the key's window after it.
/// A key never seen, or whose window has passed, starts a window at `now`
/// counting this request; a request is refused when the window's count is
/// above `max`, and otherwise allowed and counted.
pub open spec fn limit_step(entry: Option<(u64, u128)>, now: u128, max: u32, window_ns: int) -> (bool, (u64, u128)) {
    let e = match entry {
        Some(e) => e,
        None => (1u64, now),
    };
    let e = if elapsed(e.1, now) > window_ns { (1u64, now) } else { e };
    if e.0 > max {
        (false, e)
    } else {
        (true, ((e.0 + 1) as u64, e.1))
    }
}

/// The window of `key`, if the key was seen.
pub open spec fn window_of(m: Map<Seq<char>, (u64, u128)>, key: Seq<char>) -> Option<(u64, u128)> {
    if m.contains_key(key) { Some(m[key]) } else { None }
}

/// Rate limiter storage
pub struct RateLimiter {
    entries: Store<RateLimitEntry>,
    config: RateLimitConfig,
    origin: std::time::Instant,
}

impl View for RateLimiter {
    /// The window of each key seen: its count and its start.
    type V = Map<Seq<char>, (u64, u128)>;

    closed spec fn view(&self) -> Map<Seq<char>, (u64, u128)> {
        self.entries@.map_values(|e: RateLimitEntry| (e.count, e.window_start))
    }
}

impl RateLimiter {
    pub closed spec fn config_spec(&self) -> RateLimitConfig {
        self.config
    }

    /// The window length in nanoseconds.
    pub open spec fn window_ns(&self) -> int {
        self.config_spec().window_seconds * 1_000_000_000
    }

    /// Every limiter is well formed: every count is at most one above the limit.
    #[verifier::type_invariant]
    closed spec fn wf(&self) -> bool {
        &&& forall|k: Seq<char>| #[trigger] self.entries@.contains_key(k) ==> self.entries@[k].count <= self.config.max_requests + 1
    }

    /// A limiter with no key seen.
    pub fn new(config: RateLimitConfig) -> (r: Self)
        ensures
            r.config_spec() == config,
            r@ == Map::<Seq<char>, (u64, u128)>::empty(),
    {
        let r = RateLimiter { entries: Store::new(), config, origin: instant_now() };
        assert(r@ =~= Map::<Seq<char>, (u64, u128)>::empty());
        r
    }

    /// Counts a request of `key` at the instant `now` (nanoseconds of the
    /// limiter's clock) and tells whether it is allowed.
    pub fn check_at(&mut self, key: &str, now: u128) -> (r: bool)
        ensures
            final(self).config_spec() == old(self).config_spec(),
            ({
                let (allowed, e) = limit_step(
                    window_of(old(self)@, key@),
                    now,
                    old(self).config_spec().max_requests,
                    old(self).window_ns(),
                );
                r == allowed && final(self)@ == old(self)@.insert(key@, e)
            }),
    {
        proof { use_type_invariant(&*self); }
        let window: u128 = self.config.window_seconds as u128 * 1_000_000_000u128;
        let mut entry = match self.entries.get(key) {
            Some(e) => *e,
            None => RateLimitEntry::new(now),
        };
        let passed: u128 = if now >= entry.window_start { now - entry.window_start } else { 0 };
        if passed > window {
            entry = RateLimitEntry::new(now);
        }
        let allowed = if entry.count > self.config.max_requests as u64 {
            false
        } else {
            entry.count = entry.count + 1;
            true
        };
        let ghost old_entries = self.entries@;
        let mut entries: Store<RateLimitEntry> = Store::new();
        std::mem::swap(&mut entries, &mut self.entries);
        entries.insert(key.to_owned(), entry);
        proof {
            assert forall|k: Seq<char>| #[trigger] entries@.contains_key(k) implies entries@[k].count <= self.config.max_requests + 1 by {
                if k != key@ {
                    assert(old_entries.contains_key(k));
                }
            }
        }
        self.entries = entries;
        assert(self@ =~= old(self)@.insert(key@, (entry.count, entry.window_start)));
        allowed
    }

    /// Counts a request of `key` now and tells whether it is allowed.
    pub fn check(&mut self, key: &str) -> (r: bool)
        ensures
            final(self).config_spec() == old(self).config_spec(),
            exists|now: u128| {
                let (allowed, e) = #[trigger] limit_step(
                    window_of(old(self)@, key@),
                    now,
                    old(self).config_spec().max_requests,
                    old(self).window_ns(),
                );
                r == allowed && final(self)@ == old(self)@.insert(key@, e)
            },
    {
        let now = nanos_since(&self.origin);
        self.check_at(key, now)
    }
}

/// Within one window, a key whose count is above the limit is refused, and its
/// window is left as it was.
pub proof fn exhausted_key_refused(e: (u64, u128), now: u128, max: u32, window_ns: int)
    requires
        e.0 > max,
        elapsed(e.1, now) <= window_ns,
    ensures
        limit_step(Some(e), now, max, window_ns) == (false, e),
{
}

/// Once a window has passed, a key's next request starts a new window at that
/// instant and is allowed whenever the limit is at least one.
pub proof fn passed_window_resets(e: (u64, u128), now: u128, max: u32, window_ns: int)
    requires
        elapsed(e.1, now) > window_ns,
        max >= 1,
    ensures
        limit_step(Some(e), now, max, window_ns) == (true, (2u64, now)),
{
}

/// The outcome of a key's requests at the instants `times`, from the window
/// `entry`: the number of requests allowed and the window after them.
pub open spec fn run_requests(entry: Option<(u64, u128)>, times: Seq<u128>, max: u32, window_ns: int) -> (nat, Option<(u64, u128)>)
    decreases times.len(),
{
    if times.len() == 0 {
        (0, entry)
    } else {
        let (n, e) = run_requests(entry, times.drop_last(), max, window_ns);
        let (allowed, e2) = limit_step(e, times.last(), max, window_ns);
        ((n + if allowed { 1nat } else { 0nat }) as nat, Some(e2))
    }
}

/// Within one window, a key is allowed exactly its first `max` requests: for
/// requests of a key never seen before, all within the window of the first of
/// them, the number allowed is the smaller of their number and `max`, so never
/// more than `max`.
pub proof fn at_most_max_per_window(times: Seq<u128>, max: u32, window_ns: int)
    requires
        times.len() > 0,
        window_ns >= 0,
        forall|i: int| 0 <= i < times.len() ==> elapsed(times[0], #[trigger] times[i]) <= window_ns,
    ensures
        run_requests(None, times, max, window_ns).0 <= max,
        run_requests(None, times, max, window_ns).0 == (if times.len() <= max { times.len() } else { max as nat }),
    decreases times.len(),
{
    lemma_window_count(times, max, window_ns);
}

/// Within the window of the first request, the count after the requests is
/// one more than the number allowed, and that number is at most `max`.
proof fn lemma_window_count(times: Seq<u128>, max: u32, window_ns: int)
    requires
        times.len() > 0,
        window_ns >= 0,
        forall|i: int| 0 <= i < times.len() ==> elapsed(times[0], #[trigger] times[i]) <= window_ns,
    ensures
        ({
            let (n, e) = run_requests(None, times, max, window_ns);
            &&& e matches Some(w) && w.1 == times[0] && w.0 == n + 1
            &&& n <= max
            &&& n == (if times.len() <= max { times.len() } else { max as nat })
        }),
    decreases times.len(),
{
    if times.len() == 1 {
        assert(times.drop_last().len() == 0);
        assert(elapsed(times[0], times[0]) == 0);
    } else {
        let prefix = times.drop_last();
        assert forall|i: int| 0 <= i < prefix.len() implies elapsed(prefix[0], #[trigger] prefix[i]) <= window_ns by {
            assert(prefix[i] == times[i]);
        }
        lemma_window_count(prefix, max, window_ns);
        assert(elapsed(times[0], times[times.len() - 1]) <= window_ns);
    }
}

/// One call of `check_at` for `key` at `now`, as its contract describes it:
/// the limiter goes from `before` to `after` and answers `allowed`.
pub open spec fn check_step(
    before: Map<Seq<char>, (u64, u128)>,
    after: Map<Seq<char>, (u64, u128)>,
    allowed: bool,
    key: Seq<char>,
    now: u128,
    max: u32,
    window_ns: int,
) -> bool {
    let (a, e) = limit_step(window_of(before, key), now, max, window_ns);
    allowed == a && after == before.insert(key, e)
}

/// The number of calls that were allowed.
pub open spec fn count_allowed(results: Seq<bool>) -> nat
    decreases results.len(),
{
    if results.len() == 0 {
        0
    } else {
        count_allowed(results.drop_last()) + if results.last() { 1nat } else { 0nat }
    }
}

/// The smaller of two numbers.
pub open spec fn min_nat(a: nat, b: nat) -> nat {
    if a <= b { a } else { b }
}

/// A check of another key leaves the window of `key` as it was.
pub proof fn other_keys_untouched(m: Map<Seq<char>, (u64, u128)>, key: Seq<char>, other: Seq<char>, e: (u64, u128))
    requires
        other != key,
    ensures
        window_of(m.insert(other, e), key) == window_of(m, key),
{
}

/// Calls of `check_at` for a key the limiter has not seen, all within the
/// window of the first of them: the `i`-th call (from 0) is allowed exactly
/// when `i` is below the limit, so exactly the smaller of their number and the
/// limit are allowed (a limit of 0 refuses every call).
pub proof fn calls_within_window(
    states: Seq<Map<Seq<char>, (u64, u128)>>,
    results: Seq<bool>,
    times: Seq<u128>,
    key: Seq<char>,
    max: u32,
    window_ns: int,
)
    requires
        results.len() == times.len(),
        states.len() == times.len() + 1,
        !states[0].contains_key(key),
        window_ns >= 0,
        forall|i: int| 0 <= i < times.len() ==> elapsed(times[0], #[trigger] times[i]) <= window_ns,
        forall|i: int|
            0 <= i < times.len() ==> #[trigger] check_step(states[i], states[i + 1], results[i], key, times[i], max, window_ns),
    ensures
        forall|i: int| 0 <= i < results.len() ==> results[i] == (i < max),
        count_allowed(results) == min_nat(results.len(), max as nat),
{
    lemma_calls_prefix(states, results, times, key, max, window_ns, times.len() as int);
    assert(results.take(results.len() as int) =~= results);
}

proof fn lemma_calls_prefix(
    states: Seq<Map<Seq<char>, (u64, u128)>>,
    results: Seq<bool>,
    times: Seq<u128>,
    key: Seq<char>,
    max: u32,
    window_ns: int,
    j: int,
)
    requires
        results.len() == times.len(),
        states.len() == times.len() + 1,
        !states[0].contains_key(key),
        window_ns >= 0,
        forall|i: int| 0 <= i < times.len() ==> elapsed(times[0], #[trigger] times[i]) <= window_ns,
        forall|i: int|
            0 <= i < times.len() ==> #[trigger] check_step(states[i], states[i + 1], results[i], key, times[i], max, window_ns),
        0 <= j <= times.len(),
    ensures
        j > 0 ==> window_of(states[j], key) == Some(((min_nat(j as nat, max as nat) + 1) as u64, times[0])),
        forall|i: int| 0 <= i < j ==> results[i] == (i < max),
        count_allowed(results.take(j)) == min_nat(j as nat, max as nat),
    decreases j,
{
    if j == 0 {
        assert(results.take(0) =~= Seq::<bool>::empty());
    } else {
        let p = j - 1;
        lemma_calls_prefix(states, results, times, key, max, window_ns, p);
        assert(check_step(states[p], states[p + 1], results[p], key, times[p], max, window_ns));
        assert(elapsed(times[0], times[p]) <= window_ns);
        if p == 0 {
            assert(window_of(states[0], key) is None);
        }
        assert(results.take(j).drop_last() =~= results.take(p));
        assert(results.take(j).last() == results[p]);
    }
}

} // verus!
