//! Backoff policies: stateful strategies that, queried once per failed
//! attempt, answer either `Some(duration)` — wait this long before the next
//! attempt — or `None` — stop retrying.
//!
//! A policy is built by starting from a base (`instant`, `constant`) and
//! wrapping it in decorators (`exponential`, `max_backoff`, `min_backoff`,
//! `jitter`, `num_attempts`, `deadline`). Each decorator holds its inner
//! policy and modifies its answers.
//!
//! Because jitter draws randomness and a deadline reads the clock, a policy's
//! behaviour is specified as a relation: `step(r, next)` says which results
//! `r` and successor states `next` a query on the current state may produce.
//! For the deterministic policies the relation pins both down exactly.

use vstd::prelude::*;

verus! {

/// A span of time, measured in whole nanoseconds.
///
/// The view of a `Duration` is its length in nanoseconds.
#[derive(Clone, Copy, Debug, PartialEq, Eq, PartialOrd, Ord, Structural)]
pub struct Duration {
    nanos: u64,
}

impl View for Duration {
    type V = u64;

    closed spec fn view(&self) -> u64 {
        self.nanos
    }
}

pub const NANOS_PER_SEC: u64 = 1_000_000_000;

pub const NANOS_PER_MILLI: u64 = 1_000_000;

impl Duration {
    /// The duration of `secs` whole seconds.
    pub fn from_secs(secs: u64) -> (r: Duration)
        requires
            secs * NANOS_PER_SEC <= u64::MAX,
        ensures
            r@ == secs * NANOS_PER_SEC,
    {
        Duration { nanos: secs * NANOS_PER_SEC }
    }

    /// The duration of `millis` whole milliseconds.
    pub fn from_millis(millis: u64) -> (r: Duration)
        requires
            millis * NANOS_PER_MILLI <= u64::MAX,
        ensures
            r@ == millis * NANOS_PER_MILLI,
    {
        Duration { nanos: millis * NANOS_PER_MILLI }
    }

    /// The duration of `nanos` nanoseconds.
    pub fn from_nanos(nanos: u64) -> (r: Duration)
        ensures
            r@ == nanos,
    {
        Duration { nanos }
    }

    /// The length of this duration in nanoseconds.
    pub fn as_nanos(&self) -> (r: u64)
        ensures
            r == self@,
    {
        self.nanos
    }
}

/// The nanosecond lengths behind an optional duration.
pub open spec fn opt_nanos(r: Option<Duration>) -> Option<u64> {
    match r {
        None => None,
        Some(d) => Some(d@),
    }
}

/// The product of `a` and `b`, saturating at `u64::MAX`.
pub open spec fn sat_mul(a: u64, b: u64) -> u64 {
    if a * b > u64::MAX {
        u64::MAX
    } else {
        (a * b) as u64
    }
}

/// What an exponential decorator with the given factor makes of the inner
/// policy's answer: the answer grown by the factor, saturating.
pub open spec fn grown(ri: Option<u64>, factor: u64) -> Option<u64> {
    match ri {
        None => None,
        Some(d) => Some(sat_mul(d, factor)),
    }
}

/// What a ceiling decorator makes of the inner policy's answer: the answer
/// clamped to at most `cap`.
pub open spec fn clamped_max(ri: Option<u64>, cap: u64) -> Option<u64> {
    match ri {
        None => None,
        Some(d) => Some(if d > cap { cap } else { d }),
    }
}

/// What a floor decorator makes of the inner policy's answer: the answer
/// clamped to at least `floor`.
pub open spec fn clamped_min(ri: Option<u64>, floor: u64) -> Option<u64> {
    match ri {
        None => None,
        Some(d) => Some(if d < floor { floor } else { d }),
    }
}

/// A backoff policy: a unit of mutable state that, when queried, yields the
/// delay before the next attempt, or `None` to stop retrying.
pub trait Backoff: Sized {
    /// Well-formedness of this policy's configuration; constructors establish
    /// it and every query preserves it.
    spec fn inv(&self) -> bool;

    /// The query relation: from state `self`, a query may return `r` and
    /// leave the policy in state `next`. Policies whose answers depend on
    /// randomness or on the clock admit several `(r, next)` pairs; the
    /// deterministic ones admit exactly one.
    spec fn step(&self, r: Option<Duration>, next: Self) -> bool;

    /// Get the duration to wait for before attempting again, or `None` to
    /// stop retrying.
    fn next_retry(&mut self) -> (r: Option<Duration>)
        requires
            old(self).inv(),
        ensures
            final(self).inv(),
            old(self).step(r, *final(self)),
    ;

    /// Grow the backoff duration exponentially: each answer of the inner
    /// policy is multiplied by a factor that starts at 1 and doubles after
    /// every query.
    fn exponential(self) -> (r: Exponential<Self>)
        ensures
            r == (Exponential { inner: self, factor: 1u64 }),
    {
        Exponential { inner: self, factor: 1 }
    }

    /// Set the maximum backoff duration.
    fn max_backoff(self, max: Duration) -> (r: Max<Self>)
        ensures
            r == (Max { inner: self, max }),
    {
        Max { inner: self, max }
    }

    /// Set the minimum backoff duration.
    fn min_backoff(self, min: Duration) -> (r: Min<Self>)
        ensures
            r == (Min { inner: self, min }),
    {
        Min { inner: self, min }
    }

    /// Randomize the backoff duration. `scale` is given in thousandths and
    /// must lie in `(0, 1000]`.
    ///
    /// The returned duration never exceeds the base duration and never falls
    /// below `base - base * scale / 1000`.
    fn jitter(self, scale: u32) -> (r: Jitter<Self>)
        requires
            0 < scale <= 1000,
        ensures
            r == (Jitter { inner: self, scale }),
    {
        Jitter { inner: self, scale }
    }

    /// Allow at most `num` attempts in all: after `num - 1` queries the
    /// policy answers "stop" forever. `num` must be positive.
    fn num_attempts(self, num: u32) -> (r: MaxAttempts<Self>)
        requires
            num > 0,
        ensures
            r == (MaxAttempts { inner: self, num_attempts_left: (num - 1) as u32 }),
    {
        let num_attempts_left: u32 = num - 1;
        MaxAttempts { inner: self, num_attempts_left }
    }

    /// Stop retrying once the clock passes `deadline`, given in nanoseconds
    /// since the Unix epoch.
    fn deadline(self, deadline: u64) -> (r: Deadline<Self>)
        ensures
            r == (Deadline { inner: self, deadline }),
    {
        Deadline { inner: self, deadline }
    }
}

/// Grows the inner policy's answers by a factor that starts at 1 and doubles
/// after every query.
pub struct Exponential<S: Backoff> {
    pub inner: S,
    pub factor: u64,
}

impl<S: Backoff> Backoff for Exponential<S> {
    open spec fn inv(&self) -> bool {
        self.inner.inv()
    }

    open spec fn step(&self, r: Option<Duration>, next: Self) -> bool {
        &&& next.factor == sat_mul(self.factor, 2)
        &&& exists|ri: Option<Duration>|
            #[trigger] self.inner.step(ri, next.inner) && opt_nanos(r) == grown(
                opt_nanos(ri),
                self.factor,
            )
    }

    fn next_retry(&mut self) -> (r: Option<Duration>) {
        let ri = self.inner.next_retry();
        let ghost gri = ri;
        let r = match ri {
            None => None,
            Some(d) => Some(Duration { nanos: d.nanos.checked_mul(self.factor).unwrap_or(u64::MAX) }),
        };
        self.factor = self.factor.checked_mul(2).unwrap_or(u64::MAX);
        proof {
            assert(old(self).inner.step(gri, self.inner));
            assert(opt_nanos(r) == grown(opt_nanos(gri), old(self).factor));
        }
        r
    }
}

/// Clamps the inner policy's answers to at most `max`.
pub struct Max<S: Backoff> {
    pub inner: S,
    pub max: Duration,
}

impl<S: Backoff> Backoff for Max<S> {
    open spec fn inv(&self) -> bool {
        self.inner.inv()
    }

    open spec fn step(&self, r: Option<Duration>, next: Self) -> bool {
        &&& next.max == self.max
        &&& exists|ri: Option<Duration>|
            #[trigger] self.inner.step(ri, next.inner) && opt_nanos(r) == clamped_max(
                opt_nanos(ri),
                self.max@,
            )
    }

    fn next_retry(&mut self) -> (r: Option<Duration>) {
        match self.inner.next_retry() {
            None => None,
            Some(d) => Some(if d.nanos > self.max.nanos { self.max } else { d }),
        }
    }
}

/// Clamps the inner policy's answers to at least `min`.
pub struct Min<S: Backoff> {
    pub inner: S,
    pub min: Duration,
}

impl<S: Backoff> Backoff for Min<S> {
    open spec fn inv(&self) -> bool {
        self.inner.inv()
    }

    open spec fn step(&self, r: Option<Duration>, next: Self) -> bool {
        &&& next.min == self.min
        &&& exists|ri: Option<Duration>|
            #[trigger] self.inner.step(ri, next.inner) && opt_nanos(r) == clamped_min(
                opt_nanos(ri),
                self.min@,
            )
    }

    fn next_retry(&mut self) -> (r: Option<Duration>) {
        match self.inner.next_retry() {
            None => None,
            Some(d) => Some(if d.nanos < self.min.nanos { self.min } else { d }),
        }
    }
}

/// Make a zero delay backoff.
pub fn instant() -> (r: Duration)
    ensures
        r@ == 0,
        r.inv(),
{
    Duration { nanos: 0 }
}

/// Make a constant duration backoff.
pub fn constant(duration: Duration) -> (r: Duration)
    ensures
        r == duration,
        r.inv(),
{
    duration
}

/// A `Duration` is itself the constant policy: every query returns it,
/// unchanged, forever.
impl Backoff for Duration {
    open spec fn inv(&self) -> bool {
        true
    }

    open spec fn step(&self, r: Option<Duration>, next: Self) -> bool {
        &&& next == *self
        &&& r == Some(*self)
    }

    fn next_retry(&mut self) -> (r: Option<Duration>) {
        Some(*self)
    }
}

/// The margin a jitter decorator may subtract from a base delay of `d`
/// nanoseconds: `d * scale / 1000`, rounded down.
pub open spec fn margin_of(d: u64, scale: u32) -> int {
    (d * scale) / 1000
}

/// What a jitter decorator may make of the inner policy's answer: a stop
/// passes through, and a delay of `d` nanoseconds becomes any value in
/// `[d - margin_of(d, scale), d]`.
pub open spec fn jittered(ri: Option<u64>, scale: u32, ro: Option<u64>) -> bool {
    match ri {
        None => ro is None,
        Some(d) => ro matches Some(v) && d - margin_of(d, scale) <= v <= d,
    }
}

/// Relies on `rand`: `thread_rng` hands out a thread-local generator, and
/// `Rng::gen_range(lo..hi)` draws uniformly from the half-open range
/// `[lo, hi)`. It panics only on an empty range, which `lo < hi` rules out.
#[verifier::external_body]
fn rand_range(lo: u64, hi: u64) -> (r: u64)
    requires
        lo < hi,
    ensures
        lo <= r < hi,
{
    rand::Rng::gen_range(&mut rand::thread_rng(), lo..hi)
}

/// Shrinks each answer of the inner policy by a fresh uniformly random
/// margin of at most `scale` thousandths of the answer.
pub struct Jitter<S: Backoff> {
    pub inner: S,
    pub scale: u32,
}

impl<S: Backoff> Backoff for Jitter<S> {
    open spec fn inv(&self) -> bool {
        &&& 0 < self.scale <= 1000
        &&& self.inner.inv()
    }

    open spec fn step(&self, r: Option<Duration>, next: Self) -> bool {
        &&& next.scale == self.scale
        &&& exists|ri: Option<Duration>|
            #[trigger] self.inner.step(ri, next.inner) && jittered(
                opt_nanos(ri),
                self.scale,
                opt_nanos(r),
            )
    }

    fn next_retry(&mut self) -> (r: Option<Duration>) {
        let scale: u32 = self.scale;
        let ri = self.inner.next_retry();
        let ghost gri = ri;
        let r = match ri {
            None => None,
            Some(d) => {
                proof {
                    assert((d@ * scale) / 1000 <= d@) by (nonlinear_arith)
                        requires
                            0 < scale <= 1000,
                    ;
                }
                let wide: u128 = (d.nanos as u128) * (scale as u128) / 1000;
                let margin: u64 = wide as u64;
                if margin == 0 {
                    Some(d)
                } else {
                    Some(Duration { nanos: rand_range(d.nanos - margin, d.nanos) })
                }
            },
        };
        proof {
            assert(old(self).inner.step(gri, self.inner));
            assert(jittered(opt_nanos(gri), old(self).scale, opt_nanos(r)));
        }
        r
    }
}

/// Stops the retry sequence after a fixed number of attempts: the first
/// `num_attempts_left` queries delegate to the inner policy, every later one
/// answers "stop".
pub struct MaxAttempts<S: Backoff> {
    pub inner: S,
    pub num_attempts_left: u32,
}

impl<S: Backoff> Backoff for MaxAttempts<S> {
    open spec fn inv(&self) -> bool {
        self.inner.inv()
    }

    open spec fn step(&self, r: Option<Duration>, next: Self) -> bool {
        if self.num_attempts_left == 0 {
            &&& r is None
            &&& next == *self
        } else {
            &&& next.num_attempts_left == self.num_attempts_left - 1
            &&& self.inner.step(r, next.inner)
        }
    }

    fn next_retry(&mut self) -> (r: Option<Duration>) {
        if self.num_attempts_left > 0 {
            self.num_attempts_left = self.num_attempts_left - 1;
            self.inner.next_retry()
        } else {
            None
        }
    }
}

/// Declares `std::time::SystemTime` as an opaque type, so a clock reading
/// can pass from [`system_now`] to [`nanos_since_epoch`].
#[verifier::external_type_specification]
#[verifier::external_body]
pub struct ExSystemTime(std::time::SystemTime);

/// Relies on `std::time::SystemTime::now`: a reading of the system clock.
#[verifier::external_body]
fn system_now() -> std::time::SystemTime {
    std::time::SystemTime::now()
}

/// Relies on `std::time::SystemTime::duration_since`: the span from the Unix
/// epoch to this reading, converted to whole nanoseconds and saturating at
/// `u64::MAX`; a reading before the epoch counts as zero.
#[verifier::external_body]
fn nanos_since_epoch(t: std::time::SystemTime) -> u64 {
    match t.duration_since(std::time::UNIX_EPOCH) {
        Ok(d) => u64::try_from(d.as_nanos()).unwrap_or(u64::MAX),
        Err(_) => 0,
    }
}

/// Stops the retry sequence once the clock passes an absolute point in time,
/// given in nanoseconds since the Unix epoch.
pub struct Deadline<S: Backoff> {
    pub inner: S,
    pub deadline: u64,
}

impl<S: Backoff> Deadline<S> {
    /// The decision [`Backoff::next_retry`] makes for this policy when the
    /// clock reads `now` nanoseconds since the Unix epoch: stop once `now`
    /// has passed the deadline, delegate to the inner policy otherwise.
    pub fn next_retry_at(&mut self, now: u64) -> (r: Option<Duration>)
        requires
            old(self).inv(),
        ensures
            final(self).inv(),
            final(self).deadline == old(self).deadline,
            now > old(self).deadline ==> r is None && final(self).inner == old(self).inner,
            now <= old(self).deadline ==> old(self).inner.step(r, final(self).inner),
            old(self).step(r, *final(self)),
    {
        if self.deadline < now {
            None
        } else {
            self.inner.next_retry()
        }
    }
}

impl<S: Backoff> Backoff for Deadline<S> {
    open spec fn inv(&self) -> bool {
        self.inner.inv()
    }

    open spec fn step(&self, r: Option<Duration>, next: Self) -> bool {
        &&& next.deadline == self.deadline
        &&& {
            ||| r is None && next.inner == self.inner
            ||| self.inner.step(r, next.inner)
        }
    }

    fn next_retry(&mut self) -> (r: Option<Duration>) {
        let now: u64 = nanos_since_epoch(system_now());
        self.next_retry_at(now)
    }
}

/// Law: a constant policy answers its duration on every query. A query
/// leaves the policy unchanged, so by induction every later query answers
/// the same, unboundedly.
pub proof fn lemma_constant_forever(pre: Duration, r: Option<Duration>, post: Duration)
    requires
        pre.step(r, post),
    ensures
        r == Some(pre),
        post == pre,
{
}

/// Law: a floor decorator over any policy never answers a duration below its
/// floor, and an inner answer already at or above the floor passes through
/// unchanged.
pub proof fn lemma_min_backoff_floor<S: Backoff>(pre: Min<S>, r: Option<Duration>, post: Min<S>)
    requires
        pre.step(r, post),
    ensures
        r matches Some(v) ==> v@ >= pre.min@,
        exists|ri: Option<Duration>|
            #[trigger] pre.inner.step(ri, post.inner) && opt_nanos(r) == clamped_min(
                opt_nanos(ri),
                pre.min@,
            ),
        forall|d: u64| d >= pre.min@ ==> clamped_min(Some(d), pre.min@) == Some(d),
{
    let ri = choose|ri: Option<Duration>|
        #[trigger] pre.inner.step(ri, post.inner) && opt_nanos(r) == clamped_min(
            opt_nanos(ri),
            pre.min@,
        );
}

/// Law: a ceiling decorator over any policy never answers a duration above
/// its cap, and an inner answer already at or below the cap passes through
/// unchanged.
pub proof fn lemma_max_backoff_cap<S: Backoff>(pre: Max<S>, r: Option<Duration>, post: Max<S>)
    requires
        pre.step(r, post),
    ensures
        r matches Some(v) ==> v@ <= pre.max@,
        exists|ri: Option<Duration>|
            #[trigger] pre.inner.step(ri, post.inner) && opt_nanos(r) == clamped_max(
                opt_nanos(ri),
                pre.max@,
            ),
        forall|d: u64| d <= pre.max@ ==> clamped_max(Some(d), pre.max@) == Some(d),
{
    let ri = choose|ri: Option<Duration>|
        #[trigger] pre.inner.step(ri, post.inner) && opt_nanos(r) == clamped_max(
            opt_nanos(ri),
            pre.max@,
        );
}

/// Law: an exponential decorator over a constant base answers the base
/// duration multiplied by the running factor, and doubles the factor, both
/// saturating at `u64::MAX`. Started from the factor 1 that
/// [`Backoff::exponential`] sets, the answers over `constant(d)` run
/// `d, 2·d, 4·d, 8·d, …`.
pub proof fn lemma_exponential_over_constant(
    pre: Exponential<Duration>,
    r: Option<Duration>,
    post: Exponential<Duration>,
)
    requires
        pre.step(r, post),
    ensures
        opt_nanos(r) == Some(sat_mul(pre.inner@, pre.factor)),
        post.factor == sat_mul(pre.factor, 2),
        post.inner == pre.inner,
{
    let ri = choose|ri: Option<Duration>|
        #[trigger] pre.inner.step(ri, post.inner) && opt_nanos(r) == grown(
            opt_nanos(ri),
            pre.factor,
        );
}

/// Law: a jitter decorator over a constant base always answers, and every
/// answer lies between the base duration less its jitter margin and the base
/// duration itself — for a base of `d` nanoseconds, in
/// `[d - d·scale/1000, d]`.
pub proof fn lemma_jitter_over_constant(
    pre: Jitter<Duration>,
    r: Option<Duration>,
    post: Jitter<Duration>,
)
    requires
        pre.step(r, post),
    ensures
        r matches Some(v) && pre.inner@ - margin_of(pre.inner@, pre.scale) <= v@ <= pre.inner@,
        post.inner == pre.inner,
        post.scale == pre.scale,
{
    let ri = choose|ri: Option<Duration>|
        #[trigger] pre.inner.step(ri, post.inner) && jittered(
            opt_nanos(ri),
            pre.scale,
            opt_nanos(r),
        );
}

/// Law: an attempt-count decorator counts down while attempts are left,
/// delegating each query to the inner policy; once exhausted it answers
/// "stop" and stays exhausted, so every later query answers "stop" too.
pub proof fn lemma_num_attempts_exhausts<S: Backoff>(
    pre: MaxAttempts<S>,
    r: Option<Duration>,
    post: MaxAttempts<S>,
)
    requires
        pre.step(r, post),
    ensures
        pre.num_attempts_left == 0 ==> r is None && post == pre,
        pre.num_attempts_left > 0 ==> post.num_attempts_left == pre.num_attempts_left - 1
            && pre.inner.step(r, post.inner),
{
}

/// Law: once the clock has passed a deadline it stays passed — the clock
/// never moves backwards — so [`Deadline::next_retry_at`], which answers
/// "stop" exactly when `now` has passed the deadline (its inner policy
/// permitting), answers "stop" on every query from then on.
pub proof fn lemma_deadline_stop_is_permanent(deadline: u64, now1: u64, now2: u64)
    requires
        now1 > deadline,
        now2 >= now1,
    ensures
        now2 > deadline,
{
}

/// A run of a policy: `states` are its successive states, and `answers[i]`
/// is what the query made in `states[i]` returned, leaving `states[i + 1]`.
pub open spec fn runs_over<S: Backoff>(states: Seq<S>, answers: Seq<Option<Duration>>) -> bool {
    &&& states.len() == answers.len() + 1
    &&& forall|i: int|
        0 <= i < answers.len() ==> #[trigger] states[i].step(answers[i], states[i + 1])
}

/// Law: a constant policy answers its duration on every query of every run,
/// however long the run.
pub proof fn lemma_constant_run(states: Seq<Duration>, answers: Seq<Option<Duration>>, i: int)
    requires
        runs_over(states, answers),
        0 <= i < answers.len(),
    ensures
        states[i] == states[0],
        answers[i] == Some(states[0]),
    decreases i,
{
    if i > 0 {
        let j = i - 1;
        lemma_constant_run(states, answers, j);
        assert(states[j].step(answers[j], states[j + 1]));
    }
    assert(states[i].step(answers[i], states[i + 1]));
}

/// The exponential growth factor before the `i`-th query: 1 doubled `i`
/// times, saturating at `u64::MAX`.
pub open spec fn doubled(i: nat) -> u64
    decreases i,
{
    if i == 0 {
        1u64
    } else {
        sat_mul(doubled((i - 1) as nat), 2)
    }
}

/// Law: over a constant base, the answers of a run of the exponential
/// decorator started at factor 1 form the sequence `d, 2·d, 4·d, 8·d, …`:
/// the `i`-th query answers the base duration multiplied by 2 to the `i`,
/// saturating at `u64::MAX` nanoseconds.
pub proof fn lemma_exponential_run(
    states: Seq<Exponential<Duration>>,
    answers: Seq<Option<Duration>>,
    i: int,
)
    requires
        runs_over(states, answers),
        states[0].factor == 1,
        0 <= i < answers.len(),
    ensures
        states[i] == (Exponential { inner: states[0].inner, factor: doubled(i as nat) }),
        opt_nanos(answers[i]) == Some(sat_mul(states[0].inner@, doubled(i as nat))),
    decreases i,
{
    if i > 0 {
        let j = i - 1;
        lemma_exponential_run(states, answers, j);
        assert(states[j].step(answers[j], states[j + 1]));
        lemma_exponential_over_constant(states[j], answers[j], states[j + 1]);
    }
    lemma_exponential_over_constant(states[i], answers[i], states[i + 1]);
}

/// Law: an attempt-count decorator that is exhausted at some point of a run
/// answers "stop" on that query and on every later one.
pub proof fn lemma_num_attempts_run<S: Backoff>(
    states: Seq<MaxAttempts<S>>,
    answers: Seq<Option<Duration>>,
    k: int,
    i: int,
)
    requires
        runs_over(states, answers),
        0 <= k <= i < answers.len(),
        states[k].num_attempts_left == 0,
    ensures
        states[i] == states[k],
        answers[i] is None,
    decreases i - k,
{
    if i > k {
        let j = i - 1;
        lemma_num_attempts_run(states, answers, k, j);
        assert(states[j].step(answers[j], states[j + 1]));
    }
    assert(states[i].step(answers[i], states[i + 1]));
}

} // verus!


