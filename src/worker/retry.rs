//! Retry policy: exponential backoff with an optional jitter, and the decision
//! whether a failed job is retried. Delays are in milliseconds; the backoff
//! multiplier is in thousandths (2000 is a factor of 2).

use vstd::prelude::*;
use crate::queue::QueuedJob;

verus! {

/// Errors of the retry policy.
#[derive(Debug)]
pub enum RetryError {
    /// The configuration breaks one of its rules
    InvalidConfig(String),
    /// The retry budget is exhausted
    MaxAttemptsExceeded,
}

impl RetryError {
    /// The text of the error.
    pub open spec fn message_view(&self) -> Seq<char> {
        match self {
            RetryError::InvalidConfig(msg) => "Invalid retry config: "@ + msg@,
            RetryError::MaxAttemptsExceeded => "Maximum retry attempts exceeded"@,
        }
    }

    /// The text of the error.
    pub fn to_string(&self) -> (r: String)
        ensures
            r@ == self.message_view(),
    {
        match self {
            RetryError::InvalidConfig(msg) => {
                let mut s = "Invalid retry config: ".to_owned();
                s.append(msg.as_str());
                s
            },
            RetryError::MaxAttemptsExceeded => "Maximum retry attempts exceeded".to_owned(),
        }
    }
}

/// Thousandths: the unit of the backoff multiplier.
pub const MULTIPLIER_UNIT: u64 = 1000;

/// Fixed-point resolution of the backoff computation, in parts of a millisecond.
pub const BACKOFF_RESOLUTION: u128 = 1_000_000;

/// Configuration of a retry policy.
#[derive(Debug, Clone, Copy, PartialEq, Eq, Structural)]
pub struct RetryConfig {
    /// Maximum number of delivery attempts
    pub max_attempts: u32,
    /// Delay before the first retry, in milliseconds
    pub base_delay_ms: u64,
    /// Upper bound of any delay, in milliseconds
    pub max_delay_ms: u64,
    /// Growth factor of the delay per attempt, in thousandths
    pub backoff_multiplier_milli: u32,
    /// Whether delays are randomized
    pub jitter: bool,
}

impl RetryConfig {
    /// The configuration obeys its rules.
    pub open spec fn is_valid(self) -> bool {
        &&& self.max_attempts > 0
        &&& self.base_delay_ms > 0
        &&& self.max_delay_ms > self.base_delay_ms
        &&& self.backoff_multiplier_milli > MULTIPLIER_UNIT
    }

    /// The complaint about the first rule, in the order checked, that the
    /// configuration breaks.
    pub open spec fn problem(self) -> Seq<char> {
        if self.max_attempts == 0 {
            "max_attempts must be > 0"@
        } else if self.base_delay_ms == 0 {
            "base_delay must be > 0"@
        } else if self.max_delay_ms <= self.base_delay_ms {
            "max_delay must be > base_delay"@
        } else {
            "backoff_multiplier must be > 1.0"@
        }
    }
}

impl Default for RetryConfig {
    fn default() -> (r: Self)
        ensures
            r == (RetryConfig {
                max_attempts: 3,
                base_delay_ms: 1000,
                max_delay_ms: 30000,
                backoff_multiplier_milli: 2000,
                jitter: true,
            }),
    {
        RetryConfig {
            max_attempts: 3,
            base_delay_ms: 1000,
            max_delay_ms: 30000,
            backoff_multiplier_milli: 2000,
            jitter: true,
        }
    }
}

/// `base * (m / 1000)^k` in parts of `BACKOFF_RESOLUTION` of a millisecond,
/// rounded down after each multiplication.
pub open spec fn scaled_backoff(base: nat, m: nat, k: nat) -> nat
    decreases k,
{
    if k == 0 {
        base * (BACKOFF_RESOLUTION as nat)
    } else {
        scaled_backoff(base, m, (k - 1) as nat) * m / (MULTIPLIER_UNIT as nat)
    }
}

/// The backoff delay in milliseconds before attempt number `attempts`, before jitter:
/// `min(max_delay, base_delay * multiplier^(attempts - 1))`.
pub open spec fn backoff_delay(c: RetryConfig, attempts: u32) -> nat {
    let k: nat = if attempts == 0 { 0 } else { (attempts - 1) as nat };
    let raw = scaled_backoff(c.base_delay_ms as nat, c.backoff_multiplier_milli as nat, k)
        / BACKOFF_RESOLUTION as nat;
    if raw < c.max_delay_ms { raw } else { c.max_delay_ms as nat }
}

/// The least delay that jitter may give: a quarter of the base delay, at least 1 ms.
pub open spec fn jitter_floor(c: RetryConfig) -> nat {
    if c.base_delay_ms / 4 > 1 { (c.base_delay_ms / 4) as nat } else { 1 }
}

/// `d` is a delay that the policy may give before attempt number `attempts`: the
/// backoff delay itself without jitter, or with jitter any value from the jitter
/// floor up to it.
pub open spec fn delay_allowed(c: RetryConfig, attempts: u32, d: nat) -> bool {
    if c.jitter {
        jitter_floor(c) <= d <= backoff_delay(c, attempts)
    } else {
        d == backoff_delay(c, attempts)
    }
}

proof fn lemma_scaled_backoff_step(base: nat, m: nat, k: nat)
    requires
        m >= MULTIPLIER_UNIT,
    ensures
        scaled_backoff(base, m, k) <= scaled_backoff(base, m, k + 1),
{
    let x = scaled_backoff(base, m, k);
    assert(scaled_backoff(base, m, k + 1) == x * m / 1000);
    assert(x * m >= x * 1000) by (nonlinear_arith)
        requires m >= 1000;
    assert(x * m / 1000 >= x * 1000 / 1000) by (nonlinear_arith)
        requires x * m >= x * 1000;
    assert(x * 1000 / 1000 == x) by (nonlinear_arith);
}

proof fn lemma_scaled_backoff_monotone(base: nat, m: nat, i: nat, j: nat)
    requires
        m >= MULTIPLIER_UNIT,
        i <= j,
    ensures
        scaled_backoff(base, m, i) <= scaled_backoff(base, m, j),
    decreases j - i,
{
    if i < j {
        lemma_scaled_backoff_step(base, m, i);
        lemma_scaled_backoff_monotone(base, m, i + 1, j);
    }
}

/// The backoff delay never exceeds the maximum delay, is at least the base delay,
/// does not shrink as the attempt number grows, and is the maximum delay exactly once
/// the uncapped exponential value reaches it.
pub proof fn lemma_backoff_capped_and_growing(c: RetryConfig, a1: u32, a2: u32)
    requires
        c.is_valid(),
        a1 <= a2,
    ensures
        c.base_delay_ms <= backoff_delay(c, a1) <= c.max_delay_ms,
        backoff_delay(c, a1) <= backoff_delay(c, a2),
        scaled_backoff(
            c.base_delay_ms as nat,
            c.backoff_multiplier_milli as nat,
            if a1 == 0 { 0 } else { (a1 - 1) as nat },
        ) >= c.max_delay_ms * BACKOFF_RESOLUTION ==> backoff_delay(c, a1) == c.max_delay_ms,
{
    let base = c.base_delay_ms as nat;
    let m = c.backoff_multiplier_milli as nat;
    let k1: nat = if a1 == 0 { 0 } else { (a1 - 1) as nat };
    let k2: nat = if a2 == 0 { 0 } else { (a2 - 1) as nat };
    lemma_scaled_backoff_monotone(base, m, 0, k1);
    lemma_scaled_backoff_monotone(base, m, k1, k2);
    let s0 = scaled_backoff(base, m, 0);
    let s1 = scaled_backoff(base, m, k1);
    let s2 = scaled_backoff(base, m, k2);
    assert(s0 / 1_000_000 == base) by (nonlinear_arith)
        requires s0 == base * 1_000_000;
    assert(s0 / 1_000_000 <= s1 / 1_000_000) by (nonlinear_arith)
        requires s0 <= s1;
    assert(s1 / 1_000_000 <= s2 / 1_000_000) by (nonlinear_arith)
        requires s1 <= s2;
    if s1 >= c.max_delay_ms * 1_000_000 {
        assert(s1 / 1_000_000 >= c.max_delay_ms) by (nonlinear_arith)
            requires s1 >= c.max_delay_ms * 1_000_000;
    }
}

/// A retry policy over a configuration.
#[derive(Debug)]
pub struct RetryPolicy {
    pub config: RetryConfig,
}

/// Relies on rand's `thread_rng` and `Rng::gen_range`: a draw from `0..=hi`.
#[verifier::external_body]
fn random_up_to(hi: u64) -> (r: u64)
    ensures
        r <= hi,
{
    rand::Rng::gen_range(&mut rand::thread_rng(), 0..=hi)
}

impl RetryPolicy {
    /// A policy over `config`, which must obey its rules.
    pub fn new(config: RetryConfig) -> (r: Result<Self, RetryError>)
        ensures
            r is Ok <==> config.is_valid(),
            r matches Ok(p) ==> p.config == config,
            r matches Err(e) ==> (e matches RetryError::InvalidConfig(m) && m@ == config.problem()),
    {
        match Self::validate_config(&config) {
            Ok(()) => Ok(RetryPolicy { config }),
            Err(e) => Err(e),
        }
    }

    fn validate_config(config: &RetryConfig) -> (r: Result<(), RetryError>)
        ensures
            r is Ok <==> config.is_valid(),
            r matches Err(e) ==> (e matches RetryError::InvalidConfig(m) && m@ == config.problem()),
    {
        if config.max_attempts == 0 {
            return Err(RetryError::InvalidConfig("max_attempts must be > 0".to_owned()));
        }
        if config.base_delay_ms == 0 {
            return Err(RetryError::InvalidConfig("base_delay must be > 0".to_owned()));
        }
        if config.max_delay_ms <= config.base_delay_ms {
            return Err(RetryError::InvalidConfig("max_delay must be > base_delay".to_owned()));
        }
        if config.backoff_multiplier_milli as u64 <= MULTIPLIER_UNIT {
            return Err(RetryError::InvalidConfig("backoff_multiplier must be > 1.0".to_owned()));
        }
        Ok(())
    }

    /// A job that has had `attempts` deliveries is retried while under the budget.
    pub fn should_retry(&self, attempts: u32) -> (r: bool)
        ensures
            r == (attempts < self.config.max_attempts),
    {
        attempts < self.config.max_attempts
    }

    /// The backoff delay before attempt number `attempts`, before jitter.
    pub fn backoff_delay(&self, attempts: u32) -> (r: u64)
        requires
            self.config.is_valid(),
        ensures
            r == backoff_delay(self.config, attempts),
    {
        let c = self.config;
        let k: u32 = if attempts == 0 { 0 } else { attempts - 1 };
        let cap: u128 = c.max_delay_ms as u128 * BACKOFF_RESOLUTION;
        let m: u128 = c.backoff_multiplier_milli as u128;
        let mut d: u128 = c.base_delay_ms as u128 * BACKOFF_RESOLUTION;
        let mut i: u32 = 0;
        let ghost base = c.base_delay_ms as nat;
        while i < k && d < cap
            invariant
                c == self.config,
                c.is_valid(),
                i <= k,
                m == c.backoff_multiplier_milli,
                cap == c.max_delay_ms * BACKOFF_RESOLUTION,
                d == scaled_backoff(base, m as nat, i as nat),
            decreases k - i,
        {
            assert(d * m < 0x1_0000_0000_0000_0000_0000_0000_0000_0000) by (nonlinear_arith)
                requires
                    d < cap,
                    cap == c.max_delay_ms * 1_000_000,
                    c.max_delay_ms < 0x1_0000_0000_0000_0000,
                    m < 0x1_0000_0000,
            ;
            d = d * m / (MULTIPLIER_UNIT as u128);
            i = i + 1;
        }
        proof {
            lemma_scaled_backoff_monotone(base, m as nat, i as nat, k as nat);
        }
        if d >= cap {
            proof {
                let s = scaled_backoff(base, m as nat, k as nat);
                assert(s / 1_000_000 >= c.max_delay_ms) by (nonlinear_arith)
                    requires s >= c.max_delay_ms * 1_000_000;
            }
            c.max_delay_ms
        } else {
            assert(d / 1_000_000 < c.max_delay_ms) by (nonlinear_arith)
                requires d < c.max_delay_ms * 1_000_000;
            (d / BACKOFF_RESOLUTION) as u64
        }
    }

    /// The delay before attempt number `attempts`: the backoff delay, randomized when
    /// the configuration asks for jitter.
    pub fn calculate_delay(&self, attempts: u32) -> (r: u64)
        requires
            self.config.is_valid(),
        ensures
            delay_allowed(self.config, attempts, r as nat),
    {
        let delay = self.backoff_delay(attempts);
        if self.config.jitter {
            proof {
                lemma_backoff_capped_and_growing(self.config, attempts, attempts);
            }
            self.add_jitter(delay)
        } else {
            delay
        }
    }

    fn add_jitter(&self, delay: u64) -> (r: u64)
        requires
            jitter_floor(self.config) <= delay,
        ensures
            jitter_floor(self.config) <= r <= delay,
    {
        let draw = random_up_to(delay);
        self.apply_jitter(draw)
    }

    /// The jittered delay for a random draw `draw` from `0..=delay`: the draw, raised to
    /// the jitter floor.
    pub fn apply_jitter(&self, draw: u64) -> (r: u64)
        ensures
            r == (if draw >= jitter_floor(self.config) { draw as nat } else { jitter_floor(self.config) }),
    {
        let quarter = self.config.base_delay_ms / 4;
        let floor = if quarter > 1 { quarter } else { 1 };
        if draw >= floor { draw } else { floor }
    }

    /// The delay before the next attempt of `job`, or `None` when its retry budget is
    /// exhausted and it is to be routed to terminal failure.
    pub fn next_attempt_delay(&self, job: &QueuedJob) -> (r: Option<u64>)
        requires
            self.config.is_valid(),
        ensures
            r is None <==> !(job.attempts < self.config.max_attempts),
            r matches Some(d) ==> delay_allowed(self.config, (job.attempts + 1) as u32, d as nat),
    {
        if self.should_retry(job.attempts) {
            Some(self.calculate_delay(job.attempts + 1))
        } else {
            None
        }
    }
}

} // verus!
