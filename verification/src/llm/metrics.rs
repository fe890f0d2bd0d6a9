//! Request, cache and error counters for monitoring the local model.

use vstd::prelude::*;
use crate::text::{chars_of, equal_chars};

verus! {

broadcast use vstd::string::group_string_axioms;

/// The counter values, each wrapping around at 2^64.
#[derive(Debug, Clone, Copy, PartialEq, Eq, Structural)]
pub struct MetricsCounts {
    pub requests_total: u64,
    pub requests_success: u64,
    pub requests_error: u64,
    pub cache_hits: u64,
    pub cache_misses: u64,
    pub total_latency_ms: u64,
    pub tokens_generated: u64,
    pub errors_network: u64,
    pub errors_parse: u64,
    pub errors_timeout: u64,
}

/// Every counter at zero.
pub open spec fn zero_counts() -> MetricsCounts {
    MetricsCounts {
        requests_total: 0,
        requests_success: 0,
        requests_error: 0,
        cache_hits: 0,
        cache_misses: 0,
        total_latency_ms: 0,
        tokens_generated: 0,
        errors_network: 0,
        errors_parse: 0,
        errors_timeout: 0,
    }
}

/// The counters after one successful request.
pub open spec fn after_success(c: MetricsCounts, latency_ms: u64, tokens: u32) -> MetricsCounts {
    MetricsCounts {
        requests_total: c.requests_total.wrapping_add(1),
        requests_success: c.requests_success.wrapping_add(1),
        total_latency_ms: c.total_latency_ms.wrapping_add(latency_ms),
        tokens_generated: c.tokens_generated.wrapping_add(tokens as u64),
        ..c
    }
}

/// The counters after one failed request of the given kind; a kind other than
/// network, parse or timeout is counted in the totals only.
pub open spec fn after_error(c: MetricsCounts, error_type: Seq<char>) -> MetricsCounts {
    let base = MetricsCounts {
        requests_total: c.requests_total.wrapping_add(1),
        requests_error: c.requests_error.wrapping_add(1),
        ..c
    };
    if error_type == "network"@ {
        MetricsCounts { errors_network: c.errors_network.wrapping_add(1), ..base }
    } else if error_type == "parse"@ {
        MetricsCounts { errors_parse: c.errors_parse.wrapping_add(1), ..base }
    } else if error_type == "timeout"@ {
        MetricsCounts { errors_timeout: c.errors_timeout.wrapping_add(1), ..base }
    } else {
        base
    }
}

/// Every request counted is counted once, as a success or as an error.
pub open spec fn balanced(c: MetricsCounts) -> bool {
    c.requests_total == c.requests_success.wrapping_add(c.requests_error)
}

/// Request, cache and error counters.
pub struct Metrics {
    counts: MetricsCounts,
}

impl View for Metrics {
    type V = MetricsCounts;

    closed spec fn view(&self) -> MetricsCounts {
        self.counts
    }
}

impl Metrics {
    #[verifier::type_invariant]
    spec fn well_formed(self) -> bool {
        balanced(self.counts)
    }

    /// Fresh counters, all zero.
    pub fn new() -> (r: Self)
        ensures
            r@ == zero_counts(),
    {
        Metrics {
            counts: MetricsCounts {
                requests_total: 0,
                requests_success: 0,
                requests_error: 0,
                cache_hits: 0,
                cache_misses: 0,
                total_latency_ms: 0,
                tokens_generated: 0,
                errors_network: 0,
                errors_parse: 0,
                errors_timeout: 0,
            },
        }
    }

    /// The current counter values; totals always equal successes plus errors.
    pub fn counts(&self) -> (r: MetricsCounts)
        ensures
            r == self@,
            balanced(r),
    {
        proof {
            use_type_invariant(self);
        }
        self.counts
    }

    /// Starts timing a request; the timer reports to these counters.
    pub fn record_request_start(&self) -> (r: RequestTimer) {
        RequestTimer { start: now() }
    }

    /// Counts one successful request, its latency and its generated tokens.
    pub fn record_success(&mut self, latency_ms: u64, tokens: u32)
        ensures
            final(self)@ == after_success(old(self)@, latency_ms, tokens),
    {
        proof {
            use_type_invariant(&*self);
        }
        let c = self.counts;
        self.counts = MetricsCounts {
            requests_total: c.requests_total.wrapping_add(1),
            requests_success: c.requests_success.wrapping_add(1),
            total_latency_ms: c.total_latency_ms.wrapping_add(latency_ms),
            tokens_generated: c.tokens_generated.wrapping_add(tokens as u64),
            ..c
        };
    }

    /// Counts one failed request and, for a network, parse or timeout error,
    /// its kind.
    pub fn record_error(&mut self, error_type: &str)
        ensures
            final(self)@ == after_error(old(self)@, error_type@),
    {
        proof {
            use_type_invariant(&*self);
        }
        let c = self.counts;
        let kind = chars_of(error_type);
        let mut next = MetricsCounts {
            requests_total: c.requests_total.wrapping_add(1),
            requests_error: c.requests_error.wrapping_add(1),
            ..c
        };
        if equal_chars(&kind, &chars_of("network")) {
            next.errors_network = c.errors_network.wrapping_add(1);
        } else if equal_chars(&kind, &chars_of("parse")) {
            next.errors_parse = c.errors_parse.wrapping_add(1);
        } else if equal_chars(&kind, &chars_of("timeout")) {
            next.errors_timeout = c.errors_timeout.wrapping_add(1);
        }
        self.counts = next;
    }

    /// Counts one cache hit.
    pub fn record_cache_hit(&mut self)
        ensures
            final(self)@ == (MetricsCounts { cache_hits: old(self)@.cache_hits.wrapping_add(1), ..old(self)@ }),
    {
        proof {
            use_type_invariant(&*self);
        }
        let c = self.counts;
        self.counts = MetricsCounts { cache_hits: c.cache_hits.wrapping_add(1), ..c };
    }

    /// Counts one cache miss.
    pub fn record_cache_miss(&mut self)
        ensures
            final(self)@ == (MetricsCounts { cache_misses: old(self)@.cache_misses.wrapping_add(1), ..old(self)@ }),
    {
        proof {
            use_type_invariant(&*self);
        }
        let c = self.counts;
        self.counts = MetricsCounts { cache_misses: c.cache_misses.wrapping_add(1), ..c };
    }

    /// Sets every counter back to zero.
    pub fn reset(&mut self)
        ensures
            final(self)@ == zero_counts(),
    {
        self.counts = MetricsCounts {
            requests_total: 0,
            requests_success: 0,
            requests_error: 0,
            cache_hits: 0,
            cache_misses: 0,
            total_latency_ms: 0,
            tokens_generated: 0,
            errors_network: 0,
            errors_parse: 0,
            errors_timeout: 0,
        };
    }
}

/// A point in time of the monotonic clock (`std::time::Instant`).
#[verifier::external_type_specification]
#[verifier::external_body]
pub struct ExInstant(std::time::Instant);

/// `Instant::now`: the current time; nothing is stated of it.
#[verifier::external_body]
fn now() -> (r: std::time::Instant) {
    std::time::Instant::now()
}

/// `Instant::elapsed` in whole milliseconds, truncated to 64 bits by an
/// `as u64` cast; it depends on the clock, so nothing is stated.
#[verifier::external_body]
fn elapsed_ms(start: &std::time::Instant) -> (r: u64) {
    start.elapsed().as_millis() as u64
}

/// Times one request from its start.
pub struct RequestTimer {
    start: std::time::Instant,
}

impl RequestTimer {
    /// Ends the request as a success: counts it with the time elapsed since
    /// the start, whatever the clock reports, and its generated tokens.
    pub fn stop_success(self, metrics: &mut Metrics, tokens: u32)
        ensures
            exists|latency_ms: u64| final(metrics)@ == after_success(old(metrics)@, latency_ms, tokens),
    {
        let elapsed = elapsed_ms(&self.start);
        metrics.record_success(elapsed, tokens);
    }

    /// Ends the request as a failure of the given kind.
    pub fn stop_error(self, metrics: &mut Metrics, error_type: &str)
        ensures
            final(metrics)@ == after_error(old(metrics)@, error_type@),
    {
        metrics.record_error(error_type);
    }
}

/// Whatever sequence of operations produced them, the counters balance:
/// the request total is the number of successes plus the number of errors
/// (modulo 2^64), since each operation keeps that balance.
pub proof fn lemma_operations_keep_balance(c: MetricsCounts, latency_ms: u64, tokens: u32, error_type: Seq<char>)
    requires
        balanced(c),
    ensures
        balanced(zero_counts()),
        balanced(after_success(c, latency_ms, tokens)),
        balanced(after_error(c, error_type)),
        balanced(MetricsCounts { cache_hits: c.cache_hits.wrapping_add(1), ..c }),
        balanced(MetricsCounts { cache_misses: c.cache_misses.wrapping_add(1), ..c }),
{
}

} // verus!
