//! Process-wide request counters and a latency histogram, with a renderer
//! for the plaintext exposition format that a monitoring scraper reads.
//!
//! Latencies are carried as whole nanoseconds; the renderer prints them as
//! seconds with nine fractional digits. All counters saturate at the machine
//! limit instead of wrapping: they are monotone for the process lifetime.

use vstd::prelude::*;
use vstd::arithmetic::div_mod::lemma_div_decreases;

verus! {

/// A counter advanced by one, stopping at the machine limit.
pub open spec fn sat_inc(c: u64) -> u64 {
    if c == u64::MAX {
        u64::MAX
    } else {
        (c + 1) as u64
    }
}

/// A sum advanced by `b`, stopping at the machine limit.
pub open spec fn sat_add(a: u64, b: u64) -> u64 {
    if a + b <= u64::MAX {
        (a + b) as u64
    } else {
        u64::MAX
    }
}

/// The character of one decimal digit.
pub open spec fn dec_digit_char(d: nat) -> char {
    if d == 0 {
        '0'
    } else if d == 1 {
        '1'
    } else if d == 2 {
        '2'
    } else if d == 3 {
        '3'
    } else if d == 4 {
        '4'
    } else if d == 5 {
        '5'
    } else if d == 6 {
        '6'
    } else if d == 7 {
        '7'
    } else if d == 8 {
        '8'
    } else {
        '9'
    }
}

/// The decimal digits of `n`, most significant first, with no leading zero
/// except for `n == 0` itself.
pub open spec fn dec_str(n: nat) -> Seq<char>
    decreases n,
{
    if n < 10 {
        seq![dec_digit_char(n)]
    } else {
        dec_str(n / 10) + seq![dec_digit_char(n % 10)]
    }
}

/// Nine zero-padded decimal digits: the fractional part of a nanosecond
/// count printed as seconds.
pub open spec fn frac9(n: nat) -> Seq<char> {
    seq![dec_digit_char((n / 100000000) % 10)] + seq![dec_digit_char((n / 10000000) % 10)]
        + seq![dec_digit_char((n / 1000000) % 10)] + seq![dec_digit_char((n / 100000) % 10)]
        + seq![dec_digit_char((n / 10000) % 10)] + seq![dec_digit_char((n / 1000) % 10)]
        + seq![dec_digit_char((n / 100) % 10)] + seq![dec_digit_char((n / 10) % 10)]
        + seq![dec_digit_char(n % 10)]
}

/// A nanosecond total printed as seconds: whole seconds, a point, then nine
/// fractional digits.
pub open spec fn secs_str(nanos: nat) -> Seq<char> {
    dec_str(nanos / 1000000000) + "."@ + frac9(nanos % 1000000000)
}

fn digit_str(d: u64) -> (r: &'static str)
    requires
        d < 10,
    ensures
        r@ == seq![dec_digit_char(d as nat)],
{
    let r: &'static str = match d {
        0 => "0",
        1 => "1",
        2 => "2",
        3 => "3",
        4 => "4",
        5 => "5",
        6 => "6",
        7 => "7",
        8 => "8",
        _ => "9",
    };
    proof {
        reveal_strlit("0");
        reveal_strlit("1");
        reveal_strlit("2");
        reveal_strlit("3");
        reveal_strlit("4");
        reveal_strlit("5");
        reveal_strlit("6");
        reveal_strlit("7");
        reveal_strlit("8");
        reveal_strlit("9");
        assert(r@ =~= seq![dec_digit_char(d as nat)]);
    }
    r
}

/// The decimal rendering of a machine integer.
pub fn u64_to_dec(n: u64) -> (r: String)
    ensures
        r@ == dec_str(n as nat),
    decreases n,
{
    if n < 10 {
        let mut s = String::new();
        s.append(digit_str(n));
        proof {
            assert(s@ =~= dec_str(n as nat));
        }
        s
    } else {
        proof {
            lemma_div_decreases(n as int, 10);
        }
        let mut s = u64_to_dec(n / 10);
        s.append(digit_str(n % 10));
        proof {
            assert(s@ =~= dec_str(n as nat));
        }
        s
    }
}

/// The upper bound of each latency bucket, in nanoseconds.
pub open spec fn bucket_bound(i: int) -> u64 {
    if i == 0 {
        5000000u64
    } else if i == 1 {
        10000000u64
    } else if i == 2 {
        25000000u64
    } else if i == 3 {
        50000000u64
    } else if i == 4 {
        100000000u64
    } else if i == 5 {
        250000000u64
    } else if i == 6 {
        500000000u64
    } else if i == 7 {
        1000000000u64
    } else if i == 8 {
        2500000000u64
    } else if i == 9 {
        5000000000u64
    } else {
        10000000000u64
    }
}

/// The label of each latency bucket: its bound in seconds.
pub open spec fn bucket_label(i: int) -> Seq<char> {
    if i == 0 {
        "0.005"@
    } else if i == 1 {
        "0.01"@
    } else if i == 2 {
        "0.025"@
    } else if i == 3 {
        "0.05"@
    } else if i == 4 {
        "0.1"@
    } else if i == 5 {
        "0.25"@
    } else if i == 6 {
        "0.5"@
    } else if i == 7 {
        "1"@
    } else if i == 8 {
        "2.5"@
    } else if i == 9 {
        "5"@
    } else {
        "10"@
    }
}

fn bucket_bound_at(i: usize) -> (r: u64)
    requires
        i < 11,
    ensures
        r == bucket_bound(i as int),
{
    match i {
        0 => 5000000u64,
        1 => 10000000u64,
        2 => 25000000u64,
        3 => 50000000u64,
        4 => 100000000u64,
        5 => 250000000u64,
        6 => 500000000u64,
        7 => 1000000000u64,
        8 => 2500000000u64,
        9 => 5000000000u64,
        _ => 10000000000u64,
    }
}

fn bucket_label_at(i: usize) -> (r: &'static str)
    requires
        i < 11,
    ensures
        r@ == bucket_label(i as int),
{
    match i {
        0 => "0.005",
        1 => "0.01",
        2 => "0.025",
        3 => "0.05",
        4 => "0.1",
        5 => "0.25",
        6 => "0.5",
        7 => "1",
        8 => "2.5",
        9 => "5",
        _ => "10",
    }
}

/// Cumulative bucket counts after one more sample of `nanos` nanoseconds:
/// every bucket whose bound covers the sample grows by one.
pub open spec fn observe_buckets(counts: Seq<u64>, nanos: u64) -> Seq<u64> {
    Seq::new(
        counts.len(),
        |i: int|
            if nanos <= bucket_bound(i) {
                sat_inc(counts[i])
            } else {
                counts[i]
            },
    )
}

/// The process-wide counters: how many requests were served, and a
/// cumulative histogram of their latencies in seconds.
pub struct MetricsState {
    requests_total: u64,
    duration_count: u64,
    duration_sum_nanos: u64,
    bucket_counts: Vec<u64>,
}

impl MetricsState {
    /// How many requests were counted.
    pub closed spec fn requests(&self) -> u64 {
        self.requests_total
    }

    /// How many latency samples the histogram holds.
    pub closed spec fn samples(&self) -> u64 {
        self.duration_count
    }

    /// The summed latency of all samples, in nanoseconds.
    pub closed spec fn sum_nanos(&self) -> u64 {
        self.duration_sum_nanos
    }

    /// The cumulative per-bucket sample counts.
    pub closed spec fn buckets(&self) -> Seq<u64> {
        self.bucket_counts@
    }

    pub open spec fn wf(&self) -> bool {
        self.buckets().len() == 11
    }

    /// A fresh registry: every counter and every bucket at zero.
    pub fn new() -> (r: MetricsState)
        ensures
            r.wf(),
            r.requests() == 0,
            r.samples() == 0,
            r.sum_nanos() == 0,
            r.buckets() =~= seq![0u64; 11],
    {
        let mut counts: Vec<u64> = Vec::new();
        let mut i: usize = 0;
        while i < 11
            invariant
                i <= 11,
                counts@.len() == i,
                forall|j: int| 0 <= j < i ==> counts@[j] == 0u64,
            decreases 11 - i,
        {
            counts.push(0u64);
            i = i + 1;
        }
        let r = MetricsState {
            requests_total: 0,
            duration_count: 0,
            duration_sum_nanos: 0,
            bucket_counts: counts,
        };
        proof {
            assert(r.buckets() =~= seq![0u64; 11]);
        }
        r
    }

    /// Counts one more served request; everything else stays.
    pub fn inc_requests(&mut self)
        ensures
            final(self).requests() == sat_inc(old(self).requests()),
            final(self).samples() == old(self).samples(),
            final(self).sum_nanos() == old(self).sum_nanos(),
            final(self).buckets() == old(self).buckets(),
    {
        if self.requests_total < u64::MAX {
            self.requests_total = self.requests_total + 1;
        }
    }

    /// The value of the request counter.
    pub fn requests_total(&self) -> (r: u64)
        ensures
            r == self.requests(),
    {
        self.requests_total
    }

    /// The number of latency samples observed so far.
    pub fn sample_count(&self) -> (r: u64)
        ensures
            r == self.samples(),
    {
        self.duration_count
    }
}

/// Adds one latency sample of `duration_nanos` nanoseconds to the histogram:
/// the sample count grows by one, the sum by the sample, and every bucket
/// that covers the sample by one. The request counter stays.
pub fn record_request_duration(metrics: &mut MetricsState, duration_nanos: u64)
    requires
        old(metrics).wf(),
    ensures
        final(metrics).wf(),
        final(metrics).requests() == old(metrics).requests(),
        final(metrics).samples() == sat_inc(old(metrics).samples()),
        final(metrics).sum_nanos() == sat_add(old(metrics).sum_nanos(), duration_nanos),
        final(metrics).buckets() == observe_buckets(old(metrics).buckets(), duration_nanos),
{
    if metrics.duration_count < u64::MAX {
        metrics.duration_count = metrics.duration_count + 1;
    }
    if metrics.duration_sum_nanos <= u64::MAX - duration_nanos {
        metrics.duration_sum_nanos = metrics.duration_sum_nanos + duration_nanos;
    } else {
        metrics.duration_sum_nanos = u64::MAX;
    }
    let mut i: usize = 0;
    while i < 11
        invariant
            i <= 11,
            old(metrics).buckets().len() == 11,
            metrics.buckets().len() == 11,
            metrics.requests() == old(metrics).requests(),
            metrics.samples() == sat_inc(old(metrics).samples()),
            metrics.sum_nanos() == sat_add(old(metrics).sum_nanos(), duration_nanos),
            forall|j: int| 0 <= j < i ==> metrics.buckets()[j] == observe_buckets(
                old(metrics).buckets(),
                duration_nanos,
            )[j],
            forall|j: int| i <= j < 11 ==> metrics.buckets()[j] == old(metrics).buckets()[j],
        decreases 11 - i,
    {
        if duration_nanos <= bucket_bound_at(i) {
            let c = metrics.bucket_counts[i];
            if c < u64::MAX {
                metrics.bucket_counts.set(i, c + 1);
            }
        }
        i = i + 1;
    }
    proof {
        assert(metrics.buckets() =~= observe_buckets(old(metrics).buckets(), duration_nanos));
    }
}

/// One sample line of the histogram.
pub open spec fn bucket_line(i: int, c: u64) -> Seq<char> {
    "proxy_request_duration_seconds_bucket{le=\""@ + bucket_label(i) + "\"} "@ + dec_str(c as nat)
        + "\n"@
}

/// The first `i` bucket lines of the histogram.
pub open spec fn bucket_lines(counts: Seq<u64>, i: int) -> Seq<char>
    decreases i,
{
    if i <= 0 {
        Seq::<char>::empty()
    } else {
        bucket_lines(counts, i - 1) + bucket_line(i - 1, counts[i - 1])
    }
}

/// The exposition block of the latency histogram: name, help text, type,
/// one cumulative line per bucket, the unbounded bucket, the sum and the
/// sample count.
pub open spec fn histogram_text(samples: u64, sum: u64, counts: Seq<u64>) -> Seq<char> {
    "# HELP proxy_request_duration_seconds HTTP request durations\n# TYPE proxy_request_duration_seconds histogram\n"@
        + bucket_lines(counts, 11) + "proxy_request_duration_seconds_bucket{le=\"+Inf\"} "@
        + dec_str(samples as nat) + "\nproxy_request_duration_seconds_sum "@ + secs_str(sum as nat)
        + "\nproxy_request_duration_seconds_count "@ + dec_str(samples as nat) + "\n"@
}

/// The exposition block of the request counter.
pub open spec fn counter_text(requests: u64) -> Seq<char> {
    "# HELP proxy_requests_total Total number of HTTP requests processed by the proxy\n# TYPE proxy_requests_total counter\nproxy_requests_total "@
        + dec_str(requests as nat) + "\n"@
}

impl MetricsState {
    /// The full exposition document for this state: the histogram block,
    /// then the counter block.
    pub open spec fn rendered(&self) -> Seq<char> {
        histogram_text(self.samples(), self.sum_nanos(), self.buckets()) + counter_text(
            self.requests(),
        )
    }

    /// Renders every metric as the plaintext exposition document. Reads the
    /// state without changing it, and succeeds as well with zero
    /// observations as with any other state.
    pub fn render(&self) -> (r: String)
        requires
            self.wf(),
        ensures
            r@ == self.rendered(),
    {
        let mut s = String::new();
        self.append_histogram(&mut s);
        self.append_counter(&mut s);
        proof {
            assert(s@ =~= self.rendered());
        }
        s
    }

    fn append_histogram(&self, s: &mut String)
        requires
            self.wf(),
        ensures
            final(s)@ == old(s)@ + histogram_text(self.samples(), self.sum_nanos(), self.buckets()),
    {
        let ghost start = s@;
        s.append(
            "# HELP proxy_request_duration_seconds HTTP request durations\n# TYPE proxy_request_duration_seconds histogram\n",
        );
        let ghost head = s@;
        let mut i: usize = 0;
        while i < 11
            invariant
                self.wf(),
                i <= 11,
                s@ == head + bucket_lines(self.buckets(), i as int),
            decreases 11 - i,
        {
            s.append("proxy_request_duration_seconds_bucket{le=\"");
            s.append(bucket_label_at(i));
            s.append("\"} ");
            append_u64(s, self.bucket_counts[i]);
            s.append("\n");
            proof {
                assert(s@ =~= head + bucket_lines(self.buckets(), i as int + 1));
            }
            i = i + 1;
        }
        s.append("proxy_request_duration_seconds_bucket{le=\"+Inf\"} ");
        append_u64(s, self.duration_count);
        s.append("\nproxy_request_duration_seconds_sum ");
        append_secs(s, self.duration_sum_nanos);
        s.append("\nproxy_request_duration_seconds_count ");
        append_u64(s, self.duration_count);
        s.append("\n");
        proof {
            assert(s@ =~= start + histogram_text(self.samples(), self.sum_nanos(), self.buckets()));
        }
    }

    fn append_counter(&self, s: &mut String)
        ensures
            final(s)@ == old(s)@ + counter_text(self.requests()),
    {
        s.append(
            "# HELP proxy_requests_total Total number of HTTP requests processed by the proxy\n# TYPE proxy_requests_total counter\nproxy_requests_total ",
        );
        append_u64(s, self.requests_total);
        s.append("\n");
        proof {
            assert(s@ =~= old(s)@ + counter_text(self.requests()));
        }
    }
}

fn append_u64(s: &mut String, n: u64)
    ensures
        final(s)@ == old(s)@ + dec_str(n as nat),
{
    let d = u64_to_dec(n);
    s.append(d.as_str());
}

#[verifier::rlimit(60)]
fn append_secs(s: &mut String, nanos: u64)
    ensures
        final(s)@ == old(s)@ + secs_str(nanos as nat),
{
    append_u64(s, nanos / 1000000000);
    s.append(".");
    proof {
        assert(s@ =~= old(s)@ + (dec_str((nanos / 1000000000) as nat) + "."@));
    }
    let f = nanos % 1000000000;
    s.append(digit_str((f / 100000000) % 10));
    s.append(digit_str((f / 10000000) % 10));
    s.append(digit_str((f / 1000000) % 10));
    s.append(digit_str((f / 100000) % 10));
    s.append(digit_str((f / 10000) % 10));
    s.append(digit_str((f / 1000) % 10));
    s.append(digit_str((f / 100) % 10));
    s.append(digit_str((f / 10) % 10));
    s.append(digit_str(f % 10));
    proof {
        assert(s@ =~= old(s)@ + secs_str(nanos as nat));
    }
}

/// The content type that the metrics document is served under.
pub fn metrics_content_type() -> (r: &'static str)
    ensures
        r@ == "text/plain; version=0.0.4"@,
{
    "text/plain; version=0.0.4"
}

/// The value of a counter after `k` saturating increments from zero.
pub open spec fn sat_inc_iter(k: nat) -> u64
    decreases k,
{
    if k == 0 {
        0u64
    } else {
        sat_inc(sat_inc_iter((k - 1) as nat))
    }
}

/// A counter incremented once per served request reads exactly the number
/// of requests served since the fresh registry, capped at the machine
/// limit — so it reports at least `k` whenever `k` fits the machine.
pub proof fn lemma_counter_reads_request_count(k: nat)
    ensures
        sat_inc_iter(k) == if k <= u64::MAX {
            k as u64
        } else {
            u64::MAX
        },
    decreases k,
{
    if k > 0 {
        lemma_counter_reads_request_count((k - 1) as nat);
    }
}

/// One served request advances the request counter and the histogram sample
/// count in step: counted once when accepted and observed once when done, a
/// state where the two agree moves to a state where they agree again.
pub proof fn lemma_request_accounting(
    before: MetricsState,
    counted: MetricsState,
    done: MetricsState,
)
    requires
        before.requests() == before.samples(),
        counted.requests() == sat_inc(before.requests()),
        counted.samples() == before.samples(),
        done.requests() == counted.requests(),
        done.samples() == sat_inc(counted.samples()),
    ensures
        done.requests() == done.samples(),
{
}

} // verus!
