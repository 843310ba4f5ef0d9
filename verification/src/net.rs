//! The request policy of the API client: URLs, which requests are retried
//! and after how long, and how the next page of a listing is found.

use crate::hosts::CanvasHost;
use crate::text::{contains, is_ws, parse_u64_spec, parse_u64, push_char, push_str, str_eq, trim, trim_str};
use vstd::prelude::*;

verus! {

/// An HTTP method.
#[derive(Debug, Clone, Copy, PartialEq, Eq, Structural)]
pub enum HttpMethod {
    Get,
    Head,
    Post,
    Put,
    Patch,
    Delete,
    Options,
}

/// Whether repeating a request of `method` has the effect of sending it once.
pub open spec fn idempotent(method: HttpMethod) -> bool {
    match method {
        HttpMethod::Get | HttpMethod::Head | HttpMethod::Put | HttpMethod::Delete
        | HttpMethod::Options => true,
        HttpMethod::Post | HttpMethod::Patch => false,
    }
}

/// Whether repeating a request of `method` has the effect of sending it once.
pub fn is_idempotent(method: HttpMethod) -> (r: bool)
    ensures
        r == idempotent(method),
{
    match method {
        HttpMethod::Get | HttpMethod::Head | HttpMethod::Put | HttpMethod::Delete
        | HttpMethod::Options => true,
        HttpMethod::Post | HttpMethod::Patch => false,
    }
}

/// Whether a response status is one worth retrying: too many requests, or a
/// server-side failure (500, 502, 503, 504).
pub open spec fn transient_status(status: u16) -> bool {
    status == 429 || status == 500 || status == 502 || status == 503 || status == 504
}

/// Whether a request that got `status` is retried: only idempotent requests,
/// and only on a transient status.
pub fn should_retry(method: HttpMethod, status: Option<u16>) -> (r: bool)
    ensures
        r == (idempotent(method) && (status matches Some(s) && transient_status(s))),
{
    if !is_idempotent(method) {
        return false;
    }
    match status {
        Some(s) => s == 429 || s == 500 || s == 502 || s == 503 || s == 504,
        None => false,
    }
}

/// Whether a request that got no response is retried: only idempotent
/// requests, and only after a timeout or a failed connection.
pub fn should_retry_error(method: HttpMethod, timed_out: bool, connect_failed: bool) -> (r: bool)
    ensures
        r == (idempotent(method) && (timed_out || connect_failed)),
{
    if !is_idempotent(method) {
        return false;
    }
    timed_out || connect_failed
}

/// How often and how long to retry, with delays in milliseconds.
#[derive(Debug, Clone, Copy, PartialEq, Eq, Structural)]
pub struct RetryPolicy {
    pub max_retries: usize,
    pub base_delay_ms: u64,
    pub max_delay_ms: u64,
}

impl RetryPolicy {
    /// Three retries, starting at half a second, at most ten seconds apart.
    pub fn default_policy() -> (r: Self)
        ensures
            r.max_retries == 3,
            r.base_delay_ms == 500,
            r.max_delay_ms == 10000,
    {
        RetryPolicy { max_retries: 3, base_delay_ms: 500, max_delay_ms: 10000 }
    }
}

impl Default for RetryPolicy {
    fn default() -> (r: Self)
        ensures
            r.max_retries == 3,
            r.base_delay_ms == 500,
            r.max_delay_ms == 10000,
    {
        RetryPolicy::default_policy()
    }
}

/// The power of two for the `attempt`-th retry, as
/// `2_u32.saturating_pow(attempt as u32)` computes it.
pub open spec fn backoff_multiplier(attempt: usize) -> nat {
    let e = attempt as u32;
    if e < 32 {
        vstd::arithmetic::power2::pow2(e as nat)
    } else {
        0xffff_ffff
    }
}

/// The delay before the `attempt`-th retry: `base * 2^attempt`, capped at
/// `max`.
pub open spec fn backoff_ms(attempt: usize, base_ms: u64, max_ms: u64) -> int {
    let d = base_ms * backoff_multiplier(attempt);
    if d > max_ms {
        max_ms as int
    } else {
        d
    }
}

proof fn lemma_multiplier_monotonic(a: usize, b: usize)
    requires
        a <= b <= u32::MAX,
    ensures
        backoff_multiplier(a) <= backoff_multiplier(b),
{
    vstd::arithmetic::power2::lemma2_to64();
    assert(a as u32 == a);
    assert(b as u32 == b);
    if b < 32 {
        if a < b {
            vstd::arithmetic::power2::lemma_pow2_strictly_increases(a as nat, b as nat);
        }
    } else if a < 32 {
        if a < 31 {
            vstd::arithmetic::power2::lemma_pow2_strictly_increases(a as nat, 31);
        }
    }
}

/// Retry delays never shrink as attempts go on (for attempt numbers that fit
/// in `u32`; `attempt as u32` wraps beyond).
pub proof fn lemma_backoff_monotonic(a: usize, b: usize, base_ms: u64, max_ms: u64)
    requires
        a <= b <= u32::MAX,
    ensures
        backoff_ms(a, base_ms, max_ms) <= backoff_ms(b, base_ms, max_ms),
{
    lemma_multiplier_monotonic(a, b);
    let ma = backoff_multiplier(a);
    let mb = backoff_multiplier(b);
    assert(base_ms * ma <= base_ms * mb) by (nonlinear_arith)
        requires
            ma <= mb,
            base_ms >= 0,
    ;
}

/// Each retry waits twice as long as the one before until the cap: where
/// the delay before the `a`-th retry is under the cap, the next one is the
/// smaller of twice that delay and the cap (for attempt numbers below 31).
pub proof fn lemma_backoff_doubles(a: usize, base_ms: u64, max_ms: u64)
    requires
        a < 31,
        backoff_ms(a, base_ms, max_ms) < max_ms,
    ensures
        backoff_ms((a + 1) as usize, base_ms, max_ms) == if 2 * backoff_ms(a, base_ms, max_ms)
            > max_ms {
            max_ms as int
        } else {
            2 * backoff_ms(a, base_ms, max_ms)
        },
{
    vstd::arithmetic::power2::lemma_pow2_unfold((a + 1) as nat);
    assert(a as u32 == a);
    assert((a + 1) as usize as u32 == a + 1);
    let m = backoff_multiplier(a);
    assert(backoff_multiplier((a + 1) as usize) == 2 * m);
    assert(base_ms * (2 * m) == 2 * (base_ms * m)) by (nonlinear_arith);
}

fn multiplier(attempt: usize) -> (r: u32)
    ensures
        r == backoff_multiplier(attempt),
{
    let e: u32 = attempt as u32;
    if e >= 32 {
        return 0xffff_ffff;
    }
    let mut m: u32 = 1;
    let mut i: u32 = 0;
    proof {
        vstd::arithmetic::power2::lemma2_to64();
    }
    while i < e
        invariant
            i <= e < 32,
            m == vstd::arithmetic::power2::pow2(i as nat),
        decreases e - i,
    {
        proof {
            vstd::arithmetic::power2::lemma_pow2_unfold((i + 1) as nat);
            vstd::arithmetic::power2::lemma2_to64();
            vstd::arithmetic::power2::lemma_pow2_strictly_increases((i + 1) as nat, 32);
        }
        m = m * 2;
        i = i + 1;
    }
    m
}

/// The delay before the `attempt`-th retry, in milliseconds: `base * 2^attempt`
/// capped at `max` (`Duration::saturating_mul`, then the cap).
pub fn backoff_delay_ms(attempt: usize, base_ms: u64, max_ms: u64) -> (r: u64)
    ensures
        r == backoff_ms(attempt, base_ms, max_ms),
        r <= max_ms,
{
    let m = multiplier(attempt);
    assert((base_ms as u128) * (m as u128) <= u64::MAX as u128 * u32::MAX as u128) by (nonlinear_arith)
        requires
            base_ms <= u64::MAX,
            m <= u32::MAX,
    ;
    let d: u128 = (base_ms as u128) * (m as u128);
    assert(d == base_ms * backoff_multiplier(attempt)) by (nonlinear_arith)
        requires
            d == (base_ms as u128) * (m as u128),
            m == backoff_multiplier(attempt),
    ;
    if d > max_ms as u128 {
        max_ms
    } else {
        d as u64
    }
}

/// The delay a `Retry-After` header asks for, in seconds: its trimmed value
/// as a whole number.
pub fn retry_after_seconds(header: Option<&str>) -> (r: Option<u64>)
    ensures
        r == match header {
            Some(h) => parse_u64_spec(trim(h@)),
            None => None,
        },
{
    match header {
        Some(h) => parse_u64(trim_str(h)),
        None => None,
    }
}

/// The delay before the `attempt`-th retry, in milliseconds: what the server
/// asked for, or else the policy's backoff.
pub open spec fn retry_delay_spec(attempt: usize, retry_after: Option<u64>, policy: RetryPolicy) -> int {
    match retry_after {
        Some(secs) => secs * 1000,
        None => backoff_ms(attempt, policy.base_delay_ms, policy.max_delay_ms),
    }
}

/// The delay before the `attempt`-th retry, in milliseconds.
pub fn retry_delay_ms(attempt: usize, retry_after: Option<u64>, policy: &RetryPolicy) -> (r: u128)
    ensures
        r == retry_delay_spec(attempt, retry_after, *policy),
{
    match retry_after {
        Some(secs) => (secs as u128) * 1000,
        None => backoff_delay_ms(attempt, policy.base_delay_ms, policy.max_delay_ms) as u128,
    }
}

/// What came back from sending a request once.
#[derive(Debug, Clone, Copy, PartialEq, Eq, Structural)]
pub enum AttemptOutcome {
    /// A response with this status.
    Response { status: u16 },
    /// No response: the transport failed.
    Failed { timed_out: bool, connect_failed: bool },
}

/// What to do after an attempt.
#[derive(Debug, Clone, Copy, PartialEq, Eq, Structural)]
pub enum RetryStep {
    /// Hand the response to the caller.
    Deliver,
    /// Wait this many milliseconds, then send again.
    Wait { delay_ms: u128 },
    /// Report the failure.
    GiveUp,
}

/// What to do after the `attempt`-th attempt (counted from 0) came back with
/// `outcome`.
pub open spec fn retry_step_spec(
    method: HttpMethod,
    outcome: AttemptOutcome,
    attempt: usize,
    retry_after: Option<u64>,
    policy: RetryPolicy,
) -> RetryStep {
    match outcome {
        AttemptOutcome::Response { status } => if 200 <= status <= 299 {
            RetryStep::Deliver
        } else if idempotent(method) && transient_status(status) && attempt < policy.max_retries {
            RetryStep::Wait { delay_ms: retry_delay_spec(attempt, retry_after, policy) as u128 }
        } else {
            RetryStep::GiveUp
        },
        AttemptOutcome::Failed { timed_out, connect_failed } => if idempotent(method) && (
        timed_out || connect_failed) && attempt < policy.max_retries {
            RetryStep::Wait { delay_ms: retry_delay_spec(attempt, None, policy) as u128 }
        } else {
            RetryStep::GiveUp
        },
    }
}

/// Decides what to do after an attempt. A request is sent at most
/// `max_retries + 1` times: no wait is asked for once `attempt` reaches
/// `max_retries`.
pub fn next_retry_step(
    method: HttpMethod,
    outcome: AttemptOutcome,
    attempt: usize,
    retry_after: Option<u64>,
    policy: &RetryPolicy,
) -> (r: RetryStep)
    ensures
        r == retry_step_spec(method, outcome, attempt, retry_after, *policy),
        r is Wait ==> attempt < policy.max_retries,
{
    match outcome {
        AttemptOutcome::Response { status } => {
            if 200 <= status && status <= 299 {
                RetryStep::Deliver
            } else if should_retry(method, Some(status)) && attempt < policy.max_retries {
                RetryStep::Wait { delay_ms: retry_delay_ms(attempt, retry_after, policy) }
            } else {
                RetryStep::GiveUp
            }
        },
        AttemptOutcome::Failed { timed_out, connect_failed } => {
            if should_retry_error(method, timed_out, connect_failed) && attempt
                < policy.max_retries {
                RetryStep::Wait { delay_ms: retry_delay_ms(attempt, None, policy) }
            } else {
                RetryStep::GiveUp
            }
        },
    }
}

/// Whether `s` starts with `prefix`.
pub open spec fn starts_with(s: Seq<char>, prefix: Seq<char>) -> bool {
    prefix.len() <= s.len() && s.take(prefix.len() as int) == prefix
}

fn starts_with_str(s: &str, prefix: &str) -> (r: bool)
    ensures
        r == starts_with(s@, prefix@),
{
    let n = s.unicode_len();
    let m = prefix.unicode_len();
    if m > n {
        return false;
    }
    let head = s.substring_char(0, m);
    str_eq(head, prefix)
}

/// `s` without leading `c` characters (`trim_start_matches(c)`).
pub open spec fn strip_leading(s: Seq<char>, c: char) -> Seq<char>
    decreases s.len(),
{
    if s.len() > 0 && s[0] == c {
        strip_leading(s.drop_first(), c)
    } else {
        s
    }
}

/// `s` without trailing `c` characters (`trim_end_matches(c)`).
pub open spec fn strip_trailing(s: Seq<char>, c: char) -> Seq<char>
    decreases s.len(),
{
    if s.len() > 0 && s.last() == c {
        strip_trailing(s.drop_last(), c)
    } else {
        s
    }
}

/// Stripping leading `c`s removes only `c`s, from the front, and all of
/// them: what is left is the rest of `s` and does not start with `c`.
pub proof fn lemma_strip_leading_shape(s: Seq<char>, c: char)
    ensures
        ({
            let r = strip_leading(s, c);
            &&& r.len() <= s.len()
            &&& r == s.subrange(s.len() - r.len(), s.len() as int)
            &&& forall|i: int| 0 <= i < s.len() - r.len() ==> s[i] == c
            &&& r.len() == 0 || r[0] != c
        }),
    decreases s.len(),
{
    if s.len() > 0 && s[0] == c {
        lemma_strip_leading_shape(s.drop_first(), c);
        let r = strip_leading(s, c);
        assert(r == strip_leading(s.drop_first(), c));
        assert(s.drop_first().subrange(s.len() - 1 - r.len(), s.len() - 1) =~= s.subrange(
            s.len() - r.len(),
            s.len() as int,
        ));
        assert forall|i: int| 0 <= i < s.len() - r.len() implies s[i] == c by {
            if i > 0 {
                assert(s[i] == s.drop_first()[i - 1]);
            }
        }
    } else {
        assert(s.subrange(0, s.len() as int) =~= s);
    }
}

/// Stripping trailing `c`s removes only `c`s, from the end, and all of
/// them: what is left is the start of `s` and does not end with `c`.
pub proof fn lemma_strip_trailing_shape(s: Seq<char>, c: char)
    ensures
        ({
            let r = strip_trailing(s, c);
            &&& r.len() <= s.len()
            &&& r == s.subrange(0, r.len() as int)
            &&& forall|i: int| r.len() <= i < s.len() ==> s[i] == c
            &&& r.len() == 0 || r.last() != c
        }),
    decreases s.len(),
{
    if s.len() > 0 && s.last() == c {
        lemma_strip_trailing_shape(s.drop_last(), c);
        let r = strip_trailing(s, c);
        assert(r == strip_trailing(s.drop_last(), c));
        assert(s.drop_last().subrange(0, r.len() as int) =~= s.subrange(0, r.len() as int));
        assert forall|i: int| r.len() <= i < s.len() implies s[i] == c by {
            if i < s.len() - 1 {
                assert(s[i] == s.drop_last()[i]);
            }
        }
    } else {
        assert(s.subrange(0, s.len() as int) =~= s);
    }
}

fn strip_leading_str(s: &str, c: char) -> (r: &str)
    ensures
        r@ == strip_leading(s@, c),
{
    let n = s.unicode_len();
    let mut i: usize = 0;
    assert(s@.subrange(0, n as int) =~= s@);
    while i < n && s.get_char(i) == c
        invariant
            n == s@.len(),
            i <= n,
            strip_leading(s@, c) == strip_leading(s@.subrange(i as int, n as int), c),
        decreases n - i,
    {
        assert(s@.subrange(i as int, n as int).drop_first() =~= s@.subrange(i + 1, n as int));
        i = i + 1;
    }
    s.substring_char(i, n)
}

fn strip_trailing_str(s: &str, c: char) -> (r: &str)
    ensures
        r@ == strip_trailing(s@, c),
{
    let n = s.unicode_len();
    let mut j: usize = n;
    assert(s@.subrange(0, n as int) =~= s@);
    while j > 0 && s.get_char(j - 1) == c
        invariant
            n == s@.len(),
            j <= n,
            strip_trailing(s@, c) == strip_trailing(s@.subrange(0, j as int), c),
        decreases j,
    {
        assert(s@.subrange(0, j as int).drop_last() =~= s@.subrange(0, j - 1));
        j = j - 1;
    }
    s.substring_char(0, j)
}

/// The base URL of the REST API of a Canvas host.
pub fn api_base_url(host: &CanvasHost) -> (r: String)
    ensures
        r@ == host@ + "/api/v1"@,
{
    let mut out = String::new();
    push_str(&mut out, host.as_str());
    push_str(&mut out, "/api/v1");
    assert(out@ =~= host@ + "/api/v1"@);
    out
}

/// The URL of `path`: itself where it is an absolute `http` or `https` URL,
/// else joined to `base` with exactly one `/` between them.
pub open spec fn url_for(base: Seq<char>, path: Seq<char>) -> Seq<char> {
    if starts_with(path, "http://"@) || starts_with(path, "https://"@) {
        path
    } else {
        strip_trailing(base, '/') + "/"@ + strip_leading(path, '/')
    }
}

/// A relative path is joined to the API base URL of a host with exactly one
/// `/` between them: `<host>/api/v1/<path without leading slashes>`.
pub proof fn lemma_api_url(host: Seq<char>, path: Seq<char>)
    requires
        !starts_with(path, "http://"@),
        !starts_with(path, "https://"@),
    ensures
        url_for(host + "/api/v1"@, path) == host + "/api/v1/"@ + strip_leading(path, '/'),
{
    reveal_strlit("/api/v1");
    reveal_strlit("/api/v1/");
    reveal_strlit("/");
    let base = host + "/api/v1"@;
    assert(base.last() == '1');
    assert(strip_trailing(base, '/') == base);
    assert(base + "/"@ =~= host + "/api/v1/"@);
}

/// The URL of `path` relative to the API base URL.
pub fn build_url(base: &str, path: &str) -> (r: String)
    ensures
        r@ == url_for(base@, path@),
{
    let mut out = String::new();
    if starts_with_str(path, "http://") || starts_with_str(path, "https://") {
        push_str(&mut out, path);
        assert(out@ =~= path@);
        return out;
    }
    push_str(&mut out, strip_trailing_str(base, '/'));
    push_str(&mut out, "/");
    push_str(&mut out, strip_leading_str(path, '/'));
    assert(out@ =~= url_for(base@, path@));
    out
}

/// The pieces of `s` between occurrences of `sep` (`str::split`).
pub open spec fn split_on(s: Seq<char>, sep: char) -> Seq<Seq<char>>
    decreases s.len(),
{
    if s.len() == 0 {
        seq![Seq::empty()]
    } else {
        let r = split_on(s.drop_last(), sep);
        if s.last() == sep {
            r.push(Seq::empty())
        } else {
            r.update(r.len() - 1, r.last().push(s.last()))
        }
    }
}

/// There is always at least one piece.
pub proof fn lemma_split_nonempty(s: Seq<char>, sep: char)
    ensures
        split_on(s, sep).len() >= 1,
    decreases s.len(),
{
    if s.len() > 0 {
        lemma_split_nonempty(s.drop_last(), sep);
    }
}

/// The texts of a list of strings.
pub open spec fn texts(v: Seq<String>) -> Seq<Seq<char>> {
    v.map_values(|s: String| s@)
}

/// Splits `s` at each `sep`.
pub fn split_str(s: &str, sep: char) -> (r: Vec<String>)
    ensures
        texts(r@) == split_on(s@, sep),
{
    let n = s.unicode_len();
    let mut done: Vec<String> = Vec::new();
    let mut cur = String::new();
    let mut i: usize = 0;
    assert(s@.take(0) =~= Seq::<char>::empty());
    assert(texts(done@).push(cur@) =~= split_on(s@.take(0), sep));
    while i < n
        invariant
            n == s@.len(),
            i <= n,
            texts(done@).push(cur@) == split_on(s@.take(i as int), sep),
        decreases n - i,
    {
        let c = s.get_char(i);
        let ghost before = s@.take(i as int);
        assert(s@.take(i + 1).drop_last() =~= before);
        assert(s@.take(i + 1).last() == c);
        proof {
            lemma_split_nonempty(before, sep);
        }
        if c == sep {
            let finished = cur;
            done.push(finished);
            cur = String::new();
            assert(texts(done@).push(cur@) =~= split_on(before, sep).push(Seq::empty()));
        } else {
            push_char(&mut cur, c);
            let ghost r = split_on(before, sep);
            assert(texts(done@).push(cur@) =~= r.update(r.len() - 1, r.last().push(c)));
        }
        i = i + 1;
    }
    done.push(cur);
    assert(s@.take(n as int) =~= s@);
    assert(texts(done@) =~= split_on(s@, sep));
    done
}

/// Whether a piece after the first of a link segment is `rel="next"`.
pub open spec fn marks_next(parts: Seq<Seq<char>>) -> bool {
    exists|j: int| 1 <= j < parts.len() && trim(#[trigger] parts[j]) == "rel=\"next\""@
}

/// The target of a `Link` header segment marked `rel="next"`: its first
/// piece, trimmed and stripped of `<` and `>`, where that is not empty.
pub open spec fn link_target(segment: Seq<char>) -> Option<Seq<char>> {
    let parts = split_on(segment, ';');
    if marks_next(parts) {
        let l = strip_trailing(strip_leading(trim(parts[0]), '<'), '>');
        if l.len() > 0 {
            Some(l)
        } else {
            None
        }
    } else {
        None
    }
}

/// The target of the first segment that has one.
pub open spec fn first_link(segments: Seq<Seq<char>>) -> Option<Seq<char>>
    decreases segments.len(),
{
    if segments.len() == 0 {
        None
    } else {
        match link_target(segments[0]) {
            Some(l) => Some(l),
            None => first_link(segments.drop_first()),
        }
    }
}

/// The URL of the next page that a `Link` header names.
pub open spec fn next_link_spec(header: Seq<char>) -> Option<Seq<char>> {
    first_link(split_on(header, ','))
}

fn segment_link(segment: &str) -> (r: Option<String>)
    ensures
        match r {
            Some(l) => link_target(segment@) == Some(l@),
            None => link_target(segment@) is None,
        },
{
    let parts = split_str(segment, ';');
    proof {
        lemma_split_nonempty(segment@, ';');
    }
    let count = parts.len();
    let mut found = false;
    let mut j: usize = 1;
    while j < count
        invariant
            count == parts@.len() >= 1,
            texts(parts@) == split_on(segment@, ';'),
            1 <= j <= count,
            found == (exists|k: int| 1 <= k < j && trim(#[trigger] texts(parts@)[k])
                == "rel=\"next\""@),
        decreases count - j,
    {
        let piece = trim_str(parts[j].as_str());
        if str_eq(piece, "rel=\"next\"") {
            assert(texts(parts@)[j as int] == parts@[j as int]@);
            found = true;
        }
        j = j + 1;
    }
    if !found {
        return None;
    }
    assert(texts(parts@)[0] == parts@[0]@);
    let first = trim_str(parts[0].as_str());
    let l = strip_trailing_str(strip_leading_str(first, '<'), '>');
    if l.unicode_len() == 0 {
        return None;
    }
    let mut out = String::new();
    push_str(&mut out, l);
    assert(out@ =~= l@);
    Some(out)
}

/// The URL of the next page that a `Link` header names: the target of the
/// first comma-separated segment marked `rel="next"` whose target is not
/// empty.
pub fn parse_next_link(link_header: &str) -> (r: Option<String>)
    ensures
        match r {
            Some(l) => next_link_spec(link_header@) == Some(l@),
            None => next_link_spec(link_header@) is None,
        },
{
    let segments = split_str(link_header, ',');
    let count = segments.len();
    let mut k: usize = 0;
    assert(texts(segments@).skip(0) =~= texts(segments@));
    while k < count
        invariant
            count == segments@.len(),
            k <= count,
            texts(segments@) == split_on(link_header@, ','),
            next_link_spec(link_header@) == first_link(texts(segments@).skip(k as int)),
        decreases count - k,
    {
        let ghost rest = texts(segments@).skip(k as int);
        assert(rest[0] == segments@[k as int]@);
        assert(rest.drop_first() =~= texts(segments@).skip(k + 1));
        match segment_link(segments[k].as_str()) {
            Some(l) => return Some(l),
            None => {},
        }
        k = k + 1;
    }
    None
}

proof fn lemma_split_plain_tail(x: Seq<char>, y: Seq<char>, sep: char)
    requires
        forall|i: int| 0 <= i < y.len() ==> y[i] != sep,
    ensures
        split_on(x + y, sep) == split_on(x, sep).update(
            split_on(x, sep).len() - 1,
            split_on(x, sep).last() + y,
        ),
    decreases y.len(),
{
    lemma_split_nonempty(x, sep);
    let s = split_on(x, sep);
    if y.len() == 0 {
        assert(x + y =~= x);
        assert(s.last() + y =~= s.last());
        assert(s.update(s.len() - 1, s.last() + y) =~= s);
    } else {
        let y0 = y.drop_last();
        lemma_split_plain_tail(x, y0, sep);
        assert((x + y).drop_last() =~= x + y0);
        assert((x + y).last() == y.last());
        let r = split_on(x + y0, sep);
        assert(r.last() == s.last() + y0);
        assert((s.last() + y0).push(y.last()) =~= s.last() + y);
        assert(r.update(r.len() - 1, r.last().push(y.last())) =~= s.update(
            s.len() - 1,
            s.last() + y,
        ));
    }
}

proof fn lemma_split_two(a: Seq<char>, b: Seq<char>, sep: char)
    requires
        forall|i: int| 0 <= i < a.len() ==> a[i] != sep,
        forall|i: int| 0 <= i < b.len() ==> b[i] != sep,
    ensures
        split_on(a, sep) == seq![a],
        split_on(a + seq![sep] + b, sep) == seq![a, b],
{
    let e = Seq::<char>::empty();
    lemma_split_plain_tail(e, a, sep);
    assert(e + a =~= a);
    assert(split_on(e, sep) == seq![e]);
    assert(seq![e].update(0, e + a) =~= seq![a]);
    let x = a + seq![sep];
    assert(x.drop_last() =~= a);
    assert(x.last() == sep);
    assert(split_on(x, sep) == seq![a].push(e));
    lemma_split_plain_tail(x, b, sep);
    assert(seq![a].push(e).update(1, e + b) =~= seq![a, b]);
}

proof fn lemma_trim_start_spaces(w: Seq<char>, t: Seq<char>)
    requires
        forall|i: int| 0 <= i < w.len() ==> w[i] == ' ',
        t.len() > 0,
        !is_ws(t[0]),
    ensures
        crate::text::trim_start(w + t) == t,
    decreases w.len(),
{
    if w.len() == 0 {
        assert(w + t =~= t);
    } else {
        assert((w + t)[0] == ' ');
        assert((w + t).drop_first() =~= w.drop_first() + t);
        lemma_trim_start_spaces(w.drop_first(), t);
    }
}

proof fn lemma_trim_spaces(w: Seq<char>, t: Seq<char>)
    requires
        forall|i: int| 0 <= i < w.len() ==> w[i] == ' ',
        t.len() > 0,
        !is_ws(t[0]),
        !is_ws(t.last()),
    ensures
        trim(w + t) == t,
{
    lemma_trim_start_spaces(w, t);
}

/// A `Link` header segment of the form spaces, `<`, a target, `>`, `;`,
/// spaces and `rel="next"` has exactly that target: the spaces and the
/// angle brackets are not part of it.
pub proof fn lemma_next_segment_target(w: Seq<char>, u: Seq<char>, r: Seq<char>)
    requires
        forall|i: int| 0 <= i < w.len() ==> w[i] == ' ',
        forall|i: int| 0 <= i < r.len() ==> r[i] == ' ',
        u.len() > 0,
        u[0] != '<',
        u.last() != '>',
        forall|i: int| 0 <= i < u.len() ==> u[i] != ';',
    ensures
        link_target(w + "<"@ + u + ">;"@ + r + "rel=\"next\""@) == Some(u),
{
    reveal_strlit("<");
    reveal_strlit(">;");
    reveal_strlit("rel=\"next\"");
    let t = seq!['<'] + u + seq!['>'];
    let p = w + t;
    let rel = "rel=\"next\""@;
    let q = r + rel;
    let seg = w + "<"@ + u + ">;"@ + r + rel;
    assert(seg =~= p + seq![';'] + q);
    assert forall|i: int| 0 <= i < p.len() implies p[i] != ';' by {
        if i < w.len() {
            assert(p[i] == w[i]);
        } else if i == w.len() {
            assert(p[i] == '<');
        } else if i < w.len() + 1 + u.len() {
            assert(p[i] == u[i - w.len() - 1]);
        } else {
            assert(p[i] == '>');
        }
    }
    assert forall|i: int| 0 <= i < q.len() implies q[i] != ';' by {
        if i < r.len() {
            assert(q[i] == r[i]);
        } else {
            assert(q[i] == rel[i - r.len()]);
        }
    }
    lemma_split_two(p, q, ';');
    let parts = split_on(seg, ';');
    assert(parts == seq![p, q]);
    assert(q =~= r + rel);
    assert(!is_ws(rel[0]) && !is_ws(rel.last()));
    lemma_trim_spaces(r, rel);
    assert(trim(parts[1]) == rel);
    assert(marks_next(parts));
    assert(t[0] == '<' && t.last() == '>');
    lemma_trim_spaces(w, t);
    assert(trim(parts[0]) == t);
    assert(t.drop_first() =~= u + seq!['>']);
    let v = u + seq!['>'];
    assert(v[0] == u[0]);
    assert(strip_leading(v, '<') == v);
    assert(strip_leading(t, '<') == strip_leading(t.drop_first(), '<'));
    assert(strip_leading(t, '<') == v);
    assert(v.drop_last() =~= u);
    assert(v.last() == '>');
    assert(strip_trailing(u, '>') == u);
    assert(strip_trailing(v, '>') == strip_trailing(v.drop_last(), '>'));
    assert(strip_trailing(v, '>') == u);
}

/// A next-page link is never empty, and never starts with `<` nor ends with
/// `>`: the angle brackets around a target are not part of it.
pub proof fn lemma_next_link_shape(header: Seq<char>)
    ensures
        next_link_spec(header) matches Some(l) ==> l.len() > 0 && l[0] != '<' && l.last() != '>',
{
    lemma_first_link_shape(split_on(header, ','));
}

proof fn lemma_first_link_shape(segments: Seq<Seq<char>>)
    ensures
        first_link(segments) matches Some(l) ==> l.len() > 0 && l[0] != '<' && l.last() != '>',
    decreases segments.len(),
{
    if segments.len() > 0 {
        let seg = segments[0];
        let parts = split_on(seg, ';');
        if marks_next(parts) {
            let a = strip_leading(trim(parts[0]), '<');
            lemma_strip_leading_shape(trim(parts[0]), '<');
            lemma_strip_trailing_shape(a, '>');
            let l = strip_trailing(a, '>');
            if l.len() > 0 {
                assert(l[0] == a[0]);
            }
        }
        lemma_first_link_shape(segments.drop_first());
    }
}

/// The next link of a header made of two comma-free segments is that of the
/// first where it has one, else that of the second; a header of one such
/// segment has that segment's.
pub proof fn lemma_next_link_of_segments(a: Seq<char>, b: Seq<char>)
    requires
        forall|i: int| 0 <= i < a.len() ==> a[i] != ',',
        forall|i: int| 0 <= i < b.len() ==> b[i] != ',',
    ensures
        next_link_spec(a) == link_target(a),
        next_link_spec(a + ","@ + b) == (match link_target(a) {
            Some(l) => Some(l),
            None => link_target(b),
        }),
{
    reveal_strlit(",");
    lemma_split_two(a, b, ',');
    assert(a + ","@ + b =~= a + seq![','] + b);
    let none = Seq::<Seq<char>>::empty();
    assert(first_link(none) is None);
    let one = seq![a];
    assert(one.drop_first() =~= none);
    assert(first_link(one) == (match link_target(a) {
        Some(l) => Some(l),
        None => first_link(none),
    }));
    assert(split_on(a, ',') == one);
    assert(next_link_spec(a) == first_link(one));
    let lone = seq![b];
    assert(lone.drop_first() =~= none);
    assert(first_link(lone) == (match link_target(b) {
        Some(l) => Some(l),
        None => first_link(none),
    }));
    let two = seq![a, b];
    assert(two.drop_first() =~= lone);
    assert(first_link(two) == (match link_target(a) {
        Some(l) => Some(l),
        None => first_link(lone),
    }));
    assert(next_link_spec(a + ","@ + b) == first_link(two));
}

/// For a request whose repetition is harmless (GET, HEAD, PUT, DELETE,
/// OPTIONS), a response with status 429, 500, 502, 503 or 504 is retried
/// while retries are left, after the server's `Retry-After` where given;
/// any other status that is not a success, and any response to POST or
/// PATCH that is not a success, is given up; a success is delivered.
pub proof fn lemma_retried_statuses(
    method: HttpMethod,
    status: u16,
    attempt: usize,
    retry_after: Option<u64>,
    policy: RetryPolicy,
)
    ensures
        ({
            let step = retry_step_spec(
                method,
                AttemptOutcome::Response { status },
                attempt,
                retry_after,
                policy,
            );
            let repeatable = method == HttpMethod::Get || method == HttpMethod::Head || method
                == HttpMethod::Put || method == HttpMethod::Delete || method
                == HttpMethod::Options;
            let listed = status == 429 || status == 500 || status == 502 || status == 503
                || status == 504;
            &&& 200 <= status <= 299 ==> step == RetryStep::Deliver
            &&& repeatable && listed && attempt < policy.max_retries ==> step is Wait
            &&& repeatable && listed && attempt < policy.max_retries && retry_after is Some
                ==> step == RetryStep::Wait { delay_ms: (retry_after->0 * 1000) as u128 }
            &&& !(200 <= status <= 299) && !(repeatable && listed && attempt
                < policy.max_retries) ==> step == RetryStep::GiveUp
            &&& repeatable && listed && attempt < policy.max_retries && retry_after is None
                ==> (step matches RetryStep::Wait { delay_ms } && delay_ms
                <= policy.max_delay_ms && (attempt == 0 && policy.base_delay_ms
                <= policy.max_delay_ms ==> delay_ms == policy.base_delay_ms))
        }),
{
    vstd::arithmetic::power2::lemma2_to64();
    assert(backoff_multiplier(0) == 1);
    let d = backoff_ms(attempt, policy.base_delay_ms, policy.max_delay_ms);
    assert(0 <= d <= policy.max_delay_ms) by {
        assert(policy.base_delay_ms * backoff_multiplier(attempt) >= 0) by (nonlinear_arith);
    }
    if attempt == 0 && policy.base_delay_ms <= policy.max_delay_ms {
        assert(policy.base_delay_ms * 1 == policy.base_delay_ms);
        assert(d == policy.base_delay_ms);
    }
}

/// A request that got no response is retried, after the policy's backoff,
/// only where its repetition is harmless (GET, HEAD, PUT, DELETE, OPTIONS),
/// it timed out or could not connect, and retries are left; otherwise it is
/// given up.
pub proof fn lemma_retried_failures(
    method: HttpMethod,
    timed_out: bool,
    connect_failed: bool,
    attempt: usize,
    retry_after: Option<u64>,
    policy: RetryPolicy,
)
    ensures
        ({
            let step = retry_step_spec(
                method,
                AttemptOutcome::Failed { timed_out, connect_failed },
                attempt,
                retry_after,
                policy,
            );
            let repeatable = method == HttpMethod::Get || method == HttpMethod::Head || method
                == HttpMethod::Put || method == HttpMethod::Delete || method
                == HttpMethod::Options;
            &&& repeatable && (timed_out || connect_failed) && attempt < policy.max_retries
                ==> (step matches RetryStep::Wait { delay_ms } && delay_ms
                <= policy.max_delay_ms)
            &&& !(repeatable && (timed_out || connect_failed) && attempt < policy.max_retries)
                ==> step == RetryStep::GiveUp
        }),
{
}

} // verus!
