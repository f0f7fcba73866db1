//! What holds of every `send`, of URL resolution and of header writes.
use vstd::prelude::*;

use crate::client::{has_scheme, resolve_url};
use crate::headers::{distinct_names, lemma_put, lookup, put, HeaderSeq};
use crate::request::{content_type_name, json_media_type};
use crate::retry::{
    advance, attempts_left, backoff_ms, delivered, emitted, initial, rank, run, stage_verdict, stepped,
    Action, RetryPolicy, SendState, Stage, Verdict,
};
use crate::text::same_name;

verus! {

/// How often `a` occurs in `acts`.
pub open spec fn count(acts: Seq<Action>, a: Action) -> nat
    decreases acts.len(),
{
    if acts.len() == 0 {
        0
    } else {
        (if acts[0] == a {
            1nat
        } else {
            0nat
        }) + count(acts.drop_first(), a)
    }
}

/// The milliseconds that the `Wait` actions of `acts` add up to.
pub open spec fn waited(acts: Seq<Action>) -> nat
    decreases acts.len(),
{
    if acts.len() == 0 {
        0
    } else {
        (match acts[0] {
            Action::Wait(ms) => ms as nat,
            _ => 0nat,
        }) + waited(acts.drop_first())
    }
}

/// The total of a linear backoff: `d * 1 + d * 2 + ... + d * n`.
pub open spec fn linear_backoff(d: nat, n: nat) -> nat
    decreases n,
{
    if n == 0 {
        0
    } else {
        linear_backoff(d, (n - 1) as nat) + d * n
    }
}

proof fn lemma_count_concat(x: Seq<Action>, y: Seq<Action>, a: Action)
    ensures
        count(x + y, a) == count(x, a) + count(y, a),
    decreases x.len(),
{
    if x.len() == 0 {
        assert(x + y =~= y);
    } else {
        assert((x + y).drop_first() =~= x.drop_first() + y);
        lemma_count_concat(x.drop_first(), y, a);
    }
}

proof fn lemma_waited_concat(x: Seq<Action>, y: Seq<Action>)
    ensures
        waited(x + y) == waited(x) + waited(y),
    decreases x.len(),
{
    if x.len() == 0 {
        assert(x + y =~= y);
    } else {
        assert((x + y).drop_first() =~= x.drop_first() + y);
        lemma_waited_concat(x.drop_first(), y);
    }
}

proof fn lemma_count_emitted(o: Option<Action>, a: Action)
    ensures
        count(emitted(o), a) == if o == Some(a) {
            1nat
        } else {
            0nat
        },
        waited(emitted(o)) == match o {
            Some(Action::Wait(ms)) => ms as nat,
            _ => 0nat,
        },
{
    if o is Some {
        assert(emitted(o).drop_first() =~= Seq::<Action>::empty());
        assert(count(Seq::<Action>::empty(), a) == 0);
        assert(waited(Seq::<Action>::empty()) == 0);
    }
}

/// Driving the executor (`next_action` until `Transmit`, then `deliver`)
/// performs `run` step by step: each action it hands out is the next one
/// of `run`.
pub proof fn law_executor_follows_run(s: SendState, transport: spec_fn(u32) -> Verdict)
    requires
        s.attempt <= s.policy.retry_count,
        !(s.stage is Awaiting),
        !(s.stage is Done),
    ensures
        run(s, transport) == seq![advance(s).1] + run(advance(s).0, transport),
    decreases attempts_left(s), rank(s.stage),
{
    let (n, o) = stepped(s);
    match o {
        Some(a) => {},
        None => {
            law_executor_follows_run(n, transport);
            assert(emitted(o) + run(n, transport) =~= run(n, transport));
        },
    }
}

/// Transport calls still to come when every call fails in a way that may
/// be retried.
spec fn calls_left_when_retrying(s: SendState) -> int {
    let left = s.policy.retry_count - s.attempt;
    match s.stage {
        Stage::Opening | Stage::Backoff | Stage::Reset | Stage::Dispatch | Stage::Send => left + 1,
        Stage::Awaiting => left,
        Stage::Settled(v) | Stage::Decide(v) => if v == Verdict::Retryable {
            left
        } else {
            0
        },
        _ => 0,
    }
}

proof fn lemma_calls_when_retrying(s: SendState, transport: spec_fn(u32) -> Verdict)
    requires
        s.policy.url_valid,
        s.attempt <= s.policy.retry_count,
        forall|k: u32| #[trigger] transport(k) == Verdict::Retryable,
    ensures
        count(run(s, transport), Action::Transmit) == calls_left_when_retrying(s),
    decreases attempts_left(s), rank(s.stage),
{
    if s.stage is Done {
    } else if s.stage is Awaiting {
        lemma_calls_when_retrying(delivered(s, transport(s.attempt)), transport);
    } else {
        let (n, o) = stepped(s);
        lemma_count_concat(emitted(o), run(n, transport), Action::Transmit);
        lemma_count_emitted(o, Action::Transmit);
        lemma_calls_when_retrying(n, transport);
    }
}

/// When every transport call fails in a way that may be retried, a `send`
/// makes exactly `retry_count + 1` transport calls.
pub proof fn law_persistent_failure_uses_every_attempt(
    p: RetryPolicy,
    transport: spec_fn(u32) -> Verdict,
)
    requires
        p.url_valid,
        forall|k: u32| #[trigger] transport(k) == Verdict::Retryable,
    ensures
        count(run(initial(p), transport), Action::Transmit) == p.retry_count + 1,
{
    lemma_calls_when_retrying(initial(p), transport);
}

/// Transport calls still to come when the current attempt's call ends in
/// success or in a failure that may not be retried.
spec fn calls_left_when_final(s: SendState) -> int {
    match s.stage {
        Stage::Opening | Stage::Backoff | Stage::Reset | Stage::Dispatch | Stage::Send => 1,
        _ => 0,
    }
}

proof fn lemma_calls_when_final(s: SendState, transport: spec_fn(u32) -> Verdict)
    requires
        s.policy.url_valid,
        s.attempt <= s.policy.retry_count,
        transport(s.attempt) != Verdict::Retryable,
        stage_verdict(s.stage) != Some(Verdict::Retryable),
    ensures
        count(run(s, transport), Action::Transmit) == calls_left_when_final(s),
    decreases attempts_left(s), rank(s.stage),
{
    if s.stage is Done {
    } else if s.stage is Awaiting {
        lemma_calls_when_final(delivered(s, transport(s.attempt)), transport);
    } else {
        let (n, o) = stepped(s);
        lemma_count_concat(emitted(o), run(n, transport), Action::Transmit);
        lemma_count_emitted(o, Action::Transmit);
        lemma_calls_when_final(n, transport);
    }
}

/// When the first transport call succeeds or fails in a way that may not
/// be retried, a `send` makes exactly one transport call, whatever
/// `retry_count` is.
pub proof fn law_final_outcome_ends_after_one_call(
    p: RetryPolicy,
    transport: spec_fn(u32) -> Verdict,
)
    requires
        p.url_valid,
        transport(0) != Verdict::Retryable,
    ensures
        count(run(initial(p), transport), Action::Transmit) == 1,
{
    lemma_calls_when_final(initial(p), transport);
}

/// Transport calls still to come when attempts before `k` fail in a way
/// that may be retried and attempt `k` does not.
spec fn calls_left_until(s: SendState, k: u32) -> int {
    let left = k - s.attempt;
    match s.stage {
        Stage::Opening | Stage::Backoff | Stage::Reset | Stage::Dispatch | Stage::Send => left + 1,
        Stage::Awaiting => left,
        Stage::Settled(v) | Stage::Decide(v) => if v == Verdict::Retryable {
            left
        } else {
            0
        },
        _ => 0,
    }
}

proof fn lemma_calls_until(s: SendState, transport: spec_fn(u32) -> Verdict, k: u32)
    requires
        s.policy.url_valid,
        s.attempt <= k <= s.policy.retry_count,
        forall|j: u32| j < k ==> #[trigger] transport(j) == Verdict::Retryable,
        transport(k) != Verdict::Retryable,
        stage_verdict(s.stage) == Some(Verdict::Retryable) ==> s.attempt < k,
    ensures
        count(run(s, transport), Action::Transmit) == calls_left_until(s, k),
    decreases attempts_left(s), rank(s.stage),
{
    if s.stage is Done {
    } else if s.stage is Awaiting {
        lemma_calls_until(delivered(s, transport(s.attempt)), transport, k);
    } else {
        let (n, o) = stepped(s);
        lemma_count_concat(emitted(o), run(n, transport), Action::Transmit);
        lemma_count_emitted(o, Action::Transmit);
        lemma_calls_until(n, transport, k);
    }
}

/// When attempts `0..k` fail in a way that may be retried and attempt `k`
/// (within `retry_count`) succeeds or fails for good, a `send` makes exactly
/// `k + 1` transport calls: none follows the first success.
pub proof fn law_stops_at_first_final_outcome(
    p: RetryPolicy,
    transport: spec_fn(u32) -> Verdict,
    k: u32,
)
    requires
        p.url_valid,
        k <= p.retry_count,
        forall|j: u32| j < k ==> #[trigger] transport(j) == Verdict::Retryable,
        transport(k) != Verdict::Retryable,
    ensures
        count(run(initial(p), transport), Action::Transmit) == k + 1,
{
    lemma_calls_until(initial(p), transport, k);
}

proof fn lemma_no_calls_without_url(s: SendState, transport: spec_fn(u32) -> Verdict)
    requires
        !s.policy.url_valid,
        s.attempt <= s.policy.retry_count,
        !(s.stage is Send),
        !(s.stage is Awaiting),
    ensures
        count(run(s, transport), Action::Transmit) == 0,
    decreases attempts_left(s), rank(s.stage),
{
    if !(s.stage is Done) {
        let (n, o) = stepped(s);
        lemma_count_concat(emitted(o), run(n, transport), Action::Transmit);
        lemma_count_emitted(o, Action::Transmit);
        lemma_no_calls_without_url(n, transport);
    }
}

/// A `send` whose URL is empty makes no transport call.
pub proof fn law_empty_url_makes_no_call(p: RetryPolicy, transport: spec_fn(u32) -> Verdict)
    requires
        !p.url_valid,
    ensures
        count(run(initial(p), transport), Action::Transmit) == 0,
{
    lemma_no_calls_without_url(initial(p), transport);
}

/// Loader-on events still to come.
spec fn enables_left(s: SendState) -> int {
    if s.policy.loader && s.stage is Opening {
        1
    } else {
        0
    }
}

/// Loader-off events still to come.
spec fn disables_left(s: SendState) -> int {
    if s.policy.loader && !(s.stage is Finishing) && !(s.stage is Done) {
        1
    } else {
        0
    }
}

/// Outcome messages still to come.
spec fn messages_left(s: SendState) -> int {
    if s.policy.notify && !(s.stage is Release) && !(s.stage is Finishing) && !(s.stage is Done) {
        1
    } else {
        0
    }
}

proof fn lemma_sink_events(s: SendState, transport: spec_fn(u32) -> Verdict)
    requires
        s.attempt <= s.policy.retry_count,
    ensures
        count(run(s, transport), Action::EnableLoader) == enables_left(s),
        count(run(s, transport), Action::DisableLoader) == disables_left(s),
        count(run(s, transport), Action::Notify) == messages_left(s),
        count(run(s, transport), Action::Finish) == if s.stage is Done {
            0int
        } else {
            1int
        },
    decreases attempts_left(s), rank(s.stage),
{
    if s.stage is Done {
    } else if s.stage is Awaiting {
        lemma_sink_events(delivered(s, transport(s.attempt)), transport);
    } else {
        let (n, o) = stepped(s);
        lemma_count_concat(emitted(o), run(n, transport), Action::EnableLoader);
        lemma_count_concat(emitted(o), run(n, transport), Action::DisableLoader);
        lemma_count_concat(emitted(o), run(n, transport), Action::Notify);
        lemma_count_concat(emitted(o), run(n, transport), Action::Finish);
        lemma_count_emitted(o, Action::EnableLoader);
        lemma_count_emitted(o, Action::DisableLoader);
        lemma_count_emitted(o, Action::Notify);
        lemma_count_emitted(o, Action::Finish);
        lemma_sink_events(n, transport);
    }
}

/// Whatever the transport does and however many attempts are made, a
/// `send` switches the loader on once and off once when loader events are
/// on (and never otherwise), shows the outcome message once when messages
/// are on (and never otherwise), and finishes once.
pub proof fn law_sink_events_once_per_send(p: RetryPolicy, transport: spec_fn(u32) -> Verdict)
    ensures
        count(run(initial(p), transport), Action::EnableLoader) == if p.loader {
            1int
        } else {
            0int
        },
        count(run(initial(p), transport), Action::DisableLoader) == if p.loader {
            1int
        } else {
            0int
        },
        count(run(initial(p), transport), Action::Notify) == if p.notify {
            1int
        } else {
            0int
        },
        count(run(initial(p), transport), Action::Finish) == 1,
{
    lemma_sink_events(initial(p), transport);
}

/// Milliseconds of backoff still to come when every transport call fails
/// in a way that may be retried.
spec fn wait_left_when_retrying(s: SendState) -> int {
    let d = s.policy.retry_delay_ms as nat;
    let total = linear_backoff(d, s.policy.retry_count as nat) - linear_backoff(d, s.attempt as nat);
    match s.stage {
        Stage::Opening | Stage::Backoff => total + d * s.attempt,
        Stage::Reset | Stage::Dispatch | Stage::Send | Stage::Awaiting => total,
        Stage::Settled(v) | Stage::Decide(v) => if v == Verdict::Retryable {
            total
        } else {
            0
        },
        _ => 0,
    }
}

proof fn lemma_wait_when_retrying(s: SendState, transport: spec_fn(u32) -> Verdict)
    requires
        s.policy.url_valid,
        s.attempt <= s.policy.retry_count,
        forall|k: u32| #[trigger] transport(k) == Verdict::Retryable,
    ensures
        waited(run(s, transport)) == wait_left_when_retrying(s),
    decreases attempts_left(s), rank(s.stage),
{
    let d = s.policy.retry_delay_ms as nat;
    if s.stage is Done {
    } else if s.stage is Awaiting {
        lemma_wait_when_retrying(delivered(s, transport(s.attempt)), transport);
    } else {
        let (n, o) = stepped(s);
        lemma_waited_concat(emitted(o), run(n, transport));
        lemma_count_emitted(o, Action::Transmit);
        lemma_wait_when_retrying(n, transport);
        if s.stage is Backoff {
            let k = s.attempt as nat;
            if k > 0 {
                assert(d * k <= u32::MAX as nat * u32::MAX as nat) by (nonlinear_arith)
                    requires
                        d <= u32::MAX,
                        k <= u32::MAX,
                ;
                assert(backoff_ms(s.policy, s.attempt) as nat == d * k);
            } else {
                assert(d * k == 0) by (nonlinear_arith)
                    requires
                        k == 0,
                ;
            }
        }
        if s.stage is Decide && s.attempt < s.policy.retry_count {
            assert(linear_backoff(d, (s.attempt + 1) as nat) == linear_backoff(d, s.attempt as nat)
                + d * (s.attempt + 1));
        }
    }
}

/// When every transport call fails in a way that may be retried, the
/// backoff waits of a `send` add up to
/// `retry_delay_ms * (1 + 2 + ... + retry_count)`.
pub proof fn law_backoff_is_linear(p: RetryPolicy, transport: spec_fn(u32) -> Verdict)
    requires
        p.url_valid,
        forall|k: u32| #[trigger] transport(k) == Verdict::Retryable,
    ensures
        waited(run(initial(p), transport)) == linear_backoff(
            p.retry_delay_ms as nat,
            p.retry_count as nat,
        ),
{
    lemma_wait_when_retrying(initial(p), transport);
}

/// The linear backoff in closed form: `2 * (d + 2d + ... + nd) == d * n * (n + 1)`.
pub proof fn law_linear_backoff_closed_form(d: nat, n: nat)
    ensures
        2 * linear_backoff(d, n) == d * n * (n + 1),
    decreases n,
{
    if n > 0 {
        let m = (n - 1) as nat;
        law_linear_backoff_closed_form(d, m);
        assert(linear_backoff(d, n) == linear_backoff(d, m) + d * n);
        assert(2 * linear_backoff(d, m) == d * m * (m + 1));
        assert(d * m * (m + 1) + 2 * (d * n) == d * n * (n + 1)) by (nonlinear_arith)
            requires
                m + 1 == n,
        ;
    } else {
        assert(d * n * (n + 1) == 0) by (nonlinear_arith)
            requires
                n == 0,
        ;
    }
}

/// A path that starts with `http://` or `https://` is used as it stands,
/// whatever the base URL.
pub proof fn law_absolute_path_unchanged(base: Option<Seq<char>>, path: Seq<char>)
    requires
        has_scheme(path),
    ensures
        resolve_url(base, path) == path,
{
}

/// After a header is written, reading any name that matches it ignoring
/// case yields the written value.
pub proof fn law_header_read_ignores_case(
    h: HeaderSeq,
    name: Seq<char>,
    value: Seq<char>,
    read: Seq<char>,
)
    requires
        distinct_names(h),
        same_name(read, name),
    ensures
        lookup(put(h, name, value), read) == Some(value),
{
    lemma_put(h, name, value);
}

/// After a JSON body is set, reading `Content-Type` in any case
/// yields `application/json`.
pub proof fn law_json_sets_content_type(h: HeaderSeq, read: Seq<char>)
    requires
        distinct_names(h),
        same_name(read, content_type_name()),
    ensures
        lookup(put(h, content_type_name(), json_media_type()), read) == Some(json_media_type()),
{
    lemma_put(h, content_type_name(), json_media_type());
}

} // verus!
