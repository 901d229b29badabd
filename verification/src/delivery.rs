//! Response delivery: splits an oversized answer into ordered chunks
//! bounded by the platform's message length, composes the attribution
//! marker and the user-visible failure message, and collects the
//! per-send errors of a best-effort delivery.
use vstd::prelude::*;
use vstd::arithmetic::div_mod::{lemma_fundamental_div_mod, lemma_mod_bound};
use crate::errors::DeliveryOutcome;
use crate::numerals::{push_digits, spec_digits};

verus! {

/// The platform's maximum length of one outbound message, in
/// characters.
pub const MAX_MESSAGE_LEN: usize = 2000;

/// Number of chunks needed to split `total` characters into pieces of
/// at most `max_len` characters each: the ceiling of `total / max_len`.
pub open spec fn spec_chunk_count(total: nat, max_len: nat) -> nat
    recommends
        max_len >= 1,
{
    ((total + max_len - 1) / max_len as int) as nat
}

/// The `i`-th chunk of `s` when split at `max_len` characters.
pub open spec fn spec_chunk_at(s: Seq<char>, max_len: nat, i: int) -> Seq<char>
    recommends
        max_len >= 1,
        0 <= i < spec_chunk_count(s.len(), max_len),
{
    s.subrange(
        i * max_len,
        if (i + 1) * max_len <= s.len() {
            (i + 1) * max_len as int
        } else {
            s.len() as int
        },
    )
}

/// All chunks of `s` when split at `max_len` characters, in order.
pub open spec fn spec_chunks(s: Seq<char>, max_len: nat) -> Seq<Seq<char>> {
    Seq::new(spec_chunk_count(s.len(), max_len), |i: int| spec_chunk_at(s, max_len, i))
}

/// The concatenation of a sequence of chunks, in order.
pub open spec fn spec_concat(chunks: Seq<Seq<char>>) -> Seq<char>
    decreases chunks.len(),
{
    if chunks.len() == 0 {
        Seq::empty()
    } else {
        spec_concat(chunks.drop_last()) + chunks.last()
    }
}

/// The chunk count of `total` is the count `n` whose window of
/// `max_len` characters `total` falls in: `n * max_len` reaches
/// `total`, and overshoots it by less than one window.
pub proof fn lemma_count_window(total: nat, max_len: nat)
    requires
        max_len >= 1,
    ensures
        total <= spec_chunk_count(total, max_len) * max_len,
        spec_chunk_count(total, max_len) * max_len < total + max_len,
{
    let x: int = total + max_len - 1;
    let d: int = max_len as int;
    lemma_fundamental_div_mod(x, d);
    lemma_mod_bound(x, d);
    let q: int = x / d;
    assert(d * q == x - (x % d));
    assert(q >= 0) by (nonlinear_arith)
        requires
            d >= 1,
            d * q >= 0,
    ;
    assert(spec_chunk_count(total, max_len) == q);
    assert(q * d == d * q) by (nonlinear_arith);
}

/// An empty message occupies no chunks.
proof fn lemma_ceil_zero(max_len: nat)
    requires
        max_len >= 1,
    ensures
        spec_chunk_count(0, max_len) == 0,
{
    lemma_count_window(0, max_len);
    let n = spec_chunk_count(0, max_len);
    assert(n == 0) by (nonlinear_arith)
        requires
            n >= 0,
            max_len >= 1,
            n * max_len < max_len,
    ;
}

/// The ceiling of `total / max_len` is `n` exactly when `total` lies
/// in the `n`-th window of `max_len` characters.
proof fn lemma_ceil_div(total: nat, max_len: nat, n: nat)
    requires
        max_len >= 1,
        n >= 1,
        (n - 1) * max_len < total <= n * max_len,
    ensures
        spec_chunk_count(total, max_len) == n,
{
    lemma_count_window(total, max_len);
    let q = spec_chunk_count(total, max_len);
    assert(q == n) by (nonlinear_arith)
        requires
            max_len >= 1,
            q >= 0,
            total <= q * max_len,
            q * max_len < total + max_len,
            (n - 1) * max_len < total,
            total <= n * max_len,
    ;
}

/// Splits `content` into ordered chunks of at most `max_len`
/// characters: chunk `i` is exactly the characters from `i * max_len`
/// up to the next boundary, so character order is preserved and the
/// number of chunks is the ceiling of the length over `max_len`.
pub fn chunk_message(content: &str, max_len: usize) -> (chunks: Vec<String>)
    requires
        max_len >= 1,
    ensures
        chunks@.len() == spec_chunk_count(content@.len(), max_len as nat),
        forall|i: int|
            0 <= i < chunks@.len() ==> chunks@[i]@ == spec_chunk_at(
                content@,
                max_len as nat,
                i,
            ),
{
    let len = content.unicode_len();
    let mut chunks: Vec<String> = Vec::new();
    let mut pos: usize = 0;
    proof {
        lemma_ceil_zero(max_len as nat);
        assert(chunks@.len() * max_len == 0) by (nonlinear_arith)
            requires
                chunks@.len() == 0,
        ;
    }
    while pos < len
        invariant
            len == content@.len(),
            pos <= len,
            max_len >= 1,
            pos < len ==> pos == chunks@.len() * max_len,
            pos == len ==> chunks@.len() == spec_chunk_count(len as nat, max_len as nat),
            forall|i: int|
                0 <= i < chunks@.len() ==> chunks@[i]@ == spec_chunk_at(
                    content@,
                    max_len as nat,
                    i,
                ),
        decreases len - pos,
    {
        let end = if max_len < len - pos {
            pos + max_len
        } else {
            len
        };
        let piece = content.substring_char(pos, end);
        let ghost n: int = chunks@.len() as int;
        chunks.push(String::from_str(piece));
        proof {
            assert(pos == n * max_len);
            assert((n + 1) * max_len == n * max_len + max_len) by (nonlinear_arith);
            assert(piece@ == spec_chunk_at(content@, max_len as nat, n));
            if end == len {
                lemma_ceil_div(len as nat, max_len as nat, (n + 1) as nat);
            }
        }
        pos = end;
    }
    chunks
}

/// Law: splitting a message into chunks partitions it — every chunk is
/// at most `max_len` characters, the chunks concatenate back to exactly
/// the message, and their number is the ceiling of the length over
/// `max_len`.
pub proof fn lemma_chunk_partition(s: Seq<char>, max_len: nat)
    requires
        max_len >= 1,
    ensures
        spec_chunks(s, max_len).len() == spec_chunk_count(s.len(), max_len),
        forall|i: int|
            0 <= i < spec_chunks(s, max_len).len() ==> #[trigger] spec_chunks(s, max_len)[i].len()
                <= max_len,
        spec_concat(spec_chunks(s, max_len)) == s,
    decreases s.len(),
{
    lemma_count_window(s.len(), max_len);
    let n = spec_chunk_count(s.len(), max_len) as int;
    assert(n * max_len - max_len == (n - 1) * max_len) by (nonlinear_arith);
    assert forall|i: int| 0 <= i < n implies #[trigger] spec_chunks(s, max_len)[i].len()
        <= max_len by {
        assert((i + 1) * max_len == i * max_len + max_len) by (nonlinear_arith);
        assert(0 <= i * max_len && i * max_len <= (n - 1) * max_len) by (nonlinear_arith)
            requires
                0 <= i <= n - 1,
                max_len >= 1,
        ;
    }
    if n == 0 {
        assert(n * max_len == 0) by (nonlinear_arith)
            requires
                n == 0,
        ;
        assert(s.len() == 0);
        assert(spec_concat(spec_chunks(s, max_len)) =~= s);
    } else {
        let front_len = (n - 1) * max_len;
        assert(0 <= front_len) by (nonlinear_arith)
            requires
                n >= 1,
                max_len >= 1,
                front_len == (n - 1) * max_len,
        ;
        assert(front_len < s.len());
        let front = s.subrange(0, front_len);
        assert(front.len() == front_len);
        if n == 1 {
            lemma_ceil_zero(max_len);
            assert(front_len == 0) by (nonlinear_arith)
                requires
                    n == 1,
                    front_len == (n - 1) * max_len,
            ;
        } else {
            assert((n - 2) * max_len == (n - 1) * max_len - max_len) by (nonlinear_arith);
            lemma_ceil_div(front.len(), max_len, (n - 1) as nat);
        }
        lemma_chunk_partition(front, max_len);
        assert(spec_chunks(s, max_len).drop_last() =~= spec_chunks(front, max_len)) by {
            assert forall|i: int| 0 <= i < n - 1 implies spec_chunk_at(s, max_len, i)
                == spec_chunk_at(front, max_len, i) by {
                assert(0 <= i * max_len && (i + 1) * max_len == i * max_len + max_len && (i + 1)
                    * max_len <= front_len) by (nonlinear_arith)
                    requires
                        0 <= i < n - 1,
                        front_len == (n - 1) * max_len,
                        max_len >= 1,
                ;
                let lo = i * max_len;
                let hi = (i + 1) * (max_len as int);
                assert(spec_chunk_at(s, max_len, i) == s.subrange(lo, hi));
                assert(spec_chunk_at(front, max_len, i) == front.subrange(lo, hi));
                assert(front.subrange(lo, hi) =~= s.subrange(lo, hi));
            }
        }
        assert(spec_chunks(s, max_len).last() == spec_chunk_at(s, max_len, n - 1));
        assert(spec_chunk_at(s, max_len, n - 1) == s.subrange(front_len, s.len() as int)) by {
            assert((n - 1 + 1) * max_len == n * max_len) by (nonlinear_arith);
        }
        assert(spec_concat(spec_chunks(s, max_len)) =~= s);
    }
}

/// A message of at least one character occupies at least one chunk.
pub proof fn lemma_ceil_pos(total: nat, max_len: nat)
    requires
        max_len >= 1,
        total >= 1,
    ensures
        spec_chunk_count(total, max_len) >= 1,
{
    lemma_count_window(total, max_len);
    let n = spec_chunk_count(total, max_len);
    if n == 0 {
        assert(n * max_len == 0) by (nonlinear_arith)
            requires
                n == 0,
        ;
    }
}

/// The attribution marker put before a relayed answer: a mention of
/// the requester followed by the original prompt in strong emphasis.
pub open spec fn spec_attribution(requester_id: nat, input: Seq<char>) -> Seq<char> {
    "<@"@ + spec_digits(requester_id) + ">: **"@ + input + "**\n\n"@
}

/// The single user-visible failure message: a mention of the
/// maintainer (a placeholder question mark when none is configured)
/// and the failure's text in a code span.
pub open spec fn spec_error_message(maintainer: Option<String>, err: Seq<char>) -> Seq<char> {
    "<@"@ + (match maintainer {
        Some(m) => m@,
        None => "?"@,
    }) + "> maus error: `"@ + err + "`"@
}

/// Builds the full success content: the attribution marker for the
/// requester and their prompt, then the generated text.
pub fn compose_success_content(requester_id: u64, input: &str, generated: &str) -> (content:
    String)
    ensures
        content@ == spec_attribution(requester_id as nat, input@) + generated@,
{
    let mut out = String::new();
    out.append("<@");
    push_digits(&mut out, requester_id);
    out.append(">: **");
    out.append(input);
    out.append("**\n\n");
    out.append(generated);
    assert(out@ =~= spec_attribution(requester_id as nat, input@) + generated@);
    out
}

/// Builds the user-visible failure message around the error text.
pub fn compose_error_message(maintainer: &Option<String>, err: &str) -> (msg: String)
    ensures
        msg@ == spec_error_message(*maintainer, err@),
{
    let mut out = String::new();
    out.append("<@");
    match maintainer {
        Some(m) => out.append(m.as_str()),
        None => out.append("?"),
    }
    out.append("> maus error: `");
    out.append(err);
    out.append("`");
    assert(out@ =~= spec_error_message(*maintainer, err@));
    out
}

/// The messages one outcome turns into: `initial` replaces the
/// deferred acknowledgment by an edit, and each follow-up is sent as
/// its own message, in order.
#[derive(Debug)]
pub struct DeliveryPlan {
    pub initial: String,
    pub followups: Vec<String>,
}

/// Turns the outcome of one interaction into its outbound messages.
///
/// A success is prefixed with the attribution marker and split into
/// chunks of at most [`MAX_MESSAGE_LEN`] characters, the first chunk
/// editing the deferred response and the rest following up in order. A
/// failure becomes the single user-visible error message; composing it
/// is total, so reporting a failure can itself never fail before the
/// platform is reached.
pub fn plan_delivery(
    outcome: DeliveryOutcome,
    requester_id: u64,
    user_input: &str,
    maintainer: &Option<String>,
) -> (plan: DeliveryPlan)
    ensures
        match outcome {
            DeliveryOutcome::Success(t) => {
                let full = spec_attribution(requester_id as nat, user_input@) + t@;
                let count = spec_chunk_count(full.len(), MAX_MESSAGE_LEN as nat);
                &&& count >= 1
                &&& plan.initial@ == spec_chunk_at(full, MAX_MESSAGE_LEN as nat, 0)
                &&& plan.followups@.len() == count - 1
                &&& forall|i: int|
                    0 <= i < count - 1 ==> plan.followups@[i]@ == spec_chunk_at(
                        full,
                        MAX_MESSAGE_LEN as nat,
                        i + 1,
                    )
            },
            DeliveryOutcome::Failure(reason) => {
                &&& plan.initial@ == spec_error_message(*maintainer, reason.spec_text())
                &&& plan.followups@.len() == 0
            },
        },
{
    match outcome {
        DeliveryOutcome::Success(t) => {
            let content = compose_success_content(requester_id, user_input, t.as_str());
            proof {
                reveal_strlit("<@");
                lemma_ceil_pos(content@.len(), MAX_MESSAGE_LEN as nat);
            }
            let chunks = chunk_message(content.as_str(), MAX_MESSAGE_LEN);
            let initial = chunks[0].clone();
            let mut followups: Vec<String> = Vec::new();
            let mut i: usize = 1;
            while i < chunks.len()
                invariant
                    1 <= i <= chunks@.len(),
                    followups@.len() == i - 1,
                    forall|j: int|
                        0 <= j < i - 1 ==> followups@[j]@ == chunks@[j + 1]@,
                decreases chunks@.len() - i,
            {
                followups.push(chunks[i].clone());
                i = i + 1;
            }
            DeliveryPlan { initial, followups }
        },
        DeliveryOutcome::Failure(reason) => {
            let text = reason.text();
            let initial = compose_error_message(maintainer, text.as_str());
            DeliveryPlan { initial, followups: Vec::new() }
        },
    }
}

/// Law: when the attribution marker fits in one message, the first
/// chunk of a delivered success starts with it, so the marker is never
/// split away from the opening of the answer.
pub proof fn lemma_attribution_leads(requester_id: nat, input: Seq<char>, text: Seq<char>, max_len: nat)
    requires
        max_len >= 1,
        spec_attribution(requester_id, input).len() <= max_len,
    ensures
        spec_chunk_count((spec_attribution(requester_id, input) + text).len(), max_len) >= 1,
        spec_attribution(requester_id, input).is_prefix_of(
            spec_chunk_at(spec_attribution(requester_id, input) + text, max_len, 0),
        ),
{
    reveal_strlit("<@");
    let marker = spec_attribution(requester_id, input);
    let full = marker + text;
    lemma_ceil_pos(full.len(), max_len);
    assert(0 * max_len == 0) by (nonlinear_arith);
    assert((0 + 1) * max_len == max_len) by (nonlinear_arith);
    let first = spec_chunk_at(full, max_len, 0);
    assert(first.len() >= marker.len());
    assert(marker =~= first.subrange(0, marker.len() as int));
}

/// The sub-errors among a row of per-send results, in send order.
pub open spec fn spec_collected(results: Seq<Option<String>>) -> Seq<String>
    decreases results.len(),
{
    if results.len() == 0 {
        Seq::empty()
    } else {
        spec_collected(results.drop_last()) + (match results.last() {
            Some(e) => seq![e],
            None => Seq::<String>::empty(),
        })
    }
}

/// Collects the errors of a best-effort delivery: every send is
/// represented, a failed one by its error text, and no failure
/// short-circuits the ones after it.
pub fn collect_errors(results: &Vec<Option<String>>) -> (report: Vec<String>)
    ensures
        report@ == spec_collected(results@),
{
    let mut report: Vec<String> = Vec::new();
    let mut i: usize = 0;
    while i < results.len()
        invariant
            i <= results@.len(),
            report@ == spec_collected(results@.take(i as int)),
        decreases results@.len() - i,
    {
        match &results[i] {
            Some(e) => {
                report.push(e.clone());
            },
            None => {},
        }
        proof {
            assert(results@.take(i as int + 1).drop_last() =~= results@.take(i as int));
            assert(results@.take(i as int + 1).last() == results@[i as int]);
            assert(report@ =~= spec_collected(results@.take(i as int + 1)));
        }
        i = i + 1;
    }
    proof {
        assert(results@.take(results@.len() as int) =~= results@);
    }
    report
}

} // verus!
