//! Wire encoding of a generation request: the JSON body the remote
//! service is sent, built and specified character by character.
use vstd::prelude::*;
use crate::api::{History, Request};
use crate::numerals::{push_milli, push_signed, spec_digit_char, spec_milli, spec_signed};

verus! {

/// The lower-case hexadecimal digit character for `d`.
pub open spec fn spec_hex_char(d: nat) -> char
    recommends
        d < 16,
{
    if d < 10 {
        spec_digit_char(d)
    } else if d == 10 {
        'a'
    } else if d == 11 {
        'b'
    } else if d == 12 {
        'c'
    } else if d == 13 {
        'd'
    } else if d == 14 {
        'e'
    } else {
        'f'
    }
}

/// How one character is written inside a JSON string: quote and
/// backslash are escaped, the common control characters get their
/// short escapes, any other control character a universal escape, and
/// everything else stands as itself.
pub open spec fn spec_escape_char(c: char) -> Seq<char> {
    if c == '"' {
        seq!['\\', '"']
    } else if c == '\\' {
        seq!['\\', '\\']
    } else if c == '\n' {
        seq!['\\', 'n']
    } else if c == '\r' {
        seq!['\\', 'r']
    } else if c == '\t' {
        seq!['\\', 't']
    } else if (c as nat) < 32 {
        seq!['\\', 'u', '0', '0', spec_hex_char((c as nat) / 16), spec_hex_char((c as nat) % 16)]
    } else {
        seq![c]
    }
}

/// The body of a JSON string: every character escaped in order.
pub open spec fn spec_escape(s: Seq<char>) -> Seq<char>
    decreases s.len(),
{
    if s.len() == 0 {
        Seq::empty()
    } else {
        spec_escape(s.drop_last()) + spec_escape_char(s.last())
    }
}

/// A JSON string: the escaped characters between quotes.
pub open spec fn spec_json_string(s: Seq<char>) -> Seq<char> {
    seq!['"'] + spec_escape(s) + seq!['"']
}

/// A JSON boolean literal.
pub open spec fn spec_json_bool(b: bool) -> Seq<char> {
    if b {
        "true"@
    } else {
        "false"@
    }
}

/// The comma-separated items of a JSON array of strings.
pub open spec fn spec_json_string_items(items: Seq<String>) -> Seq<char>
    decreases items.len(),
{
    if items.len() == 0 {
        Seq::empty()
    } else if items.len() == 1 {
        spec_json_string(items[0]@)
    } else {
        spec_json_string_items(items.drop_last()) + seq![','] + spec_json_string(items.last()@)
    }
}

/// A JSON array of strings.
pub open spec fn spec_json_string_list(items: Seq<String>) -> Seq<char> {
    seq!['['] + spec_json_string_items(items) + seq![']']
}

/// The comma-separated rows of a JSON array of string arrays.
pub open spec fn spec_json_matrix_items(rows: Seq<Vec<String>>) -> Seq<char>
    decreases rows.len(),
{
    if rows.len() == 0 {
        Seq::empty()
    } else if rows.len() == 1 {
        spec_json_string_list(rows[0]@)
    } else {
        spec_json_matrix_items(rows.drop_last()) + seq![','] + spec_json_string_list(rows.last()@)
    }
}

/// A JSON array of string arrays: how a transcript side is encoded.
pub open spec fn spec_json_matrix(rows: Seq<Vec<String>>) -> Seq<char> {
    seq!['['] + spec_json_matrix_items(rows) + seq![']']
}

/// A transcript pair as its JSON object.
pub open spec fn spec_json_history(h: History) -> Seq<char> {
    "{\"internal\":"@ + spec_json_matrix(h.internal@) + ",\"visible\":"@ + spec_json_matrix(
        h.visible@,
    ) + "}"@
}

/// The escaping, read from the front: the same characters as
/// [`spec_escape`], one source character at a time.
pub open spec fn spec_escape_front(s: Seq<char>) -> Seq<char>
    decreases s.len(),
{
    if s.len() == 0 {
        Seq::empty()
    } else {
        spec_escape_char(s.first()) + spec_escape_front(s.drop_first())
    }
}

/// The character a short escape code stands for.
pub open spec fn spec_unescape_code(c: char) -> char {
    if c == 'n' {
        '\n'
    } else if c == 'r' {
        '\r'
    } else if c == 't' {
        '\t'
    } else {
        c
    }
}

/// Reads an escaped JSON string body back into the characters it was
/// written from, for the short escapes.
pub open spec fn spec_unescape(t: Seq<char>) -> Seq<char>
    decreases t.len(),
{
    if t.len() == 0 {
        Seq::empty()
    } else if t.first() == '\\' {
        if t.len() >= 2 {
            seq![spec_unescape_code(t[1])] + spec_unescape(t.skip(2))
        } else {
            Seq::empty()
        }
    } else {
        seq![t.first()] + spec_unescape(t.skip(1))
    }
}

/// Whether every character of `s` escapes to a short form: anything
/// but the control characters outside newline, carriage return and
/// tab.
pub open spec fn spec_short_escapable(s: Seq<char>) -> bool {
    forall|i: int|
        0 <= i < s.len() ==> (s[i] as nat) >= 32 || s[i] == '\n' || s[i] == '\r' || s[i] == '\t'
}

/// The two directions of the escaping agree.
proof fn lemma_escape_front_agrees(s: Seq<char>)
    ensures
        spec_escape(s) == spec_escape_front(s),
    decreases s.len(),
{
    if s.len() == 0 {
        assert(spec_escape(s) =~= spec_escape_front(s));
    } else if s.len() == 1 {
        assert(s.drop_last() =~= Seq::<char>::empty());
        assert(s.drop_first() =~= Seq::<char>::empty());
        assert(s.last() == s.first());
        assert(spec_escape(s) == spec_escape(s.drop_last()) + spec_escape_char(s.last()));
        assert(spec_escape(s.drop_last()) == Seq::<char>::empty());
        assert(spec_escape_front(s) == spec_escape_char(s.first()) + spec_escape_front(
            s.drop_first(),
        ));
        assert(spec_escape_front(s.drop_first()) == Seq::<char>::empty());
        assert(spec_escape(s) =~= spec_escape_front(s));
    } else {
        let mid = s.drop_first().drop_last();
        lemma_escape_front_agrees(s.drop_last());
        lemma_escape_front_agrees(s.drop_first());
        lemma_escape_front_agrees(mid);
        assert(s.drop_last().drop_first() =~= mid);
        assert(s.drop_last().first() == s.first());
        assert(s.drop_first().last() == s.last());
        assert(s.drop_first().drop_last() == mid);
        assert(spec_escape(s) == spec_escape(s.drop_last()) + spec_escape_char(s.last()));
        assert(spec_escape_front(s.drop_last()) == spec_escape_char(s.first())
            + spec_escape_front(mid));
        assert(spec_escape_front(s) == spec_escape_char(s.first()) + spec_escape_front(
            s.drop_first(),
        ));
        assert(spec_escape(s.drop_first()) == spec_escape(mid) + spec_escape_char(s.last()));
        assert(spec_escape_front(s.drop_first()) == spec_escape_front(mid) + spec_escape_char(
            s.last(),
        ));
        assert(spec_escape(s) =~= spec_escape_front(s));
    }
}

/// Law: un-escaping inverts the escaping — the user text written into
/// the wire body is recovered exactly, for text whose control
/// characters are among newline, carriage return and tab.
pub proof fn lemma_escape_round_trip(s: Seq<char>)
    requires
        spec_short_escapable(s),
    ensures
        spec_unescape(spec_escape(s)) == s,
    decreases s.len(),
{
    lemma_escape_front_agrees(s);
    if s.len() == 0 {
        assert(spec_unescape(spec_escape_front(s)) =~= s);
    } else {
        let c = s.first();
        let rest = s.drop_first();
        let e = spec_escape_char(c);
        let t = spec_escape_front(s);
        assert(spec_short_escapable(rest)) by {
            assert(forall|i: int|
                0 <= i < rest.len() ==> rest[i] == s[i + 1]);
        }
        lemma_escape_round_trip(rest);
        lemma_escape_front_agrees(rest);
        if c == '"' || c == '\\' || c == '\n' || c == '\r' || c == '\t' {
            assert(e.len() == 2 && e[0] == '\\');
            assert(t.first() == '\\');
            assert(t[1] == e[1]);
            assert(spec_unescape_code(e[1]) == c);
            assert(t.skip(2) =~= spec_escape_front(rest));
            assert(spec_unescape(t) =~= s);
        } else {
            assert((c as nat) >= 32);
            assert(e =~= seq![c]);
            assert(t.first() == c && c != '\\');
            assert(t.skip(1) =~= spec_escape_front(rest));
            assert(spec_unescape(t) =~= s);
        }
    }
}

/// Returns the one-character string for the hexadecimal digit `d`.
fn hex_str(d: u8) -> (s: &'static str)
    requires
        d < 16,
    ensures
        s@ =~= seq![spec_hex_char(d as nat)],
{
    proof {
        reveal_strlit("0");
        reveal_strlit("1");
        reveal_strlit("2");
        reveal_strlit("3");
        reveal_strlit("4");
        reveal_strlit("5");
        reveal_strlit("6");
        reveal_strlit("7");
        reveal_strlit("8");
        reveal_strlit("9");
        reveal_strlit("a");
        reveal_strlit("b");
        reveal_strlit("c");
        reveal_strlit("d");
        reveal_strlit("e");
        reveal_strlit("f");
    }
    match d {
        0 => "0",
        1 => "1",
        2 => "2",
        3 => "3",
        4 => "4",
        5 => "5",
        6 => "6",
        7 => "7",
        8 => "8",
        9 => "9",
        10 => "a",
        11 => "b",
        12 => "c",
        13 => "d",
        14 => "e",
        _ => "f",
    }
}

/// Appends `s` escaped for the inside of a JSON string.
fn push_escaped(out: &mut String, s: &str)
    ensures
        final(out)@ == old(out)@ + spec_escape(s@),
{
    proof {
        reveal_strlit("\\\"");
        reveal_strlit("\\\\");
        reveal_strlit("\\n");
        reveal_strlit("\\r");
        reveal_strlit("\\t");
        reveal_strlit("\\u00");
    }
    let len = s.unicode_len();
    let mut i: usize = 0;
    while i < len
        invariant
            len == s@.len(),
            i <= len,
            out@ == old(out)@ + spec_escape(s@.take(i as int)),
        decreases len - i,
    {
        proof {
            reveal_strlit("\\\"");
            reveal_strlit("\\\\");
            reveal_strlit("\\n");
            reveal_strlit("\\r");
            reveal_strlit("\\t");
            reveal_strlit("\\u00");
        }
        let c = s.get_char(i);
        if c == '"' {
            out.append("\\\"");
            assert("\\\""@ =~= spec_escape_char(c));
        } else if c == '\\' {
            out.append("\\\\");
            assert("\\\\"@ =~= spec_escape_char(c));
        } else if c == '\n' {
            out.append("\\n");
            assert("\\n"@ =~= spec_escape_char(c));
        } else if c == '\r' {
            out.append("\\r");
            assert("\\r"@ =~= spec_escape_char(c));
        } else if c == '\t' {
            out.append("\\t");
            assert("\\t"@ =~= spec_escape_char(c));
        } else {
            let code = c as u32;
            if code < 32 {
                out.append("\\u00");
                out.append(hex_str((code / 16) as u8));
                out.append(hex_str((code % 16) as u8));
                assert("\\u00"@ + seq![spec_hex_char((c as nat) / 16)] + seq![
                    spec_hex_char((c as nat) % 16),
                ] =~= spec_escape_char(c));
            } else {
                let one = s.substring_char(i, i + 1);
                out.append(one);
                assert(one@ =~= spec_escape_char(c));
            }
        }
        proof {
            assert(s@.take(i as int + 1).drop_last() =~= s@.take(i as int));
            assert(s@.take(i as int + 1).last() == s@[i as int]);
            assert(out@ =~= old(out)@ + spec_escape(s@.take(i as int + 1)));
        }
        i = i + 1;
    }
    proof {
        assert(s@.take(len as int) =~= s@);
    }
}

/// Appends `s` as a complete JSON string.
fn push_json_string(out: &mut String, s: &str)
    ensures
        final(out)@ == old(out)@ + spec_json_string(s@),
{
    proof {
        reveal_strlit("\"");
        assert("\""@ =~= seq!['"']);
    }
    out.append("\"");
    push_escaped(out, s);
    out.append("\"");
    assert(out@ =~= old(out)@ + spec_json_string(s@));
}

/// Appends a JSON boolean literal.
fn push_json_bool(out: &mut String, b: bool)
    ensures
        final(out)@ == old(out)@ + spec_json_bool(b),
{
    if b {
        out.append("true");
    } else {
        out.append("false");
    }
}

/// Appends a JSON array of strings.
fn push_json_string_list(out: &mut String, items: &Vec<String>)
    ensures
        final(out)@ == old(out)@ + spec_json_string_list(items@),
{
    proof {
        reveal_strlit("[");
        reveal_strlit("]");
        reveal_strlit(",");
        assert("["@ =~= seq!['[']);
        assert("]"@ =~= seq![']']);
        assert(","@ =~= seq![',']);
    }
    out.append("[");
    let mut i: usize = 0;
    while i < items.len()
        invariant
            i <= items@.len(),
            out@ == old(out)@ + seq!['['] + spec_json_string_items(items@.take(i as int)),
        decreases items@.len() - i,
    {
        proof {
            reveal_strlit("[");
            reveal_strlit(",");
            assert("["@ =~= seq!['[']);
            assert(","@ =~= seq![',']);
        }
        if i > 0 {
            out.append(",");
        }
        push_json_string(out, items[i].as_str());
        proof {
            assert(items@.take(i as int + 1).drop_last() =~= items@.take(i as int));
            assert(items@.take(i as int + 1).last() == items@[i as int]);
            assert(out@ =~= old(out)@ + seq!['['] + spec_json_string_items(
                items@.take(i as int + 1),
            ));
        }
        i = i + 1;
    }
    out.append("]");
    proof {
        assert(items@.take(items@.len() as int) =~= items@);
        assert(out@ =~= old(out)@ + spec_json_string_list(items@));
    }
}

/// Appends a JSON array of string arrays.
fn push_json_matrix(out: &mut String, rows: &Vec<Vec<String>>)
    ensures
        final(out)@ == old(out)@ + spec_json_matrix(rows@),
{
    proof {
        reveal_strlit("[");
        reveal_strlit("]");
        reveal_strlit(",");
        assert("["@ =~= seq!['[']);
        assert("]"@ =~= seq![']']);
        assert(","@ =~= seq![',']);
    }
    out.append("[");
    let mut i: usize = 0;
    while i < rows.len()
        invariant
            i <= rows@.len(),
            out@ == old(out)@ + seq!['['] + spec_json_matrix_items(rows@.take(i as int)),
        decreases rows@.len() - i,
    {
        proof {
            reveal_strlit("[");
            reveal_strlit(",");
            assert("["@ =~= seq!['[']);
            assert(","@ =~= seq![',']);
        }
        if i > 0 {
            out.append(",");
        }
        push_json_string_list(out, &rows[i]);
        proof {
            assert(rows@.take(i as int + 1).drop_last() =~= rows@.take(i as int));
            assert(rows@.take(i as int + 1).last() == rows@[i as int]);
            assert(out@ =~= old(out)@ + seq!['['] + spec_json_matrix_items(
                rows@.take(i as int + 1),
            ));
        }
        i = i + 1;
    }
    out.append("]");
    proof {
        assert(rows@.take(rows@.len() as int) =~= rows@);
        assert(out@ =~= old(out)@ + spec_json_matrix(rows@));
    }
}

/// Appends the transcript pair as its JSON object.
fn push_json_history(out: &mut String, h: &History)
    ensures
        final(out)@ == old(out)@ + spec_json_history(*h),
{
    out.append("{\"internal\":");
    push_json_matrix(out, &h.internal);
    out.append(",\"visible\":");
    push_json_matrix(out, &h.visible);
    out.append("}");
    assert(out@ =~= old(out)@ + spec_json_history(*h));
}

/// The opening of the wire object: input, transcript, mode and
/// character selection.
pub open spec fn spec_section_identity(r: Request) -> Seq<char> {
    "{\"user_input\":"@ + spec_json_string(r.user_input@) + ",\"history\":"@ + spec_json_history(
        r.history,
    ) + ",\"mode\":"@ + spec_json_string(r.mode@) + ",\"character\":"@ + spec_json_string(
        r.character@,
    ) + ",\"instruction_template\":"@ + spec_json_string(r.instruction_template@)
}

/// The dialogue-control fields of the wire object.
pub open spec fn spec_section_dialogue(r: Request) -> Seq<char> {
    ",\"regenerate\":"@ + spec_json_bool(r.regenerate) + ",\"_continue\":"@ + spec_json_bool(
        r._continue,
    ) + ",\"stop_at_newline\":"@ + spec_json_bool(r.stop_at_newline) + ",\"chat_prompt_size\":"@
        + spec_signed(r.chat_prompt_size as int) + ",\"chat_generation_attempts\":"@ + spec_signed(
        r.chat_generation_attempts as int,
    ) + ",\"instruct_command\":"@ + spec_json_string(r.instruct_command@)
}

/// The sampling fields of the wire object.
pub open spec fn spec_section_sampling(r: Request) -> Seq<char> {
    ",\"max_new_tokens\":"@ + spec_signed(r.max_new_tokens as int) + ",\"do_sample\":"@
        + spec_json_bool(r.do_sample) + ",\"temperature\":"@ + spec_milli(r.temperature as nat)
        + ",\"top_p\":"@ + spec_milli(r.top_p as nat) + ",\"typical_p\":"@ + spec_signed(
        r.typical_p as int,
    ) + ",\"epsilon_cutoff\":"@ + spec_signed(r.epsilon_cutoff as int) + ",\"eta_cutoff\":"@
        + spec_signed(r.eta_cutoff as int) + ",\"repetition_penalty\":"@ + spec_milli(
        r.repetition_penalty as nat,
    ) + ",\"top_k\":"@ + spec_signed(r.top_k as int) + ",\"min_length\":"@ + spec_signed(
        r.min_length as int,
    )
}

/// The shaping fields of the wire object.
pub open spec fn spec_section_shaping(r: Request) -> Seq<char> {
    ",\"no_repeat_ngram_size\":"@ + spec_signed(r.no_repeat_ngram_size as int) + ",\"num_beams\":"@
        + spec_signed(r.num_beams as int) + ",\"penalty_alpha\":"@ + spec_signed(
        r.penalty_alpha as int,
    ) + ",\"length_penalty\":"@ + spec_signed(r.length_penalty as int) + ",\"early_stopping\":"@
        + spec_json_bool(r.early_stopping) + ",\"mirostat_mode\":"@ + spec_signed(
        r.mirostat_mode as int,
    ) + ",\"mirostat_tau\":"@ + spec_signed(r.mirostat_tau as int) + ",\"mirostat_eta\":"@
        + spec_milli(r.mirostat_eta as nat)
}

/// The tokenizer fields of the wire object, and its close.
pub open spec fn spec_section_tokens(r: Request) -> Seq<char> {
    ",\"seed\":"@ + spec_signed(r.seed as int) + ",\"add_bos_token\":"@ + spec_json_bool(
        r.add_bos_token,
    ) + ",\"truncation_length\":"@ + spec_signed(r.truncation_length as int)
        + ",\"ban_eos_token\":"@ + spec_json_bool(r.ban_eos_token)
        + ",\"skip_special_tokens\":"@ + spec_json_bool(r.skip_special_tokens)
        + ",\"stopping_strings\":"@ + spec_json_string_list(r.stopping_strings@) + "}"@
}

/// The complete JSON body a request is sent as: every field in wire
/// order, fractional parameters written with three fractional digits.
pub open spec fn spec_request_json(r: Request) -> Seq<char> {
    spec_section_identity(r) + spec_section_dialogue(r) + spec_section_sampling(r)
        + spec_section_shaping(r) + spec_section_tokens(r)
}

fn push_section_identity(out: &mut String, r: &Request)
    ensures
        final(out)@ == old(out)@ + spec_section_identity(*r),
{
    out.append("{\"user_input\":");
    push_json_string(out, r.user_input.as_str());
    out.append(",\"history\":");
    push_json_history(out, &r.history);
    out.append(",\"mode\":");
    push_json_string(out, r.mode.as_str());
    out.append(",\"character\":");
    push_json_string(out, r.character.as_str());
    out.append(",\"instruction_template\":");
    push_json_string(out, r.instruction_template.as_str());
    assert(out@ =~= old(out)@ + spec_section_identity(*r));
}

fn push_section_dialogue(out: &mut String, r: &Request)
    ensures
        final(out)@ == old(out)@ + spec_section_dialogue(*r),
{
    out.append(",\"regenerate\":");
    push_json_bool(out, r.regenerate);
    out.append(",\"_continue\":");
    push_json_bool(out, r._continue);
    out.append(",\"stop_at_newline\":");
    push_json_bool(out, r.stop_at_newline);
    out.append(",\"chat_prompt_size\":");
    push_signed(out, r.chat_prompt_size);
    out.append(",\"chat_generation_attempts\":");
    push_signed(out, r.chat_generation_attempts);
    out.append(",\"instruct_command\":");
    push_json_string(out, r.instruct_command.as_str());
    assert(out@ =~= old(out)@ + spec_section_dialogue(*r));
}

fn push_section_sampling(out: &mut String, r: &Request)
    ensures
        final(out)@ == old(out)@ + spec_section_sampling(*r),
{
    out.append(",\"max_new_tokens\":");
    push_signed(out, r.max_new_tokens);
    out.append(",\"do_sample\":");
    push_json_bool(out, r.do_sample);
    out.append(",\"temperature\":");
    push_milli(out, r.temperature);
    out.append(",\"top_p\":");
    push_milli(out, r.top_p);
    out.append(",\"typical_p\":");
    push_signed(out, r.typical_p);
    out.append(",\"epsilon_cutoff\":");
    push_signed(out, r.epsilon_cutoff);
    out.append(",\"eta_cutoff\":");
    push_signed(out, r.eta_cutoff);
    out.append(",\"repetition_penalty\":");
    push_milli(out, r.repetition_penalty);
    out.append(",\"top_k\":");
    push_signed(out, r.top_k);
    out.append(",\"min_length\":");
    push_signed(out, r.min_length);
    assert(out@ =~= old(out)@ + spec_section_sampling(*r));
}

fn push_section_shaping(out: &mut String, r: &Request)
    ensures
        final(out)@ == old(out)@ + spec_section_shaping(*r),
{
    out.append(",\"no_repeat_ngram_size\":");
    push_signed(out, r.no_repeat_ngram_size);
    out.append(",\"num_beams\":");
    push_signed(out, r.num_beams);
    out.append(",\"penalty_alpha\":");
    push_signed(out, r.penalty_alpha);
    out.append(",\"length_penalty\":");
    push_signed(out, r.length_penalty);
    out.append(",\"early_stopping\":");
    push_json_bool(out, r.early_stopping);
    out.append(",\"mirostat_mode\":");
    push_signed(out, r.mirostat_mode);
    out.append(",\"mirostat_tau\":");
    push_signed(out, r.mirostat_tau);
    out.append(",\"mirostat_eta\":");
    push_milli(out, r.mirostat_eta);
    assert(out@ =~= old(out)@ + spec_section_shaping(*r));
}

#[verifier::rlimit(60)]
fn push_section_tokens(out: &mut String, r: &Request)
    ensures
        final(out)@ == old(out)@ + spec_section_tokens(*r),
{
    out.append(",\"seed\":");
    push_signed(out, r.seed);
    out.append(",\"add_bos_token\":");
    push_json_bool(out, r.add_bos_token);
    out.append(",\"truncation_length\":");
    push_signed(out, r.truncation_length);
    out.append(",\"ban_eos_token\":");
    push_json_bool(out, r.ban_eos_token);
    out.append(",\"skip_special_tokens\":");
    push_json_bool(out, r.skip_special_tokens);
    out.append(",\"stopping_strings\":");
    push_json_string_list(out, &r.stopping_strings);
    out.append("}");
    assert(out@ =~= old(out)@ + spec_section_tokens(*r));
}

/// Law: the wire body pins the user input down — the characters
/// written for it start right after the opening key, and un-escape to
/// exactly the original text, for text whose control characters are
/// among newline, carriage return and tab.
pub proof fn lemma_wire_body_recovers_input(r: Request)
    requires
        spec_short_escapable(r.user_input@),
    ensures
        spec_request_json(r).len() > 15 + spec_escape(r.user_input@).len(),
        spec_unescape(
            spec_request_json(r).subrange(
                15,
                15 + spec_escape(r.user_input@).len() as int,
            ),
        ) == r.user_input@,
{
    reveal_strlit("{\"user_input\":");
    let escaped = spec_escape(r.user_input@);
    let el = escaped.len() as int;
    let js = spec_json_string(r.user_input@);
    let body = spec_request_json(r);
    assert(js.len() == el + 2);
    assert(forall|j: int| 0 <= j < el ==> #[trigger] js[1 + j] == escaped[j]);
    assert(spec_section_identity(r).len() >= 14 + js.len());
    assert(forall|j: int| 0 <= j < el ==> #[trigger] spec_section_identity(r)[14 + 1 + j] == js[1 + j]);
    assert(forall|j: int| 0 <= j < el ==> #[trigger] body[14 + 1 + j]
        == spec_section_identity(r)[14 + 1 + j]);
    assert(body.subrange(15, 15 + el) =~= escaped);
    lemma_escape_round_trip(r.user_input@);
}

/// Encodes a request as the JSON body the remote service is sent.
pub fn encode_request(r: &Request) -> (body: String)
    ensures
        body@ == spec_request_json(*r),
{
    let mut out = String::new();
    push_section_identity(&mut out, r);
    push_section_dialogue(&mut out, r);
    push_section_sampling(&mut out, r);
    push_section_shaping(&mut out, r);
    push_section_tokens(&mut out, r);
    assert(out@ =~= spec_request_json(*r));
    out
}

} // verus!
