//! The Codex provider as a node runs it: the transcript it keeps of each runtime, the
//! prompt it sends, how it reads what Codex printed, and the events it answers with.
use vstd::prelude::*;

use crate::dispatch::{
    command_provider_resume_ref, emit_plan, emitted_for_command, error_payload, error_payload_exec,
    emits_plan, item, payload_resume_ref, payload_string, seq_base, seq_room, seqs_advanced,
    plan_push, plan_view, provider_resume_ref_json, ref_find, resolve_plan, resolve_plan_exec,
    resume_ref_json, resume_ref_spec, PlanItem, PlannedEvent,
};
use crate::node_state::resume_ref_view;
use crate::projection::view_events;
use crate::protocol::{
    clone_opt, json_obj0, json_obj1, obj0, obj1, push_member, str_member, CommandEnvelope, CommandView, EventEnvelope,
};
use crate::states::{CommandKind, EventKind};
use crate::node_state::{ProviderResumeRef, TranscriptMessage};
use crate::protocol::{
    entries_view, json_get_str, json_obj2, json_obj3, json_str, lemma_entries_view, lookup_from,
    obj2, obj3, opt_view, view_as_str, JsonValue, JsonView,
};
use crate::strmap::StrMap;
use crate::dispatch::{nonempty_or, str_or};
use crate::text::{
    bounded, bounded_text, chars_of, concat2, contains_chars, contains_seq, decimal,
    i64_to_chars, push_str, signed_decimal, string_from, string_of, to_ascii_lower,
    to_ascii_lower_chars, trim, trim_str, u64_to_string, strings_view,
};

verus! {

/// The most transcript messages a node keeps, and sends along, per runtime.
pub const MAX_CODEX_TRANSCRIPT_MESSAGES: usize = 20;

/// The most transcript characters a node keeps, and sends along, per runtime.
pub const MAX_CODEX_TRANSCRIPT_CHARS: usize = 12000;

/// A transcript as role and content of each message.
pub open spec fn transcript_view(t: Seq<TranscriptMessage>) -> Seq<(Seq<char>, Seq<char>)> {
    t.map_values(|m: TranscriptMessage| (m.role@, m.content@))
}

/// How many of the newest messages go into a prompt, counting from `k` already chosen
/// that hold `chars` characters: messages are taken newest first, each counted with its
/// role, content and four characters of framing; one is always taken, then no more once
/// the next would bring the context and the new content over the character bound, and
/// never more than the message bound.
pub open spec fn prompt_selection(
    msgs: Seq<(Seq<char>, Seq<char>)>,
    content_len: int,
    k: int,
    chars: int,
) -> int
    decreases msgs.len() - k,
{
    if k < 0 || k >= msgs.len() {
        k
    } else {
        let m = msgs[msgs.len() - 1 - k];
        let size = m.0.len() + m.1.len() + 4;
        if k > 0 && chars + size + content_len > MAX_CODEX_TRANSCRIPT_CHARS {
            k
        } else if k + 1 >= MAX_CODEX_TRANSCRIPT_MESSAGES {
            k + 1
        } else {
            prompt_selection(msgs, content_len, k + 1, chars + size)
        }
    }
}

/// The transcript lines of `msgs`: each as `role: content` and a newline.
pub open spec fn transcript_lines(msgs: Seq<(Seq<char>, Seq<char>)>) -> Seq<char>
    decreases msgs.len(),
{
    if msgs.len() == 0 {
        seq![]
    } else {
        transcript_lines(msgs.drop_last()) + msgs.last().0 + ": "@ + msgs.last().1 + "\n"@
    }
}

pub open spec fn prompt_header() -> Seq<char> {
    "Continue this Cortex session. Use the transcript only as prior context, then answer the latest user message.\n\nTranscript:\n"@
}

/// The prompt for a turn with `content` after `msgs`: the content alone when no message
/// is selected, else the selected newest messages as context, then the content.
pub open spec fn codex_prompt_spec(content: Seq<char>, msgs: Seq<(Seq<char>, Seq<char>)>) -> Seq<char> {
    let n = prompt_selection(msgs, content.len() as int, 0, 0);
    if n == 0 {
        content
    } else {
        prompt_header() + transcript_lines(msgs.skip(msgs.len() - n)) + "\nLatest user message:\n"@
            + content
    }
}

proof fn lemma_prompt_selection_bounds(msgs: Seq<(Seq<char>, Seq<char>)>, content_len: int, k: int, chars: int)
    requires
        0 <= k <= msgs.len(),
        k < MAX_CODEX_TRANSCRIPT_MESSAGES,
    ensures
        k <= prompt_selection(msgs, content_len, k, chars) <= msgs.len(),
        prompt_selection(msgs, content_len, k, chars) <= MAX_CODEX_TRANSCRIPT_MESSAGES,
    decreases msgs.len() - k,
{
    if k < msgs.len() {
        let m = msgs[msgs.len() - 1 - k];
        let size = m.0.len() + m.1.len() + 4;
        if !(k > 0 && chars + size + content_len > MAX_CODEX_TRANSCRIPT_CHARS) && !(k + 1
            >= MAX_CODEX_TRANSCRIPT_MESSAGES) {
            lemma_prompt_selection_bounds(msgs, content_len, k + 1, chars + size);
        }
    }
}

/// The number of characters of `s`.
fn char_count(s: &str) -> (n: usize)
    ensures
        n == s@.len(),
{
    chars_of(s).len()
}

/// The prompt that a Codex turn with `content` sends after the runtime's `transcript`.
pub fn codex_exec_prompt(content: &str, transcript: &Vec<TranscriptMessage>) -> (r: String)
    ensures
        r@ == codex_prompt_spec(content@, transcript_view(transcript@)),
{
    let ghost msgs = transcript_view(transcript@);
    let content_len = char_count(content);
    let len = transcript.len();
    let mut k: usize = 0;
    let mut chars: u128 = 0;
    let mut done = false;
    while !done && k < len
        invariant
            msgs == transcript_view(transcript@),
            len == msgs.len(),
            k <= len,
            done ==> prompt_selection(msgs, content_len as int, 0, 0) == k,
            !done ==> k < MAX_CODEX_TRANSCRIPT_MESSAGES,
            !done ==> chars <= k * 0x3_0000_0000_0000_0000,
            !done ==> prompt_selection(msgs, content_len as int, 0, 0) == prompt_selection(
                msgs,
                content_len as int,
                k as int,
                chars as int,
            ),
        decreases len - k + if done {
            0int
        } else {
            1int
        },
    {
        let m = &transcript[len - 1 - k];
        assert(msgs[len - 1 - k] == (m.role@, m.content@));
        let size: u128 = char_count(m.role.as_str()) as u128 + char_count(m.content.as_str()) as u128
            + 4;
        if k > 0 && chars + size + content_len as u128 > MAX_CODEX_TRANSCRIPT_CHARS as u128 {
            done = true;
        } else if k + 1 >= MAX_CODEX_TRANSCRIPT_MESSAGES {
            k = k + 1;
            done = true;
        } else {
            chars = chars + size;
            k = k + 1;
        }
    }
    let ghost n = prompt_selection(msgs, content_len as int, 0, 0);
    assert(n == k);
    if k == 0 {
        return string_from(content);
    }
    let mut prompt = string_from(
        "Continue this Cortex session. Use the transcript only as prior context, then answer the latest user message.\n\nTranscript:\n",
    );
    let start = len - k;
    let ghost sel = msgs.skip(start as int);
    let mut i: usize = start;
    while i < len
        invariant
            msgs == transcript_view(transcript@),
            len == msgs.len(),
            start <= i <= len,
            sel == msgs.skip(start as int),
            prompt@ == prompt_header() + transcript_lines(sel.take(i - start)),
        decreases len - i,
    {
        let m = &transcript[i];
        assert(msgs[i as int] == (m.role@, m.content@));
        assert(sel.take(i + 1 - start).drop_last() =~= sel.take(i - start));
        assert(sel.take(i + 1 - start).last() == msgs[i as int]);
        push_str(&mut prompt, m.role.as_str());
        push_str(&mut prompt, ": ");
        push_str(&mut prompt, m.content.as_str());
        push_str(&mut prompt, "\n");
        i += 1;
    }
    assert(sel.take(len - start) =~= sel);
    push_str(&mut prompt, "\nLatest user message:\n");
    push_str(&mut prompt, content);
    prompt
}


/// The characters of the messages of `t`, role and content.
pub open spec fn transcript_chars(t: Seq<(Seq<char>, Seq<char>)>) -> int
    decreases t.len(),
{
    if t.len() == 0 {
        0
    } else {
        t[0].0.len() + t[0].1.len() + transcript_chars(t.drop_first())
    }
}

/// `t` without its oldest messages while more than two are left and they hold more than
/// the character bound.
pub open spec fn drop_oldest_over_chars(t: Seq<(Seq<char>, Seq<char>)>) -> Seq<(Seq<char>, Seq<char>)>
    decreases t.len(),
{
    if t.len() > 2 && transcript_chars(t) > MAX_CODEX_TRANSCRIPT_CHARS {
        drop_oldest_over_chars(t.drop_first())
    } else {
        t
    }
}

/// A transcript cut to its newest messages within the message bound, then within the
/// character bound, keeping at least two.
pub open spec fn trimmed_transcript(t: Seq<(Seq<char>, Seq<char>)>) -> Seq<(Seq<char>, Seq<char>)> {
    let t1 = if t.len() > MAX_CODEX_TRANSCRIPT_MESSAGES {
        t.skip(t.len() - MAX_CODEX_TRANSCRIPT_MESSAGES)
    } else {
        t
    };
    drop_oldest_over_chars(t1)
}

proof fn lemma_transcript_chars_nonneg(t: Seq<(Seq<char>, Seq<char>)>)
    ensures
        transcript_chars(t) >= 0,
    decreases t.len(),
{
    if t.len() > 0 {
        lemma_transcript_chars_nonneg(t.drop_first());
    }
}

/// The message count is at most the bound, and the character count is within its
/// bound unless only two messages or fewer are left.
pub proof fn lemma_trimmed_transcript_bounded(t: Seq<(Seq<char>, Seq<char>)>)
    ensures
        trimmed_transcript(t).len() <= MAX_CODEX_TRANSCRIPT_MESSAGES,
        trimmed_transcript(t).len() > 2 ==> transcript_chars(trimmed_transcript(t))
            <= MAX_CODEX_TRANSCRIPT_CHARS,
{
    let t1 = if t.len() > MAX_CODEX_TRANSCRIPT_MESSAGES {
        t.skip(t.len() - MAX_CODEX_TRANSCRIPT_MESSAGES)
    } else {
        t
    };
    lemma_drop_oldest(t1);
}

proof fn lemma_drop_oldest(t: Seq<(Seq<char>, Seq<char>)>)
    ensures
        drop_oldest_over_chars(t).len() <= t.len(),
        drop_oldest_over_chars(t).len() > 2 ==> transcript_chars(drop_oldest_over_chars(t))
            <= MAX_CODEX_TRANSCRIPT_CHARS,
    decreases t.len(),
{
    if t.len() > 2 && transcript_chars(t) > MAX_CODEX_TRANSCRIPT_CHARS {
        lemma_drop_oldest(t.drop_first());
    }
}

/// Cuts a transcript to its newest messages within the message bound, then drops the
/// oldest while more than two are left and they exceed the character bound.
pub fn trim_codex_transcript(transcript: &mut Vec<TranscriptMessage>)
    ensures
        transcript_view(final(transcript)@) == trimmed_transcript(transcript_view(old(transcript)@)),
{
    let ghost t0 = transcript_view(transcript@);
    if transcript.len() > MAX_CODEX_TRANSCRIPT_MESSAGES {
        let overflow = transcript.len() - MAX_CODEX_TRANSCRIPT_MESSAGES;
        let kept = transcript.split_off(overflow);
        *transcript = kept;
    }
    let ghost t1 = transcript_view(transcript@);
    assert(t1 =~= if t0.len() > MAX_CODEX_TRANSCRIPT_MESSAGES {
        t0.skip(t0.len() - MAX_CODEX_TRANSCRIPT_MESSAGES)
    } else {
        t0
    });
    let len = transcript.len();
    assert(len <= MAX_CODEX_TRANSCRIPT_MESSAGES);
    let mut total: u128 = 0;
    let mut i: usize = len;
    while i > 0
        invariant
            i <= len,
            len <= MAX_CODEX_TRANSCRIPT_MESSAGES,
            len == t1.len(),
            t1 == transcript_view(transcript@),
            total == transcript_chars(t1.skip(i as int)),
            total <= (len - i) * 0x2_0000_0000_0000_0000,
        decreases i,
    {
        let m = &transcript[i - 1];
        assert(t1.skip(i - 1).drop_first() =~= t1.skip(i as int));
        assert(t1.skip(i - 1)[0] == t1[i - 1]);
        total = total + char_count(m.role.as_str()) as u128 + char_count(m.content.as_str()) as u128;
        i -= 1;
    }
    assert(t1.skip(0) =~= t1);
    let mut k: usize = 0;
    while len - k > 2 && total > MAX_CODEX_TRANSCRIPT_CHARS as u128
        invariant
            k <= len,
            len == t1.len(),
            t1 == transcript_view(transcript@),
            total == transcript_chars(t1.skip(k as int)),
            drop_oldest_over_chars(t1) == drop_oldest_over_chars(t1.skip(k as int)),
        decreases len - k,
    {
        let m = &transcript[k];
        assert(t1.skip(k as int).drop_first() =~= t1.skip(k + 1));
        assert(t1.skip(k as int)[0] == t1[k as int]);
        proof {
            lemma_transcript_chars_nonneg(t1.skip(k + 1));
        }
        total = total - char_count(m.role.as_str()) as u128 - char_count(m.content.as_str()) as u128;
        k += 1;
    }
    let kept = transcript.split_off(k);
    *transcript = kept;
    assert(transcript_view(transcript@) =~= t1.skip(k as int));
}

/// A copy of a transcript.
pub fn clone_transcript(t: &Vec<TranscriptMessage>) -> (r: Vec<TranscriptMessage>)
    ensures
        transcript_view(r@) == transcript_view(t@),
{
    let mut r: Vec<TranscriptMessage> = Vec::new();
    let mut i: usize = 0;
    while i < t.len()
        invariant
            i <= t@.len(),
            transcript_view(r@) == transcript_view(t@).take(i as int),
        decreases t@.len() - i,
    {
        let ghost before = r@;
        let m = TranscriptMessage { role: t[i].role.clone(), content: t[i].content.clone() };
        assert(m.role@ == t@[i as int].role@ && m.content@ == t@[i as int].content@);
        r.push(m);
        assert(transcript_view(r@) =~= transcript_view(before).push((t@[i as int].role@, t@[i as int].content@)));
        assert(transcript_view(r@) =~= transcript_view(t@).take(i + 1));
        i += 1;
    }
    assert(transcript_view(t@).take(t@.len() as int) =~= transcript_view(t@));
    r
}

/// The transcript recorded for runtime `k`, empty when there is none.
pub open spec fn transcript_of(m: StrMap<Vec<TranscriptMessage>>, k: Seq<char>) -> Seq<(Seq<char>, Seq<char>)> {
    match m.find(k) {
        Some(t) => transcript_view(t@),
        None => seq![],
    }
}

/// Adds a completed turn, the user's message and the assistant's answer, to the
/// transcript of runtime `runtime_session_id`, and trims it.
pub fn record_codex_transcript_turn(
    transcripts: &mut StrMap<Vec<TranscriptMessage>>,
    runtime_session_id: &str,
    user_content: &str,
    assistant_content: &str,
)
    requires
        old(transcripts).wf(),
    ensures
        final(transcripts).wf(),
        forall|k: Seq<char>| #[trigger]
            final(transcripts).find(k) is Some <==> (k == runtime_session_id@ || old(transcripts).find(
                k,
            ) is Some),
        forall|k: Seq<char>| #[trigger]
            transcript_of(*final(transcripts), k) == if k == runtime_session_id@ {
                trimmed_transcript(
                    transcript_of(*old(transcripts), k).push(("user"@, user_content@)).push(
                        ("assistant"@, assistant_content@),
                    ),
                )
            } else {
                transcript_of(*old(transcripts), k)
            },
{
    let mut t = match transcripts.get(runtime_session_id) {
        Some(v) => clone_transcript(v),
        None => Vec::new(),
    };
    let ghost t0 = transcript_view(t@);
    assert(t0 =~= transcript_of(*old(transcripts), runtime_session_id@));
    t.push(TranscriptMessage { role: string_from("user"), content: string_from(user_content) });
    t.push(
        TranscriptMessage { role: string_from("assistant"), content: string_from(assistant_content) },
    );
    assert(transcript_view(t@) =~= t0.push(("user"@, user_content@)).push(
        ("assistant"@, assistant_content@),
    ));
    trim_codex_transcript(&mut t);
    let ghost tv = transcript_view(t@);
    let ghost tg = t;
    transcripts.insert(string_from(runtime_session_id), t);
    assert forall|k: Seq<char>| #[trigger] transcript_of(*transcripts, k) == if k
        == runtime_session_id@ {
        tv
    } else {
        transcript_of(*old(transcripts), k)
    } by {
        assert(transcripts.find(k) == if k == runtime_session_id@ {
            Some(tg)
        } else {
            old(transcripts).find(k)
        });
    }
}


/// The views of a list of keys.
pub open spec fn keys_view(keys: Seq<&str>) -> Seq<Seq<char>> {
    keys.map_values(|k: &str| k@)
}

/// The string held under the first of `keys`, from index `i` on, that `entries` hold a
/// string under.
pub open spec fn keyed_str(entries: Seq<(Seq<char>, JsonView)>, keys: Seq<Seq<char>>, i: int) -> Option<
    Seq<char>,
>
    decreases keys.len() - i,
{
    if i < 0 || i >= keys.len() {
        None
    } else {
        match view_as_str(lookup_from(entries, keys[i], 0)) {
            Some(s) => Some(s),
            None => keyed_str(entries, keys, i + 1),
        }
    }
}

/// The first string found under one of `keys`: an object's own members first, in the
/// order of `keys`, then each member value in turn, depth first; in an array, each item
/// in turn.
pub open spec fn first_string(v: JsonView, keys: Seq<Seq<char>>) -> Option<Seq<char>>
    decreases v, 0nat,
{
    match v {
        JsonView::Object(entries) => match keyed_str(entries, keys, 0) {
            Some(s) => Some(s),
            None => first_in_entries(entries, keys, 0),
        },
        JsonView::Array(items) => first_in_items(items, keys, 0),
        _ => None,
    }
}

pub open spec fn first_in_entries(entries: Seq<(Seq<char>, JsonView)>, keys: Seq<Seq<char>>, i: int) -> Option<
    Seq<char>,
>
    decreases entries, (entries.len() - i) as nat,
{
    if i < 0 || i >= entries.len() {
        None
    } else {
        match first_string(entries[i].1, keys) {
            Some(s) => Some(s),
            None => first_in_entries(entries, keys, i + 1),
        }
    }
}

pub open spec fn first_in_items(items: Seq<JsonView>, keys: Seq<Seq<char>>, i: int) -> Option<Seq<char>>
    decreases items, (items.len() - i) as nat,
{
    if i < 0 || i >= items.len() {
        None
    } else {
        match first_string(items[i], keys) {
            Some(s) => Some(s),
            None => first_in_items(items, keys, i + 1),
        }
    }
}

/// The string held under the first of `keys` that an object holds a string under, among
/// its own members only.
pub open spec fn top_level_string(v: JsonView, keys: Seq<Seq<char>>) -> Option<Seq<char>> {
    match v {
        JsonView::Object(entries) => keyed_str(entries, keys, 0),
        _ => None,
    }
}

/// The string under the first of `keys` among the members of `value` itself.
pub fn top_level_json_string(value: &JsonValue, keys: &Vec<&str>) -> (r: Option<String>)
    ensures
        opt_view(r) == top_level_string(value@, keys_view(keys@)),
{
    match value {
        JsonValue::Object(entries) => {
            let ghost ev = entries_view(entries@, entries@.len());
            let ghost kv = keys_view(keys@);
            let mut i: usize = 0;
            while i < keys.len()
                invariant
                    i <= keys@.len(),
                    kv == keys_view(keys@),
                    value@ == JsonView::Object(ev),
                    keyed_str(ev, kv, 0) == keyed_str(ev, kv, i as int),
                decreases keys@.len() - i,
            {
                assert(kv[i as int] == keys@[i as int]@);
                if let Some(s) = json_get_str(value, keys[i]) {
                    return Some(string_from(s));
                }
                i += 1;
            }
            None
        },
        _ => None,
    }
}

/// The first string found under one of `keys` anywhere in `value`, as `first_string`
/// describes.
#[verifier::loop_isolation(false)]
pub fn first_json_string_for_keys(value: &JsonValue, keys: &Vec<&str>) -> (r: Option<String>)
    ensures
        opt_view(r) == first_string(value@, keys_view(keys@)),
    decreases value,
{
    let ghost kv = keys_view(keys@);
    match value {
        JsonValue::Object(entries) => {
            let ghost ev = entries_view(entries@, entries@.len());
            if let Some(s) = top_level_json_string(value, keys) {
                return Some(s);
            }
            proof {
                lemma_entries_view(entries@, entries@.len());
            }
            let mut j: usize = 0;
            while j < entries.len()
                invariant
                    j <= entries@.len(),
                    first_in_entries(ev, kv, 0) == first_in_entries(ev, kv, j as int),
                decreases entries@.len() - j,
            {
                assert(decreases_to!(*value => *entries));
                assert(decreases_to!(*entries => entries@));
                assert(decreases_to!(entries@ => entries@[j as int]));
                assert(decreases_to!(entries@[j as int] => entries@[j as int].1));
                assert(ev[j as int].1 == entries@[j as int].1@);
                if let Some(s) = first_json_string_for_keys(&entries[j].1, keys) {
                    return Some(s);
                }
                j += 1;
            }
            None
        },
        JsonValue::Array(items) => {
            let ghost iv = crate::protocol::items_view(items@, items@.len());
            proof {
                crate::protocol::lemma_items_view(items@, items@.len());
            }
            let mut j: usize = 0;
            while j < items.len()
                invariant
                    j <= items@.len(),
                    first_in_items(iv, kv, 0) == first_in_items(iv, kv, j as int),
                decreases items@.len() - j,
            {
                assert(decreases_to!(*value => *items));
                assert(decreases_to!(*items => items@));
                assert(decreases_to!(items@ => items@[j as int]));
                assert(iv[j as int] == items@[j as int]@);
                if let Some(s) = first_json_string_for_keys(&items[j], keys) {
                    return Some(s);
                }
                j += 1;
            }
            None
        },
        _ => None,
    }
}


pub open spec fn event_keys() -> Seq<Seq<char>> {
    seq!["type"@, "event"@, "kind"@]
}

pub open spec fn approval_id_keys() -> Seq<Seq<char>> {
    seq!["approval_id"@, "request_id"@, "id"@]
}

pub open spec fn question_keys() -> Seq<Seq<char>> {
    seq!["prompt"@, "message"@, "question"@]
}

pub open spec fn prompt_keys() -> Seq<Seq<char>> {
    seq!["prompt"@, "message"@, "question"@, "reason"@, "description"@]
}

/// An event name that asks for an approval or for user input, in any letter case.
pub open spec fn approval_event_name(name: Seq<char>) -> bool {
    let l = to_ascii_lower(name);
    ||| contains_seq(l, "approval"@) && (contains_seq(l, "request"@) || contains_seq(l, "requested"@))
    ||| contains_seq(l, "user"@) && contains_seq(l, "input"@) && contains_seq(l, "request"@)
}

/// A line of Codex output asks for approval: its event name says so, or, when it has no
/// event name, it carries an approval id and a question.
pub open spec fn is_approval_request(v: JsonView) -> bool {
    match top_level_string(v, event_keys()) {
        Some(name) => approval_event_name(name),
        None => first_string(v, seq!["approval_id"@]) is Some && first_string(v, question_keys()) is Some,
    }
}

fn str_contains(s: &Vec<char>, needle: &str) -> (b: bool)
    ensures
        b == contains_seq(s@, needle@),
{
    let n = chars_of(needle);
    contains_chars(s, &n)
}

pub fn codex_json_is_approval_request(value: &JsonValue) -> (b: bool)
    ensures
        b == is_approval_request(value@),
{
    let keys: Vec<&str> = vec!["type", "event", "kind"];
    assert(keys_view(keys@) =~= event_keys());
    match top_level_json_string(value, &keys) {
        Some(name) => {
            let lower = to_ascii_lower_chars(chars_of(name.as_str()).as_slice());
            (str_contains(&lower, "approval") && (str_contains(&lower, "request") || str_contains(
                &lower,
                "requested",
            ))) || (str_contains(&lower, "user") && str_contains(&lower, "input") && str_contains(
                &lower,
                "request",
            ))
        },
        None => {
            let id_keys: Vec<&str> = vec!["approval_id"];
            assert(keys_view(id_keys@) =~= seq!["approval_id"@]);
            let q_keys: Vec<&str> = vec!["prompt", "message", "question"];
            assert(keys_view(q_keys@) =~= question_keys());
            first_json_string_for_keys(value, &id_keys).is_some() && first_json_string_for_keys(
                value,
                &q_keys,
            ).is_some()
        },
    }
}

/// An approval that Codex asked for: its id, the question, and the event name it came
/// under.
pub struct CodexApprovalRequest {
    pub approval_id: String,
    pub prompt: String,
    pub provider_event_type: Option<String>,
}

pub open spec fn request_view(r: CodexApprovalRequest) -> (Seq<char>, Seq<char>, Option<Seq<char>>) {
    (r.approval_id@, r.prompt@, opt_view(r.provider_event_type))
}

/// The approval id a request carries, when it is not blank.
pub open spec fn given_approval_id(v: JsonView) -> Option<Seq<char>> {
    match first_string(v, approval_id_keys()) {
        Some(s) => if trim(s).len() > 0 {
            Some(s)
        } else {
            None
        },
        None => None,
    }
}

/// The question of a request: the first prompt-like text, trimmed and cut to 1200
/// characters, or a stock question when there is none.
pub open spec fn approval_prompt(v: JsonView) -> Seq<char> {
    match first_string(v, prompt_keys()) {
        Some(s) => nonempty_or(bounded(trim(s), 1200), "Codex requested approval"@),
        None => "Codex requested approval"@,
    }
}

/// The approval request that a line of Codex output makes, if it makes one; a request
/// without an id of its own is given `fallback_id`.
pub open spec fn approval_request_spec(v: JsonView, fallback_id: Seq<char>) -> Option<
    (Seq<char>, Seq<char>, Option<Seq<char>>),
> {
    if is_approval_request(v) {
        Some(
            (
                str_or(given_approval_id(v), fallback_id),
                approval_prompt(v),
                top_level_string(v, event_keys()),
            ),
        )
    } else {
        None
    }
}

pub fn codex_approval_request_from_json(value: &JsonValue, fallback_id: &str) -> (r: Option<
    CodexApprovalRequest,
>)
    ensures
        match r {
            Some(x) => approval_request_spec(value@, fallback_id@) == Some(request_view(x)),
            None => approval_request_spec(value@, fallback_id@) is None,
        },
{
    if !codex_json_is_approval_request(value) {
        return None;
    }
    let keys: Vec<&str> = vec!["type", "event", "kind"];
    assert(keys_view(keys@) =~= event_keys());
    let provider_event_type = top_level_json_string(value, &keys);
    let id_keys: Vec<&str> = vec!["approval_id", "request_id", "id"];
    assert(keys_view(id_keys@) =~= approval_id_keys());
    let approval_id = match first_json_string_for_keys(value, &id_keys) {
        Some(id) => {
            if trim_str(id.as_str()).as_str().is_empty() {
                string_from(fallback_id)
            } else {
                id
            }
        },
        None => string_from(fallback_id),
    };
    let p_keys: Vec<&str> = vec!["prompt", "message", "question", "reason", "description"];
    assert(keys_view(p_keys@) =~= prompt_keys());
    let prompt = match first_json_string_for_keys(value, &p_keys) {
        Some(p) => {
            let t = trim_str(p.as_str());
            let b = bounded_text(t.as_str(), 1200);
            if b.as_str().is_empty() {
                string_from("Codex requested approval")
            } else {
                b
            }
        },
        None => string_from("Codex requested approval"),
    };
    Some(CodexApprovalRequest { approval_id, prompt, provider_event_type })
}

/// The requests of the lines that are approval requests, in order.
pub open spec fn approval_values(values: Seq<JsonView>) -> Seq<JsonView>
    decreases values.len(),
{
    if values.len() == 0 {
        seq![]
    } else if is_approval_request(values.last()) {
        approval_values(values.drop_last()).push(values.last())
    } else {
        approval_values(values.drop_last())
    }
}

/// `r` is the request that line `v` makes, whatever id it was given when the line
/// carries none.
pub open spec fn request_of(r: (Seq<char>, Seq<char>, Option<Seq<char>>), v: JsonView) -> bool {
    &&& r.1 == approval_prompt(v)
    &&& r.2 == top_level_string(v, event_keys())
    &&& given_approval_id(v) matches Some(id) ==> r.0 == id
}

pub open spec fn json_views(values: Seq<JsonValue>) -> Seq<JsonView> {
    values.map_values(|v: JsonValue| v@)
}

/// The approval requests among the parsed lines of Codex's output, in order; one without
/// an id of its own gets a fresh random one, which nothing states.
pub fn codex_approval_requests_from_values(values: &Vec<JsonValue>) -> (r: Vec<CodexApprovalRequest>)
    ensures
        r@.len() == approval_values(json_views(values@)).len(),
        forall|i: int|
            0 <= i < r@.len() ==> request_of(
                request_view(#[trigger] r@[i]),
                approval_values(json_views(values@))[i],
            ),
{
    let ghost vv = json_views(values@);
    let mut out: Vec<CodexApprovalRequest> = Vec::new();
    let mut i: usize = 0;
    while i < values.len()
        invariant
            i <= values@.len(),
            vv == json_views(values@),
            out@.len() == approval_values(vv.take(i as int)).len(),
            forall|m: int|
                0 <= m < out@.len() ==> request_of(
                    request_view(#[trigger] out@[m]),
                    approval_values(vv.take(i as int))[m],
                ),
        decreases values@.len() - i,
    {
        let v = &values[i];
        assert(vv.take(i + 1).drop_last() =~= vv.take(i as int));
        assert(vv.take(i + 1).last() == v@);
        let fallback = if codex_json_is_approval_request(v) {
            crate::system::new_uuid()
        } else {
            String::new()
        };
        if let Some(req) = codex_approval_request_from_json(v, fallback.as_str()) {
            let ghost before = out@;
            out.push(req);
            assert forall|m: int| 0 <= m < out@.len() implies request_of(
                request_view(#[trigger] out@[m]),
                approval_values(vv.take(i + 1))[m],
            ) by {
                if m < before.len() {
                    assert(out@[m] == before[m]);
                }
            }
        }
        i += 1;
    }
    assert(vv.take(values@.len() as int) =~= vv);
    out
}


pub open spec fn session_keys() -> Seq<Seq<char>> {
    seq!["provider_session_id"@, "session_id"@, "conversation_id"@, "thread_id"@]
}

pub open spec fn cursor_keys() -> Seq<Seq<char>> {
    seq!["resume_cursor"@, "cursor"@]
}

/// The first non-blank string under one of `keys`, trimmed and cut to 512 characters.
pub open spec fn codex_resume_member(v: JsonView, keys: Seq<Seq<char>>) -> Option<Seq<char>> {
    match first_string(v, keys) {
        Some(s) => if trim(s).len() > 0 {
            Some(bounded(trim(s), 512))
        } else {
            None
        },
        None => None,
    }
}

/// The resume reference that one line of Codex output gives, if it names a session or a
/// cursor.
pub open spec fn codex_resume_ref_spec(v: JsonView) -> Option<JsonView> {
    let a = codex_resume_member(v, session_keys());
    let b = codex_resume_member(v, cursor_keys());
    if a is None && b is None {
        None
    } else {
        Some(resume_ref_json((a, b)))
    }
}

fn codex_resume_member_exec(value: &JsonValue, keys: &Vec<&str>) -> (r: Option<String>)
    ensures
        opt_view(r) == codex_resume_member(value@, keys_view(keys@)),
{
    match first_json_string_for_keys(value, keys) {
        Some(s) => {
            let t = trim_str(s.as_str());
            if t.as_str().is_empty() {
                None
            } else {
                Some(bounded_text(t.as_str(), 512))
            }
        },
        None => None,
    }
}

pub fn codex_resume_ref_from_json(value: &JsonValue) -> (r: Option<JsonValue>)
    ensures
        match r {
            Some(x) => codex_resume_ref_spec(value@) == Some(x@),
            None => codex_resume_ref_spec(value@) is None,
        },
{
    let s_keys: Vec<&str> = vec!["provider_session_id", "session_id", "conversation_id", "thread_id"];
    assert(keys_view(s_keys@) =~= session_keys());
    let c_keys: Vec<&str> = vec!["resume_cursor", "cursor"];
    assert(keys_view(c_keys@) =~= cursor_keys());
    let provider_session_id = codex_resume_member_exec(value, &s_keys);
    let resume_cursor = codex_resume_member_exec(value, &c_keys);
    if provider_session_id.is_none() && resume_cursor.is_none() {
        None
    } else {
        let r = ProviderResumeRef { provider_session_id, resume_cursor };
        Some(provider_resume_ref_json(&r))
    }
}

/// The resume reference of the first line of output that gives one.
pub open spec fn first_resume_ref(values: Seq<JsonView>) -> Option<JsonView>
    decreases values.len(),
{
    if values.len() == 0 {
        None
    } else {
        match codex_resume_ref_spec(values[0]) {
            Some(r) => Some(r),
            None => first_resume_ref(values.drop_first()),
        }
    }
}

pub fn codex_resume_ref_from_values(values: &Vec<JsonValue>) -> (r: Option<JsonValue>)
    ensures
        match r {
            Some(x) => first_resume_ref(json_views(values@)) == Some(x@),
            None => first_resume_ref(json_views(values@)) is None,
        },
{
    let ghost vv = json_views(values@);
    assert(vv.skip(0) =~= vv);
    let mut i: usize = 0;
    while i < values.len()
        invariant
            i <= values@.len(),
            vv == json_views(values@),
            first_resume_ref(vv) == first_resume_ref(vv.skip(i as int)),
        decreases values@.len() - i,
    {
        assert(vv.skip(i as int)[0] == values@[i as int]@);
        assert(vv.skip(i as int).drop_first() =~= vv.skip(i + 1));
        if let Some(r) = codex_resume_ref_from_json(&values[i]) {
            return Some(r);
        }
        i += 1;
    }
    None
}

/// The payload of the Codex runtime's events: `{"provider": "codex", "mode": "exec"}`.
pub open spec fn codex_ready() -> JsonView {
    obj2("provider"@, JsonView::Str("codex"@), "mode"@, JsonView::Str("exec"@))
}

fn codex_ready_exec() -> (r: JsonValue)
    ensures
        r@ == codex_ready(),
{
    json_obj2("provider", json_str("codex"), "mode", json_str("exec"))
}

/// The payload of a Codex runtime that is ready again after a turn: provider and mode,
/// and the resume reference when Codex gave one.
pub open spec fn codex_ready_payload_spec(provider: Seq<char>, resume: Option<JsonView>) -> JsonView {
    match resume {
        Some(r) => obj3("provider"@, JsonView::Str(provider), "mode"@, JsonView::Str("exec"@), "provider_resume_ref"@, r),
        None => obj2("provider"@, JsonView::Str(provider), "mode"@, JsonView::Str("exec"@)),
    }
}

pub fn codex_runtime_ready_payload(provider_key: &str, provider_resume_ref: Option<JsonValue>) -> (r:
    JsonValue)
    ensures
        r@ == codex_ready_payload_spec(
            provider_key@,
            match provider_resume_ref {
                Some(x) => Some(x@),
                None => None,
            },
        ),
{
    match provider_resume_ref {
        Some(x) => json_obj3("provider", json_str(provider_key), "mode", json_str("exec"), "provider_resume_ref", x),
        None => json_obj2("provider", json_str(provider_key), "mode", json_str("exec")),
    }
}

/// The status a failed process is reported with: its exit code, or that a signal ended
/// it.
pub open spec fn exit_status_text(code: Option<i32>) -> Seq<char> {
    match code {
        Some(c) => signed_decimal(c as int),
        None => "terminated_by_signal"@,
    }
}

/// The message for a Codex process that exited with failure: the status, then what it
/// printed on stderr, or else on stdout, each cut to 1200 characters and trimmed.
pub open spec fn codex_failure_message_spec(code: Option<i32>, stdout: Seq<char>, stderr: Seq<char>) -> Seq<char> {
    let status = exit_status_text(code);
    let err = trim(bounded(stderr, 1200));
    let out = trim(bounded(stdout, 1200));
    if err.len() > 0 {
        "Codex exec failed with status "@ + status + ": "@ + err
    } else if out.len() > 0 {
        "Codex exec failed with status "@ + status + ": "@ + out
    } else {
        "Codex exec failed with status "@ + status
    }
}

pub fn codex_failure_message(status_code: Option<i32>, stdout: &str, stderr: &str) -> (r: String)
    ensures
        r@ == codex_failure_message_spec(status_code, stdout@, stderr@),
{
    let status = match status_code {
        Some(c) => string_of(&i64_to_chars(c as i64)),
        None => string_from("terminated_by_signal"),
    };
    let err = trim_str(bounded_text(stderr, 1200).as_str());
    let mut r = concat2("Codex exec failed with status ", status.as_str());
    if !err.as_str().is_empty() {
        push_str(&mut r, ": ");
        push_str(&mut r, err.as_str());
        return r;
    }
    let out = trim_str(bounded_text(stdout, 1200).as_str());
    if !out.as_str().is_empty() {
        push_str(&mut r, ": ");
        push_str(&mut r, out.as_str());
    }
    r
}

/// Why a Codex process could not run: a code and a message.
pub struct ProviderStartFailure {
    pub code: String,
    pub message: String,
}

impl ProviderStartFailure {
    pub fn new(code: &str, message: String) -> (r: Self)
        ensures
            r.code@ == code@,
            r.message@ == message@,
    {
        ProviderStartFailure { code: string_from(code), message }
    }
}

/// What Codex is called to do: `exec` or `exec resume`.
pub open spec fn exec_label(resume: bool) -> Seq<char> {
    if resume {
        "Codex exec resume"@
    } else {
        "Codex exec"@
    }
}

/// The failure of a Codex process that could not be started: a missing binary when the
/// system found no file, else a failure to start; the message names the binary and the
/// system's error.
pub open spec fn launch_failure_spec(resume: bool, binary: Seq<char>, not_found: bool, error: Seq<char>) -> (
    Seq<char>,
    Seq<char>,
) {
    (
        if not_found {
            "provider.missing_binary"@
        } else {
            "provider.start_failed"@
        },
        exec_label(resume) + " could not start using `"@ + binary + "`: "@ + error,
    )
}

pub fn codex_launch_failure(resume: bool, binary: &str, not_found: bool, error: &str) -> (r:
    ProviderStartFailure)
    ensures
        (r.code@, r.message@) == launch_failure_spec(resume, binary@, not_found, error@),
{
    let code = if not_found {
        "provider.missing_binary"
    } else {
        "provider.start_failed"
    };
    let mut message = if resume {
        string_from("Codex exec resume")
    } else {
        string_from("Codex exec")
    };
    push_str(&mut message, " could not start using `");
    push_str(&mut message, binary);
    push_str(&mut message, "`: ");
    push_str(&mut message, error);
    ProviderStartFailure::new(code, message)
}

/// The failure of a Codex process that ran past its time.
pub open spec fn timeout_failure_spec(resume: bool, seconds: u64) -> (Seq<char>, Seq<char>) {
    (
        "provider.start_timeout"@,
        exec_label(resume) + " timed out after "@ + decimal(seconds as nat) + " seconds"@,
    )
}

pub fn codex_timeout_failure(resume: bool, timeout_seconds: u64) -> (r: ProviderStartFailure)
    ensures
        (r.code@, r.message@) == timeout_failure_spec(resume, timeout_seconds),
{
    let mut message = if resume {
        string_from("Codex exec resume")
    } else {
        string_from("Codex exec")
    };
    push_str(&mut message, " timed out after ");
    push_str(&mut message, u64_to_string(timeout_seconds).as_str());
    push_str(&mut message, " seconds");
    ProviderStartFailure::new("provider.start_timeout", message)
}


/// The Codex provider, run as one `codex exec` process per turn.
pub struct CodexProviderAdapter {
    pub codex_binary: String,
    pub timeout_seconds: u64,
}

/// A JSON number written in decimal.
pub open spec fn json_nat(n: nat) -> JsonView {
    JsonView::Number(decimal(n))
}

/// What the Codex provider emits for a command other than a turn, given the length of
/// the runtime's transcript and the resume reference in force.
pub open spec fn codex_plan(
    kind: CommandKind,
    payload: JsonView,
    transcript_len: nat,
    resume: Option<(Option<Seq<char>>, Option<Seq<char>>)>,
) -> Seq<PlanItem> {
    let ready = codex_ready();
    match kind {
        CommandKind::StartRuntime => seq![
            item(None, EventKind::RuntimeStarting, ready),
            item(
                None,
                EventKind::RuntimeReady,
                obj3(
                    "provider"@,
                    JsonView::Str("codex"@),
                    "mode"@,
                    JsonView::Str("exec"@),
                    "resume_source"@,
                    JsonView::Str("node_local_transcript"@),
                ),
            ),
        ],
        CommandKind::ResumeRuntime => match resume {
            Some(r) => seq![
                item(
                    None,
                    EventKind::RuntimeResuming,
                    obj3(
                        "provider"@,
                        JsonView::Str("codex"@),
                        "mode"@,
                        JsonView::Str("exec"@),
                        "resume_source"@,
                        JsonView::Str("provider_resume_ref"@),
                    ),
                ),
                item(
                    None,
                    EventKind::RuntimeReady,
                    JsonView::Object(
                        seq![
                            ("provider"@, JsonView::Str("codex"@)),
                            ("mode"@, JsonView::Str("exec"@)),
                            ("resume_source"@, JsonView::Str("provider_resume_ref"@)),
                            ("provider_resume_ref"@, resume_ref_json(r)),
                        ],
                    ),
                ),
            ],
            None => seq![
                item(None, EventKind::RuntimeResuming, ready),
                item(
                    None,
                    EventKind::RuntimeReady,
                    JsonView::Object(
                        seq![
                            ("provider"@, JsonView::Str("codex"@)),
                            ("mode"@, JsonView::Str("exec"@)),
                            ("resume_source"@, JsonView::Str("node_local_transcript"@)),
                            ("transcript_messages"@, json_nat(transcript_len)),
                        ],
                    ),
                ),
            ],
        },
        CommandKind::ResolveApproval => resolve_plan(payload, ready),
        CommandKind::InterruptRuntime => seq![
            item(
                None,
                EventKind::RuntimeError,
                error_payload(
                    "provider.interrupt_unsupported"@,
                    "Codex interrupt is not supported by the stateless exec adapter yet"@,
                ),
            ),
        ],
        CommandKind::StopRuntime => seq![item(None, EventKind::RuntimeStopped, ready)],
        _ => seq![],
    }
}

/// The resume reference a resume uses: the one it carries, else the one recorded.
pub open spec fn resume_in_force(
    c: CommandView,
    refs: StrMap<ProviderResumeRef>,
    rid: Seq<char>,
) -> Option<(Option<Seq<char>>, Option<Seq<char>>)> {
    match payload_resume_ref(c.payload) {
        Some(r) => Some(r),
        None => ref_find(refs, rid),
    }
}

/// The members of an object, in order, as built from `entries`.
fn object_of(entries: Vec<(String, JsonValue)>) -> (r: JsonValue)
    ensures
        r@ == JsonView::Object(entries_view(entries@, entries@.len())),
{
    crate::protocol::json_object(entries)
}

fn codex_plan_exec(
    command: &CommandEnvelope,
    transcript_len: usize,
    resume: &Option<ProviderResumeRef>,
) -> (r: Vec<PlannedEvent>)
    ensures
        plan_view(r@) == codex_plan(
            command@.kind,
            command@.payload,
            transcript_len as nat,
            match resume {
                Some(x) => Some(resume_ref_view(*x)),
                None => None,
            },
        ),
{
    let mut r: Vec<PlannedEvent> = Vec::new();
    match command.kind {
        CommandKind::StartRuntime => {
            plan_push(&mut r, None, EventKind::RuntimeStarting, codex_ready_exec());
            plan_push(
                &mut r,
                None,
                EventKind::RuntimeReady,
                json_obj3(
                    "provider",
                    json_str("codex"),
                    "mode",
                    json_str("exec"),
                    "resume_source",
                    json_str("node_local_transcript"),
                ),
            );
        },
        CommandKind::ResumeRuntime => {
            let mut es: Vec<(String, JsonValue)> = Vec::new();
            assert(entries_view(es@, 0) =~= seq![]);
            push_member(&mut es, "provider", json_str("codex"));
            push_member(&mut es, "mode", json_str("exec"));
            match resume {
                Some(x) => {
                    plan_push(
                        &mut r,
                        None,
                        EventKind::RuntimeResuming,
                        json_obj3(
                            "provider",
                            json_str("codex"),
                            "mode",
                            json_str("exec"),
                            "resume_source",
                            json_str("provider_resume_ref"),
                        ),
                    );
                    push_member(&mut es, "resume_source", json_str("provider_resume_ref"));
                    push_member(&mut es, "provider_resume_ref", provider_resume_ref_json(x));
                    let ghost ev = entries_view(es@, es@.len());
                    plan_push(&mut r, None, EventKind::RuntimeReady, object_of(es));
                    assert(ev =~= seq![
                        ("provider"@, JsonView::Str("codex"@)),
                        ("mode"@, JsonView::Str("exec"@)),
                        ("resume_source"@, JsonView::Str("provider_resume_ref"@)),
                        ("provider_resume_ref"@, resume_ref_json(resume_ref_view(*x))),
                    ]);
                },
                None => {
                    plan_push(&mut r, None, EventKind::RuntimeResuming, codex_ready_exec());
                    push_member(&mut es, "resume_source", json_str("node_local_transcript"));
                    let digits = u64_to_string(transcript_len as u64);
                    push_member(&mut es, "transcript_messages", JsonValue::Number(digits));
                    let ghost ev = entries_view(es@, es@.len());
                    plan_push(&mut r, None, EventKind::RuntimeReady, object_of(es));
                    assert(ev =~= seq![
                        ("provider"@, JsonView::Str("codex"@)),
                        ("mode"@, JsonView::Str("exec"@)),
                        ("resume_source"@, JsonView::Str("node_local_transcript"@)),
                        ("transcript_messages"@, json_nat(transcript_len as nat)),
                    ]);
                },
            }
        },
        CommandKind::ResolveApproval => {
            return resolve_plan_exec(&command.payload, codex_ready_exec());
        },
        CommandKind::InterruptRuntime => {
            plan_push(
                &mut r,
                None,
                EventKind::RuntimeError,
                error_payload_exec(
                    "provider.interrupt_unsupported",
                    "Codex interrupt is not supported by the stateless exec adapter yet",
                ),
            );
        },
        CommandKind::StopRuntime => {
            plan_push(&mut r, None, EventKind::RuntimeStopped, codex_ready_exec());
        },
        _ => {},
    }
    assert(plan_view(r@) =~= codex_plan(
        command@.kind,
        command@.payload,
        transcript_len as nat,
        match resume {
            Some(x) => Some(resume_ref_view(*x)),
            None => None,
        },
    ));
    r
}


/// How a turn calls Codex: a fresh `exec` with a prompt that carries the transcript, or
/// an `exec resume` of the provider's own session with the new content.
pub enum CodexInvocation {
    Exec { prompt: String },
    Resume { provider_session_id: String, content: String },
}

/// A Codex turn that is to run: where, for which turn, with what content, and how.
pub struct CodexRun {
    pub workspace_path: String,
    pub turn_id: Option<String>,
    pub content: String,
    pub invocation: CodexInvocation,
}

/// The events the adapter emitted for a command, and the turn to run, if any.
pub struct CodexCommandStep {
    pub events: Vec<EventEnvelope>,
    pub run: Option<CodexRun>,
}

/// The content of a turn, empty when the payload has none.
pub open spec fn turn_content(payload: JsonView) -> Seq<char> {
    str_or(str_member(payload, "content"@), ""@)
}

/// A workspace path that is not blank.
pub open spec fn usable_workspace(w: Option<Seq<char>>) -> Option<Seq<char>> {
    match w {
        Some(x) => if trim(x).len() > 0 {
            Some(x)
        } else {
            None
        },
        None => None,
    }
}

/// What a Codex turn emits before Codex runs: running, the turn's start, and, when there
/// is no workspace to run in, the error that ends the turn.
pub open spec fn codex_turn_start_plan(payload: JsonView, workspace: Option<Seq<char>>) -> Seq<PlanItem> {
    let turn = str_member(payload, "turn_id"@);
    let head = seq![
        item(None, EventKind::RuntimeRunning, codex_ready()),
        item(turn, EventKind::TurnStarted, obj0()),
    ];
    if usable_workspace(workspace) is None {
        head.push(
            item(
                turn,
                EventKind::RuntimeError,
                error_payload(
                    "provider.workspace_missing"@,
                    "Codex provider requires a workspace path from StartRuntime"@,
                ),
            ),
        )
    } else {
        head
    }
}

/// How a turn of runtime `rid` calls Codex: resuming the provider's session when one is
/// recorded, else with a prompt built from the transcript.
pub open spec fn invocation_spec(
    payload: JsonView,
    transcripts: StrMap<Vec<TranscriptMessage>>,
    refs: StrMap<ProviderResumeRef>,
    rid: Seq<char>,
) -> (bool, Seq<char>) {
    match ref_find(refs, rid) {
        Some((Some(sid), _)) => (true, sid),
        _ => (false, codex_prompt_spec(turn_content(payload), transcript_of(transcripts, rid))),
    }
}

pub open spec fn invocation_view(i: CodexInvocation) -> (bool, Seq<char>) {
    match i {
        CodexInvocation::Exec { prompt } => (false, prompt@),
        CodexInvocation::Resume { provider_session_id, .. } => (true, provider_session_id@),
    }
}

/// `run` is the run of a turn with `payload` in workspace `w`, invoked as `inv`.
pub open spec fn run_of(run: CodexRun, payload: JsonView, w: Seq<char>, inv: (bool, Seq<char>)) -> bool {
    &&& run.workspace_path@ == w
    &&& opt_view(run.turn_id) == str_member(payload, "turn_id"@)
    &&& run.content@ == turn_content(payload)
    &&& invocation_view(run.invocation) == inv
    &&& (run.invocation matches CodexInvocation::Resume { content, .. } ==> content@ == turn_content(payload))
}

/// The arguments `codex` is started with for `run`, writing its last message to
/// `output_path`: a first turn as `exec --cd <workspace> --json --output-last-message
/// <path> <prompt>`, a resumed one as `exec resume --json --output-last-message <path>
/// <provider session> <content>`.
pub open spec fn codex_arguments_spec(run: CodexRun, output_path: Seq<char>) -> Seq<Seq<char>> {
    match run.invocation {
        CodexInvocation::Exec { prompt } => seq![
            "exec"@,
            "--cd"@,
            run.workspace_path@,
            "--json"@,
            "--output-last-message"@,
            output_path,
            prompt@,
        ],
        CodexInvocation::Resume { provider_session_id, content } => seq![
            "exec"@,
            "resume"@,
            "--json"@,
            "--output-last-message"@,
            output_path,
            provider_session_id@,
            content@,
        ],
    }
}

pub fn codex_arguments(run: &CodexRun, output_path: &str) -> (r: Vec<String>)
    ensures
        strings_view(r@) == codex_arguments_spec(*run, output_path@),
{
    let mut r: Vec<String> = Vec::new();
    match &run.invocation {
        CodexInvocation::Exec { prompt } => {
            r.push(string_from("exec"));
            r.push(string_from("--cd"));
            r.push(run.workspace_path.clone());
            r.push(string_from("--json"));
            r.push(string_from("--output-last-message"));
            r.push(string_from(output_path));
            r.push(prompt.clone());
        },
        CodexInvocation::Resume { provider_session_id, content } => {
            r.push(string_from("exec"));
            r.push(string_from("resume"));
            r.push(string_from("--json"));
            r.push(string_from("--output-last-message"));
            r.push(string_from(output_path));
            r.push(provider_session_id.clone());
            r.push(content.clone());
        },
    }
    assert(strings_view(r@) =~= codex_arguments_spec(*run, output_path@));
    r
}

/// The plan for a command other than a turn, for the runtime it addresses.
pub open spec fn codex_command_plan(
    c: CommandView,
    transcripts: StrMap<Vec<TranscriptMessage>>,
    refs: StrMap<ProviderResumeRef>,
) -> Seq<PlanItem> {
    match c.runtime_session_id {
        Some(rid) => codex_plan(
            c.kind,
            c.payload,
            transcript_of(transcripts, rid).len(),
            resume_in_force(c, refs, rid),
        ),
        None => seq![],
    }
}

impl CodexProviderAdapter {
    pub fn new(codex_binary: &str, timeout_seconds: u64) -> (r: Self)
        ensures
            r.codex_binary@ == codex_binary@,
            r.timeout_seconds == timeout_seconds,
    {
        CodexProviderAdapter { codex_binary: string_from(codex_binary), timeout_seconds }
    }

    pub fn provider_key(&self) -> (r: &'static str)
        ensures
            r@ == "codex"@,
    {
        "codex"
    }

    /// The events for `command`; for a turn, those before Codex runs and the run to make.
    /// A start gives the runtime an empty transcript and forgets its resume reference; a
    /// resume records the resume reference it uses.
    pub fn events_for_command(
        &self,
        command: &CommandEnvelope,
        runtime_seqs: &mut StrMap<i64>,
        workspace_path: Option<&str>,
        runtime_transcripts: &mut StrMap<Vec<TranscriptMessage>>,
        runtime_provider_resume_refs: &mut StrMap<ProviderResumeRef>,
    ) -> (r: CodexCommandStep)
        requires
            old(runtime_seqs).wf(),
            old(runtime_transcripts).wf(),
            old(runtime_provider_resume_refs).wf(),
            seq_room(*old(runtime_seqs), command@, 3),
        ensures
            final(runtime_seqs).wf(),
            final(runtime_transcripts).wf(),
            final(runtime_provider_resume_refs).wf(),
            command@.kind == CommandKind::SendTurn ==> {
                &&& emitted_for_command(
                    view_events(r.events@),
                    "codex"@,
                    command@,
                    codex_turn_start_plan(
                        command@.payload,
                        match workspace_path {
                            Some(w) => Some(w@),
                            None => None,
                        },
                    ),
                    *old(runtime_seqs),
                    *final(runtime_seqs),
                )
                &&& *final(runtime_transcripts) == *old(runtime_transcripts)
                &&& *final(runtime_provider_resume_refs) == *old(runtime_provider_resume_refs)
                &&& (r.run is Some <==> (command@.runtime_session_id is Some && usable_workspace(
                    match workspace_path {
                        Some(w) => Some(w@),
                        None => None,
                    },
                ) is Some))
                &&& (r.run matches Some(run) ==> run_of(
                    run,
                    command@.payload,
                    workspace_path->0@,
                    invocation_spec(
                        command@.payload,
                        *old(runtime_transcripts),
                        *old(runtime_provider_resume_refs),
                        command@.runtime_session_id->0,
                    ),
                ))
            },
            command@.kind != CommandKind::SendTurn ==> {
                &&& r.run is None
                &&& emitted_for_command(
                    view_events(r.events@),
                    "codex"@,
                    command@,
                    codex_command_plan(
                        command@,
                        *old(runtime_transcripts),
                        *old(runtime_provider_resume_refs),
                    ),
                    *old(runtime_seqs),
                    *final(runtime_seqs),
                )
                &&& forall|k: Seq<char>| #[trigger]
                    transcript_of(*final(runtime_transcripts), k) == if command@.kind
                        == CommandKind::StartRuntime && command@.runtime_session_id == Some(k) {
                        seq![]
                    } else {
                        transcript_of(*old(runtime_transcripts), k)
                    }
                &&& (command@.kind == CommandKind::StartRuntime && command@.runtime_session_id is Some
                    ==> (final(runtime_transcripts).find(command@.runtime_session_id->0) matches Some(t)
                    && t@.len() == 0))
                &&& forall|k: Seq<char>| #[trigger]
                    ref_find(*final(runtime_provider_resume_refs), k) == if command@.runtime_session_id
                        == Some(k) && command@.kind == CommandKind::StartRuntime {
                        None
                    } else if command@.runtime_session_id == Some(k) && command@.kind
                        == CommandKind::ResumeRuntime && resume_in_force(
                        command@,
                        *old(runtime_provider_resume_refs),
                        k,
                    ) is Some {
                        resume_in_force(command@, *old(runtime_provider_resume_refs), k)
                    } else {
                        ref_find(*old(runtime_provider_resume_refs), k)
                    }
            },
    {
        let rid = match &command.runtime_session_id {
            Some(r) => r,
            None => {
                return CodexCommandStep { events: Vec::new(), run: None };
            },
        };
        if command.kind == CommandKind::SendTurn {
            return self.turn_start(command, runtime_seqs, rid.as_str(), workspace_path, runtime_transcripts, runtime_provider_resume_refs);
        }
        let transcript_len: usize = match runtime_transcripts.get(rid.as_str()) {
            Some(t) => t.len(),
            None => 0,
        };
        let resume: Option<ProviderResumeRef> = if command.kind == CommandKind::ResumeRuntime {
            match command_provider_resume_ref(command) {
                Some(x) => Some(x),
                None => match runtime_provider_resume_refs.get(rid.as_str()) {
                    Some(x) => Some(
                        ProviderResumeRef {
                            provider_session_id: clone_opt(&x.provider_session_id),
                            resume_cursor: clone_opt(&x.resume_cursor),
                        },
                    ),
                    None => None,
                },
            }
        } else {
            None
        };
        let ghost resume_v = match &resume {
            Some(x) => Some(resume_ref_view(*x)),
            None => None,
        };
        assert(command@.kind == CommandKind::ResumeRuntime ==> resume_v == resume_in_force(
            command@,
            *old(runtime_provider_resume_refs),
            rid@,
        ));
        let plan = codex_plan_exec(command, transcript_len, &resume);
        assert(plan_view(plan@) == codex_command_plan(
            command@,
            *old(runtime_transcripts),
            *old(runtime_provider_resume_refs),
        ));
        if command.kind == CommandKind::StartRuntime {
            runtime_transcripts.insert(string_from(rid.as_str()), Vec::new());
            assert(runtime_transcripts.find(rid@) matches Some(t) && t@.len() == 0);
            runtime_provider_resume_refs.remove(rid.as_str());
            assert forall|k: Seq<char>| #[trigger] transcript_of(*runtime_transcripts, k) == if k == rid@ {
                seq![]
            } else {
                transcript_of(*old(runtime_transcripts), k)
            } by {
                if k == rid@ {
                    assert(runtime_transcripts.find(k) matches Some(t) && t@.len() == 0);
                    assert(transcript_of(*runtime_transcripts, k) =~= seq![]);
                }
            }
            assert forall|k: Seq<char>| #[trigger] ref_find(*runtime_provider_resume_refs, k) == if k == rid@ {
                None
            } else {
                ref_find(*old(runtime_provider_resume_refs), k)
            } by {
                assert(runtime_provider_resume_refs.find(k) == if k == rid@ {
                    None
                } else {
                    old(runtime_provider_resume_refs).find(k)
                });
            }
        } else if command.kind == CommandKind::ResumeRuntime {
            if let Some(x) = resume {
                let ghost xv = resume_ref_view(x);
                runtime_provider_resume_refs.insert(string_from(rid.as_str()), x);
                assert forall|k: Seq<char>| #[trigger] ref_find(*runtime_provider_resume_refs, k) == if k == rid@ {
                    Some(xv)
                } else {
                    ref_find(*old(runtime_provider_resume_refs), k)
                } by {
                    assert(runtime_provider_resume_refs.find(k) == if k == rid@ {
                        Some(x)
                    } else {
                        old(runtime_provider_resume_refs).find(k)
                    });
                }
            }
        }
        let events = emit_plan(self.provider_key(), command, runtime_seqs, rid.as_str(), &plan);
        CodexCommandStep { events, run: None }
    }

    fn turn_start(
        &self,
        command: &CommandEnvelope,
        runtime_seqs: &mut StrMap<i64>,
        rid: &str,
        workspace_path: Option<&str>,
        runtime_transcripts: &StrMap<Vec<TranscriptMessage>>,
        runtime_provider_resume_refs: &StrMap<ProviderResumeRef>,
    ) -> (r: CodexCommandStep)
        requires
            old(runtime_seqs).wf(),
            command@.runtime_session_id == Some(rid@),
            seq_base(*old(runtime_seqs), rid@) + 3 <= i64::MAX,
        ensures
            final(runtime_seqs).wf(),
            emitted_for_command(
                view_events(r.events@),
                "codex"@,
                command@,
                codex_turn_start_plan(
                    command@.payload,
                    match workspace_path {
                        Some(w) => Some(w@),
                        None => None,
                    },
                ),
                *old(runtime_seqs),
                *final(runtime_seqs),
            ),
            r.run is Some <==> usable_workspace(
                match workspace_path {
                    Some(w) => Some(w@),
                    None => None,
                },
            ) is Some,
            r.run matches Some(run) ==> run_of(
                run,
                command@.payload,
                workspace_path->0@,
                invocation_spec(command@.payload, *runtime_transcripts, *runtime_provider_resume_refs, rid@),
            ),
    {
        let turn = payload_string(&command.payload, "turn_id");
        let content: String = match json_get_str(&command.payload, "content") {
            Some(s) => string_from(s),
            None => string_from(""),
        };
        let mut plan: Vec<PlannedEvent> = Vec::new();
        plan_push(&mut plan, None, EventKind::RuntimeRunning, codex_ready_exec());
        plan_push(&mut plan, clone_opt(&turn), EventKind::TurnStarted, json_obj0());
        let usable: Option<&str> = match workspace_path {
            Some(w) => if trim_str(w).as_str().is_empty() {
                None
            } else {
                Some(w)
            },
            None => None,
        };
        let ghost wv = match workspace_path {
            Some(w) => Some(w@),
            None => None,
        };
        match usable {
            None => {
                plan_push(
                    &mut plan,
                    clone_opt(&turn),
                    EventKind::RuntimeError,
                    error_payload_exec(
                        "provider.workspace_missing",
                        "Codex provider requires a workspace path from StartRuntime",
                    ),
                );
                assert(plan_view(plan@) =~= codex_turn_start_plan(command@.payload, wv));
                let events = emit_plan(self.provider_key(), command, runtime_seqs, rid, &plan);
                CodexCommandStep { events, run: None }
            },
            Some(w) => {
                assert(plan_view(plan@) =~= codex_turn_start_plan(command@.payload, wv));
                let events = emit_plan(self.provider_key(), command, runtime_seqs, rid, &plan);
                let session: Option<String> = match runtime_provider_resume_refs.get(rid) {
                    Some(x) => clone_opt(&x.provider_session_id),
                    None => None,
                };
                let invocation = match session {
                    Some(sid) => CodexInvocation::Resume { provider_session_id: sid, content: content.clone() },
                    None => {
                        let prompt = match runtime_transcripts.get(rid) {
                            Some(t) => codex_exec_prompt(content.as_str(), t),
                            None => codex_exec_prompt(content.as_str(), &Vec::new()),
                        };
                        proof {
                            if runtime_transcripts.find(rid@) is None {
                                assert(transcript_view(Seq::<TranscriptMessage>::empty()) =~= seq![]);
                            }
                        }
                        CodexInvocation::Exec { prompt }
                    },
                };
                CodexCommandStep {
                    events,
                    run: Some(CodexRun { workspace_path: string_from(w), turn_id: turn, content, invocation }),
                }
            },
        }
    }
}


/// How a Codex process ended: it could not run, or it exited, with its status, what it
/// printed, the lines of its output that parsed as JSON, and the final message it left.
pub enum CodexExecOutcome {
    StartFailed(ProviderStartFailure),
    Exited {
        success: bool,
        status_code: Option<i32>,
        stdout: String,
        stderr: String,
        stdout_values: Vec<JsonValue>,
        last_message: String,
    },
}

pub enum CodexOutcomeView {
    StartFailed { code: Seq<char>, message: Seq<char> },
    Exited {
        success: bool,
        status_code: Option<i32>,
        stdout: Seq<char>,
        stderr: Seq<char>,
        values: Seq<JsonView>,
        last_message: Seq<char>,
    },
}

impl View for CodexExecOutcome {
    type V = CodexOutcomeView;

    open spec fn view(&self) -> CodexOutcomeView {
        match self {
            CodexExecOutcome::StartFailed(f) => CodexOutcomeView::StartFailed {
                code: f.code@,
                message: f.message@,
            },
            CodexExecOutcome::Exited {
                success,
                status_code,
                stdout,
                stderr,
                stdout_values,
                last_message,
            } => CodexOutcomeView::Exited {
                success: *success,
                status_code: *status_code,
                stdout: stdout@,
                stderr: stderr@,
                values: json_views(stdout_values@),
                last_message: last_message@,
            },
        }
    }
}

pub open spec fn requests_view(rs: Seq<CodexApprovalRequest>) -> Seq<(Seq<char>, Seq<char>, Option<Seq<char>>)> {
    rs.map_values(|r: CodexApprovalRequest| request_view(r))
}

/// The payload of an approval request that Codex made.
pub open spec fn approval_payload(r: (Seq<char>, Seq<char>, Option<Seq<char>>)) -> JsonView {
    JsonView::Object(
        seq![
            ("approval_id"@, JsonView::Str(r.0)),
            ("prompt"@, JsonView::Str(r.1)),
            ("provider"@, JsonView::Str("codex"@)),
            (
                "provider_event_type"@,
                match r.2 {
                    Some(t) => JsonView::Str(t),
                    None => JsonView::Null,
                },
            ),
            ("source"@, JsonView::Str("codex_json_stdout"@)),
        ],
    )
}

pub open spec fn approval_items(
    turn: Option<Seq<char>>,
    reqs: Seq<(Seq<char>, Seq<char>, Option<Seq<char>>)>,
) -> Seq<PlanItem> {
    reqs.map_values(
        |r: (Seq<char>, Seq<char>, Option<Seq<char>>)|
            item(turn, EventKind::ApprovalRequested, approval_payload(r)),
    )
}

pub open spec fn blocked_payload() -> JsonView {
    obj3(
        "provider"@,
        JsonView::Str("codex"@),
        "mode"@,
        JsonView::Str("exec"@),
        "reason"@,
        JsonView::Str("provider_approval_requested"@),
    )
}

/// What a Codex turn emits once Codex has run: the failure as a runtime error; or the
/// approval requests it made, which block the runtime; or an error for an empty answer;
/// or the answer, the turn's completion, and the runtime ready again.
pub open spec fn codex_finish_plan(
    turn: Option<Seq<char>>,
    o: CodexOutcomeView,
    reqs: Seq<(Seq<char>, Seq<char>, Option<Seq<char>>)>,
) -> Seq<PlanItem> {
    match o {
        CodexOutcomeView::StartFailed { code, message } => seq![
            item(turn, EventKind::RuntimeError, error_payload(code, message)),
        ],
        CodexOutcomeView::Exited { success, status_code, stdout, stderr, values, last_message } => {
            if !success {
                seq![
                    item(
                        turn,
                        EventKind::RuntimeError,
                        error_payload(
                            "provider.exec_failed"@,
                            codex_failure_message_spec(status_code, stdout, stderr),
                        ),
                    ),
                ]
            } else if reqs.len() > 0 {
                approval_items(turn, reqs).push(item(None, EventKind::RuntimeBlocked, blocked_payload()))
            } else if trim(last_message).len() == 0 {
                seq![
                    item(
                        turn,
                        EventKind::RuntimeError,
                        error_payload(
                            "provider.empty_output"@,
                            "Codex exec completed without a final assistant message"@,
                        ),
                    ),
                ]
            } else {
                let answer = trim(last_message);
                seq![
                    item(turn, EventKind::ProviderOutputDelta, obj1("delta"@, JsonView::Str(answer))),
                    item(turn, EventKind::ProviderMessageCompleted, obj1("content"@, JsonView::Str(answer))),
                    item(turn, EventKind::TurnCompleted, obj0()),
                    item(None, EventKind::RuntimeReady, codex_ready_payload_spec("codex"@, first_resume_ref(values))),
                ]
            }
        },
    }
}

/// The resume reference a successful run records: the first that its output gives.
pub open spec fn outcome_resume_ref(o: CodexOutcomeView) -> Option<(Option<Seq<char>>, Option<Seq<char>>)> {
    match o {
        CodexOutcomeView::Exited { success, values, .. } => if success {
            match first_resume_ref(values) {
                Some(j) => resume_ref_spec(j),
                None => None,
            }
        } else {
            None
        },
        _ => None,
    }
}

/// The answer a successful run without approval requests records in the transcript.
pub open spec fn outcome_answer(
    o: CodexOutcomeView,
    reqs: Seq<(Seq<char>, Seq<char>, Option<Seq<char>>)>,
) -> Option<Seq<char>> {
    match o {
        CodexOutcomeView::Exited { success, last_message, .. } => if success && reqs.len() == 0 && trim(
            last_message,
        ).len() > 0 {
            Some(trim(last_message))
        } else {
            None
        },
        _ => None,
    }
}

fn approval_payload_exec(r: &CodexApprovalRequest) -> (p: JsonValue)
    ensures
        p@ == approval_payload(request_view(*r)),
{
    let mut es: Vec<(String, JsonValue)> = Vec::new();
    assert(entries_view(es@, 0) =~= seq![]);
    push_member(&mut es, "approval_id", json_str(r.approval_id.as_str()));
    push_member(&mut es, "prompt", json_str(r.prompt.as_str()));
    push_member(&mut es, "provider", json_str("codex"));
    let t = match &r.provider_event_type {
        Some(t) => json_str(t.as_str()),
        None => JsonValue::Null,
    };
    push_member(&mut es, "provider_event_type", t);
    push_member(&mut es, "source", json_str("codex_json_stdout"));
    let ghost ev = entries_view(es@, es@.len());
    let p = object_of(es);
    assert(ev =~= match approval_payload(request_view(*r)) {
        JsonView::Object(e) => e,
        _ => seq![],
    });
    p
}

fn codex_finish_plan_exec(
    turn: &Option<String>,
    outcome: &CodexExecOutcome,
    requests: &Vec<CodexApprovalRequest>,
) -> (r: Vec<PlannedEvent>)
    ensures
        plan_view(r@) == codex_finish_plan(opt_view(*turn), outcome@, requests_view(requests@)),
{
    let ghost tv = opt_view(*turn);
    let ghost rv = requests_view(requests@);
    let mut plan: Vec<PlannedEvent> = Vec::new();
    match outcome {
        CodexExecOutcome::StartFailed(f) => {
            plan_push(
                &mut plan,
                clone_opt(turn),
                EventKind::RuntimeError,
                error_payload_exec(f.code.as_str(), f.message.as_str()),
            );
        },
        CodexExecOutcome::Exited { success, status_code, stdout, stderr, stdout_values, last_message } => {
            if !*success {
                let message = codex_failure_message(*status_code, stdout.as_str(), stderr.as_str());
                plan_push(
                    &mut plan,
                    clone_opt(turn),
                    EventKind::RuntimeError,
                    error_payload_exec("provider.exec_failed", message.as_str()),
                );
            } else if requests.len() > 0 {
                let mut i: usize = 0;
                while i < requests.len()
                    invariant
                        i <= requests@.len(),
                        tv == opt_view(*turn),
                        rv == requests_view(requests@),
                        plan_view(plan@) == approval_items(tv, rv.take(i as int)),
                    decreases requests@.len() - i,
                {
                    plan_push(
                        &mut plan,
                        clone_opt(turn),
                        EventKind::ApprovalRequested,
                        approval_payload_exec(&requests[i]),
                    );
                    assert(approval_items(tv, rv.take(i + 1)) =~= approval_items(tv, rv.take(i as int)).push(
                        item(tv, EventKind::ApprovalRequested, approval_payload(rv[i as int])),
                    ));
                    i += 1;
                }
                assert(rv.take(requests@.len() as int) =~= rv);
                plan_push(
                    &mut plan,
                    None,
                    EventKind::RuntimeBlocked,
                    json_obj3(
                        "provider",
                        json_str("codex"),
                        "mode",
                        json_str("exec"),
                        "reason",
                        json_str("provider_approval_requested"),
                    ),
                );
            } else {
                let answer = trim_str(last_message.as_str());
                if answer.as_str().is_empty() {
                    plan_push(
                        &mut plan,
                        clone_opt(turn),
                        EventKind::RuntimeError,
                        error_payload_exec(
                            "provider.empty_output",
                            "Codex exec completed without a final assistant message",
                        ),
                    );
                } else {
                    let resume = codex_resume_ref_from_values(stdout_values);
                    plan_push(
                        &mut plan,
                        clone_opt(turn),
                        EventKind::ProviderOutputDelta,
                        json_obj1("delta", json_str(answer.as_str())),
                    );
                    plan_push(
                        &mut plan,
                        clone_opt(turn),
                        EventKind::ProviderMessageCompleted,
                        json_obj1("content", json_str(answer.as_str())),
                    );
                    plan_push(&mut plan, clone_opt(turn), EventKind::TurnCompleted, json_obj0());
                    plan_push(
                        &mut plan,
                        None,
                        EventKind::RuntimeReady,
                        codex_runtime_ready_payload("codex", resume),
                    );
                }
            }
        },
    }
    assert(plan_view(plan@) =~= codex_finish_plan(tv, outcome@, rv));
    plan
}


/// `reqs` are the approval requests of a successful run's output, in order; a run that
/// failed has none.
pub open spec fn requests_found(o: CodexOutcomeView, reqs: Seq<(Seq<char>, Seq<char>, Option<Seq<char>>)>) -> bool {
    match o {
        CodexOutcomeView::Exited { success, values, .. } => if success {
            &&& reqs.len() == approval_values(values).len()
            &&& forall|i: int| 0 <= i < reqs.len() ==> request_of(#[trigger] reqs[i], approval_values(values)[i])
        } else {
            reqs.len() == 0
        },
        _ => reqs.len() == 0,
    }
}

/// The number of output lines a run hands back, none for one that could not start.
pub open spec fn outcome_value_count(o: CodexOutcomeView) -> nat {
    match o {
        CodexOutcomeView::Exited { values, .. } => values.len(),
        _ => 0,
    }
}

impl CodexProviderAdapter {
    /// The events that end a Codex turn of runtime `rid` after `run` ended as `outcome`,
    /// with the approval `requests` found in its output. A successful run records the
    /// resume reference its output gives; one that answered records the turn in the
    /// transcript.
    pub fn turn_finish_with(
        &self,
        command: &CommandEnvelope,
        runtime_seqs: &mut StrMap<i64>,
        rid: &str,
        run: &CodexRun,
        outcome: &CodexExecOutcome,
        requests: &Vec<CodexApprovalRequest>,
        runtime_transcripts: &mut StrMap<Vec<TranscriptMessage>>,
        runtime_provider_resume_refs: &mut StrMap<ProviderResumeRef>,
    ) -> (r: Vec<EventEnvelope>)
        requires
            old(runtime_seqs).wf(),
            old(runtime_transcripts).wf(),
            old(runtime_provider_resume_refs).wf(),
            seq_base(*old(runtime_seqs), rid@) + requests@.len() + 4 <= i64::MAX,
        ensures
            final(runtime_seqs).wf(),
            final(runtime_transcripts).wf(),
            final(runtime_provider_resume_refs).wf(),
            emits_plan(
                view_events(r@),
                "codex"@,
                command@,
                rid@,
                codex_finish_plan(opt_view(run.turn_id), outcome@, requests_view(requests@)),
                seq_base(*old(runtime_seqs), rid@),
            ),
            seqs_advanced(
                *old(runtime_seqs),
                *final(runtime_seqs),
                rid@,
                codex_finish_plan(opt_view(run.turn_id), outcome@, requests_view(requests@)).len() as int,
            ),
            forall|k: Seq<char>| #[trigger]
                ref_find(*final(runtime_provider_resume_refs), k) == if k == rid@ && outcome_resume_ref(
                    outcome@,
                ) is Some {
                    outcome_resume_ref(outcome@)
                } else {
                    ref_find(*old(runtime_provider_resume_refs), k)
                },
            forall|k: Seq<char>| #[trigger]
                transcript_of(*final(runtime_transcripts), k) == if k == rid@ && outcome_answer(
                    outcome@,
                    requests_view(requests@),
                ) is Some {
                    trimmed_transcript(
                        transcript_of(*old(runtime_transcripts), k).push(("user"@, run.content@)).push(
                            ("assistant"@, outcome_answer(outcome@, requests_view(requests@))->0),
                        ),
                    )
                } else {
                    transcript_of(*old(runtime_transcripts), k)
                },
    {
        let plan = codex_finish_plan_exec(&run.turn_id, outcome, requests);
        proof {
            let rv = requests_view(requests@);
            assert(codex_finish_plan(opt_view(run.turn_id), outcome@, rv).len() <= rv.len() + 4);
        }
        if let CodexExecOutcome::Exited { success, stdout_values, last_message, .. } = outcome {
            if *success {
                if let Some(json) = codex_resume_ref_from_values(stdout_values) {
                    if let Some(x) = crate::dispatch::provider_resume_ref_from_json(&json) {
                        let ghost xv = resume_ref_view(x);
                        runtime_provider_resume_refs.insert(string_from(rid), x);
                        assert forall|k: Seq<char>| #[trigger] ref_find(*runtime_provider_resume_refs, k)
                            == if k == rid@ {
                            Some(xv)
                        } else {
                            ref_find(*old(runtime_provider_resume_refs), k)
                        } by {
                            assert(runtime_provider_resume_refs.find(k) == if k == rid@ {
                                Some(x)
                            } else {
                                old(runtime_provider_resume_refs).find(k)
                            });
                        }
                    }
                }
                if requests.len() == 0 {
                    let answer = trim_str(last_message.as_str());
                    if !answer.as_str().is_empty() {
                        record_codex_transcript_turn(
                            runtime_transcripts,
                            rid,
                            run.content.as_str(),
                            answer.as_str(),
                        );
                    }
                }
            }
        }
        emit_plan(self.provider_key(), command, runtime_seqs, rid, &plan)
    }

    /// The events that end a Codex turn, as `turn_finish_with` describes, with the
    /// approval requests of the run's output; a request without an id of its own gets a
    /// fresh random one, which nothing states.
    pub fn turn_finish(
        &self,
        command: &CommandEnvelope,
        runtime_seqs: &mut StrMap<i64>,
        rid: &str,
        run: &CodexRun,
        outcome: &CodexExecOutcome,
        runtime_transcripts: &mut StrMap<Vec<TranscriptMessage>>,
        runtime_provider_resume_refs: &mut StrMap<ProviderResumeRef>,
    ) -> (r: Vec<EventEnvelope>)
        requires
            old(runtime_seqs).wf(),
            old(runtime_transcripts).wf(),
            old(runtime_provider_resume_refs).wf(),
            seq_base(*old(runtime_seqs), rid@) + outcome_value_count(outcome@) + 4 <= i64::MAX,
        ensures
            final(runtime_seqs).wf(),
            final(runtime_transcripts).wf(),
            final(runtime_provider_resume_refs).wf(),
            exists|reqs: Seq<(Seq<char>, Seq<char>, Option<Seq<char>>)>| {
                &&& requests_found(outcome@, reqs)
                &&& emits_plan(
                    view_events(r@),
                    "codex"@,
                    command@,
                    rid@,
                    #[trigger] codex_finish_plan(opt_view(run.turn_id), outcome@, reqs),
                    seq_base(*old(runtime_seqs), rid@),
                )
                &&& seqs_advanced(
                    *old(runtime_seqs),
                    *final(runtime_seqs),
                    rid@,
                    codex_finish_plan(opt_view(run.turn_id), outcome@, reqs).len() as int,
                )
                &&& forall|k: Seq<char>| #[trigger]
                    transcript_of(*final(runtime_transcripts), k) == if k == rid@ && outcome_answer(
                        outcome@,
                        reqs,
                    ) is Some {
                        trimmed_transcript(
                            transcript_of(*old(runtime_transcripts), k).push(("user"@, run.content@)).push(
                                ("assistant"@, outcome_answer(outcome@, reqs)->0),
                            ),
                        )
                    } else {
                        transcript_of(*old(runtime_transcripts), k)
                    }
            },
            forall|k: Seq<char>| #[trigger]
                ref_find(*final(runtime_provider_resume_refs), k) == if k == rid@ && outcome_resume_ref(
                    outcome@,
                ) is Some {
                    outcome_resume_ref(outcome@)
                } else {
                    ref_find(*old(runtime_provider_resume_refs), k)
                },
    {
        let requests: Vec<CodexApprovalRequest> = match outcome {
            CodexExecOutcome::Exited { success, stdout_values, .. } => if *success {
                codex_approval_requests_from_values(stdout_values)
            } else {
                Vec::new()
            },
            _ => Vec::new(),
        };
        proof {
            if let CodexOutcomeView::Exited { success, values, .. } = outcome@ {
                if success {
                    lemma_approval_values_len(values);
                }
            }
        }
        let r = self.turn_finish_with(
            command,
            runtime_seqs,
            rid,
            run,
            outcome,
            &requests,
            runtime_transcripts,
            runtime_provider_resume_refs,
        );
        let ghost rv = requests_view(requests@);
        assert(requests_found(outcome@, rv)) by {
            if let CodexOutcomeView::Exited { success, values, .. } = outcome@ {
                if success {
                    assert forall|i: int| 0 <= i < rv.len() implies request_of(#[trigger] rv[i], approval_values(values)[i]) by {
                        assert(rv[i] == request_view(requests@[i]));
                    }
                }
            }
        }
        assert(codex_finish_plan(opt_view(run.turn_id), outcome@, rv) == codex_finish_plan(
            opt_view(run.turn_id),
            outcome@,
            rv,
        ));
        r
    }
}

proof fn lemma_approval_values_len(values: Seq<JsonView>)
    ensures
        approval_values(values).len() <= values.len(),
    decreases values.len(),
{
    if values.len() > 0 {
        lemma_approval_values_len(values.drop_last());
    }
}

} // verus!
