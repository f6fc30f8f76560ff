//! Parser for a captured event stream.
//!
//! A transcript is a run of lines, each taken without its line ending. A
//! line that begins with `data: ` carries an event: the rest of the line, read
//! as JSON. A line that begins with anything else, a blank included, carries
//! none. Two shapes of event are understood. One lists candidates whose
//! content is made of parts, each part a piece of text that is either
//! reasoning or visible; the other lists choices, each with a delta of visible
//! text. Everything else is passed over, so that one bad line never costs the
//! rest.

use vstd::prelude::*;
use vstd::slice::slice_subrange;
use vstd::string::StringExecFns;
use crate::json::{json_parse, parse_json, Json};
use crate::text::{
    chars_of, first_line_len, lemma_first_line_len, line_len, matches_at, starts_with,
    starts_with_seq, string_of, without_carriage_return, without_carriage_return_seq,
};

verus! {

/// The text of a part: its member `text` where that is a string, else empty.
pub open spec fn part_text(part: Json) -> Seq<char> {
    match part.member("text"@) {
        Some(t) => match t.text() {
            Some(s) => s,
            None => Seq::empty(),
        },
        None => Seq::empty(),
    }
}

/// Whether a part is reasoning: its member `thought` where that is a boolean,
/// else `false`.
pub open spec fn part_is_thought(part: Json) -> bool {
    match part.member("thought"@) {
        Some(t) => match t.truth() {
            Some(b) => b,
            None => false,
        },
        None => false,
    }
}

/// The reasoning text of a run of parts: the texts of those marked as
/// thought, in order.
pub open spec fn parts_reasoning(parts: Seq<Json>) -> Seq<char>
    decreases parts.len(),
{
    if parts.len() == 0 {
        Seq::empty()
    } else if part_is_thought(parts.first()) {
        part_text(parts.first()) + parts_reasoning(parts.drop_first())
    } else {
        parts_reasoning(parts.drop_first())
    }
}

/// The visible text of a run of parts: the texts of those not marked as
/// thought, in order.
pub open spec fn parts_visible(parts: Seq<Json>) -> Seq<char>
    decreases parts.len(),
{
    if parts.len() == 0 {
        Seq::empty()
    } else if part_is_thought(parts.first()) {
        parts_visible(parts.drop_first())
    } else {
        part_text(parts.first()) + parts_visible(parts.drop_first())
    }
}

/// The parts of a candidate: the array at `content.parts`, or none.
pub open spec fn candidate_parts(candidate: Json) -> Seq<Json> {
    match candidate.member("content"@) {
        Some(content) => match content.member("parts"@) {
            Some(parts) => match parts.items() {
                Some(items) => items,
                None => Seq::empty(),
            },
            None => Seq::empty(),
        },
        None => Seq::empty(),
    }
}

/// The reasoning text of a run of candidates.
pub open spec fn candidates_reasoning(candidates: Seq<Json>) -> Seq<char>
    decreases candidates.len(),
{
    if candidates.len() == 0 {
        Seq::empty()
    } else {
        parts_reasoning(candidate_parts(candidates.first())) + candidates_reasoning(
            candidates.drop_first(),
        )
    }
}

/// The visible text of a run of candidates.
pub open spec fn candidates_visible(candidates: Seq<Json>) -> Seq<char>
    decreases candidates.len(),
{
    if candidates.len() == 0 {
        Seq::empty()
    } else {
        parts_visible(candidate_parts(candidates.first())) + candidates_visible(
            candidates.drop_first(),
        )
    }
}

/// The text of a choice: the string at `delta.content`, else empty.
pub open spec fn choice_text(choice: Json) -> Seq<char> {
    match choice.member("delta"@) {
        Some(delta) => match delta.member("content"@) {
            Some(content) => match content.text() {
                Some(s) => s,
                None => Seq::empty(),
            },
            None => Seq::empty(),
        },
        None => Seq::empty(),
    }
}

/// The visible text of a run of choices.
pub open spec fn choices_visible(choices: Seq<Json>) -> Seq<char>
    decreases choices.len(),
{
    if choices.len() == 0 {
        Seq::empty()
    } else {
        choice_text(choices.first()) + choices_visible(choices.drop_first())
    }
}

/// The candidates of an event in the multi-part shape: the array at
/// `response.candidates`.
pub open spec fn event_candidates(event: Json) -> Option<Seq<Json>> {
    match event.member("response"@) {
        Some(response) => match response.member("candidates"@) {
            Some(candidates) => candidates.items(),
            None => None,
        },
        None => None,
    }
}

/// The choices of an event in the delta shape: the array at `choices`.
pub open spec fn event_choices(event: Json) -> Option<Seq<Json>> {
    match event.member("choices"@) {
        Some(choices) => choices.items(),
        None => None,
    }
}

/// The reasoning text that one event carries. Only the multi-part shape has
/// any.
pub open spec fn event_reasoning(event: Json) -> Seq<char> {
    match event_candidates(event) {
        Some(candidates) => candidates_reasoning(candidates),
        None => Seq::empty(),
    }
}

/// The visible text that one event carries. The multi-part shape is tried
/// first; the delta shape counts only where the event has no candidates.
pub open spec fn event_visible(event: Json) -> Seq<char> {
    match event_candidates(event) {
        Some(candidates) => candidates_visible(candidates),
        None => match event_choices(event) {
            Some(choices) => choices_visible(choices),
            None => Seq::empty(),
        },
    }
}

/// The payload of a line: what follows `data: ` at the very start of the
/// line. A line that does not begin with that prefix has none, nor has one
/// whose payload is empty or is the end-of-stream mark `[DONE]`.
pub open spec fn line_payload(line: Seq<char>) -> Option<Seq<char>> {
    if starts_with_seq(line, "data: "@) {
        let payload = line.skip("data: "@.len() as int);
        if payload.len() == 0 || payload == "[DONE]"@ {
            None
        } else {
            Some(payload)
        }
    } else {
        None
    }
}

/// The event of a line: its payload read as JSON, where it has a payload and
/// that payload is JSON.
pub open spec fn line_event(line: Seq<char>) -> Option<Json> {
    match line_payload(line) {
        Some(payload) => json_parse(payload),
        None => None,
    }
}

/// The reasoning text of one line.
pub open spec fn line_reasoning(line: Seq<char>) -> Seq<char> {
    match line_event(line) {
        Some(event) => event_reasoning(event),
        None => Seq::empty(),
    }
}

/// The visible text of one line.
pub open spec fn line_visible(line: Seq<char>) -> Seq<char> {
    match line_event(line) {
        Some(event) => event_visible(event),
        None => Seq::empty(),
    }
}

/// The reasoning text of a transcript: that of its lines, in order, with
/// nothing put between them. A line ends at a line feed, and a carriage
/// return just before the line feed belongs to the line ending; the last line
/// may go without an ending, and is then taken as it stands.
pub open spec fn stream_reasoning(raw: Seq<char>) -> Seq<char>
    decreases raw.len(),
{
    let n = first_line_len(raw);
    if 0 <= n < raw.len() {
        line_reasoning(without_carriage_return_seq(raw.take(n))) + stream_reasoning(
            raw.skip(n + 1),
        )
    } else {
        line_reasoning(raw)
    }
}

/// The visible text of a transcript: that of its lines, in order, with
/// nothing put between them.
pub open spec fn stream_visible(raw: Seq<char>) -> Seq<char>
    decreases raw.len(),
{
    let n = first_line_len(raw);
    if 0 <= n < raw.len() {
        line_visible(without_carriage_return_seq(raw.take(n))) + stream_visible(raw.skip(n + 1))
    } else {
        line_visible(raw)
    }
}

/// A transcript without a character carries no text on either channel.
pub proof fn lemma_empty_stream_is_silent()
    ensures
        stream_reasoning(Seq::empty()) == Seq::<char>::empty(),
        stream_visible(Seq::empty()) == Seq::<char>::empty(),
{
    reveal_strlit("data: ");
    let none = Seq::<char>::empty();
    assert(!starts_with_seq(none, "data: "@));
    assert(line_payload(none) is None);
    assert(first_line_len(none) == 0);
}

/// Appends the text of `parts` to the channel each belongs to.
pub fn collect_parts(parts: &Vec<Json>, reasoning: &mut String, visible: &mut String)
    ensures
        final(reasoning)@ == old(reasoning)@ + parts_reasoning(parts@),
        final(visible)@ == old(visible)@ + parts_visible(parts@),
{
    let n: usize = parts.len();
    let mut i: usize = 0;
    assert(parts@.skip(0) =~= parts@);
    while i < n
        invariant
            i <= n,
            n == parts@.len(),
            old(reasoning)@ + parts_reasoning(parts@) == reasoning@ + parts_reasoning(
                parts@.skip(i as int),
            ),
            old(visible)@ + parts_visible(parts@) == visible@ + parts_visible(
                parts@.skip(i as int),
            ),
        decreases n - i,
    {
        let part = &parts[i];
        proof {
            let rest = parts@.skip(i as int);
            assert(rest.first() == parts@[i as int]);
            assert(rest.drop_first() =~= parts@.skip(i + 1));
        }
        let text: &str = match part.get("text") {
            Some(t) => match t.as_str() {
                Some(s) => s,
                None => "",
            },
            None => "",
        };
        let is_thought: bool = match part.get("thought") {
            Some(t) => match t.as_bool() {
                Some(b) => b,
                None => false,
            },
            None => false,
        };
        proof {
            reveal_strlit("");
            assert(text@ =~= part_text(*part));
            assert(is_thought == part_is_thought(*part));
        }
        if !text.is_empty() {
            if is_thought {
                reasoning.append(text);
            } else {
                visible.append(text);
            }
        }
        proof {
            let rest = parts@.skip(i as int);
            let tail = parts@.skip(i + 1);
            if is_thought {
                assert(old(reasoning)@ + parts_reasoning(parts@) =~= reasoning@ + parts_reasoning(
                    tail,
                ));
            } else {
                assert(old(visible)@ + parts_visible(parts@) =~= visible@ + parts_visible(tail));
            }
        }
        i += 1;
    }
    proof {
        assert(reasoning@ + Seq::<char>::empty() =~= reasoning@);
        assert(visible@ + Seq::<char>::empty() =~= visible@);
    }
}

/// Appends the text of every candidate's parts to the channel each part
/// belongs to.
pub fn collect_candidates(candidates: &Vec<Json>, reasoning: &mut String, visible: &mut String)
    ensures
        final(reasoning)@ == old(reasoning)@ + candidates_reasoning(candidates@),
        final(visible)@ == old(visible)@ + candidates_visible(candidates@),
{
    let n: usize = candidates.len();
    let mut i: usize = 0;
    assert(candidates@.skip(0) =~= candidates@);
    while i < n
        invariant
            i <= n,
            n == candidates@.len(),
            old(reasoning)@ + candidates_reasoning(candidates@) == reasoning@
                + candidates_reasoning(candidates@.skip(i as int)),
            old(visible)@ + candidates_visible(candidates@) == visible@ + candidates_visible(
                candidates@.skip(i as int),
            ),
        decreases n - i,
    {
        let candidate = &candidates[i];
        let ghost before_reasoning = reasoning@;
        let ghost before_visible = visible@;
        proof {
            let rest = candidates@.skip(i as int);
            assert(rest.first() == candidates@[i as int]);
            assert(rest.drop_first() =~= candidates@.skip(i + 1));
        }
        let parts: Option<&Vec<Json>> = match candidate.get("content") {
            Some(content) => match content.get("parts") {
                Some(parts) => parts.as_array(),
                None => None,
            },
            None => None,
        };
        match parts {
            Some(parts) => {
                assert(parts@ == candidate_parts(*candidate));
                collect_parts(parts, reasoning, visible);
            },
            None => {
                assert(candidate_parts(*candidate) =~= Seq::<Json>::empty());
            },
        }
        proof {
            let tail = candidates@.skip(i + 1);
            let here = candidate_parts(*candidate);
            assert(reasoning@ =~= before_reasoning + parts_reasoning(here));
            assert(visible@ =~= before_visible + parts_visible(here));
            assert(old(reasoning)@ + candidates_reasoning(candidates@) =~= reasoning@
                + candidates_reasoning(tail));
            assert(old(visible)@ + candidates_visible(candidates@) =~= visible@
                + candidates_visible(tail));
        }
        i += 1;
    }
    proof {
        assert(reasoning@ + Seq::<char>::empty() =~= reasoning@);
        assert(visible@ + Seq::<char>::empty() =~= visible@);
    }
}

/// Appends the text of every choice to the visible channel.
pub fn collect_choices(choices: &Vec<Json>, visible: &mut String)
    ensures
        final(visible)@ == old(visible)@ + choices_visible(choices@),
{
    let n: usize = choices.len();
    let mut i: usize = 0;
    assert(choices@.skip(0) =~= choices@);
    while i < n
        invariant
            i <= n,
            n == choices@.len(),
            old(visible)@ + choices_visible(choices@) == visible@ + choices_visible(
                choices@.skip(i as int),
            ),
        decreases n - i,
    {
        let choice = &choices[i];
        proof {
            let rest = choices@.skip(i as int);
            assert(rest.first() == choices@[i as int]);
            assert(rest.drop_first() =~= choices@.skip(i + 1));
        }
        let content: Option<&str> = match choice.get("delta") {
            Some(delta) => match delta.get("content") {
                Some(content) => content.as_str(),
                None => None,
            },
            None => None,
        };
        let ghost before = visible@;
        match content {
            Some(text) => {
                assert(text@ == choice_text(*choice));
                if !text.is_empty() {
                    visible.append(text);
                }
            },
            None => {
                assert(choice_text(*choice) =~= Seq::<char>::empty());
            },
        }
        proof {
            assert(visible@ =~= before + choice_text(*choice));
            assert(old(visible)@ + choices_visible(choices@) =~= visible@ + choices_visible(
                choices@.skip(i + 1),
            ));
        }
        i += 1;
    }
    proof {
        assert(visible@ + Seq::<char>::empty() =~= visible@);
    }
}

/// Appends what one event carries to the two channels.
pub fn collect_event(event: &Json, reasoning: &mut String, visible: &mut String)
    ensures
        final(reasoning)@ == old(reasoning)@ + event_reasoning(*event),
        final(visible)@ == old(visible)@ + event_visible(*event),
{
    let candidates: Option<&Vec<Json>> = match event.get("response") {
        Some(response) => match response.get("candidates") {
            Some(candidates) => candidates.as_array(),
            None => None,
        },
        None => None,
    };
    match candidates {
        Some(candidates) => {
            assert(event_candidates(*event) == Some(candidates@));
            collect_candidates(candidates, reasoning, visible);
        },
        None => {
            assert(event_candidates(*event) is None);
            let choices: Option<&Vec<Json>> = match event.get("choices") {
                Some(choices) => choices.as_array(),
                None => None,
            };
            match choices {
                Some(choices) => {
                    assert(event_choices(*event) == Some(choices@));
                    collect_choices(choices, visible);
                },
                None => {
                    assert(event_choices(*event) is None);
                    assert(visible@ + Seq::<char>::empty() =~= visible@);
                },
            }
            assert(reasoning@ + Seq::<char>::empty() =~= reasoning@);
        },
    }
}

/// The payload of a line, as `line_payload` defines it.
pub fn payload_of_line(line: &[char]) -> (r: Option<&[char]>)
    ensures
        match r {
            Some(payload) => line_payload(line@) == Some(payload@),
            None => line_payload(line@) is None,
        },
{
    let prefix = chars_of("data: ");
    let done = chars_of("[DONE]");
    proof {
        reveal_strlit("data: ");
        reveal_strlit("[DONE]");
    }
    if !starts_with(line, prefix.as_slice()) {
        return None;
    }
    let payload = slice_subrange(line, prefix.len(), line.len());
    assert(payload@ =~= line@.skip("data: "@.len() as int));
    if payload.len() == 0 {
        return None;
    }
    if payload.len() == done.len() && matches_at(payload, done.as_slice(), 0) {
        assert(payload@ =~= payload@.subrange(0, payload@.len() as int));
        return None;
    }
    proof {
        if payload@ == "[DONE]"@ {
            assert(payload@.subrange(0, done@.len() as int) =~= done@);
        }
    }
    Some(payload)
}

/// The event of a line, as `line_event` defines it.
pub fn event_of_line(line: &[char]) -> (r: Option<Json>)
    ensures
        r == line_event(line@),
{
    match payload_of_line(line) {
        Some(payload) => {
            let text = string_of(payload);
            parse_json(text.as_str())
        },
        None => None,
    }
}

/// Splits a captured event stream into its reasoning text and its visible
/// text.
pub fn parse_sse_stream(raw: &str) -> (r: (String, String))
    ensures
        r.0@ == stream_reasoning(raw@),
        r.1@ == stream_visible(raw@),
{
    let chars = chars_of(raw);
    let all = chars.as_slice();
    let len: usize = all.len();
    let mut reasoning = String::new();
    let mut visible = String::new();
    let mut pos: usize = 0;
    let mut open: bool = true;
    proof {
        assert(all@.skip(0) =~= raw@);
        assert(Seq::<char>::empty() + stream_reasoning(raw@) =~= stream_reasoning(raw@));
        assert(Seq::<char>::empty() + stream_visible(raw@) =~= stream_visible(raw@));
    }
    while open
        invariant
            pos <= len,
            len == all@.len(),
            open ==> stream_reasoning(raw@) == reasoning@ + stream_reasoning(
                all@.skip(pos as int),
            ),
            open ==> stream_visible(raw@) == visible@ + stream_visible(all@.skip(pos as int)),
            !open ==> stream_reasoning(raw@) == reasoning@,
            !open ==> stream_visible(raw@) == visible@,
        decreases len - pos, open as int,
    {
        let rest = slice_subrange(all, pos, len);
        assert(rest@ =~= all@.skip(pos as int));
        let n: usize = line_len(rest);
        proof {
            lemma_first_line_len(rest@);
        }
        let ended: bool = n < len - pos;
        let whole = slice_subrange(rest, 0, n);
        assert(whole@ =~= rest@.take(n as int));
        let line = if ended {
            without_carriage_return(whole)
        } else {
            whole
        };
        let ghost before_reasoning = reasoning@;
        let ghost before_visible = visible@;
        match event_of_line(line) {
            Some(event) => {
                collect_event(&event, &mut reasoning, &mut visible);
            },
            None => {
                assert(reasoning@ + Seq::<char>::empty() =~= reasoning@);
                assert(visible@ + Seq::<char>::empty() =~= visible@);
            },
        }
        assert(reasoning@ == before_reasoning + line_reasoning(line@));
        assert(visible@ == before_visible + line_visible(line@));
        if ended {
            proof {
                let tail = all@.skip(pos + n + 1);
                assert(rest@.skip(n + 1) =~= tail);
                assert(stream_reasoning(raw@) =~= reasoning@ + stream_reasoning(tail));
                assert(stream_visible(raw@) =~= visible@ + stream_visible(tail));
            }
            pos = pos + n + 1;
        } else {
            proof {
                assert(line@ =~= rest@);
            }
            open = false;
        }
    }
    (reasoning, visible)
}

} // verus!
