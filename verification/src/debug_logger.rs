//! Planning of the debug artifact that records one streamed response.
//!
//! Nothing here touches the disk. The functions say where an artifact goes,
//! what it is called and what it holds, and they lead the caller through the
//! write step by step: each step names the one action to perform next, and
//! the caller reports how that action went. A failure on the way ends the
//! write with a warning and is never passed on.

use vstd::prelude::*;
use vstd::string::StringExecFns;
use crate::json::{json_pretty, lemma_lookup_absent, lemma_lookup_first, pretty_json, Json};
use crate::timestamp::{
    format_stamp, lemma_stamps_sort_by_time, sorts_before, stamp_seq, utc_of_reading, UtcTime,
};

verus! {

/// Whether debug artifacts are written, and where.
#[derive(Clone, Debug, PartialEq, Eq)]
pub struct DebugLoggingConfig {
    /// Whether anything is captured and written at all.
    pub enabled: bool,
    /// The directory for the artifacts, where one is configured.
    pub output_dir: Option<String>,
}

/// A directory for debug artifacts: a base directory and, below it, an
/// optional subfolder.
#[derive(Clone, Debug, PartialEq, Eq)]
pub struct OutputDir {
    /// The directory that was configured, or the application's data directory.
    pub base: String,
    /// The subfolder of the data directory; none for a configured directory.
    pub subfolder: Option<String>,
}

/// The characters of an optional string slice.
pub open spec fn opt_str_seq(s: Option<&str>) -> Option<Seq<char>> {
    match s {
        Some(s) => Some(s@),
        None => None,
    }
}

/// The characters of an optional string.
pub open spec fn opt_string_seq(s: Option<String>) -> Option<Seq<char>> {
    match s {
        Some(s) => Some(s@),
        None => None,
    }
}

/// Where artifacts go: the configured directory comes first; without one, the
/// subfolder `debug_logs` of the application's data directory; without
/// either, nowhere.
pub open spec fn resolved_dir(cfg: DebugLoggingConfig, data_dir: Option<Seq<char>>) -> Option<
    (Seq<char>, Option<Seq<char>>),
> {
    match cfg.output_dir {
        Some(dir) => Some((dir@, None)),
        None => match data_dir {
            Some(base) => Some((base, Some("debug_logs"@))),
            None => None,
        },
    }
}

impl OutputDir {
    /// The directory as a base and an optional subfolder, in characters.
    pub open spec fn parts(self) -> (Seq<char>, Option<Seq<char>>) {
        (self.base@, opt_string_seq(self.subfolder))
    }
}

/// Whether debug capture is switched on.
pub fn is_enabled(cfg: &DebugLoggingConfig) -> (b: bool)
    ensures
        b == cfg.enabled,
{
    cfg.enabled
}

/// Resolves the directory for debug artifacts. `data_dir` is the
/// application's data directory, where the caller could find one.
pub fn resolve_output_dir(cfg: &DebugLoggingConfig, data_dir: Option<&str>) -> (r: Option<
    OutputDir,
>)
    ensures
        match r {
            Some(dir) => resolved_dir(*cfg, opt_str_seq(data_dir)) == Some(dir.parts()),
            None => resolved_dir(*cfg, opt_str_seq(data_dir)) is None,
        },
{
    match &cfg.output_dir {
        Some(dir) => Some(OutputDir { base: String::from_str(dir.as_str()), subfolder: None }),
        None => match data_dir {
            Some(base) => Some(
                OutputDir {
                    base: String::from_str(base),
                    subfolder: Some(String::from_str("debug_logs")),
                },
            ),
            None => None,
        },
    }
}

/// What follows the stamp in the name of an artifact: an underscore, the
/// trace id or `unknown`, an underscore, the label, and the extension `.json`.
pub open spec fn filename_rest(trace_id: Option<Seq<char>>, label: Seq<char>) -> Seq<char> {
    let id = match trace_id {
        Some(id) => id,
        None => "unknown"@,
    };
    "_"@ + id + "_"@ + label + ".json"@
}

/// The name of an artifact: `{stamp}_{trace id}_{label}.json`.
pub open spec fn filename_seq(stamp: Seq<char>, trace_id: Option<Seq<char>>, label: Seq<char>) -> Seq<
    char,
> {
    stamp + filename_rest(trace_id, label)
}

/// Five pieces appended to a text one after the other are appended as one.
proof fn lemma_append_five(
    s: Seq<char>,
    a: Seq<char>,
    b: Seq<char>,
    c: Seq<char>,
    d: Seq<char>,
    e: Seq<char>,
)
    ensures
        s + a + b + c + d + e == s + (a + b + c + d + e),
{
    assert(s + a + b + c + d + e =~= s + (a + b + c + d + e));
}

/// The name of the artifact written at the time `at`.
pub fn filename_at(at: &UtcTime, prefix: &str, trace_id: Option<&str>) -> (name: String)
    requires
        at.wf(),
    ensures
        name@ == filename_seq(stamp_seq(*at), opt_str_seq(trace_id), prefix@),
{
    let mut name = format_stamp(at);
    let id: &str = match trace_id {
        Some(id) => id,
        None => "unknown",
    };
    name.append("_");
    name.append(id);
    name.append("_");
    name.append(prefix);
    name.append(".json");
    proof {
        lemma_append_five(stamp_seq(*at), "_"@, id@, "_"@, prefix@, ".json"@);
    }
    name
}

/// The name of the artifact written now, or `None` where the clock cannot be
/// read as a date.
///
/// The time is whatever the clock shows; the name is the one that
/// `filename_of_reading` gives for the reading of the clock.
pub fn build_filename(prefix: &str, trace_id: Option<&str>) -> (r: Option<String>)
    ensures
        exists|reading: Option<(u64, u32)>|
            {
                &&& utc_of_reading(reading) matches Some(at) ==> at.wf()
                &&& opt_string_seq(r) == #[trigger] filename_of_reading(
                    reading,
                    opt_str_seq(trace_id),
                    prefix@,
                )
            },
{
    let now = UtcTime::now();
    let ghost reading = choose|reading: Option<(u64, u32)>| now == utc_of_reading(reading);
    let r = match now {
        Some(at) => Some(filename_at(&at, prefix, trace_id)),
        None => None,
    };
    assert(opt_string_seq(r) == filename_of_reading(reading, opt_str_seq(trace_id), prefix@));
    r
}

/// The name of the artifact written at the time of a reading of the clock:
/// the name for the date that the reading stands for, and none where it
/// stands for no date.
pub open spec fn filename_of_reading(
    reading: Option<(u64, u32)>,
    trace_id: Option<Seq<char>>,
    label: Seq<char>,
) -> Option<Seq<char>> {
    match utc_of_reading(reading) {
        Some(at) => Some(filename_seq(stamp_seq(at), trace_id, label)),
        None => None,
    }
}

/// Artifact names sort as the times they were written at: of two times with
/// four-digit years, the one shown as the earlier millisecond gives the name
/// that sorts first, whatever the trace ids and the labels are.
pub proof fn lemma_filenames_sort_by_time(
    a: UtcTime,
    b: UtcTime,
    trace_a: Option<Seq<char>>,
    label_a: Seq<char>,
    trace_b: Option<Seq<char>>,
    label_b: Seq<char>,
)
    requires
        a.wf(),
        b.wf(),
        a.four_digit_year(),
        b.four_digit_year(),
        a.shown_before(b),
    ensures
        sorts_before(
            filename_seq(stamp_seq(a), trace_a, label_a),
            filename_seq(stamp_seq(b), trace_b, label_b),
        ),
{
    lemma_stamps_sort_by_time(a, b, filename_rest(trace_a, label_a), filename_rest(trace_b, label_b));
}

/// Whether `member` is the pair of the key `key` and the string `value`.
pub open spec fn is_text_member(member: (String, Json), key: Seq<char>, value: Seq<char>) -> bool {
    member.0@ == key && member.1.text() == Some(value)
}

/// Whether `payload` is the debug payload of a transcript: an object with
/// the members `kind`, `trace_id` and `meta`, then `thinking_content` where
/// there is reasoning text and `response_content` where there is visible
/// text, and no other member. An empty text has no member at all.
pub open spec fn is_debug_payload(
    payload: Json,
    trace_id: Seq<char>,
    meta: Json,
    reasoning: Seq<char>,
    visible: Seq<char>,
) -> bool {
    let shift: int = if reasoning.len() > 0 {
        1
    } else {
        0
    };
    let count: int = if visible.len() > 0 {
        4 + shift
    } else {
        3 + shift
    };
    &&& payload matches Json::Object(members)
    &&& members@.len() == count
    &&& is_text_member(members@[0], "kind"@, "upstream_response"@)
    &&& is_text_member(members@[1], "trace_id"@, trace_id)
    &&& members@[2].0@ == "meta"@
    &&& members@[2].1 == meta
    &&& reasoning.len() > 0 ==> is_text_member(members@[3], "thinking_content"@, reasoning)
    &&& visible.len() > 0 ==> is_text_member(members@[3 + shift], "response_content"@, visible)
}

/// Builds the debug payload of a transcript from its trace id, the caller's
/// metadata and the two texts read from it.
pub fn build_payload(trace_id: String, meta: Json, reasoning: String, visible: String) -> (payload:
    Json)
    ensures
        is_debug_payload(payload, trace_id@, meta, reasoning@, visible@),
{
    let mut members: Vec<(String, Json)> = Vec::new();
    members.push((String::from_str("kind"), Json::Str(String::from_str("upstream_response"))));
    members.push((String::from_str("trace_id"), Json::Str(trace_id)));
    members.push((String::from_str("meta"), meta));
    if !reasoning.as_str().is_empty() {
        members.push((String::from_str("thinking_content"), Json::Str(reasoning)));
    }
    if !visible.as_str().is_empty() {
        members.push((String::from_str("response_content"), Json::Str(visible)));
    }
    Json::Object(members)
}

/// A debug payload has a content member exactly for a text that is not
/// empty, and that member holds the text: an empty text is left out, never
/// written as an empty string. The payload of an empty transcript so has
/// neither `thinking_content` nor `response_content`.
pub proof fn lemma_payload_omits_empty_text(
    payload: Json,
    trace_id: Seq<char>,
    meta: Json,
    reasoning: Seq<char>,
    visible: Seq<char>,
)
    requires
        is_debug_payload(payload, trace_id, meta, reasoning, visible),
    ensures
        reasoning.len() == 0 <==> payload.member("thinking_content"@) is None,
        visible.len() == 0 <==> payload.member("response_content"@) is None,
        payload.member("thinking_content"@) matches Some(v) ==> v.text() == Some(reasoning),
        payload.member("response_content"@) matches Some(v) ==> v.text() == Some(visible),
{
    reveal_strlit("kind");
    reveal_strlit("trace_id");
    reveal_strlit("meta");
    reveal_strlit("thinking_content");
    reveal_strlit("response_content");
    let members = payload->Object_0@;
    let thinking = "thinking_content"@;
    let response = "response_content"@;
    assert("kind"@.len() != thinking.len() && "kind"@.len() != response.len());
    assert("trace_id"@.len() != thinking.len() && "trace_id"@.len() != response.len());
    assert("meta"@.len() != thinking.len() && "meta"@.len() != response.len());
    assert(thinking[0] != response[0]);
    let shift: int = if reasoning.len() > 0 {
        1
    } else {
        0
    };
    if reasoning.len() > 0 {
        lemma_lookup_first(members, thinking, 3);
    } else {
        lemma_lookup_absent(members, thinking);
    }
    if visible.len() > 0 {
        lemma_lookup_first(members, response, 3 + shift);
    } else {
        lemma_lookup_absent(members, response);
    }
}

/// Why a write was given up. The caller logs it and goes on; none of these
/// reaches the stream that was recorded.
#[derive(Clone, Debug, PartialEq, Eq)]
pub enum Warning {
    /// Capture is switched on, but there is no directory to write to.
    NoOutputDir,
    /// The directory could not be created.
    CreateDirFailed,
    /// The clock could not be read as a date.
    NoTimestamp,
    /// The payload could not be written as JSON; with what the writer said.
    SerializeFailed(String),
    /// The file could not be written.
    WriteFailed,
}

/// What the caller does next in the course of one write.
#[derive(Debug, PartialEq, Eq)]
pub enum WriteStep {
    /// Nothing is left to do.
    Done,
    /// The write is given up, with the reason to log.
    GiveUp(Warning),
    /// Create the directory, with the directories above it, and report to
    /// `after_create_dir` whether it is there.
    CreateDir(OutputDir),
    /// Write the bytes to the file of this name in the directory, in full,
    /// and report to `after_write` whether that went well.
    WriteFile { filename: String, bytes: Vec<u8> },
}

/// Whether `step` is the step that opens a write under `cfg`: nothing where
/// capture is switched off, a warning where no directory resolves, and else
/// the creation of the resolved directory.
pub open spec fn is_first_step(
    step: WriteStep,
    cfg: DebugLoggingConfig,
    data_dir: Option<Seq<char>>,
) -> bool {
    if !cfg.enabled {
        step is Done
    } else {
        match resolved_dir(cfg, data_dir) {
            Some(parts) => step matches WriteStep::CreateDir(dir) && dir.parts() == parts,
            None => step == WriteStep::GiveUp(Warning::NoOutputDir),
        }
    }
}

/// Whether `step` is the step that follows the creation of the directory,
/// for the time `at` that the clock gave and for what the payload was written
/// as, bytes or the writer's complaint: a warning where the time is missing,
/// a warning with the complaint where the bytes are, and else the writing of
/// those bytes under the name that the time gives.
pub open spec fn is_file_step(
    step: WriteStep,
    at: Option<UtcTime>,
    trace_id: Option<Seq<char>>,
    label: Seq<char>,
    rendered: Result<Seq<u8>, Seq<char>>,
) -> bool {
    match at {
        None => step == WriteStep::GiveUp(Warning::NoTimestamp),
        Some(at) => match rendered {
            Err(complaint) => {
                &&& step matches WriteStep::GiveUp(Warning::SerializeFailed(text))
                &&& text@ == complaint
            },
            Ok(wanted) => {
                &&& step matches WriteStep::WriteFile { filename, bytes }
                &&& filename@ == filename_seq(stamp_seq(at), trace_id, label)
                &&& bytes@ == wanted
            },
        },
    }
}

/// What a payload was written as, in bytes and characters.
pub open spec fn rendered_seq(rendered: Result<Vec<u8>, String>) -> Result<Seq<u8>, Seq<char>> {
    match rendered {
        Ok(bytes) => Ok(bytes@),
        Err(complaint) => Err(complaint@),
    }
}

/// What a payload is written as: the bytes that the writer gives for it, or,
/// where it gives none, the complaint `complaint`.
pub open spec fn rendering_of(payload: Json, complaint: Seq<char>) -> Result<Seq<u8>, Seq<char>> {
    match json_pretty(payload) {
        Some(bytes) => Ok(bytes),
        None => Err(complaint),
    }
}

/// Opens a write: decides whether anything is written, and where.
pub fn begin_write(cfg: &DebugLoggingConfig, data_dir: Option<&str>) -> (step: WriteStep)
    ensures
        is_first_step(step, *cfg, opt_str_seq(data_dir)),
{
    if !is_enabled(cfg) {
        return WriteStep::Done;
    }
    match resolve_output_dir(cfg, data_dir) {
        Some(dir) => WriteStep::CreateDir(dir),
        None => WriteStep::GiveUp(Warning::NoOutputDir),
    }
}

/// The step that follows the creation of the directory, given what the clock
/// showed and what the payload was written as.
pub fn file_step(
    at: Option<UtcTime>,
    trace_id: Option<&str>,
    prefix: &str,
    rendered: Result<Vec<u8>, String>,
) -> (step: WriteStep)
    requires
        at matches Some(t) ==> t.wf(),
    ensures
        is_file_step(step, at, opt_str_seq(trace_id), prefix@, rendered_seq(rendered)),
{
    match at {
        None => WriteStep::GiveUp(Warning::NoTimestamp),
        Some(at) => match rendered {
            Err(complaint) => WriteStep::GiveUp(Warning::SerializeFailed(complaint)),
            Ok(bytes) => WriteStep::WriteFile {
                filename: filename_at(&at, prefix, trace_id),
                bytes,
            },
        },
    }
}

/// Goes on after the directory was to be created. Where it is there, the
/// artifact is named after the current time and the payload is written out
/// as pretty-printed JSON, ready for the file; where the writer fails, its
/// complaint goes into the warning.
pub fn after_create_dir(
    created: bool,
    trace_id: Option<&str>,
    prefix: &str,
    payload: &Json,
) -> (step: WriteStep)
    ensures
        !created ==> step == WriteStep::GiveUp(Warning::CreateDirFailed),
        created ==> exists|at: Option<UtcTime>, complaint: Seq<char>|
            {
                &&& at matches Some(t) ==> t.wf()
                &&& #[trigger] is_file_step(
                    step,
                    at,
                    opt_str_seq(trace_id),
                    prefix@,
                    rendering_of(*payload, complaint),
                )
            },
{
    if !created {
        return WriteStep::GiveUp(Warning::CreateDirFailed);
    }
    let at = UtcTime::now();
    let rendered: Result<Vec<u8>, String> = match pretty_json(payload) {
        Ok(bytes) => Ok(bytes),
        Err(failure) => Err(failure.to_string()),
    };
    let ghost complaint = match rendered_seq(rendered) {
        Ok(_) => Seq::<char>::empty(),
        Err(text) => text,
    };
    let step = file_step(at, trace_id, prefix, rendered);
    assert(rendered_seq(rendered) == rendering_of(*payload, complaint));
    assert(is_file_step(step, at, opt_str_seq(trace_id), prefix@, rendering_of(*payload, complaint)));
    step
}

/// Closes a write after the file was to be written.
pub fn after_write(written: bool) -> (step: WriteStep)
    ensures
        written ==> step == WriteStep::Done,
        !written ==> step == WriteStep::GiveUp(Warning::WriteFailed),
{
    if written {
        WriteStep::Done
    } else {
        WriteStep::GiveUp(Warning::WriteFailed)
    }
}

} // verus!
