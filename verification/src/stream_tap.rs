//! The stream tap: a record of what passes through a stream of byte chunks.
//!
//! The tap sees every item of the stream once, on its way to the consumer, and
//! hands it on as it came. While capture is switched on it keeps a copy of the
//! bytes of the chunks that arrived; a failed item adds nothing and loses
//! nothing of what was kept before. At the end of the stream the copy is read
//! as an event stream and becomes the debug payload.

use vstd::prelude::*;
use vstd::utf8::{decode_utf8, valid_utf8};
use crate::debug_logger::{build_payload, is_debug_payload, is_enabled, DebugLoggingConfig};
use crate::event_stream::{
    lemma_empty_stream_is_silent, parse_sse_stream, stream_reasoning, stream_visible,
};
use crate::json::Json;

verus! {

/// `bytes::Bytes`, a chunk of the stream.
#[verifier::external_type_specification]
#[verifier::external_body]
pub struct ExBytes(bytes::Bytes);

/// The bytes that a chunk holds.
pub uninterp spec fn chunk_bytes(chunk: bytes::Bytes) -> Seq<u8>;

/// The text that `String::from_utf8_lossy` reads from bytes: the text they
/// encode, with the replacement character for what is not UTF-8.
pub uninterp spec fn utf8_lossy(bytes: Seq<u8>) -> Seq<char>;

/// The bytes of a chunk, as a slice.
///
/// Trusted: `AsRef<[u8]>` for `bytes::Bytes` gives the bytes that the chunk
/// holds.
#[verifier::external_body]
fn chunk_slice(chunk: &bytes::Bytes) -> (r: &[u8])
    ensures
        r@ == chunk_bytes(*chunk),
{
    chunk.as_ref()
}

/// The text of a captured transcript.
///
/// Trusted: `String::from_utf8_lossy` depends on the bytes alone, and returns
/// the text that they encode where they are valid UTF-8.
#[verifier::external_body]
fn lossy_text(bytes: &[u8]) -> (r: String)
    ensures
        r@ == utf8_lossy(bytes@),
        valid_utf8(bytes@) ==> r@ == decode_utf8(bytes@),
{
    String::from_utf8_lossy(bytes).into_owned()
}

/// What an item of the stream adds to the capture: the bytes of a chunk, and
/// nothing for a failure.
pub open spec fn item_bytes<E>(item: Result<bytes::Bytes, E>) -> Seq<u8> {
    match item {
        Ok(chunk) => chunk_bytes(chunk),
        Err(_) => Seq::empty(),
    }
}

/// What a run of items adds to the capture: the bytes of its chunks, in
/// order.
pub open spec fn items_bytes<E>(items: Seq<Result<bytes::Bytes, E>>) -> Seq<u8>
    decreases items.len(),
{
    if items.len() == 0 {
        Seq::empty()
    } else {
        items_bytes(items.drop_last()) + item_bytes(items.last())
    }
}

/// The tap on one stream.
pub struct StreamTap {
    active: bool,
    collected: Vec<u8>,
}

impl StreamTap {
    /// Whether the tap captures what it sees.
    pub closed spec fn is_active(&self) -> bool {
        self.active
    }

    /// The bytes captured so far.
    pub closed spec fn captured(&self) -> Seq<u8> {
        self.collected@
    }

    /// A tap that is switched off has captured nothing.
    pub open spec fn wf(&self) -> bool {
        !self.is_active() ==> self.captured().len() == 0
    }

    /// A tap for a new stream, capturing where `cfg` switches capture on.
    pub fn new(cfg: &DebugLoggingConfig) -> (tap: StreamTap)
        ensures
            tap.wf(),
            tap.is_active() == cfg.enabled,
            tap.captured() == Seq::<u8>::empty(),
    {
        StreamTap { active: is_enabled(cfg), collected: Vec::new() }
    }

    /// Whether the tap captures what it sees.
    pub fn active(&self) -> (b: bool)
        ensures
            b == self.is_active(),
    {
        self.active
    }

    /// The bytes captured so far.
    pub fn bytes(&self) -> (r: &[u8])
        ensures
            r@ == self.captured(),
    {
        self.collected.as_slice()
    }

    /// Sees one item of the stream and hands it on unchanged. An active tap
    /// keeps the bytes of a chunk; a tap that is switched off keeps nothing.
    pub fn observe<E>(&mut self, item: Result<bytes::Bytes, E>) -> (out: Result<bytes::Bytes, E>)
        requires
            old(self).wf(),
        ensures
            out == item,
            final(self).wf(),
            final(self).is_active() == old(self).is_active(),
            old(self).is_active() ==> final(self).captured() == old(self).captured() + item_bytes(
                item,
            ),
            !old(self).is_active() ==> final(self).captured() == old(self).captured(),
    {
        if self.active {
            match &item {
                Ok(chunk) => {
                    let ghost before = self.collected@;
                    let slice = chunk_slice(chunk);
                    self.collected.extend_from_slice(slice);
                    assert(self.collected@ =~= before + slice@);
                },
                Err(_) => {
                    assert(self.collected@ + Seq::<u8>::empty() =~= self.collected@);
                },
            }
        }
        item
    }

    /// Sees a whole run of items, in order, and hands them on as they came:
    /// the same items in the same order, failures among them.
    pub fn observe_all<E>(&mut self, items: Vec<Result<bytes::Bytes, E>>) -> (out: Vec<
        Result<bytes::Bytes, E>,
    >)
        requires
            old(self).wf(),
        ensures
            out@ == items@,
            final(self).wf(),
            final(self).is_active() == old(self).is_active(),
            old(self).is_active() ==> final(self).captured() == old(self).captured() + items_bytes(
                items@,
            ),
            !old(self).is_active() ==> final(self).captured() == old(self).captured(),
    {
        let mut out: Vec<Result<bytes::Bytes, E>> = Vec::new();
        proof {
            assert(self.captured() + items_bytes(items@.take(0)) =~= self.captured());
        }
        for item in it: items
            invariant
                it.seq() == items@,
                out@ == items@.take(it.index()),
                self.wf(),
                self.is_active() == old(self).is_active(),
                old(self).is_active() ==> self.captured() == old(self).captured() + items_bytes(
                    items@.take(it.index()),
                ),
                !old(self).is_active() ==> self.captured() == old(self).captured(),
        {
            proof {
                let upto = items@.take(it.index() + 1);
                assert(upto.drop_last() =~= items@.take(it.index()));
                assert(upto.last() == item);
                assert(old(self).captured() + items_bytes(items@.take(it.index())) + item_bytes(
                    item,
                ) =~= old(self).captured() + items_bytes(upto));
            }
            let passed = self.observe(item);
            out.push(passed);
            assert(out@ =~= items@.take(it.index() + 1));
        }
        assert(items@.take(items@.len() as int) =~= items@);
        out
    }

    /// Ends the capture and builds the debug payload from what was captured:
    /// the bytes are read as text, the text as an event stream, and the two
    /// channels go into the payload with the trace id and the metadata. A tap
    /// that is switched off builds nothing.
    pub fn finish(self, trace_id: String, meta: Json) -> (r: Option<Json>)
        requires
            self.wf(),
        ensures
            !self.is_active() ==> r is None,
            self.is_active() ==> (r matches Some(payload) && is_capture_payload(
                payload,
                self.captured(),
                trace_id@,
                meta,
            )),
    {
        if !self.active {
            return None;
        }
        Some(payload_of_capture(self.collected.as_slice(), trace_id, meta))
    }
}

/// Whether `payload` is the debug payload of the capture `captured`: the
/// payload of the two texts that the event stream in it carries, the bytes
/// read as UTF-8 with replacement. Where the bytes are valid UTF-8 the text is
/// the one they encode, and an empty capture has an empty text.
pub open spec fn is_capture_payload(
    payload: Json,
    captured: Seq<u8>,
    trace_id: Seq<char>,
    meta: Json,
) -> bool {
    let text = utf8_lossy(captured);
    &&& is_debug_payload(payload, trace_id, meta, stream_reasoning(text), stream_visible(text))
    &&& valid_utf8(captured) ==> text == decode_utf8(captured)
    &&& captured.len() == 0 ==> is_debug_payload(
        payload,
        trace_id,
        meta,
        Seq::empty(),
        Seq::empty(),
    )
}

/// The debug payload of a captured transcript.
pub fn payload_of_capture(captured: &[u8], trace_id: String, meta: Json) -> (payload: Json)
    ensures
        is_capture_payload(payload, captured@, trace_id@, meta),
{
    let text = lossy_text(captured);
    proof {
        if captured@.len() == 0 {
            assert(valid_utf8(captured@));
            assert(decode_utf8(captured@) =~= Seq::<char>::empty());
            lemma_empty_stream_is_silent();
        }
    }
    let channels = parse_sse_stream(text.as_str());
    build_payload(trace_id, meta, channels.0, channels.1)
}

} // verus!
