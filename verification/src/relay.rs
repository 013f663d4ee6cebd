//! The per-connection relay: decisions for one forwarding pass, and a
//! model of what a whole direction delivers.
//!
//! A relay pumps bytes both ways between one local socket and one remote
//! channel. Both sides are non-blocking; each pass reads each side once
//! and forwards whatever arrived, unmodified, to the other side. A
//! zero-length read or a hard error ends that one relay; "would block"
//! only means no data right now.

use vstd::prelude::*;

verus! {

/// Bytes per read buffer, per direction.
pub const RELAY_BUFFER_BYTES: usize = 16384;

/// Milliseconds slept when a pass moved no data in either direction.
pub const RELAY_IDLE_MILLIS: u64 = 10;

/// The outcome of one non-blocking read from one side of a relay.
#[derive(Clone, PartialEq, Eq, Debug)]
pub enum ReadEvent {
    /// The read returned these bytes (at most one buffer's worth).
    Data(Vec<u8>),
    /// The read returned zero bytes: the peer closed its side.
    Closed,
    /// The read would block: no data is pending right now.
    NoData,
    /// The read failed outright.
    Failed,
}

/// What one direction of the relay does after one read.
#[derive(Clone, PartialEq, Eq, Debug)]
pub enum DirAction {
    /// Write these bytes, unmodified and in order, to the other side.
    Forward(Vec<u8>),
    /// Nothing to forward this pass; the relay stays up.
    Idle,
    /// Tear this relay down. Other relays are unaffected: a relay owns
    /// its socket and channel and shares nothing with its peers.
    Terminate,
}

/// Decides one direction's action from its read outcome: data is
/// forwarded exactly as read, a closed peer or a hard error ends the
/// relay, and an empty poll is not an error.
pub fn direction_step(ev: ReadEvent) -> (a: DirAction)
    ensures
        ev matches ReadEvent::Data(d) ==> a == DirAction::Forward(d),
        ev is Closed ==> a == DirAction::Terminate,
        ev is NoData ==> a == DirAction::Idle,
        ev is Failed ==> a == DirAction::Terminate,
{
    match ev {
        ReadEvent::Data(d) => DirAction::Forward(d),
        ReadEvent::Closed => DirAction::Terminate,
        ReadEvent::NoData => DirAction::Idle,
        ReadEvent::Failed => DirAction::Terminate,
    }
}

/// The bytes one direction of a relay delivers to the other side, given
/// the outcomes of its successive reads starting at position `i`: every
/// chunk of data is forwarded in order, empty polls deliver nothing, and
/// a closed peer or a hard error cuts the stream off.
pub open spec fn delivered_from(events: Seq<ReadEvent>, i: int) -> Seq<u8>
    decreases events.len() - i,
{
    if i >= events.len() {
        Seq::empty()
    } else {
        match events[i] {
            ReadEvent::Data(d) => d@ + delivered_from(events, i + 1),
            ReadEvent::NoData => delivered_from(events, i + 1),
            _ => Seq::empty(),
        }
    }
}

/// The bytes one direction delivers over its whole lifetime.
pub open spec fn delivered(events: Seq<ReadEvent>) -> Seq<u8> {
    delivered_from(events, 0)
}

/// Pumps one direction of a relay over a recorded sequence of read
/// outcomes: forwards every data chunk in order until the first
/// zero-length read or hard error, exactly as [`delivered`] states.
pub fn pump_direction(events: &Vec<ReadEvent>) -> (out: Vec<u8>)
    ensures
        out@ == delivered(events@),
{
    let mut out: Vec<u8> = Vec::new();
    let mut i: usize = 0;
    while i < events.len()
        invariant
            i <= events@.len(),
            delivered(events@) == out@ + delivered_from(events@, i as int),
        decreases events@.len() - i,
    {
        match &events[i] {
            ReadEvent::Data(d) => {
                let mut j: usize = 0;
                let ghost out_before = out@;
                while j < d.len()
                    invariant
                        j <= d@.len(),
                        out@ == out_before + d@.take(j as int),
                    decreases d@.len() - j,
                {
                    out.push(d[j]);
                    proof {
                        assert(out@ =~= out_before + d@.take(j + 1 as int));
                    }
                    j += 1;
                }
                proof {
                    assert(d@.take(d@.len() as int) =~= d@);
                }
            },
            ReadEvent::NoData => {},
            _ => {
                proof {
                    assert(delivered(events@) =~= out@);
                }
                return out;
            },
        }
        i += 1;
    }
    proof {
        assert(delivered(events@) =~= out@);
    }
    out
}

/// The concatenation of a sequence of byte chunks, from position `i` on.
pub open spec fn concat_from(chunks: Seq<Vec<u8>>, i: int) -> Seq<u8>
    decreases chunks.len() - i,
{
    if i >= chunks.len() {
        Seq::empty()
    } else {
        chunks[i]@ + concat_from(chunks, i + 1)
    }
}

/// The concatenation of a sequence of byte chunks.
pub open spec fn concat_chunks(chunks: Seq<Vec<u8>>) -> Seq<u8> {
    concat_from(chunks, 0)
}

/// Appending one chunk appends its bytes to the concatenation.
proof fn lemma_concat_from_push(chunks: Seq<Vec<u8>>, c: Vec<u8>, i: int)
    requires
        0 <= i <= chunks.len(),
    ensures
        concat_from(chunks.push(c), i) == concat_from(chunks, i) + c@,
    decreases chunks.len() - i,
{
    if i == chunks.len() {
        assert(chunks.push(c)[i] == c);
        assert(concat_from(chunks.push(c), i + 1) =~= Seq::<u8>::empty());
        assert(concat_from(chunks.push(c), i) =~= concat_from(chunks, i) + c@);
    } else {
        lemma_concat_from_push(chunks, c, i + 1);
        assert(chunks.push(c)[i] == chunks[i]);
        assert(concat_from(chunks.push(c), i) =~= concat_from(chunks, i) + c@);
    }
}

/// Splits a payload the way the relay's reads would hand it over: into
/// successive chunks of at most one buffer each, in order, none empty,
/// whose concatenation is exactly the payload.
pub fn chunk_payload(payload: &Vec<u8>) -> (chunks: Vec<Vec<u8>>)
    ensures
        concat_chunks(chunks@) == payload@,
        forall|k: int|
            0 <= k < chunks@.len() ==> 0 < #[trigger] chunks@[k]@.len() <= RELAY_BUFFER_BYTES,
{
    let mut chunks: Vec<Vec<u8>> = Vec::new();
    let mut pos: usize = 0;
    proof {
        assert(concat_chunks(chunks@) =~= payload@.take(0));
    }
    while pos < payload.len()
        invariant
            pos <= payload@.len(),
            concat_chunks(chunks@) == payload@.take(pos as int),
            forall|k: int|
                0 <= k < chunks@.len() ==> 0 < #[trigger] chunks@[k]@.len() <= RELAY_BUFFER_BYTES,
        decreases payload@.len() - pos,
    {
        let remaining: usize = payload.len() - pos;
        let step: usize = if remaining < RELAY_BUFFER_BYTES {
            remaining
        } else {
            RELAY_BUFFER_BYTES
        };
        let mut chunk: Vec<u8> = Vec::new();
        let mut j: usize = 0;
        while j < step
            invariant
                j <= step,
                pos + step <= payload@.len(),
                payload@.len() <= usize::MAX,
                chunk@ == payload@.subrange(pos as int, pos + j as int),
            decreases step - j,
        {
            chunk.push(payload[pos + j]);
            proof {
                assert(chunk@ =~= payload@.subrange(pos as int, pos + j + 1 as int));
            }
            j += 1;
        }
        proof {
            lemma_concat_from_push(chunks@, chunk, 0);
            assert(payload@.take(pos as int) + payload@.subrange(pos as int, pos + step as int)
                =~= payload@.take(pos + step as int));
        }
        chunks.push(chunk);
        pos += step;
    }
    proof {
        assert(payload@.take(payload@.len() as int) =~= payload@);
    }
    chunks
}

/// Relay correctness for one direction: when a payload arrives as a
/// sequence of data reads — one per chunk, in order, with no close or
/// error among them — the relay delivers the chunks unmodified and in
/// order, and their concatenation is the original payload.
pub proof fn lemma_relay_delivers_payload(
    events: Seq<ReadEvent>,
    chunks: Seq<Vec<u8>>,
    payload: Seq<u8>,
)
    requires
        events.len() == chunks.len(),
        forall|k: int| 0 <= k < events.len() ==> events[k] == ReadEvent::Data(chunks[k]),
        concat_chunks(chunks) == payload,
    ensures
        delivered(events) == payload,
{
    lemma_delivered_matches_concat(events, chunks, 0);
}

/// From any position on, a stream of pure data reads delivers exactly
/// the concatenation of its chunks.
proof fn lemma_delivered_matches_concat(events: Seq<ReadEvent>, chunks: Seq<Vec<u8>>, i: int)
    requires
        0 <= i,
        events.len() == chunks.len(),
        forall|k: int| 0 <= k < events.len() ==> events[k] == ReadEvent::Data(chunks[k]),
    ensures
        delivered_from(events, i) == concat_from(chunks, i),
    decreases events.len() - i,
{
    if i < events.len() {
        lemma_delivered_matches_concat(events, chunks, i + 1);
    }
}

/// Whether every read before position `k` kept the relay alive: it
/// either carried data or merely would have blocked.
pub open spec fn live_before(events: Seq<ReadEvent>, k: int) -> bool {
    forall|j: int|
        0 <= j < k ==> (#[trigger] events[j] is Data || events[j] is NoData)
}

/// Close propagation: the first zero-length read (or hard error) ends
/// that relay's direction exactly there — everything read before it is
/// delivered, nothing after it is. Other relays are untouched: each
/// relay owns its own socket, channel and read stream, so this statement
/// involves no state of any other relay.
pub proof fn lemma_close_cuts_stream(events: Seq<ReadEvent>, k: int)
    requires
        0 <= k < events.len(),
        events[k] is Closed || events[k] is Failed,
        live_before(events, k),
    ensures
        delivered(events) == delivered(events.take(k)),
{
    lemma_cut_from(events, k, 0);
}

/// From any position up to the cut, the full stream and its prefix
/// before the cut deliver the same bytes.
proof fn lemma_cut_from(events: Seq<ReadEvent>, k: int, i: int)
    requires
        0 <= i <= k < events.len(),
        events[k] is Closed || events[k] is Failed,
        live_before(events, k),
    ensures
        delivered_from(events, i) == delivered_from(events.take(k), i),
    decreases k - i,
{
    if i == k {
        assert(delivered_from(events, k) =~= Seq::<u8>::empty());
        assert(delivered_from(events.take(k), k) =~= Seq::<u8>::empty());
    } else {
        lemma_cut_from(events, k, i + 1);
        assert(events.take(k)[i] == events[i]);
    }
}

/// How a relay pass ends.
#[derive(Clone, Copy, PartialEq, Eq, Debug)]
pub enum PassControl {
    /// Stop was requested: tear the relay down.
    Stop,
    /// Neither direction moved data: sleep `RELAY_IDLE_MILLIS`, then go
    /// on.
    Sleep,
    /// Data moved: go straight into the next pass.
    Continue,
}

/// Decides what follows one relay pass: the stop flag is re-checked
/// every pass so a stopped tunnel tears its relays down, and an idle
/// pass backs off briefly instead of spinning.
pub fn after_pass(stop_requested: bool, acted: bool) -> (c: PassControl)
    ensures
        stop_requested ==> c == PassControl::Stop,
        !stop_requested && acted ==> c == PassControl::Continue,
        !stop_requested && !acted ==> c == PassControl::Sleep,
{
    if stop_requested {
        PassControl::Stop
    } else if acted {
        PassControl::Continue
    } else {
        PassControl::Sleep
    }
}

} // verus!
