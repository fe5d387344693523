//! Incremental decoder for server-sent-events streams.
//!
//! The decoder consumes byte chunks whose sizes and boundaries are
//! unpredictable: one event may span several chunks and one chunk may carry
//! several events.  It keeps one running buffer, cuts it at newlines,
//! handles every complete line, and retains the trailing fragment.  A line
//! starting with `data: ` carries a payload: the `[DONE]` sentinel ends the
//! stream, a JSON payload contributes its `choices[0].delta.content` string
//! when there is one, and a malformed payload is skipped without ending the
//! stream.  Delta events come out strictly in the order of their lines.

use vstd::prelude::*;
use vstd::utf8::{encode_utf8, valid_utf8};
use crate::bytes::{seq_starts_with, push_all, utf8_to_string, bytes_eq, bytes_starts_with};
use crate::json::{JsonV, spec_parse_json, obj_get, arr_get};
use crate::extract::{key_choices, key_content};

verus! {

/// The unit handed to the stream consumer; `is_final` is true exactly once,
/// on the closing event, which carries empty text.
pub struct StreamEvent {
    pub delta_text: String,
    pub is_final: bool,
}

/// Decoder states.  `Done` and `Failed` are terminal.
#[derive(Clone, Copy, Debug, PartialEq, Eq, Structural)]
pub enum DecoderState {
    /// Waiting for more input; the last chunk completed no delta.
    Buffering,
    /// The last chunk completed at least one delta.
    Emitting,
    /// The stream ended, by sentinel or by the producer closing.
    Done,
    /// The transport failed; no further event is produced.
    Failed,
}

/// The SSE line prefix `data: `.
pub open spec fn data_prefix() -> Seq<u8> {
    seq![100u8, 97u8, 116u8, 97u8, 58u8, 32u8]
}

/// The closing sentinel `[DONE]`.
pub open spec fn done_sentinel() -> Seq<u8> {
    seq![91u8, 68u8, 79u8, 78u8, 69u8, 93u8]
}

/// Position of the first newline, or `-1`.
pub open spec fn find_nl(s: Seq<u8>) -> int
    decreases s.len(),
{
    if s.len() == 0 {
        -1
    } else if s[0] == 10 {
        0
    } else {
        let r = find_nl(s.drop_first());
        if r < 0 {
            -1
        } else {
            r + 1
        }
    }
}

/// The complete (newline-terminated) lines of `s`, in order.
pub open spec fn complete_lines(s: Seq<u8>) -> Seq<Seq<u8>>
    decreases s.len(),
{
    let p = find_nl(s);
    if 0 <= p < s.len() {
        seq![s.subrange(0, p)] + complete_lines(s.subrange(p + 1, s.len() as int))
    } else {
        Seq::empty()
    }
}

/// What remains after the last newline of `s`.
pub open spec fn tail_fragment(s: Seq<u8>) -> Seq<u8>
    decreases s.len(),
{
    let p = find_nl(s);
    if 0 <= p < s.len() {
        tail_fragment(s.subrange(p + 1, s.len() as int))
    } else {
        s
    }
}

/// The delta text of one SSE payload: the payload must parse as JSON and
/// hold a string at `choices[0].delta.content`.
pub open spec fn delta_content(payload: Seq<u8>) -> Option<Seq<u8>> {
    match spec_parse_json(payload) {
        Some(v) => match obj_get(v, key_choices()) {
            Some(c) => match arr_get(c, 0) {
                Some(c0) => match obj_get(c0, key_delta()) {
                    Some(d) => match obj_get(d, key_content()) {
                        Some(JsonV::Str(b)) => Some(b),
                        _ => None,
                    },
                    None => None,
                },
                None => None,
            },
            None => None,
        },
        None => None,
    }
}

pub open spec fn key_delta() -> Seq<u8> {
    encode_utf8("delta"@)
}

/// What one complete line contributes to the stream.
pub ghost enum LineOut {
    /// No contribution: a keep-alive, a comment, a malformed payload, or a
    /// payload without a delta.
    Skip,
    /// The `[DONE]` sentinel.
    Finish,
    /// One delta text.
    Delta(Seq<u8>),
}

pub open spec fn line_out(line: Seq<u8>) -> LineOut {
    if !seq_starts_with(line, data_prefix()) {
        LineOut::Skip
    } else {
        let payload = line.skip(6);
        if payload == done_sentinel() {
            LineOut::Finish
        } else {
            match delta_content(payload) {
                Some(b) => if valid_utf8(b) {
                    LineOut::Delta(b)
                } else {
                    LineOut::Skip
                },
                None => LineOut::Skip,
            }
        }
    }
}

/// Folds `line_out` over the lines: the delta texts in order, and whether
/// the sentinel was seen (lines after the sentinel are discarded).
pub open spec fn run_lines(lines: Seq<Seq<u8>>) -> (Seq<Seq<u8>>, bool)
    decreases lines.len(),
{
    if lines.len() == 0 {
        (Seq::empty(), false)
    } else {
        match line_out(lines[0]) {
            LineOut::Finish => (Seq::empty(), true),
            LineOut::Skip => run_lines(lines.drop_first()),
            LineOut::Delta(b) => {
                let (rest, done) = run_lines(lines.drop_first());
                (seq![b] + rest, done)
            },
        }
    }
}

/// What `push_chunk` appends to `events`: one non-final event per delta, in
/// order, then one final event when the stream ended.
pub open spec fn events_match(events: Seq<StreamEvent>, deltas: Seq<Seq<u8>>, done: bool) -> bool {
    &&& events.len() == deltas.len() + (if done {
        1int
    } else {
        0int
    })
    &&& forall|i: int|
        0 <= i < deltas.len() ==> (#[trigger] events[i]).is_final == false && encode_utf8(
            events[i].delta_text@,
        ) == deltas[i]
    &&& done ==> events.last().is_final == true && events.last().delta_text@ == Seq::<
        char,
    >::empty()
}

/// The incremental SSE decoder.
pub struct StreamDecoder {
    /// The retained fragment after the last newline seen.
    pub buffer: Vec<u8>,
    pub state: DecoderState,
}

fn data_prefix_exec() -> (r: Vec<u8>)
    ensures
        r@ == data_prefix(),
{
    let mut r: Vec<u8> = Vec::new();
    r.push(100);
    r.push(97);
    r.push(116);
    r.push(97);
    r.push(58);
    r.push(32);
    proof {
        assert(r@ =~= data_prefix());
    }
    r
}

fn done_sentinel_exec() -> (r: Vec<u8>)
    ensures
        r@ == done_sentinel(),
{
    let mut r: Vec<u8> = Vec::new();
    r.push(91);
    r.push(68);
    r.push(79);
    r.push(78);
    r.push(69);
    r.push(93);
    proof {
        assert(r@ =~= done_sentinel());
    }
    r
}

/// Finds the first newline of `s`.
fn find_nl_exec(s: &[u8]) -> (r: Option<usize>)
    ensures
        match r {
            Some(p) => find_nl(s@) == p as int && p < s@.len() && s@[p as int] == 10,
            None => find_nl(s@) == -1,
        },
{
    let mut i: usize = 0;
    proof {
        assert(s@.skip(0) =~= s@);
    }
    while i < s.len()
        invariant
            i <= s@.len(),
            forall|k: int| 0 <= k < i ==> s@[k] != 10,
            find_nl(s@) == if find_nl(s@.skip(i as int)) < 0 {
                -1
            } else {
                find_nl(s@.skip(i as int)) + i
            },
        decreases s@.len() - i,
    {
        let ghost pre = s@.skip(i as int);
        proof {
            assert(pre[0] == s@[i as int]);
            assert(pre.drop_first() =~= s@.skip(i + 1));
        }
        if s[i] == 10 {
            return Some(i);
        }
        i += 1;
    }
    proof {
        assert(s@.skip(s@.len() as int) =~= Seq::<u8>::empty());
    }
    None
}

/// The delta text of one payload, as `delta_content` says.
fn delta_of_payload(payload: &[u8]) -> (r: Option<Vec<u8>>)
    ensures
        match r {
            Some(b) => delta_content(payload@) == Some(b@),
            None => delta_content(payload@) is None,
        },
{
    match crate::json::parse_json_text(payload) {
        Some(doc) => {
            let choices_key = crate::bytes::str_to_vec("choices");
            match doc.get_key(choices_key.as_slice()) {
                Some(c) => match c.get_index(0) {
                    Some(c0) => {
                        let delta_key = crate::bytes::str_to_vec("delta");
                        match c0.get_key(delta_key.as_slice()) {
                            Some(d) => {
                                let content_key = crate::bytes::str_to_vec("content");
                                match d.get_key(content_key.as_slice()) {
                                    Some(ct) => match ct.as_str_bytes() {
                                        Some(b) => {
                                            let mut out: Vec<u8> = Vec::new();
                                            push_all(&mut out, b.as_slice());
                                            Some(out)
                                        },
                                        None => None,
                                    },
                                    None => None,
                                }
                            },
                            None => None,
                        }
                    },
                    None => None,
                },
                None => None,
            }
        },
        None => None,
    }
}

/// Handles all complete lines of `buf`, appending the resulting delta
/// events to `events`; returns the retained tail and whether the sentinel
/// was seen.
fn run_buffer(buf: Vec<u8>, events: &mut Vec<StreamEvent>) -> (res: (Vec<u8>, bool))
    ensures
        ({
            let (deltas, done) = run_lines(complete_lines(buf@));
            &&& final(events)@.len() >= old(events)@.len()
            &&& final(events)@.subrange(0, old(events)@.len() as int) == old(events)@
            &&& events_match(
                final(events)@.subrange(old(events)@.len() as int, final(events)@.len() as int),
                deltas,
                false,
            )
            &&& res.1 == done
            &&& (!done ==> res.0@ == tail_fragment(buf@))
        }),
    decreases buf@.len(),
{
    let ghost evs0 = events@;
    match find_nl_exec(buf.as_slice()) {
        None => {
            proof {
                assert(complete_lines(buf@) == Seq::<Seq<u8>>::empty());
                assert(tail_fragment(buf@) == buf@);
                assert(events@.subrange(0, evs0.len() as int) =~= evs0);
                assert(events@.subrange(evs0.len() as int, events@.len() as int) =~= Seq::<
                    StreamEvent,
                >::empty());
            }
            (buf, false)
        },
        Some(p) => {
            let line = vstd::slice::slice_subrange(buf.as_slice(), 0, p);
            let mut rest: Vec<u8> = Vec::new();
            let rest_slice = vstd::slice::slice_subrange(buf.as_slice(), p + 1, buf.len());
            push_all(&mut rest, rest_slice);
            proof {
                assert(rest@ =~= buf@.subrange(p + 1, buf@.len() as int));
                assert(complete_lines(buf@) =~= seq![buf@.subrange(0, p as int)]
                    + complete_lines(buf@.subrange(p + 1, buf@.len() as int)));
                assert(tail_fragment(buf@) == tail_fragment(
                    buf@.subrange(p + 1, buf@.len() as int),
                ));
            }
            let prefix = data_prefix_exec();
            if !bytes_starts_with(line, prefix.as_slice()) {
                proof {
                    assert(line_out(line@) is Skip);
                    assert(complete_lines(buf@).drop_first() =~= complete_lines(rest@));
                }
                run_buffer(rest, events)
            } else {
                let payload = vstd::slice::slice_subrange(line, 6, line.len());
                proof {
                    assert(payload@ =~= line@.skip(6));
                }
                let sentinel = done_sentinel_exec();
                if bytes_eq(payload, sentinel.as_slice()) {
                    proof {
                        assert(line_out(line@) is Finish);
                        assert(events@.subrange(0, evs0.len() as int) =~= evs0);
                        assert(events@.subrange(evs0.len() as int, events@.len() as int)
                            =~= Seq::<StreamEvent>::empty());
                    }
                    (Vec::new(), true)
                } else {
                    match delta_of_payload(payload) {
                        Some(b) => {
                            match utf8_to_string(b) {
                                Some(s) => {
                                    let ghost sv = s@;
                                    events.push(
                                        StreamEvent { delta_text: s, is_final: false },
                                    );
                                    proof {
                                        assert(line_out(line@) == LineOut::Delta(
                                            encode_utf8(sv),
                                        ));
                                        assert(complete_lines(buf@).drop_first()
                                            =~= complete_lines(rest@));
                                    }
                                    let ghost mid = events@;
                                    let r = run_buffer(rest, events);
                                    proof {
                                        let (deltas, done) = run_lines(
                                            complete_lines(buf@),
                                        );
                                        let (drest, _dn) = run_lines(complete_lines(rest@));
                                        assert(deltas =~= seq![encode_utf8(sv)] + drest);
                                        let evs2 = events@;
                                        assert(evs2.subrange(0, mid.len() as int) == mid);
                                        assert forall|k: int|
                                            0 <= k < evs0.len() implies evs2[k]
                                            == evs0[k] by {
                                            assert(evs2.subrange(0, mid.len() as int)[k]
                                                == evs2[k]);
                                            assert(mid[k] == evs0[k]);
                                        }
                                        assert(evs2.subrange(0, evs0.len() as int) =~= evs0);
                                        let sub = evs2.subrange(
                                            evs0.len() as int,
                                            evs2.len() as int,
                                        );
                                        let subr = evs2.subrange(
                                            mid.len() as int,
                                            evs2.len() as int,
                                        );
                                        assert(events_match(subr, drest, false));
                                        assert(sub[0] == evs2[evs0.len() as int]);
                                        assert(evs2.subrange(0, mid.len() as int)[evs0.len() as int]
                                            == evs2[evs0.len() as int]);
                                        assert(sub[0] == mid[evs0.len() as int]);
                                        assert(sub[0].is_final == false);
                                        assert(encode_utf8(sub[0].delta_text@) == deltas[0]);
                                        assert forall|i: int|
                                            1 <= i < sub.len() implies sub[i] == subr[i
                                            - 1] by {
                                            assert(sub[i] == evs2[evs0.len() + i]);
                                            assert(subr[i - 1] == evs2[mid.len() + (i - 1)]);
                                        }
                                        assert forall|i: int|
                                            0 <= i < deltas.len() implies (#[trigger] sub[i]).is_final
                                            == false && encode_utf8(sub[i].delta_text@)
                                            == deltas[i] by {
                                            if i >= 1 {
                                                assert(sub[i] == subr[i - 1]);
                                                assert(deltas[i] == drest[i - 1]);
                                            }
                                        }
                                        assert(events_match(sub, deltas, false));
                                    }
                                    r
                                },
                                None => {
                                    proof {
                                        assert(line_out(line@) is Skip);
                                        assert(complete_lines(buf@).drop_first()
                                            =~= complete_lines(rest@));
                                    }
                                    run_buffer(rest, events)
                                },
                            }
                        },
                        None => {
                            proof {
                                assert(line_out(line@) is Skip);
                                assert(complete_lines(buf@).drop_first() =~= complete_lines(
                                    rest@,
                                ));
                            }
                            run_buffer(rest, events)
                        },
                    }
                }
            }
        },
    }
}

impl StreamDecoder {
    /// A fresh decoder with an empty buffer.
    pub fn new() -> (d: StreamDecoder)
        ensures
            d.state == DecoderState::Buffering,
            d.buffer@ == Seq::<u8>::empty(),
    {
        StreamDecoder { buffer: Vec::new(), state: DecoderState::Buffering }
    }

    /// Whether the decoder is in a terminal state.
    pub fn is_terminal(&self) -> (r: bool)
        ensures
            r == (self.state == DecoderState::Done || self.state == DecoderState::Failed),
    {
        match self.state {
            DecoderState::Done => true,
            DecoderState::Failed => true,
            _ => false,
        }
    }

    /// Feeds one chunk.  All lines completed by the chunk are handled in
    /// order; the trailing fragment is retained for the next chunk.  The
    /// returned events are the delta events of those lines, followed by the
    /// final event when the sentinel was among them.  After the sentinel
    /// the decoder is `Done` and discards further input.
    pub fn push_chunk(&mut self, chunk: &str) -> (events: Vec<StreamEvent>)
        ensures
            ({
                let s = old(self).buffer@ + encode_utf8(chunk@);
                let (deltas, done) = run_lines(complete_lines(s));
                if old(self).state == DecoderState::Done || old(self).state
                    == DecoderState::Failed {
                    *final(self) == *old(self) && events@.len() == 0
                } else {
                    &&& events_match(events@, deltas, done)
                    &&& (if done {
                        final(self).state == DecoderState::Done
                    } else {
                        final(self).buffer@ == tail_fragment(s) && final(self).state == (
                        if deltas.len() > 0 {
                            DecoderState::Emitting
                        } else {
                            DecoderState::Buffering
                        })
                    })
                }
            }),
    {
        match self.state {
            DecoderState::Done => {
                return Vec::new();
            },
            DecoderState::Failed => {
                return Vec::new();
            },
            _ => {},
        }
        push_all(&mut self.buffer, chunk.as_bytes());
        let mut work: Vec<u8> = Vec::new();
        core::mem::swap(&mut work, &mut self.buffer);
        let ghost s = work@;
        let mut events: Vec<StreamEvent> = Vec::new();
        let (tail, done) = run_buffer(work, &mut events);
        proof {
            assert(events@.subrange(0, 0) =~= Seq::<StreamEvent>::empty());
            assert(events@.subrange(0, events@.len() as int) =~= events@);
        }
        if done {
            self.state = DecoderState::Done;
            self.buffer = tail;
            let ghost evs = events@;
            events.push(StreamEvent { delta_text: String::new(), is_final: true });
            proof {
                let (deltas, d2) = run_lines(complete_lines(s));
                assert(forall|i: int|
                    0 <= i < deltas.len() ==> (#[trigger] events@[i]) == evs[i]);
            }
            events
        } else {
            self.buffer = tail;
            if events.len() > 0 {
                self.state = DecoderState::Emitting;
            } else {
                self.state = DecoderState::Buffering;
            }
            events
        }
    }

    /// The producer closed without a sentinel: that is not an error, the
    /// stream just ends.  In a non-terminal state this returns the single
    /// final event and moves to `Done`; in a terminal state it returns
    /// nothing.
    pub fn finish(&mut self) -> (events: Vec<StreamEvent>)
        ensures
            (if old(self).state == DecoderState::Done || old(self).state
                == DecoderState::Failed {
                *final(self) == *old(self) && events@.len() == 0
            } else {
                final(self).state == DecoderState::Done && events@.len() == 1 && events@[0].is_final
                    == true && events@[0].delta_text@ == Seq::<char>::empty()
            }),
    {
        match self.state {
            DecoderState::Done => Vec::new(),
            DecoderState::Failed => Vec::new(),
            _ => {
                self.state = DecoderState::Done;
                let mut events: Vec<StreamEvent> = Vec::new();
                events.push(StreamEvent { delta_text: String::new(), is_final: true });
                events
            },
        }
    }

    /// The chunk source itself failed: the decoder stops and produces
    /// nothing further.  The caller surfaces the transport error.
    pub fn fail(&mut self)
        ensures
            final(self).state == DecoderState::Failed,
    {
        self.state = DecoderState::Failed;
    }
}

} // verus!
