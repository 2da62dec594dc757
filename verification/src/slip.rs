//! SLIP-style byte-stuffed framing: an incremental decoder that turns a
//! raw byte stream into discrete frames, and the matching encoder.
//!
//! A frame ends at the `FRAME_END` marker. Occurrences of the marker or
//! of the escape byte inside payload data travel as two-byte escape
//! sequences, so every payload round-trips exactly. The decoder never
//! accumulates more than `MAX_FRAME` decoded bytes: an oversized frame
//! is dropped and decoding resumes at the next end marker.

use vstd::prelude::*;

verus! {

pub const FRAME_END: u8 = 0xC0;

pub const FRAME_ESC: u8 = 0xDB;

pub const ESC_END: u8 = 0xDC;

pub const ESC_ESC: u8 = 0xDD;

/// Largest decoded frame the decoder will accumulate.
pub const MAX_FRAME: usize = 1024;

/// Mathematical state of the decoder: the bytes decoded so far for the
/// current frame, whether an escape byte is pending, and whether the
/// rest of an oversized frame is being discarded.
pub ghost struct DecoderModel {
    pub acc: Seq<u8>,
    pub esc: bool,
    pub discarding: bool,
}

impl DecoderModel {
    /// State of a fresh decoder, and of the decoder right after a frame
    /// boundary.
    pub open spec fn init() -> DecoderModel {
        DecoderModel { acc: Seq::empty(), esc: false, discarding: false }
    }

    /// The accumulator never exceeds the frame-size bound.
    pub open spec fn wf(self) -> bool {
        self.acc.len() <= MAX_FRAME
    }
}

/// Payload byte encoded by a two-byte escape sequence.
pub open spec fn unescape(b: u8) -> u8 {
    if b == ESC_END {
        FRAME_END
    } else if b == ESC_ESC {
        FRAME_ESC
    } else {
        b
    }
}

/// Accumulate one decoded payload byte, dropping the frame once it
/// outgrows the bound.
pub open spec fn push_state(s: DecoderModel, v: u8) -> DecoderModel {
    if s.acc.len() < MAX_FRAME {
        DecoderModel { acc: s.acc.push(v), esc: false, discarding: false }
    } else {
        DecoderModel { acc: Seq::empty(), esc: false, discarding: true }
    }
}

/// Decoder state after consuming one raw byte.
pub open spec fn step_state(s: DecoderModel, b: u8) -> DecoderModel {
    if s.discarding {
        if b == FRAME_END {
            DecoderModel::init()
        } else {
            s
        }
    } else if b == FRAME_END {
        DecoderModel::init()
    } else if s.esc {
        push_state(s, unescape(b))
    } else if b == FRAME_ESC {
        DecoderModel { acc: s.acc, esc: true, discarding: false }
    } else {
        push_state(s, b)
    }
}

/// Frame completed by consuming one raw byte, if any. An end marker
/// closes the current frame unless its bytes were being discarded.
pub open spec fn step_emit(s: DecoderModel, b: u8) -> Option<Seq<u8>> {
    if !s.discarding && b == FRAME_END {
        Some(s.acc)
    } else {
        None
    }
}

/// Outcome of running the decoder over a byte sequence until the first
/// complete frame: the state reached, the frame (if one completed) and
/// how many input bytes were consumed.
pub ghost struct ScanResult {
    pub state: DecoderModel,
    pub frame: Option<Seq<u8>>,
    pub used: int,
}

/// Run the decoder over `input`, stopping right after the first
/// completed frame.
pub open spec fn scan(s: DecoderModel, input: Seq<u8>) -> ScanResult
    decreases input.len(),
{
    if input.len() == 0 {
        ScanResult { state: s, frame: None, used: 0 }
    } else {
        let b = input[0];
        match step_emit(s, b) {
            Some(f) => ScanResult { state: step_state(s, b), frame: Some(f), used: 1 },
            None => {
                let r = scan(step_state(s, b), input.skip(1));
                ScanResult { state: r.state, frame: r.frame, used: r.used + 1 }
            },
        }
    }
}

/// One step keeps the accumulator bounded, and any frame it emits is
/// no longer than `MAX_FRAME`.
pub proof fn lemma_step_bounded(s: DecoderModel, b: u8)
    requires
        s.wf(),
    ensures
        step_state(s, b).wf(),
        step_emit(s, b) matches Some(f) ==> f.len() <= MAX_FRAME,
{
}

/// However far the decoder runs, its state stays bounded, every frame
/// it emits is no longer than `MAX_FRAME`, and it never consumes more
/// bytes than it was given.
pub proof fn lemma_scan_bounded(s: DecoderModel, input: Seq<u8>)
    requires
        s.wf(),
    ensures
        scan(s, input).state.wf(),
        scan(s, input).frame matches Some(f) ==> f.len() <= MAX_FRAME,
        0 <= scan(s, input).used <= input.len(),
    decreases input.len(),
{
    if input.len() > 0 {
        let b = input[0];
        lemma_step_bounded(s, b);
        if step_emit(s, b) is None {
            lemma_scan_bounded(step_state(s, b), input.skip(1));
        }
    }
}

/// While no frame completes, a scan consumes its whole input.
pub proof fn lemma_scan_no_frame_uses_all(s: DecoderModel, input: Seq<u8>)
    ensures
        scan(s, input).frame is None ==> scan(s, input).used == input.len(),
    decreases input.len(),
{
    if input.len() > 0 && step_emit(s, input[0]) is None {
        lemma_scan_no_frame_uses_all(step_state(s, input[0]), input.skip(1));
    }
}

/// Scanning a concatenation: if the first part completes no frame, the
/// scan carries straight on into the second part.
pub proof fn lemma_scan_append(s: DecoderModel, a: Seq<u8>, b: Seq<u8>)
    requires
        scan(s, a).frame is None,
    ensures
        scan(s, a + b).state == scan(scan(s, a).state, b).state,
        scan(s, a + b).frame == scan(scan(s, a).state, b).frame,
        scan(s, a + b).used == a.len() + scan(scan(s, a).state, b).used,
    decreases a.len(),
{
    if a.len() == 0 {
        assert(a + b =~= b);
    } else {
        let x = a[0];
        assert((a + b)[0] == x);
        assert((a + b).skip(1) =~= a.skip(1) + b);
        lemma_scan_no_frame_uses_all(s, a);
        lemma_scan_append(step_state(s, x), a.skip(1), b);
    }
}

/// Escape sequence that carries one payload byte through the framing.
pub open spec fn escape_byte(b: u8) -> Seq<u8> {
    if b == FRAME_END {
        seq![FRAME_ESC, ESC_END]
    } else if b == FRAME_ESC {
        seq![FRAME_ESC, ESC_ESC]
    } else {
        seq![b]
    }
}

/// Byte-stuffed form of a whole payload, without the closing marker.
pub open spec fn encode_body(p: Seq<u8>) -> Seq<u8>
    decreases p.len(),
{
    if p.len() == 0 {
        Seq::empty()
    } else {
        escape_byte(p[0]) + encode_body(p.skip(1))
    }
}

/// Complete encoded frame: stuffed payload followed by the end marker.
pub open spec fn encode_frame(p: Seq<u8>) -> Seq<u8> {
    encode_body(p) + seq![FRAME_END]
}

proof fn lemma_encode_body_snoc(p: Seq<u8>, x: u8)
    ensures
        encode_body(p.push(x)) == encode_body(p) + escape_byte(x),
    decreases p.len(),
{
    if p.len() == 0 {
        let q = p.push(x);
        assert(q.len() == 1 && q[0] == x);
        assert(q.skip(1) =~= Seq::<u8>::empty());
        assert(encode_body(q.skip(1)) =~= Seq::<u8>::empty());
        assert(encode_body(q) == escape_byte(x) + encode_body(q.skip(1)));
        assert(encode_body(q) =~= escape_byte(x));
        assert(encode_body(p) + escape_byte(x) =~= escape_byte(x));
    } else {
        assert(p.push(x).skip(1) =~= p.skip(1).push(x));
        lemma_encode_body_snoc(p.skip(1), x);
        assert(encode_body(p.push(x)) =~= encode_body(p) + escape_byte(x));
    }
}

/// Feeding the stuffed payload into a decoder that is mid-frame simply
/// extends the accumulator: no frame completes and no byte is altered.
proof fn lemma_scan_encode_body(s: DecoderModel, p: Seq<u8>)
    requires
        !s.esc,
        !s.discarding,
        s.acc.len() + p.len() <= MAX_FRAME,
    ensures
        scan(s, encode_body(p)).frame is None,
        scan(s, encode_body(p)).state == (DecoderModel {
            acc: s.acc + p,
            esc: false,
            discarding: false,
        }),
    decreases p.len(),
{
    if p.len() == 0 {
        assert(s.acc + p =~= s.acc);
        assert(scan(s, encode_body(p)).state == (DecoderModel {
            acc: s.acc + p,
            esc: false,
            discarding: false,
        }));
    } else {
        let x = p[0];
        let s1 = DecoderModel { acc: s.acc.push(x), esc: false, discarding: false };
        assert(scan(s, escape_byte(x)).frame is None && scan(s, escape_byte(x)).state == s1) by {
            let e = escape_byte(x);
            if x == FRAME_END || x == FRAME_ESC {
                assert(e.len() == 2 && e[0] == FRAME_ESC);
                let t = e.skip(1);
                assert(t.len() == 1 && t[0] == e[1]);
                let s_esc = step_state(s, e[0]);
                assert(step_emit(s, e[0]) is None);
                assert(s_esc == DecoderModel { acc: s.acc, esc: true, discarding: false });
                assert(step_emit(s_esc, t[0]) is None);
                assert(unescape(t[0]) == x);
                assert(step_state(s_esc, t[0]) == s1);
                assert(t.skip(1) =~= Seq::<u8>::empty());
                assert(scan(s1, t.skip(1)) == ScanResult { state: s1, frame: None::<Seq<u8>>, used: 0 });
                assert(scan(s_esc, t).frame is None && scan(s_esc, t).state == s1);
                assert(e.skip(1) == t);
                assert(scan(s, e).frame is None && scan(s, e).state == s1);
            } else {
                assert(e.len() == 1 && e[0] == x);
                assert(step_emit(s, x) is None);
                assert(step_state(s, x) == s1);
                assert(e.skip(1) =~= Seq::<u8>::empty());
                assert(scan(s1, e.skip(1)) == ScanResult { state: s1, frame: None::<Seq<u8>>, used: 0 });
                assert(scan(s, e).frame is None && scan(s, e).state == s1);
            }
        }
        lemma_scan_append(s, escape_byte(x), encode_body(p.skip(1)));
        lemma_scan_encode_body(s1, p.skip(1));
        assert(s1.acc + p.skip(1) =~= s.acc + p);
    }
}

/// Round trip: a decoder at a frame boundary, fed the encoding of any
/// payload that fits in a frame, completes exactly that payload after
/// exactly the encoded bytes, and stands at a frame boundary again.
pub proof fn lemma_round_trip(p: Seq<u8>)
    requires
        p.len() <= MAX_FRAME,
    ensures
        scan(DecoderModel::init(), encode_frame(p)).frame == Some(p),
        scan(DecoderModel::init(), encode_frame(p)).state == DecoderModel::init(),
        scan(DecoderModel::init(), encode_frame(p)).used == encode_frame(p).len(),
{
    let s0 = DecoderModel::init();
    lemma_scan_encode_body(s0, p);
    lemma_scan_no_frame_uses_all(s0, encode_body(p));
    lemma_scan_append(s0, encode_body(p), seq![FRAME_END]);
    let s1 = scan(s0, encode_body(p)).state;
    assert(s1.acc =~= p);
    assert(scan(s1, seq![FRAME_END]).frame == Some(s1.acc));
}

/// Incremental SLIP decoder over a bounded accumulator.
pub struct SlipDecoder {
    acc: Vec<u8>,
    esc: bool,
    discarding: bool,
}

impl View for SlipDecoder {
    type V = DecoderModel;

    closed spec fn view(&self) -> DecoderModel {
        DecoderModel { acc: self.acc@, esc: self.esc, discarding: self.discarding }
    }
}

impl SlipDecoder {
    pub fn new() -> (d: SlipDecoder)
        ensures
            d@ == DecoderModel::init(),
    {
        SlipDecoder { acc: Vec::new(), esc: false, discarding: false }
    }

    fn push_byte(&mut self, v: u8)
        requires
            old(self)@.wf(),
            !old(self)@.discarding,
        ensures
            final(self)@ == push_state(old(self)@, v),
    {
        if self.acc.len() < MAX_FRAME {
            self.acc.push(v);
            self.esc = false;
        } else {
            self.acc.clear();
            self.esc = false;
            self.discarding = true;
        }
    }

    /// Consume one raw byte; return the decoded frame it completes, if
    /// any. Matches one step of the decoder model, so a completed frame
    /// is never longer than `MAX_FRAME` and malformed input can at
    /// worst lose the frame it occurs in.
    pub fn feed(&mut self, b: u8) -> (r: Option<Vec<u8>>)
        requires
            old(self)@.wf(),
        ensures
            final(self)@.wf(),
            final(self)@ == step_state(old(self)@, b),
            r matches Some(f) ==> step_emit(old(self)@, b) == Some(f@) && f@.len() <= MAX_FRAME,
            r is None ==> step_emit(old(self)@, b) is None,
    {
        proof {
            lemma_step_bounded(self@, b);
        }
        if self.discarding {
            if b == FRAME_END {
                self.discarding = false;
                self.esc = false;
                self.acc.clear();
            }
            None
        } else if b == FRAME_END {
            let mut f: Vec<u8> = Vec::new();
            core::mem::swap(&mut f, &mut self.acc);
            self.esc = false;
            Some(f)
        } else if self.esc {
            let v = if b == ESC_END {
                FRAME_END
            } else if b == ESC_ESC {
                FRAME_ESC
            } else {
                b
            };
            self.push_byte(v);
            None
        } else if b == FRAME_ESC {
            self.esc = true;
            None
        } else {
            self.push_byte(b);
            None
        }
    }
}

/// Encode a payload as one byte-stuffed frame, end marker included.
pub fn encode(payload: &Vec<u8>) -> (r: Vec<u8>)
    ensures
        r@ == encode_frame(payload@),
{
    let mut r: Vec<u8> = Vec::new();
    let mut i: usize = 0;
    proof {
        assert(payload@.take(0) =~= Seq::<u8>::empty());
        assert(r@ =~= encode_body(payload@.take(0)));
    }
    while i < payload.len()
        invariant
            i <= payload@.len(),
            r@ == encode_body(payload@.take(i as int)),
        decreases payload@.len() - i,
    {
        let b = payload[i];
        if b == FRAME_END {
            r.push(FRAME_ESC);
            r.push(ESC_END);
        } else if b == FRAME_ESC {
            r.push(FRAME_ESC);
            r.push(ESC_ESC);
        } else {
            r.push(b);
        }
        proof {
            lemma_encode_body_snoc(payload@.take(i as int), b);
            assert(payload@.take(i as int).push(b) =~= payload@.take(i + 1));
            assert(r@ =~= encode_body(payload@.take(i as int)) + escape_byte(b));
        }
        i = i + 1;
    }
    r.push(FRAME_END);
    proof {
        assert(payload@.take(payload@.len() as int) =~= payload@);
        assert(r@ =~= encode_frame(payload@));
    }
    r
}

} // verus!
