//! Splitting a streamed response body into its top-level JSON array
//! elements.
//!
//! A streaming request answers with one JSON array whose elements
//! arrive in arbitrary byte chunks. The decoder walks the bytes with a
//! small machine — bracket depth, string mode, escape mode — and hands
//! out each element's bytes as soon as it is complete. Working on bytes
//! is sound for UTF-8 bodies: every structural byte is ASCII and no
//! UTF-8 continuation byte equals one.

use vstd::prelude::*;

verus! {

/// The whole state of the splitter, as specs speak of it: the flags,
/// the nesting depth, the bytes of the element being read, and every
/// element emitted so far.
#[verifier::ext_equal]
pub ghost struct DecoderModel {
    /// The opening bracket of the array has been seen.
    pub started: bool,
    /// The closing bracket of the array has been seen; later bytes are
    /// ignored.
    pub finished: bool,
    /// The input cannot be array framing; later bytes are ignored.
    pub failed: bool,
    /// How many brackets and braces of the current element are open.
    pub depth: nat,
    /// The byte walker stands inside a string literal.
    pub in_string: bool,
    /// The byte walker stands right after a backslash in a string.
    pub escaped: bool,
    /// The bytes of the element being read, structural bytes included.
    pub current: Seq<u8>,
    /// Every completed element, in order.
    pub emitted: Seq<Seq<u8>>,
}

/// The state a fresh splitter is in.
pub open spec fn spec_decoder_init() -> DecoderModel {
    DecoderModel {
        started: false,
        finished: false,
        failed: false,
        depth: 0,
        in_string: false,
        escaped: false,
        current: Seq::<u8>::empty(),
        emitted: Seq::<Seq<u8>>::empty(),
    }
}

/// JSON's whitespace bytes.
pub open spec fn spec_is_ws(b: u8) -> bool {
    b == 0x20 || b == 0x09 || b == 0x0a || b == 0x0d
}

/// One byte of input: where the machine goes from `m` on reading `b`.
pub open spec fn spec_step(m: DecoderModel, b: u8) -> DecoderModel {
    if m.failed || m.finished {
        m
    } else if m.in_string {
        let cur = m.current.push(b);
        if m.escaped {
            DecoderModel { current: cur, escaped: false, ..m }
        } else if b == 0x5c {
            DecoderModel { current: cur, escaped: true, ..m }
        } else if b == 0x22 {
            DecoderModel { current: cur, in_string: false, ..m }
        } else {
            DecoderModel { current: cur, ..m }
        }
    } else if !m.started {
        if spec_is_ws(b) {
            m
        } else if b == 0x5b {
            DecoderModel { started: true, ..m }
        } else {
            DecoderModel { failed: true, ..m }
        }
    } else if m.depth == 0 && m.current.len() == 0 {
        if spec_is_ws(b) || b == 0x2c {
            m
        } else if b == 0x5d {
            DecoderModel { finished: true, ..m }
        } else if b == 0x22 {
            DecoderModel { current: m.current.push(b), in_string: true, ..m }
        } else if b == 0x7b || b == 0x5b {
            DecoderModel { current: m.current.push(b), depth: 1, ..m }
        } else if b == 0x7d {
            DecoderModel { failed: true, ..m }
        } else {
            DecoderModel { current: m.current.push(b), ..m }
        }
    } else if m.depth == 0 {
        if spec_is_ws(b) || b == 0x2c {
            DecoderModel { emitted: m.emitted.push(m.current), current: Seq::<u8>::empty(), ..m }
        } else if b == 0x5d {
            DecoderModel {
                emitted: m.emitted.push(m.current),
                current: Seq::<u8>::empty(),
                finished: true,
                ..m
            }
        } else if b == 0x22 {
            DecoderModel { current: m.current.push(b), in_string: true, ..m }
        } else if b == 0x7b || b == 0x5b {
            DecoderModel { current: m.current.push(b), depth: 1, ..m }
        } else if b == 0x7d {
            DecoderModel { failed: true, ..m }
        } else {
            DecoderModel { current: m.current.push(b), ..m }
        }
    } else {
        let cur = m.current.push(b);
        if b == 0x22 {
            DecoderModel { current: cur, in_string: true, ..m }
        } else if b == 0x7b || b == 0x5b {
            if m.depth >= 0xffff_ffff {
                DecoderModel { current: cur, failed: true, ..m }
            } else {
                DecoderModel { current: cur, depth: (m.depth + 1) as nat, ..m }
            }
        } else if b == 0x7d || b == 0x5d {
            if m.depth == 1 {
                DecoderModel {
                    emitted: m.emitted.push(cur),
                    current: Seq::<u8>::empty(),
                    depth: 0,
                    ..m
                }
            } else {
                DecoderModel { current: cur, depth: (m.depth - 1) as nat, ..m }
            }
        } else {
            DecoderModel { current: cur, ..m }
        }
    }
}

/// Where the machine stands after reading all of `bytes` from `m`.
pub open spec fn spec_run(m: DecoderModel, bytes: Seq<u8>) -> DecoderModel
    decreases bytes.len(),
{
    if bytes.len() == 0 {
        m
    } else {
        spec_step(spec_run(m, bytes.drop_last()), bytes.last())
    }
}

/// Chunk boundaries do not matter: reading `a` and then `b` lands the
/// machine exactly where reading their concatenation does. So however a
/// body is cut into chunks, the splitter emits the same elements.
pub proof fn lemma_run_append(m: DecoderModel, a: Seq<u8>, b: Seq<u8>)
    ensures
        spec_run(m, a + b) == spec_run(spec_run(m, a), b),
    decreases b.len(),
{
    if b.len() == 0 {
        assert(a + b =~= a);
    } else {
        lemma_run_append(m, a, b.drop_last());
        assert((a + b).drop_last() =~= a + b.drop_last());
        assert((a + b).last() == b.last());
    }
}

/// Splits the body of a streaming response into its top-level array
/// elements, chunk by chunk.
pub struct JsonArrayDecoder {
    started: bool,
    finished: bool,
    failed: bool,
    depth: u32,
    in_string: bool,
    escaped: bool,
    current: Vec<u8>,
    emitted: Ghost<Seq<Seq<u8>>>,
}

impl View for JsonArrayDecoder {
    type V = DecoderModel;

    closed spec fn view(&self) -> DecoderModel {
        DecoderModel {
            started: self.started,
            finished: self.finished,
            failed: self.failed,
            depth: self.depth as nat,
            in_string: self.in_string,
            escaped: self.escaped,
            current: self.current@,
            emitted: self.emitted@,
        }
    }
}

impl JsonArrayDecoder {
    /// A splitter that has read nothing yet.
    pub fn new() -> (r: Self)
        ensures
            r@ == spec_decoder_init(),
    {
        let r = JsonArrayDecoder {
            started: false,
            finished: false,
            failed: false,
            depth: 0,
            in_string: false,
            escaped: false,
            current: Vec::new(),
            emitted: Ghost(Seq::<Seq<u8>>::empty()),
        };
        proof {
            assert(r@ =~~= spec_decoder_init());
        }
        r
    }

    /// Whether the closing bracket of the array has been read.
    pub fn is_finished(&self) -> (r: bool)
        ensures
            r == self@.finished,
    {
        self.finished
    }

    /// Whether the input could not be array framing.
    pub fn has_failed(&self) -> (r: bool)
        ensures
            r == self@.failed,
    {
        self.failed
    }

    /// Feeds one chunk of the body and hands back every element the
    /// chunk completed, in order.
    #[verifier::loop_isolation(false)]
    #[verifier::rlimit(100)]
    pub fn push_chunk(&mut self, chunk: &[u8]) -> (r: Vec<Vec<u8>>)
        ensures
            final(self)@ == spec_run(old(self)@, chunk@),
            final(self)@.emitted == old(self)@.emitted + Seq::new(r@.len(), |i: int| r@[i]@),
    {
        let mut out: Vec<Vec<u8>> = Vec::new();
        let n = chunk.len();
        proof {
            assert(chunk@.subrange(0, 0) =~= Seq::<u8>::empty());
            assert(old(self)@.emitted + Seq::new(0, |i: int| out@[i]@) =~= old(self)@.emitted);
        }
        for i in 0..n
            invariant
                self@ == spec_run(old(self)@, chunk@.subrange(0, i as int)),
                self@.emitted == old(self)@.emitted + Seq::new(out@.len(), |k: int| out@[k]@),
        {
            let ghost prev = self@;
            let ghost outs_before = Seq::new(out@.len(), |k: int| out@[k]@);
            let b = chunk[i];
            proof {
                assert(chunk@.subrange(0, i + 1).drop_last() =~= chunk@.subrange(0, i as int));
                assert(chunk@.subrange(0, i + 1).last() == chunk@[i as int]);
            }
            if self.failed || self.finished {
                // nothing more is read
            } else if self.in_string {
                self.current.push(b);
                if self.escaped {
                    self.escaped = false;
                } else if b == 0x5c {
                    self.escaped = true;
                } else if b == 0x22 {
                    self.in_string = false;
                }
            } else if !self.started {
                if b == 0x20 || b == 0x09 || b == 0x0a || b == 0x0d {
                    // whitespace before the array
                } else if b == 0x5b {
                    self.started = true;
                } else {
                    self.failed = true;
                }
            } else if self.depth == 0 && self.current.len() == 0 {
                if b == 0x20 || b == 0x09 || b == 0x0a || b == 0x0d || b == 0x2c {
                    // between elements
                } else if b == 0x5d {
                    self.finished = true;
                } else if b == 0x22 {
                    self.current.push(b);
                    self.in_string = true;
                } else if b == 0x7b || b == 0x5b {
                    self.current.push(b);
                    self.depth = 1;
                } else if b == 0x7d {
                    self.failed = true;
                } else {
                    self.current.push(b);
                }
            } else if self.depth == 0 {
                if b == 0x20 || b == 0x09 || b == 0x0a || b == 0x0d || b == 0x2c {
                    let mut done: Vec<u8> = Vec::new();
                    core::mem::swap(&mut done, &mut self.current);
                    self.emitted = Ghost(self.emitted@.push(done@));
                    out.push(done);
                } else if b == 0x5d {
                    let mut done: Vec<u8> = Vec::new();
                    core::mem::swap(&mut done, &mut self.current);
                    self.emitted = Ghost(self.emitted@.push(done@));
                    out.push(done);
                    self.finished = true;
                } else if b == 0x22 {
                    self.current.push(b);
                    self.in_string = true;
                } else if b == 0x7b || b == 0x5b {
                    self.current.push(b);
                    self.depth = 1;
                } else if b == 0x7d {
                    self.failed = true;
                } else {
                    self.current.push(b);
                }
            } else {
                self.current.push(b);
                if b == 0x22 {
                    self.in_string = true;
                } else if b == 0x7b || b == 0x5b {
                    if self.depth >= 0xffff_ffff {
                        self.failed = true;
                    } else {
                        self.depth = self.depth + 1;
                    }
                } else if b == 0x7d || b == 0x5d {
                    if self.depth == 1 {
                        let mut done: Vec<u8> = Vec::new();
                        core::mem::swap(&mut done, &mut self.current);
                        self.emitted = Ghost(self.emitted@.push(done@));
                        out.push(done);
                        self.depth = 0;
                    } else {
                        self.depth = self.depth - 1;
                    }
                }
            }
            proof {
                assert(self@ =~~= spec_step(prev, b));
                assert(self@.emitted =~= old(self)@.emitted + Seq::new(
                    out@.len(),
                    |k: int| out@[k]@,
                ));
            }
        }
        proof {
            assert(chunk@.subrange(0, n as int) =~= chunk@);
        }
        out
    }
}

} // verus!
