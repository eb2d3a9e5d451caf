//! What a running command writes: its output streams cut into lines, each
//! line decoded as text and indented for display.
//!
//! Each output stream is drained by its own `LineSplitter`, so the lines of
//! one stream keep their order whatever the other stream does.

use crate::error::CmdError;
use vstd::prelude::*;
use vstd::utf8::{decode_utf8, valid_utf8};

verus! {

/// The newline-terminated lines of `b` (without their newline), and the bytes
/// after the last newline.
pub open spec fn scan(b: Seq<u8>) -> (Seq<Seq<u8>>, Seq<u8>)
    decreases b.len(),
{
    if b.len() == 0 {
        (Seq::empty(), Seq::empty())
    } else {
        let (done, cur) = scan(b.drop_last());
        if b.last() == 10u8 {
            (done.push(cur), Seq::empty())
        } else {
            (done, cur.push(b.last()))
        }
    }
}

/// A line without the carriage return that ended it, if any.
pub open spec fn strip_cr(l: Seq<u8>) -> Seq<u8> {
    if l.len() > 0 && l.last() == 13u8 {
        l.drop_last()
    } else {
        l
    }
}

/// The lines of a stream that held `b`: each newline ends a line, a
/// carriage return before it is dropped, and the bytes after the last
/// newline form one more line unless there are none.
pub open spec fn lines_of(b: Seq<u8>) -> Seq<Seq<u8>> {
    let (done, cur) = scan(b);
    let all = if cur.len() > 0 {
        done.push(cur)
    } else {
        done
    };
    all.map_values(|l: Seq<u8>| strip_cr(l))
}

/// The lines of `b` that a newline has completed, without their carriage return.
pub open spec fn complete_lines(b: Seq<u8>) -> Seq<Seq<u8>> {
    scan(b).0.map_values(|l: Seq<u8>| strip_cr(l))
}

/// The lines that the chunk `c` completes on a stream that has delivered `b`.
pub open spec fn new_lines(b: Seq<u8>, c: Seq<u8>) -> Seq<Seq<u8>> {
    complete_lines(b + c).skip(complete_lines(b).len() as int)
}

/// The line that the end of a stream that delivered `b` completes, if any.
pub open spec fn last_line(b: Seq<u8>) -> Seq<Seq<u8>> {
    lines_of(b).skip(complete_lines(b).len() as int)
}

/// The values of a list of byte vectors.
pub open spec fn byte_lines(v: Seq<Vec<u8>>) -> Seq<Seq<u8>> {
    v.map_values(|l: Vec<u8>| l@)
}

/// Cuts one output stream into lines as its bytes arrive, in chunks of any size.
pub struct LineSplitter {
    /// The bytes received after the last newline.
    pub pending: Vec<u8>,
    /// Everything the stream has delivered so far.
    pub consumed: Ghost<Seq<u8>>,
    /// The complete lines found so far, as they stood before their carriage
    /// return was dropped.
    pub found: Ghost<Seq<Seq<u8>>>,
}

impl LineSplitter {
    /// The splitter agrees with what the stream delivered.
    pub open spec fn wf(&self) -> bool {
        scan(self.consumed@) == (self.found@, self.pending@)
    }

    /// The lines handed out so far.
    pub open spec fn handed(&self) -> Seq<Seq<u8>> {
        self.found@.map_values(|l: Seq<u8>| strip_cr(l))
    }

    /// A splitter for a stream that has delivered nothing yet.
    pub fn new() -> (r: LineSplitter)
        ensures
            r.wf(),
            r.consumed@ == Seq::<u8>::empty(),
            r.handed() == Seq::<Seq<u8>>::empty(),
    {
        let r = LineSplitter { pending: Vec::new(), consumed: Ghost(Seq::empty()), found: Ghost(Seq::empty()) };
        assert(r.handed() =~= Seq::<Seq<u8>>::empty());
        r
    }

    /// Takes in the next chunk of the stream and returns the lines that it completes, in order.
    pub fn push(&mut self, chunk: &[u8]) -> (r: Vec<Vec<u8>>)
        requires
            old(self).wf(),
        ensures
            final(self).wf(),
            final(self).consumed@ == old(self).consumed@ + chunk@,
            final(self).handed() == old(self).handed() + byte_lines(r@),
            byte_lines(r@) == new_lines(old(self).consumed@, chunk@),
    {
        let mut out: Vec<Vec<u8>> = Vec::new();
        let mut i: usize = 0;
        while i < chunk.len()
            invariant
                self.wf(),
                i <= chunk@.len(),
                self.consumed@ == old(self).consumed@ + chunk@.take(i as int),
                self.handed() == old(self).handed() + byte_lines(out@),
            decreases chunk@.len() - i,
        {
            let b = chunk[i];
            let ghost before = self.consumed@;
            let ghost now = before.push(b);
            assert(now.drop_last() =~= before);
            if b == 10u8 {
                let ghost raw = self.pending@;
                let ghost handed_before = self.handed();
                let ghost out_before = byte_lines(out@);
                let mut line: Vec<u8> = Vec::new();
                std::mem::swap(&mut line, &mut self.pending);
                let line = strip_cr_line(line);
                proof {
                    self.found@ = self.found@.push(raw);
                }
                out.push(line);
                assert(self.handed() =~= handed_before.push(strip_cr(raw)));
                assert(byte_lines(out@) =~= out_before.push(line@));
            } else {
                self.pending.push(b);
            }
            proof {
                self.consumed@ = now;
            }
            assert(chunk@.take(i + 1) =~= chunk@.take(i as int).push(b));
            assert(self.handed() =~= old(self).handed() + byte_lines(out@));
            i = i + 1;
        }
        assert(chunk@.take(chunk@.len() as int) =~= chunk@);
        assert(byte_lines(out@) =~= new_lines(old(self).consumed@, chunk@));
        out
    }

    /// Ends the stream: returns its last line, if bytes follow the last newline.
    pub fn finish(self) -> (r: Option<Vec<u8>>)
        requires
            self.wf(),
        ensures
            self.handed() + (match r {
                Some(l) => seq![l@],
                None => Seq::empty(),
            }) == lines_of(self.consumed@),
            (match r {
                Some(l) => seq![l@],
                None => Seq::empty(),
            }) == last_line(self.consumed@),
    {
        if self.pending.len() > 0 {
            let r = Some(strip_cr_line(self.pending));
            assert(self.handed() + seq![r->0@] =~= lines_of(self.consumed@));
            assert(seq![r->0@] =~= last_line(self.consumed@));
            r
        } else {
            assert(self.handed() =~= lines_of(self.consumed@));
            assert(self.handed() + Seq::empty() =~= self.handed());
            assert(Seq::<Seq<u8>>::empty() =~= last_line(self.consumed@));
            None
        }
    }
}

/// The two output streams of a command.
#[derive(Debug, Clone, Copy, PartialEq, Eq, Structural)]
pub enum Stream {
    Stdout,
    Stderr,
}

/// The bytes that `stream` delivered, when the chunks of both streams
/// arrived in the order of `chunks`.
pub open spec fn stream_bytes(chunks: Seq<(Stream, Seq<u8>)>, stream: Stream) -> Seq<u8>
    decreases chunks.len(),
{
    if chunks.len() == 0 {
        Seq::empty()
    } else {
        let (s, c) = chunks.last();
        stream_bytes(chunks.drop_last(), stream) + if s == stream {
            c
        } else {
            Seq::empty()
        }
    }
}

/// The lines, each tagged with its stream, that reach the sink while the
/// chunks arrive in the order of `chunks`, each stream cut into lines by a
/// `LineSplitter` of its own (each chunk gives `new_lines`, as `push` states).
pub open spec fn sink_lines(chunks: Seq<(Stream, Seq<u8>)>) -> Seq<(Stream, Seq<u8>)>
    decreases chunks.len(),
{
    if chunks.len() == 0 {
        Seq::empty()
    } else {
        let prev = chunks.drop_last();
        let (s, c) = chunks.last();
        sink_lines(prev) + new_lines(stream_bytes(prev, s), c).map_values(
            |l: Seq<u8>| (s, l),
        )
    }
}

/// The lines of `tagged` that came from `stream`, in order.
pub open spec fn lines_from(tagged: Seq<(Stream, Seq<u8>)>, stream: Stream) -> Seq<Seq<u8>>
    decreases tagged.len(),
{
    if tagged.len() == 0 {
        Seq::empty()
    } else {
        lines_from(tagged.drop_last(), stream) + if tagged.last().0 == stream {
            seq![tagged.last().1]
        } else {
            Seq::empty()
        }
    }
}

proof fn lemma_lines_from_concat(a: Seq<(Stream, Seq<u8>)>, b: Seq<(Stream, Seq<u8>)>, stream: Stream)
    ensures
        lines_from(a + b, stream) == lines_from(a, stream) + lines_from(b, stream),
    decreases b.len(),
{
    if b.len() == 0 {
        assert(a + b =~= a);
        assert(lines_from(a, stream) + lines_from(b, stream) =~= lines_from(a, stream));
    } else {
        assert((a + b).drop_last() =~= a + b.drop_last());
        lemma_lines_from_concat(a, b.drop_last(), stream);
        assert(lines_from(a + b, stream) =~= lines_from(a, stream) + lines_from(b, stream));
    }
}

proof fn lemma_lines_from_tagged(ls: Seq<Seq<u8>>, s: Stream, stream: Stream)
    ensures
        lines_from(ls.map_values(|l: Seq<u8>| (s, l)), stream) == if s == stream {
            ls
        } else {
            Seq::empty()
        },
    decreases ls.len(),
{
    let t = ls.map_values(|l: Seq<u8>| (s, l));
    if ls.len() > 0 {
        assert(t.drop_last() =~= ls.drop_last().map_values(|l: Seq<u8>| (s, l)));
        lemma_lines_from_tagged(ls.drop_last(), s, stream);
        if s == stream {
            assert(ls =~= ls.drop_last().push(ls.last()));
            assert(lines_from(t, stream) =~= ls);
        } else {
            assert(lines_from(t, stream) =~= Seq::<Seq<u8>>::empty());
        }
    } else {
        assert(lines_from(t, stream) =~= Seq::<Seq<u8>>::empty());
        assert(ls =~= Seq::<Seq<u8>>::empty());
    }
}

proof fn lemma_scan_prefix(b: Seq<u8>, c: Seq<u8>)
    ensures
        scan(b).0.len() <= scan(b + c).0.len(),
        scan(b + c).0.take(scan(b).0.len() as int) == scan(b).0,
    decreases c.len(),
{
    if c.len() == 0 {
        assert(b + c =~= b);
        assert(scan(b).0.take(scan(b).0.len() as int) =~= scan(b).0);
    } else {
        assert((b + c).drop_last() =~= b + c.drop_last());
        lemma_scan_prefix(b, c.drop_last());
        let n = scan(b).0.len() as int;
        assert(scan(b + c).0.take(n) =~= scan(b + c.drop_last()).0.take(n));
    }
}

proof fn lemma_complete_lines_grow(b: Seq<u8>, c: Seq<u8>)
    ensures
        complete_lines(b) + new_lines(b, c) == complete_lines(b + c),
{
    lemma_scan_prefix(b, c);
    let n = complete_lines(b).len() as int;
    assert(complete_lines(b + c).take(n) =~= complete_lines(b));
    assert(complete_lines(b) + new_lines(b, c) =~= complete_lines(b + c));
}

proof fn lemma_lines_of_split(b: Seq<u8>)
    ensures
        complete_lines(b) + last_line(b) == lines_of(b),
{
    let n = complete_lines(b).len() as int;
    assert(lines_of(b).take(n) =~= complete_lines(b));
    assert(complete_lines(b) + last_line(b) =~= lines_of(b));
}

proof fn lemma_sink_lines_complete(chunks: Seq<(Stream, Seq<u8>)>, stream: Stream)
    ensures
        lines_from(sink_lines(chunks), stream) == complete_lines(stream_bytes(chunks, stream)),
    decreases chunks.len(),
{
    if chunks.len() == 0 {
        assert(complete_lines(Seq::empty()) =~= Seq::<Seq<u8>>::empty());
    } else {
        let prev = chunks.drop_last();
        let (s, c) = chunks.last();
        lemma_sink_lines_complete(prev, stream);
        let fresh = new_lines(stream_bytes(prev, s), c);
        lemma_lines_from_concat(sink_lines(prev), fresh.map_values(|l: Seq<u8>| (s, l)), stream);
        lemma_lines_from_tagged(fresh, s, stream);
        if s == stream {
            lemma_complete_lines_grow(stream_bytes(prev, s), c);
        } else {
            assert(stream_bytes(chunks, stream) =~= stream_bytes(prev, stream));
            assert(lines_from(sink_lines(prev), stream) + Seq::<Seq<u8>>::empty() =~= lines_from(
                sink_lines(prev),
                stream,
            ));
        }
    }
}

/// Two streams drained at once: whatever the order in which the chunks of
/// standard output and standard error arrive, the lines that reach the sink
/// from one stream, followed by the line that the end of that stream
/// completes, are exactly the lines of that stream, each once and in order.
pub proof fn law_streams_lines_exactly_once(chunks: Seq<(Stream, Seq<u8>)>, stream: Stream)
    ensures
        lines_from(sink_lines(chunks), stream) + last_line(stream_bytes(chunks, stream))
            == lines_of(stream_bytes(chunks, stream)),
{
    lemma_sink_lines_complete(chunks, stream);
    lemma_lines_of_split(stream_bytes(chunks, stream));
}

fn strip_cr_line(l: Vec<u8>) -> (r: Vec<u8>)
    ensures
        r@ == strip_cr(l@),
{
    let mut l = l;
    if l.len() > 0 && l[l.len() - 1] == 13u8 {
        l.pop();
    }
    l
}

/// Relies on `String::from_utf8`: it succeeds exactly when the bytes are
/// valid UTF-8, and the string then holds the characters they encode.
#[verifier::external_body]
fn utf8_string(bytes: Vec<u8>) -> (r: Option<String>)
    ensures
        r is Some <==> valid_utf8(bytes@),
        r is Some ==> r->0@ == decode_utf8(bytes@),
{
    String::from_utf8(bytes).ok()
}

/// Decodes one line of the stream named `stream`. A line that is not valid
/// UTF-8 ends the draining of that stream with an error.
pub fn decode_line(line: Vec<u8>, stream: &'static str) -> (r: Result<String, CmdError>)
    ensures
        valid_utf8(line@) ==> r is Ok && r->Ok_0@ == decode_utf8(line@),
        !valid_utf8(line@) ==> r == Err::<String, CmdError>(CmdError::Thread(stream)),
{
    match utf8_string(line) {
        Some(s) => Ok(s),
        None => Err(CmdError::Thread(stream)),
    }
}

/// A line of a command's output as it is shown: indented by eight spaces.
pub fn indent(line: &str) -> (r: String)
    ensures
        r@ == "        "@ + line@,
{
    String::from_str("        ").concat(line)
}

} // verus!
