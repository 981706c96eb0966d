//! Wire framing of the attach protocol.
//!
//! Every frame on the wire is `PACKET_BUF_SIZE` bytes long. An outbound frame
//! holds a stream tag in its first byte, then up to `PAYLOAD_SIZE` payload
//! bytes, then zero padding. An all-zero frame tells the client that no more
//! data follows. Inbound frames carry raw input that ends at the first zero
//! byte.
use vstd::prelude::*;

verus! {

/// The size of every frame on the wire.
pub const PACKET_BUF_SIZE: usize = 8192;

/// The payload room of an outbound frame: all but the tag byte.
pub const PAYLOAD_SIZE: usize = 8191;

/// The standard stream that an outbound buffer belongs to.
#[derive(Clone, Copy, Debug, PartialEq, Eq, Structural)]
pub enum Pipe {
    StdOut,
    StdErr,
}

/// The tag byte that opens a frame of the given stream.
pub open spec fn tag_of(pipe: Pipe) -> u8 {
    match pipe {
        Pipe::StdOut => 2,
        Pipe::StdErr => 3,
    }
}

impl Pipe {
    /// The tag byte that opens every frame of this stream.
    pub fn tag(&self) -> (r: u8)
        ensures
            r == tag_of(*self),
    {
        match self {
            Pipe::StdOut => 2,
            Pipe::StdErr => 3,
        }
    }
}

/// `n` zero bytes.
pub open spec fn zeros(n: nat) -> Seq<u8> {
    Seq::new(n, |i: int| 0u8)
}

/// The frame that carries `chunk` (at most `PAYLOAD_SIZE` bytes) of `pipe`.
pub open spec fn frame_of(pipe: Pipe, chunk: Seq<u8>) -> Seq<u8> {
    seq![tag_of(pipe)] + chunk + zeros((PAYLOAD_SIZE - chunk.len()) as nat)
}

/// How many frames a payload of `n` bytes takes: `n / PAYLOAD_SIZE` rounded
/// up, and one for an empty payload.
pub open spec fn frame_count(n: nat) -> nat {
    if n == 0 {
        1
    } else {
        ((n + PAYLOAD_SIZE - 1) / PAYLOAD_SIZE as int) as nat
    }
}

/// The `i`-th run of at most `PAYLOAD_SIZE` bytes of `p`.
pub open spec fn chunk_of(p: Seq<u8>, i: nat) -> Seq<u8> {
    let start = i * PAYLOAD_SIZE;
    let end = if (i + 1) * PAYLOAD_SIZE < p.len() {
        (i + 1) * PAYLOAD_SIZE
    } else {
        p.len() as int
    };
    p.subrange(start as int, end as int)
}

/// The frames, in order, that carry the payload `p` of `pipe`.
pub open spec fn frames_of(pipe: Pipe, p: Seq<u8>) -> Seq<Seq<u8>> {
    Seq::new(frame_count(p.len()), |i: int| frame_of(pipe, chunk_of(p, i as nat)))
}

/// The frame that ends a stream: all zero.
pub open spec fn done_frame() -> Seq<u8> {
    zeros(PACKET_BUF_SIZE as nat)
}

/// `r` is what an inbound frame `s` means: the bytes of `s` up to its first
/// zero byte, or all of `s` where it holds none.
pub open spec fn is_inbound_payload(s: Seq<u8>, r: Seq<u8>) -> bool {
    &&& r.len() <= s.len()
    &&& r == s.take(r.len() as int)
    &&& forall|i: int| 0 <= i < r.len() ==> r[i] != 0
    &&& r.len() < s.len() ==> s[r.len() as int] == 0
}

/// The number of frames that a payload of `len` bytes takes.
pub fn packet_count(len: usize) -> (r: usize)
    ensures
        r == frame_count(len as nat),
{
    if len == 0 {
        1
    } else {
        len / PAYLOAD_SIZE + if len % PAYLOAD_SIZE == 0 { 0 } else { 1 }
    }
}

/// The frame that carries `buf[start..end]` of `pipe`: the tag byte, the
/// payload, then zero padding up to `PACKET_BUF_SIZE` bytes.
fn build_frame(pipe: Pipe, buf: &Vec<u8>, start: usize, end: usize) -> (r: Vec<u8>)
    requires
        start <= end <= buf.len(),
        end - start <= PAYLOAD_SIZE,
    ensures
        r@ == frame_of(pipe, buf@.subrange(start as int, end as int)),
{
    let ghost chunk = buf@.subrange(start as int, end as int);
    let mut r: Vec<u8> = Vec::with_capacity(PACKET_BUF_SIZE);
    r.push(pipe.tag());
    let mut i: usize = start;
    while i < end
        invariant
            start <= i <= end <= buf.len(),
            r@ == seq![tag_of(pipe)] + buf@.subrange(start as int, i as int),
        decreases end - i,
    {
        r.push(buf[i]);
        proof {
            assert(buf@.subrange(start as int, i + 1) == buf@.subrange(start as int, i as int).push(buf@[i as int]));
        }
        i = i + 1;
    }
    assert(r@ == seq![tag_of(pipe)] + chunk);
    while r.len() < PACKET_BUF_SIZE
        invariant
            chunk.len() <= PAYLOAD_SIZE,
            1 + chunk.len() <= r.len() <= PACKET_BUF_SIZE,
            r@ == seq![tag_of(pipe)] + chunk + zeros((r.len() - 1 - chunk.len()) as nat),
        decreases PACKET_BUF_SIZE - r.len(),
    {
        let ghost n = (r.len() - 1 - chunk.len()) as nat;
        r.push(0);
        proof {
            assert(zeros(n + 1) == zeros(n).push(0u8));
        }
    }
    r
}

/// The frame with index `index` of the payload `buf` of `pipe`.
pub fn frame_at(pipe: Pipe, buf: &Vec<u8>, index: usize) -> (r: Vec<u8>)
    requires
        index < frame_count(buf.len() as nat),
    ensures
        r@ == frame_of(pipe, chunk_of(buf@, index as nat)),
{
    let start = index * PAYLOAD_SIZE;
    let end = if buf.len() - start > PAYLOAD_SIZE {
        start + PAYLOAD_SIZE
    } else {
        buf.len()
    };
    build_frame(pipe, buf, start, end)
}

/// All frames, in order, that carry the payload `buf` of `pipe`. An empty
/// payload takes one frame: the tag byte and zero padding.
pub fn build_packets(pipe: Pipe, buf: &Vec<u8>) -> (r: Vec<Vec<u8>>)
    ensures
        r.len() == frame_count(buf.len() as nat),
        forall|i: int| 0 <= i < r.len() ==> (#[trigger] r[i])@ == frames_of(pipe, buf@)[i],
{
    let count = packet_count(buf.len());
    let mut r: Vec<Vec<u8>> = Vec::new();
    let mut i: usize = 0;
    while i < count
        invariant
            i <= count,
            count == frame_count(buf.len() as nat),
            r.len() == i,
            forall|j: int| 0 <= j < i ==> (#[trigger] r[j])@ == frames_of(pipe, buf@)[j],
        decreases count - i,
    {
        r.push(frame_at(pipe, buf, i));
        i = i + 1;
    }
    r
}

/// The frame that tells a client that the stream is over.
pub fn done_packet() -> (r: Vec<u8>)
    ensures
        r@ == done_frame(),
{
    let r: Vec<u8> = vec![0u8; PACKET_BUF_SIZE];
    assert(r@ == done_frame());
    r
}

/// What an inbound frame means: `buf` cut at its first zero byte.
pub fn truncate_at_zero(buf: Vec<u8>) -> (r: Vec<u8>)
    ensures
        is_inbound_payload(buf@, r@),
{
    let mut i: usize = 0;
    while i < buf.len() && buf[i] != 0
        invariant
            i <= buf.len(),
            forall|j: int| 0 <= j < i ==> buf@[j] != 0,
        decreases buf.len() - i,
    {
        i = i + 1;
    }
    let ghost s = buf@;
    let mut buf = buf;
    buf.truncate(i);
    assert(buf@ == s.take(i as int));
    buf
}

/// The concatenation, in order, of `parts`.
pub open spec fn join(parts: Seq<Seq<u8>>) -> Seq<u8>
    decreases parts.len(),
{
    if parts.len() == 0 {
        Seq::empty()
    } else {
        join(parts.drop_last()) + parts.last()
    }
}

/// The payload regions, in order, of the frames that carry `p`: each frame
/// without its tag byte and its padding.
pub open spec fn payload_regions(pipe: Pipe, p: Seq<u8>) -> Seq<Seq<u8>> {
    Seq::new(
        frame_count(p.len()),
        |i: int| frames_of(pipe, p)[i].subrange(1, 1 + chunk_of(p, i as nat).len() as int),
    )
}

proof fn lemma_count_bounds(n: nat, i: nat)
    ensures
        frame_count(n) >= 1,
        n == 0 ==> frame_count(n) == 1,
        n > 0 && i < frame_count(n) ==> i * PAYLOAD_SIZE < n,
        i < frame_count(n) ==> i * PAYLOAD_SIZE <= n,
        i < frame_count(n) ==> (i + 1) * PAYLOAD_SIZE >= n ==> i + 1 == frame_count(n),
        frame_count(n) * PAYLOAD_SIZE >= n,
        n > 0 ==> (frame_count(n) - 1) * PAYLOAD_SIZE < n,
{
    if n == 0 {
        assert(i < 1 ==> i * 8191 == 0) by (nonlinear_arith);
        assert(i < 1 ==> (i + 1) * 8191 >= 0 ==> i + 1 == 1) by (nonlinear_arith);
        return;
    }
    let c = frame_count(n);
    assert(c == (n + 8190) / 8191);
    assert(c * 8191 >= n && (c > 0 ==> (c - 1) * 8191 < n)) by (nonlinear_arith)
        requires
            c == (n + 8190) / 8191,
    ;
    assert(i < c ==> i * 8191 < n) by (nonlinear_arith)
        requires
            c > 0 ==> (c - 1) * 8191 < n,
    ;
    assert(i < c ==> (i + 1) * 8191 >= n ==> i + 1 == c) by (nonlinear_arith)
        requires
            c * 8191 >= n,
            c > 0 ==> (c - 1) * 8191 < n,
    ;
}

pub(crate) proof fn lemma_frame_shape(pipe: Pipe, p: Seq<u8>, i: nat)
    requires
        i < frame_count(p.len()),
    ensures
        chunk_of(p, i).len() <= PAYLOAD_SIZE,
        frames_of(pipe, p)[i as int].len() == PACKET_BUF_SIZE,
        frames_of(pipe, p)[i as int][0] == tag_of(pipe),
        frames_of(pipe, p)[i as int].subrange(1, 1 + chunk_of(p, i).len() as int) == chunk_of(p, i),
        forall|j: int|
            1 + chunk_of(p, i).len() <= j < PACKET_BUF_SIZE ==> frames_of(pipe, p)[i as int][j]
                == 0,
{
    lemma_count_bounds(p.len(), i);
    assert((i + 1) * PAYLOAD_SIZE == i * PAYLOAD_SIZE + PAYLOAD_SIZE) by (nonlinear_arith);
    let c = chunk_of(p, i);
    let f = frame_of(pipe, c);
    assert(f.subrange(1, 1 + c.len() as int) =~= c);
}

proof fn lemma_join_prefix(pipe: Pipe, p: Seq<u8>, n: nat)
    requires
        n <= frame_count(p.len()),
    ensures
        join(payload_regions(pipe, p).take(n as int)) == p.take(
            if n * PAYLOAD_SIZE < p.len() {
                n * PAYLOAD_SIZE
            } else {
                p.len() as int
            },
        ),
    decreases n,
{
    let regions = payload_regions(pipe, p);
    if n == 0 {
        assert(p.take(0) =~= Seq::<u8>::empty());
    } else {
        let k = (n - 1) as nat;
        lemma_join_prefix(pipe, p, k);
        lemma_count_bounds(p.len(), k);
        lemma_frame_shape(pipe, p, k);
        assert(regions.take(n as int).drop_last() =~= regions.take(k as int));
        assert(n * PAYLOAD_SIZE == k * PAYLOAD_SIZE + PAYLOAD_SIZE) by (nonlinear_arith)
            requires
                n == k + 1,
        ;
        let lo = k * PAYLOAD_SIZE;
        let hi = if n * PAYLOAD_SIZE < p.len() {
            n * PAYLOAD_SIZE
        } else {
            p.len() as int
        };
        assert(regions.take(n as int).last() == chunk_of(p, k));
        assert(p.take(lo) + p.subrange(lo, hi) =~= p.take(hi));
    }
}

/// A client that writes `b`, free of zero bytes, and then a zero byte, with
/// anything after it, is read as exactly `b`.
pub proof fn lemma_inbound_round_trip(b: Seq<u8>, rest: Seq<u8>)
    requires
        forall|i: int| 0 <= i < b.len() ==> b[i] != 0,
    ensures
        forall|r: Seq<u8>| is_inbound_payload(b + seq![0u8] + rest, r) <==> r == b,
{
    let s = b + seq![0u8] + rest;
    assert(s.take(b.len() as int) =~= b);
    assert forall|r: Seq<u8>| is_inbound_payload(s, r) implies r == b by {
        if r.len() < b.len() {
            assert(s[r.len() as int] == b[r.len() as int]);
        } else if r.len() > b.len() {
            assert(r[b.len() as int] == s[b.len() as int]);
        }
        assert(r =~= b);
    }
}

/// A payload of at most `PAYLOAD_SIZE` bytes, empty included, goes out as one
/// frame: the tag byte, the payload, then zeros up to `PACKET_BUF_SIZE` bytes.
pub proof fn lemma_short_payload_one_frame(pipe: Pipe, p: Seq<u8>)
    requires
        p.len() <= PAYLOAD_SIZE,
    ensures
        frames_of(pipe, p).len() == 1,
        frames_of(pipe, p)[0].len() == PACKET_BUF_SIZE,
        frames_of(pipe, p)[0][0] == tag_of(pipe),
        frames_of(pipe, p)[0].subrange(1, 1 + p.len() as int) == p,
        forall|j: int| 1 + p.len() <= j < PACKET_BUF_SIZE ==> frames_of(pipe, p)[0][j] == 0,
{
    lemma_count_bounds(p.len(), 0);
    lemma_frame_shape(pipe, p, 0);
    assert(chunk_of(p, 0) =~= p);
}

/// Any payload goes out as `frame_count(p.len())` frames, the payload size
/// rounded up (one for an empty payload); each is `PACKET_BUF_SIZE` bytes long and opens with the tag
/// byte, and their payload regions joined in order give back `p`.
pub proof fn lemma_frames_rejoin(pipe: Pipe, p: Seq<u8>)
    ensures
        frames_of(pipe, p).len() == frame_count(p.len()),
        frame_count(p.len()) * PAYLOAD_SIZE >= p.len(),
        p.len() > 0 ==> (frame_count(p.len()) - 1) * PAYLOAD_SIZE < p.len(),
        p.len() == 0 ==> frame_count(p.len()) == 1,
        forall|i: int|
            0 <= i < frames_of(pipe, p).len() ==> (#[trigger] frames_of(pipe, p)[i]).len()
                == PACKET_BUF_SIZE && frames_of(pipe, p)[i][0] == tag_of(pipe),
        join(payload_regions(pipe, p)) == p,
{
    let n = frame_count(p.len());
    lemma_count_bounds(p.len(), 0);
    if n > 0 {
        lemma_count_bounds(p.len(), (n - 1) as nat);
    }
    assert forall|i: int| 0 <= i < frames_of(pipe, p).len() implies (
    #[trigger] frames_of(pipe, p)[i]).len() == PACKET_BUF_SIZE && frames_of(pipe, p)[i][0]
        == tag_of(pipe) by {
        lemma_frame_shape(pipe, p, i as nat);
    }
    lemma_join_prefix(pipe, p, n);
    assert(payload_regions(pipe, p).take(n as int) =~= payload_regions(pipe, p));
    assert(p.take(p.len() as int) =~= p);
}

} // verus!
