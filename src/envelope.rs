//! The binary envelope of a replay file: a magic number, a chunk count, a run of
//! length-prefixed chunks and an opaque tail. All integers are little-endian.
use vstd::prelude::*;
use vstd::slice::{slice_subrange, slice_to_vec};

verus! {

/// The four bytes `12 32 34 11` that open every replay file, read as a little-endian integer.
pub const REPLAY_MAGIC: u32 = 0x11343212;

/// Why the envelope could not be read.
#[derive(Debug, Clone, Copy, PartialEq, Eq, Structural)]
pub enum ReadError {
    /// The first four bytes are not the replay magic number.
    InvalidFormat,
    /// The input ended before a declared length was satisfied.
    TruncatedInput,
}

/// The integer that four bytes spell in little-endian order.
#[verifier::opaque]
pub open spec fn le_u32(b0: u8, b1: u8, b2: u8, b3: u8) -> u32 {
    (b0 as u32) | ((b1 as u32) << 8u32) | ((b2 as u32) << 16u32) | ((b3 as u32) << 24u32)
}

/// The little-endian integer that starts at `at` in `b`.
pub open spec fn le_u32_at(b: Seq<u8>, at: int) -> u32 {
    le_u32(b[at], b[at + 1], b[at + 2], b[at + 3])
}

/// The four little-endian bytes of `v`.
#[verifier::opaque]
pub open spec fn le_bytes(v: u32) -> Seq<u8> {
    seq![
        (v & 0xffu32) as u8,
        ((v >> 8u32) & 0xffu32) as u8,
        ((v >> 16u32) & 0xffu32) as u8,
        ((v >> 24u32) & 0xffu32) as u8,
    ]
}

/// Reads `n` chunks off the front of `b`: their payloads and what follows them,
/// or `None` where the bytes end before the `n`-th chunk does.
pub open spec fn parse_chunks(b: Seq<u8>, n: nat) -> Option<(Seq<Seq<u8>>, Seq<u8>)>
    decreases n,
{
    if n == 0 {
        Some((Seq::empty(), b))
    } else if b.len() < 4 {
        None
    } else {
        let len = le_u32_at(b, 0) as int;
        if b.len() - 4 < len {
            None
        } else {
            match parse_chunks(b.subrange(4 + len, b.len() as int), (n - 1) as nat) {
                Some(r) => Some((seq![b.subrange(4, 4 + len)] + r.0, r.1)),
                None => None,
            }
        }
    }
}

/// The bytes of a run of chunks: each payload behind its length.
pub open spec fn encode_chunks(ps: Seq<Seq<u8>>) -> Seq<u8>
    decreases ps.len(),
{
    if ps.len() == 0 {
        Seq::empty()
    } else {
        le_bytes(ps[0].len() as u32) + ps[0] + encode_chunks(ps.drop_first())
    }
}

/// The bytes of an envelope without its tail.
pub open spec fn envelope_bytes(magic: u32, count: u32, ps: Seq<Seq<u8>>) -> Seq<u8> {
    le_bytes(magic) + le_bytes(count) + encode_chunks(ps)
}

/// What a whole input decodes to: the declared chunk count, the chunk payloads and
/// the tail, or the error that reading stops with.
pub open spec fn decode_envelope(b: Seq<u8>) -> Result<(u32, Seq<Seq<u8>>, Seq<u8>), ReadError> {
    if b.len() < 4 {
        Err(ReadError::TruncatedInput)
    } else if le_u32_at(b, 0) != REPLAY_MAGIC {
        Err(ReadError::InvalidFormat)
    } else if b.len() < 8 {
        Err(ReadError::TruncatedInput)
    } else {
        let count = le_u32_at(b, 4);
        match parse_chunks(b.subrange(8, b.len() as int), count as nat) {
            Some(r) => Ok((count, r.0, r.1)),
            None => Err(ReadError::TruncatedInput),
        }
    }
}

/// Reads the little-endian integer at `at`.
pub fn read_u32_le(b: &[u8], at: usize) -> (r: u32)
    requires
        at + 4 <= b@.len(),
    ensures
        r == le_u32_at(b@, at as int),
{
    proof {
        reveal(le_u32);
    }
    (b[at] as u32) | ((b[at + 1] as u32) << 8u32) | ((b[at + 2] as u32) << 16u32) | ((b[at
        + 3] as u32) << 24u32)
}

/// One length-prefixed chunk of the envelope.
#[derive(Debug)]
pub struct DataChunk {
    /// The declared length of the payload.
    pub length: u32,
    /// The payload bytes.
    pub payload: Vec<u8>,
}

impl DataChunk {
    /// The payload holds as many bytes as were declared.
    pub open spec fn wf(&self) -> bool {
        self.payload@.len() == self.length as int
    }

    /// Reads the chunk that starts at `pos`: a four-byte length, then that many payload
    /// bytes. Returns the chunk and the position just past it.
    pub fn read(bytes: &[u8], pos: usize) -> (r: Result<(DataChunk, usize), ReadError>)
        requires
            pos <= bytes@.len(),
        ensures
            match parse_chunks(bytes@.subrange(pos as int, bytes@.len() as int), 1) {
                Some(p) => r matches Ok((c, end)) && c.wf() && c.payload@ == p.0[0]
                    && end as int == pos + 4 + c.length
                    && p.1 == bytes@.subrange(end as int, bytes@.len() as int),
                None => r == Err::<(DataChunk, usize), ReadError>(ReadError::TruncatedInput),
            },
    {
        let ghost rest = bytes@.subrange(pos as int, bytes@.len() as int);
        if bytes.len() - pos < 4 {
            return Err(ReadError::TruncatedInput);
        }
        let length = read_u32_le(bytes, pos);
        assert(le_u32_at(rest, 0) == length);
        if bytes.len() - pos - 4 < length as usize {
            return Err(ReadError::TruncatedInput);
        }
        let end = pos + 4 + length as usize;
        let payload = slice_to_vec(slice_subrange(bytes, pos + 4, end));
        proof {
            let len = length as int;
            assert(parse_chunks(rest.subrange(4 + len, rest.len() as int), 0) == Some::<
                (Seq<Seq<u8>>, Seq<u8>),
            >((Seq::empty(), rest.subrange(4 + len, rest.len() as int))));
            assert(rest.subrange(4, 4 + len) =~= payload@);
            assert(rest.subrange(4 + len, rest.len() as int) =~= bytes@.subrange(
                end as int,
                bytes@.len() as int,
            ));
            let p = parse_chunks(rest, 1).unwrap();
            assert(p.0[0] == payload@);
        }
        Ok((DataChunk { length, payload }, end))
    }
}

/// The payloads of a run of chunks.
pub open spec fn payloads(cs: Seq<DataChunk>) -> Seq<Seq<u8>> {
    cs.map_values(|c: DataChunk| c.payload@)
}

/// Prepends `ps` to the payloads of a parse result.
pub open spec fn prepend(ps: Seq<Seq<u8>>, r: Option<(Seq<Seq<u8>>, Seq<u8>)>) -> Option<
    (Seq<Seq<u8>>, Seq<u8>),
> {
    match r {
        Some(q) => Some((ps + q.0, q.1)),
        None => None,
    }
}

proof fn lemma_parse_step(b: Seq<u8>, n: nat)
    requires
        n > 0,
        parse_chunks(b, 1) is Some,
    ensures
        ({
            let first = parse_chunks(b, 1).unwrap();
            &&& first.0.len() == 1
            &&& parse_chunks(b, n) == prepend(first.0, parse_chunks(first.1, (n - 1) as nat))
        }),
{
    let len = le_u32_at(b, 0) as int;
    let tail = b.subrange(4 + len, b.len() as int);
    assert(parse_chunks(tail, 0) == Some::<(Seq<Seq<u8>>, Seq<u8>)>((Seq::empty(), tail)));
    let first = parse_chunks(b, 1).unwrap();
    assert(first.0 =~= seq![b.subrange(4, 4 + len)]);
    match parse_chunks(tail, (n - 1) as nat) {
        Some(q) => {
            assert(parse_chunks(b, n).unwrap().0 == first.0 + q.0);
        },
        None => {},
    }
}

proof fn lemma_parse_stops(b: Seq<u8>, n: nat)
    requires
        n > 0,
        parse_chunks(b, 1) is None,
    ensures
        parse_chunks(b, n) is None,
{
    if b.len() >= 4 {
        let len = le_u32_at(b, 0) as int;
        if b.len() - 4 >= len {
            let tail = b.subrange(4 + len, b.len() as int);
            assert(parse_chunks(tail, 0) is Some);
        }
    }
}

/// A raw replay: the envelope read into its parts.
#[derive(Debug)]
pub struct RawReplay {
    /// The first four bytes of the file, as a little-endian integer.
    pub magic: u32,
    /// The declared number of chunks.
    pub data_chunks: u32,
    /// The chunks, in file order.
    pub data: Vec<DataChunk>,
    /// The in-battle binary data after the chunks; empty where it was not read.
    pub replay: Vec<u8>,
}

impl RawReplay {
    /// Every chunk holds its declared length and the chunk count is the declared one.
    pub open spec fn wf(&self) -> bool {
        &&& self.data@.len() == self.data_chunks as int
        &&& forall|i: int| 0 <= i < self.data@.len() ==> (#[trigger] self.data@[i]).wf()
    }

    /// Whether `self` is what `bytes` decode to, the tail included unless `data_only`.
    pub open spec fn read_from(&self, bytes: Seq<u8>, data_only: bool) -> bool {
        match decode_envelope(bytes) {
            Ok(d) => {
                &&& self.wf()
                &&& self.magic == REPLAY_MAGIC
                &&& self.data_chunks == d.0
                &&& payloads(self.data@) == d.1
                &&& self.replay@ == if data_only {
                    Seq::<u8>::empty()
                } else {
                    d.2
                }
            },
            Err(_) => false,
        }
    }

    /// Reads the whole input: the magic number, the chunk count, the chunks and the tail.
    pub fn read(bytes: &[u8]) -> (r: Result<RawReplay, ReadError>)
        ensures
            match decode_envelope(bytes@) {
                Ok(_) => r matches Ok(raw) && raw.read_from(bytes@, false),
                Err(e) => r == Err::<RawReplay, ReadError>(e),
            },
    {
        match Self::read_envelope(bytes) {
            Ok((mut raw, end)) => {
                raw.replay = slice_to_vec(slice_subrange(bytes, end, bytes.len()));
                Ok(raw)
            },
            Err(e) => Err(e),
        }
    }

    /// Reads the magic number, the chunk count and the chunks, and leaves the tail unread.
    pub fn read_data_only(bytes: &[u8]) -> (r: Result<RawReplay, ReadError>)
        ensures
            match decode_envelope(bytes@) {
                Ok(_) => r matches Ok(raw) && raw.read_from(bytes@, true),
                Err(e) => r == Err::<RawReplay, ReadError>(e),
            },
    {
        match Self::read_envelope(bytes) {
            Ok((raw, _)) => Ok(raw),
            Err(e) => Err(e),
        }
    }

    /// Reads up to the end of the last chunk; returns where the tail starts.
    fn read_envelope(bytes: &[u8]) -> (r: Result<(RawReplay, usize), ReadError>)
        ensures
            match decode_envelope(bytes@) {
                Ok(d) => r matches Ok((raw, end)) && raw.read_from(bytes@, true) && end
                    <= bytes@.len() && d.2 == bytes@.subrange(end as int, bytes@.len() as int),
                Err(e) => r == Err::<(RawReplay, usize), ReadError>(e),
            },
    {
        if bytes.len() < 4 {
            return Err(ReadError::TruncatedInput);
        }
        let magic = read_u32_le(bytes, 0);
        if magic != REPLAY_MAGIC {
            return Err(ReadError::InvalidFormat);
        }
        if bytes.len() < 8 {
            return Err(ReadError::TruncatedInput);
        }
        let data_chunks = read_u32_le(bytes, 4);
        let ghost whole = bytes@.subrange(8, bytes@.len() as int);
        let mut data: Vec<DataChunk> = Vec::new();
        let mut pos: usize = 8;
        let mut i: u32 = 0;
        assert(payloads(data@) + Seq::empty() =~= Seq::<Seq<u8>>::empty());
        assert(bytes@.subrange(8, bytes@.len() as int) =~= whole);
        assert(prepend(payloads(data@), parse_chunks(whole, data_chunks as nat)) == parse_chunks(
            whole,
            data_chunks as nat,
        )) by {
            match parse_chunks(whole, data_chunks as nat) {
                Some(q) => {
                    assert(payloads(data@) + q.0 =~= q.0);
                },
                None => {},
            }
        }
        while i < data_chunks
            invariant
                8 <= pos <= bytes@.len(),
                i <= data_chunks,
                magic == REPLAY_MAGIC,
                le_u32_at(bytes@, 0) == magic,
                le_u32_at(bytes@, 4) == data_chunks,
                data@.len() == i as int,
                whole == bytes@.subrange(8, bytes@.len() as int),
                forall|k: int| 0 <= k < data@.len() ==> (#[trigger] data@[k]).wf(),
                parse_chunks(whole, data_chunks as nat) == prepend(
                    payloads(data@),
                    parse_chunks(
                        bytes@.subrange(pos as int, bytes@.len() as int),
                        (data_chunks - i) as nat,
                    ),
                ),
            decreases data_chunks - i,
        {
            let ghost here = bytes@.subrange(pos as int, bytes@.len() as int);
            match DataChunk::read(bytes, pos) {
                Ok((chunk, end)) => {
                    proof {
                        lemma_parse_step(here, (data_chunks - i) as nat);
                        let first = parse_chunks(here, 1).unwrap();
                        let later = parse_chunks(
                            bytes@.subrange(end as int, bytes@.len() as int),
                            (data_chunks - i - 1) as nat,
                        );
                        assert(first.0 =~= seq![chunk.payload@]);
                        assert(payloads(data@.push(chunk)) =~= payloads(data@) + first.0);
                        match later {
                            Some(q) => {
                                assert(payloads(data@) + (first.0 + q.0) =~= (payloads(data@)
                                    + first.0) + q.0);
                            },
                            None => {},
                        }
                    }
                    data.push(chunk);
                    pos = end;
                    i = i + 1;
                },
                Err(e) => {
                    proof {
                        lemma_parse_stops(here, (data_chunks - i) as nat);
                    }
                    return Err(e);
                },
            }
        }
        proof {
            let here = bytes@.subrange(pos as int, bytes@.len() as int);
            assert(payloads(data@) + Seq::empty() =~= payloads(data@));
        }
        Ok((RawReplay { magic, data_chunks, data, replay: Vec::new() }, pos))
    }
}

proof fn lemma_le_value(v: u32)
    ensures
        le_bytes(v).len() == 4,
        le_u32(le_bytes(v)[0], le_bytes(v)[1], le_bytes(v)[2], le_bytes(v)[3]) == v,
{
    reveal(le_u32);
    reveal(le_bytes);
    assert(((v & 0xffu32) as u8 as u32) | ((((v >> 8u32) & 0xffu32) as u8 as u32) << 8u32) | ((((
    v >> 16u32) & 0xffu32) as u8 as u32) << 16u32) | ((((v >> 24u32) & 0xffu32) as u8 as u32)
        << 24u32) == v) by (bit_vector);
}

proof fn lemma_le_bytes(b: Seq<u8>, at: int)
    requires
        0 <= at,
        at + 4 <= b.len(),
    ensures
        le_bytes(le_u32_at(b, at)) == b.subrange(at, at + 4),
{
    reveal(le_u32);
    reveal(le_bytes);
    let (b0, b1, b2, b3) = (b[at], b[at + 1], b[at + 2], b[at + 3]);
    let v = le_u32(b0, b1, b2, b3);
    assert((v & 0xffu32) as u8 == b0) by (bit_vector)
        requires
            v == (b0 as u32) | ((b1 as u32) << 8u32) | ((b2 as u32) << 16u32) | ((b3 as u32)
                << 24u32),
    ;
    assert(((v >> 8u32) & 0xffu32) as u8 == b1) by (bit_vector)
        requires
            v == (b0 as u32) | ((b1 as u32) << 8u32) | ((b2 as u32) << 16u32) | ((b3 as u32)
                << 24u32),
    ;
    assert(((v >> 16u32) & 0xffu32) as u8 == b2) by (bit_vector)
        requires
            v == (b0 as u32) | ((b1 as u32) << 8u32) | ((b2 as u32) << 16u32) | ((b3 as u32)
                << 24u32),
    ;
    assert(((v >> 24u32) & 0xffu32) as u8 == b3) by (bit_vector)
        requires
            v == (b0 as u32) | ((b1 as u32) << 8u32) | ((b2 as u32) << 16u32) | ((b3 as u32)
                << 24u32),
    ;
    assert(le_bytes(v) =~= b.subrange(at, at + 4));
}

/// Every payload's length fits the four-byte length field.
pub open spec fn lengths_fit(ps: Seq<Seq<u8>>) -> bool {
    forall|i: int| 0 <= i < ps.len() ==> (#[trigger] ps[i]).len() <= u32::MAX
}

proof fn lemma_parse_encodes(b: Seq<u8>, n: nat)
    requires
        parse_chunks(b, n) is Some,
    ensures
        ({
            let r = parse_chunks(b, n).unwrap();
            &&& r.0.len() == n
            &&& lengths_fit(r.0)
            &&& encode_chunks(r.0) + r.1 == b
        }),
    decreases n,
{
    let r = parse_chunks(b, n).unwrap();
    if n == 0 {
        assert(encode_chunks(r.0) + r.1 =~= b);
    } else {
        let len = le_u32_at(b, 0) as int;
        let tail = b.subrange(4 + len, b.len() as int);
        let head = b.subrange(4, 4 + len);
        lemma_parse_encodes(tail, (n - 1) as nat);
        let q = parse_chunks(tail, (n - 1) as nat).unwrap();
        assert(r.0 == seq![head] + q.0 && r.1 == q.1);
        assert(lengths_fit(r.0)) by {
            assert forall|i: int| 0 <= i < r.0.len() implies (#[trigger] r.0[i]).len()
                <= u32::MAX by {
                if i > 0 {
                    assert(r.0[i] == q.0[i - 1]);
                }
            }
        }
        lemma_le_bytes(b, 0);
        assert(r.0.drop_first() =~= q.0);
        assert(head.len() as u32 == le_u32_at(b, 0));
        let enc = le_bytes(head.len() as u32) + head + encode_chunks(q.0);
        assert(encode_chunks(r.0) == enc);
        assert(enc + q.1 =~= b.subrange(0, 4) + head + tail);
        assert(b.subrange(0, 4) + head + tail =~= b);
    }
}

proof fn lemma_encode_head(ps: Seq<Seq<u8>>, t: Seq<u8>)
    requires
        ps.len() > 0,
        lengths_fit(ps),
    ensures
        ({
            let b = encode_chunks(ps) + t;
            let len = ps[0].len() as int;
            &&& b.len() >= 4
            &&& le_u32_at(b, 0) as int == len
            &&& b.len() - 4 >= len
            &&& b.subrange(4, 4 + len) == ps[0]
            &&& b.subrange(4 + len, b.len() as int) == encode_chunks(ps.drop_first()) + t
        }),
{
    let b = encode_chunks(ps) + t;
    let l = ps[0].len() as u32;
    assert(ps[0].len() <= u32::MAX);
    lemma_le_value(l);
    let enc = le_bytes(l) + ps[0] + encode_chunks(ps.drop_first());
    assert(encode_chunks(ps) == enc);
    assert(b =~= le_bytes(l) + ps[0] + (encode_chunks(ps.drop_first()) + t));
    assert(b[0] == le_bytes(l)[0] && b[1] == le_bytes(l)[1] && b[2] == le_bytes(l)[2] && b[3]
        == le_bytes(l)[3]);
    assert(b.subrange(4, 4 + l as int) =~= ps[0]);
    assert(b.subrange(4 + l as int, b.len() as int) =~= encode_chunks(ps.drop_first()) + t);
}

proof fn lemma_encode_parses(ps: Seq<Seq<u8>>, t: Seq<u8>)
    requires
        lengths_fit(ps),
    ensures
        parse_chunks(encode_chunks(ps) + t, ps.len()) == Some((ps, t)),
    decreases ps.len(),
{
    if ps.len() == 0 {
        assert(encode_chunks(ps) + t =~= t);
    } else {
        let rest = ps.drop_first();
        assert(lengths_fit(rest)) by {
            assert forall|i: int| 0 <= i < rest.len() implies (#[trigger] rest[i]).len()
                <= u32::MAX by {
                assert(rest[i] == ps[i + 1]);
            }
        }
        lemma_encode_head(ps, t);
        lemma_encode_parses(rest, t);
        assert(seq![ps[0]] + rest =~= ps);
    }
}

proof fn lemma_encode_short(ps: Seq<Seq<u8>>, n: nat)
    requires
        lengths_fit(ps),
        n > ps.len(),
    ensures
        parse_chunks(encode_chunks(ps), n) is None,
    decreases ps.len(),
{
    let t = Seq::<u8>::empty();
    assert(encode_chunks(ps) + t =~= encode_chunks(ps));
    if ps.len() > 0 {
        let rest = ps.drop_first();
        assert(lengths_fit(rest)) by {
            assert forall|i: int| 0 <= i < rest.len() implies (#[trigger] rest[i]).len()
                <= u32::MAX by {
                assert(rest[i] == ps[i + 1]);
            }
        }
        lemma_encode_head(ps, t);
        lemma_encode_short(rest, (n - 1) as nat);
        assert(encode_chunks(rest) + t =~= encode_chunks(rest));
    }
}

/// Reading a whole input and writing its magic number, chunk count and chunks back gives
/// the bytes before the tail; the tail that was read is the rest of the input.
pub proof fn lemma_framing_round_trip(bytes: Seq<u8>, raw: RawReplay, data_only: bool)
    requires
        raw.read_from(bytes, data_only),
    ensures
        ({
            let front = envelope_bytes(raw.magic, raw.data_chunks, payloads(raw.data@));
            &&& front.len() <= bytes.len()
            &&& front == bytes.subrange(0, front.len() as int)
            &&& !data_only ==> front + raw.replay@ == bytes
        }),
{
    let d = decode_envelope(bytes)->Ok_0;
    let whole = bytes.subrange(8, bytes.len() as int);
    assert(parse_chunks(whole, raw.data_chunks as nat) == Some((d.1, d.2)));
    lemma_parse_encodes(whole, raw.data_chunks as nat);
    lemma_le_bytes(bytes, 0);
    lemma_le_bytes(bytes, 4);
    let front = envelope_bytes(raw.magic, raw.data_chunks, d.1);
    assert(encode_chunks(d.1) + d.2 == whole);
    assert(bytes =~= bytes.subrange(0, 4) + bytes.subrange(4, 8) + whole);
    assert(front + d.2 =~= bytes);
    assert(front =~= bytes.subrange(0, front.len() as int));
}

/// Writing chunks whose lengths fit behind the magic number and their count, and reading
/// the result back, gives the same count, chunks and tail.
pub proof fn lemma_encode_round_trip(ps: Seq<Seq<u8>>, tail: Seq<u8>)
    requires
        ps.len() <= u32::MAX,
        lengths_fit(ps),
    ensures
        decode_envelope(envelope_bytes(REPLAY_MAGIC, ps.len() as u32, ps) + tail) == Ok::<
            (u32, Seq<Seq<u8>>, Seq<u8>),
            ReadError,
        >((ps.len() as u32, ps, tail)),
{
    let b = envelope_bytes(REPLAY_MAGIC, ps.len() as u32, ps) + tail;
    lemma_le_value(REPLAY_MAGIC);
    lemma_le_value(ps.len() as u32);
    lemma_encode_parses(ps, tail);
    assert(b.subrange(8, b.len() as int) =~= encode_chunks(ps) + tail);
}

/// An envelope that declares more chunks than it holds, and ends after them, fails as
/// truncated input.
pub proof fn lemma_missing_chunks_truncate(count: u32, ps: Seq<Seq<u8>>)
    requires
        ps.len() < count,
        lengths_fit(ps),
    ensures
        decode_envelope(envelope_bytes(REPLAY_MAGIC, count, ps)) == Err::<
            (u32, Seq<Seq<u8>>, Seq<u8>),
            ReadError,
        >(ReadError::TruncatedInput),
{
    let b = envelope_bytes(REPLAY_MAGIC, count, ps);
    lemma_le_value(REPLAY_MAGIC);
    lemma_le_value(count);
    lemma_encode_short(ps, count as nat);
    assert(b.subrange(8, b.len() as int) =~= encode_chunks(ps));
}

/// How many more bytes `b` needs before its first `n` chunks are complete, counting
/// only to the end of the field that is being read.
pub open spec fn chunks_missing(b: Seq<u8>, n: nat) -> nat
    decreases n,
{
    if n == 0 {
        0
    } else if b.len() < 4 {
        (4 - b.len()) as nat
    } else {
        let len = le_u32_at(b, 0) as int;
        if b.len() - 4 < len {
            (4 + len - b.len()) as nat
        } else {
            chunks_missing(b.subrange(4 + len, b.len() as int), (n - 1) as nat)
        }
    }
}

/// How many more bytes a prefix of a replay needs before the next field it reads is
/// complete: the magic number, then the chunk count, then each chunk's length and
/// payload. Zero once the last declared chunk is complete.
pub open spec fn envelope_missing(b: Seq<u8>) -> nat {
    if b.len() < 4 {
        (4 - b.len()) as nat
    } else if b.len() < 8 {
        (8 - b.len()) as nat
    } else {
        chunks_missing(b.subrange(8, b.len() as int), le_u32_at(b, 4) as nat)
    }
}

proof fn lemma_missing_iff_truncated(b: Seq<u8>, n: nat)
    ensures
        chunks_missing(b, n) == 0 <==> parse_chunks(b, n) is Some,
    decreases n,
{
    if n > 0 && b.len() >= 4 {
        let len = le_u32_at(b, 0) as int;
        if b.len() - 4 >= len {
            lemma_missing_iff_truncated(b.subrange(4 + len, b.len() as int), (n - 1) as nat);
        }
    }
}

/// How many more bytes to read from a replay stream of which `prefix` was read, before
/// the next field of the envelope is complete: zero once all declared chunks are there.
pub fn envelope_bytes_wanted(prefix: &[u8]) -> (r: Result<usize, ReadError>)
    ensures
        prefix@.len() >= 4 && le_u32_at(prefix@, 0) != REPLAY_MAGIC ==> r == Err::<
            usize,
            ReadError,
        >(ReadError::InvalidFormat),
        !(prefix@.len() >= 4 && le_u32_at(prefix@, 0) != REPLAY_MAGIC) ==> (r matches Ok(n)
            && n == envelope_missing(prefix@)),
        r == Ok::<usize, ReadError>(0) ==> decode_envelope(prefix@) is Ok,
        r matches Ok(n) && n > 0 ==> decode_envelope(prefix@) == Err::<
            (u32, Seq<Seq<u8>>, Seq<u8>),
            ReadError,
        >(ReadError::TruncatedInput),
{
    if prefix.len() < 4 {
        return Ok(4 - prefix.len());
    }
    if read_u32_le(prefix, 0) != REPLAY_MAGIC {
        return Err(ReadError::InvalidFormat);
    }
    if prefix.len() < 8 {
        return Ok(8 - prefix.len());
    }
    let count = read_u32_le(prefix, 4);
    let ghost whole = prefix@.subrange(8, prefix@.len() as int);
    proof {
        lemma_missing_iff_truncated(whole, count as nat);
    }
    let mut pos: usize = 8;
    let mut i: u32 = 0;
    assert(prefix@.subrange(8, prefix@.len() as int) =~= whole);
    while i < count
        invariant
            8 <= pos <= prefix@.len(),
            i <= count,
            whole == prefix@.subrange(8, prefix@.len() as int),
            le_u32_at(prefix@, 0) == REPLAY_MAGIC,
            le_u32_at(prefix@, 4) == count,
            chunks_missing(whole, count as nat) == 0 <==> parse_chunks(whole, count as nat) is Some,
            chunks_missing(whole, count as nat) == chunks_missing(
                prefix@.subrange(pos as int, prefix@.len() as int),
                (count - i) as nat,
            ),
        decreases count - i,
    {
        let ghost here = prefix@.subrange(pos as int, prefix@.len() as int);
        if prefix.len() - pos < 4 {
            return Ok(4 - (prefix.len() - pos));
        }
        let len = read_u32_le(prefix, pos);
        assert(le_u32_at(here, 0) == len);
        if prefix.len() - pos - 4 < len as usize {
            return Ok(len as usize - (prefix.len() - pos - 4));
        }
        let ghost next = pos + 4 + len as usize;
        assert(here.subrange(4 + len as int, here.len() as int) =~= prefix@.subrange(
            next as int,
            prefix@.len() as int,
        ));
        pos = pos + 4 + len as usize;
        i = i + 1;
    }
    Ok(0)
}

proof fn lemma_chunks_missing_within(b: Seq<u8>, n: nat, k: int)
    requires
        parse_chunks(b, n) is Some,
        0 <= k <= b.len() - parse_chunks(b, n).unwrap().1.len(),
    ensures
        k + chunks_missing(b.take(k), n) <= b.len() - parse_chunks(b, n).unwrap().1.len(),
    decreases n,
{
    if n > 0 {
        let len = le_u32_at(b, 0) as int;
        let tail = b.subrange(4 + len, b.len() as int);
        lemma_parse_encodes(b, n);
        assert(parse_chunks(b, n).unwrap().1 == parse_chunks(tail, (n - 1) as nat).unwrap().1);
        lemma_parse_encodes(tail, (n - 1) as nat);
        let p = b.take(k);
        if k >= 4 {
            assert(le_u32_at(p, 0) == le_u32_at(b, 0));
            if k - 4 >= len {
                assert(p.subrange(4 + len, k) =~= tail.take(k - 4 - len));
                lemma_chunks_missing_within(tail, (n - 1) as nat, k - 4 - len);
            }
        }
    }
}

/// Stepping through a replay by the wanted byte counts never reads past the last chunk:
/// from any prefix of the envelope, the bytes wanted end at or before the envelope's end.
pub proof fn lemma_wanted_stays_in_envelope(b: Seq<u8>, k: int)
    requires
        decode_envelope(b) is Ok,
        0 <= k <= b.len() - decode_envelope(b)->Ok_0.2.len(),
    ensures
        k + envelope_missing(b.take(k)) <= b.len() - decode_envelope(b)->Ok_0.2.len(),
{
    let whole = b.subrange(8, b.len() as int);
    let count = le_u32_at(b, 4) as nat;
    lemma_parse_encodes(whole, count);
    let p = b.take(k);
    if k >= 8 {
        assert(le_u32_at(p, 4) == le_u32_at(b, 4));
        assert(p.subrange(8, k) =~= whole.take(k - 8));
        lemma_chunks_missing_within(whole, count, k - 8);
    }
}

/// Reads a replay; with `data_only` the in-battle tail is left unread.
pub fn read_raw(bytes: &[u8], data_only: bool) -> (r: Result<RawReplay, ReadError>)
    ensures
        match decode_envelope(bytes@) {
            Ok(_) => r matches Ok(raw) && raw.read_from(bytes@, data_only),
            Err(e) => r == Err::<RawReplay, ReadError>(e),
        },
{
    if data_only {
        RawReplay::read_data_only(bytes)
    } else {
        RawReplay::read(bytes)
    }
}

} // verus!
