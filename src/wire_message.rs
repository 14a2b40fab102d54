use vstd::prelude::*;

use crate::error::Error;
use crate::signing::{append_bytes, same_bytes, sign, signature_of, verify};

verus! {

/// The frame that separates routing identities from the signed message.
pub open spec fn delimiter() -> Seq<u8> {
    seq![60u8, 73u8, 68u8, 83u8, 124u8, 77u8, 83u8, 71u8, 62u8]
}

/// The bytes of each frame of `fs`.
pub open spec fn frames_view(fs: Vec<Vec<u8>>) -> Seq<Seq<u8>> {
    fs@.map_values(|f: Vec<u8>| f@)
}

/// A message as the frames it travels in: the JSON text of each logical part,
/// plus the routing identities of ROUTER sockets and any binary buffers.
pub struct WireMessage {
    pub zmq_identities: Vec<Vec<u8>>,
    pub header: Vec<u8>,
    pub parent_header: Vec<u8>,
    pub metadata: Vec<u8>,
    pub content: Vec<u8>,
    pub buffers: Vec<Vec<u8>>,
}

/// What a `WireMessage` holds.
pub struct WireView {
    pub ids: Seq<Seq<u8>>,
    pub header: Seq<u8>,
    pub parent_header: Seq<u8>,
    pub metadata: Seq<u8>,
    pub content: Seq<u8>,
    pub buffers: Seq<Seq<u8>>,
}

impl View for WireMessage {
    type V = WireView;

    open spec fn view(&self) -> WireView {
        WireView {
            ids: frames_view(self.zmq_identities),
            header: self.header@,
            parent_header: self.parent_header@,
            metadata: self.metadata@,
            content: self.content@,
            buffers: frames_view(self.buffers),
        }
    }
}

/// The signature of a message's four signed frames under `key`.
pub open spec fn signature_for(m: WireView, key: Seq<u8>) -> Seq<u8> {
    signature_of(key, m.header, m.parent_header, m.metadata, m.content)
}

/// The frames of `m`, in wire order: identities, delimiter, signature,
/// header, parent header, metadata, content, buffers.
pub open spec fn frames_of(m: WireView, key: Seq<u8>) -> Seq<Seq<u8>> {
    m.ids + seq![delimiter(), signature_for(m, key), m.header, m.parent_header, m.metadata, m.content]
        + m.buffers
}

/// Whether `d` is the position of the first delimiter frame in `fs`.
pub open spec fn is_first_delimiter(fs: Seq<Seq<u8>>, d: int) -> bool {
    &&& 0 <= d < fs.len()
    &&& fs[d] == delimiter()
    &&& forall|j: int| 0 <= j < d ==> fs[j] != delimiter()
}

/// Whether no frame of `fs` is the delimiter.
pub open spec fn has_no_delimiter(fs: Seq<Seq<u8>>) -> bool {
    forall|j: int| 0 <= j < fs.len() ==> fs[j] != delimiter()
}

/// The message that the frames after the delimiter at `d` make up.
pub open spec fn message_at(fs: Seq<Seq<u8>>, d: int) -> WireView {
    WireView {
        ids: fs.subrange(0, d),
        header: fs[d + 2],
        parent_header: fs[d + 3],
        metadata: fs[d + 4],
        content: fs[d + 5],
        buffers: fs.subrange(d + 6, fs.len() as int),
    }
}

/// Decoding of frames under `key`: split at the first delimiter, demand the
/// five frames after it, and check the signature before anything else.
pub open spec fn decode_spec(fs: Seq<Seq<u8>>, key: Seq<u8>) -> Result<WireView, Error> {
    if has_no_delimiter(fs) {
        Err(Error::MissingDelimiter)
    } else {
        let d = choose|d: int| is_first_delimiter(fs, d);
        if fs.len() - d - 1 < 5 {
            Err(Error::InsufficientFrames((fs.len() - d - 1) as usize))
        } else if fs[d + 1] != signature_for(message_at(fs, d), key) {
            Err(Error::BadSignature)
        } else {
            Ok(message_at(fs, d))
        }
    }
}

/// There is at most one first delimiter.
proof fn lemma_first_delimiter_unique(fs: Seq<Seq<u8>>, a: int, b: int)
    requires
        is_first_delimiter(fs, a),
        is_first_delimiter(fs, b),
    ensures
        a == b,
{
}

/// Where frames hold a delimiter, the first one is what `decode_spec` picks.
proof fn lemma_choose_first_delimiter(fs: Seq<Seq<u8>>, d: int)
    requires
        is_first_delimiter(fs, d),
    ensures
        !has_no_delimiter(fs),
        (choose|e: int| is_first_delimiter(fs, e)) == d,
{
    let e = choose|e: int| is_first_delimiter(fs, e);
    lemma_first_delimiter_unique(fs, d, e);
}

/// A copy of one frame.
fn copy_bytes(b: &Vec<u8>) -> (r: Vec<u8>)
    ensures
        r@ == b@,
{
    let mut r: Vec<u8> = Vec::new();
    append_bytes(&mut r, b);
    assert(r@ =~= b@);
    r
}

/// Copies a list of frames.
pub(crate) fn copy_frames(fs: &Vec<Vec<u8>>, from: usize, to: usize) -> (r: Vec<Vec<u8>>)
    requires
        from <= to <= fs@.len(),
    ensures
        frames_view(r) == frames_view(*fs).subrange(from as int, to as int),
{
    let mut r: Vec<Vec<u8>> = Vec::new();
    let mut i: usize = from;
    while i < to
        invariant
            from <= i <= to <= fs@.len(),
            r@.len() == i - from,
            forall|k: int| 0 <= k < r@.len() ==> #[trigger] r@[k]@ == fs@[from + k]@,
        decreases to - i,
    {
        let f = copy_bytes(&fs[i]);
        r.push(f);
        i = i + 1;
    }
    assert(frames_view(r) =~= frames_view(*fs).subrange(from as int, to as int));
    r
}

/// Appends copies of the frames of `src` to `out`.
fn push_frames(out: &mut Vec<Vec<u8>>, src: &Vec<Vec<u8>>)
    ensures
        frames_view(*final(out)) == frames_view(*old(out)) + frames_view(*src),
{
    let ghost start = out@;
    let mut i: usize = 0;
    while i < src.len()
        invariant
            i <= src@.len(),
            out@.len() == start.len() + i,
            forall|k: int| 0 <= k < start.len() ==> #[trigger] out@[k] == start[k],
            forall|k: int| 0 <= k < i ==> #[trigger] out@[start.len() + k]@ == src@[k]@,
            start == old(out)@,
        decreases src@.len() - i,
    {
        let f = copy_bytes(&src[i]);
        out.push(f);
        i = i + 1;
    }
    assert forall|k: int| 0 <= k < out@.len() implies #[trigger] frames_view(*out)[k] == (frames_view(*old(out)) + frames_view(*src))[k] by {
        if k >= start.len() {
            assert(out@[start.len() + (k - start.len())]@ == src@[k - start.len()]@);
        }
    }
    assert(frames_view(*out) =~= frames_view(*old(out)) + frames_view(*src));
}

/// Pushes a copy of `f` as one more frame.
fn push_frame(out: &mut Vec<Vec<u8>>, f: &Vec<u8>)
    ensures
        frames_view(*final(out)) == frames_view(*old(out)).push(f@),
{
    let c = copy_bytes(f);
    out.push(c);
    assert(frames_view(*out) =~= frames_view(*old(out)).push(f@));
}

fn delimiter_frame() -> (r: Vec<u8>)
    ensures
        r@ == delimiter(),
{
    let r: Vec<u8> = vec![60u8, 73u8, 68u8, 83u8, 124u8, 77u8, 83u8, 71u8, 62u8];
    assert(r@ =~= delimiter());
    r
}

/// The position of the first delimiter frame, or the number of frames if
/// there is none.
fn find_delimiter(frames: &Vec<Vec<u8>>) -> (d: usize)
    ensures
        d <= frames@.len(),
        forall|j: int| 0 <= j < d ==> frames_view(*frames)[j] != delimiter(),
        d < frames@.len() ==> frames_view(*frames)[d as int] == delimiter(),
{
    let delim = delimiter_frame();
    let mut d: usize = 0;
    while d < frames.len()
        invariant
            d <= frames@.len(),
            delim@ == delimiter(),
            forall|j: int| 0 <= j < d ==> frames_view(*frames)[j] != delimiter(),
        decreases frames@.len() - d,
    {
        if same_bytes(&frames[d], &delim) {
            return d;
        }
        d = d + 1;
    }
    d
}

impl WireMessage {
    /// The frames that carry this message, signed under `key`.
    pub fn encode(&self, key: &Vec<u8>) -> (r: Vec<Vec<u8>>)
        ensures
            frames_view(r) == frames_of(self@, key@),
    {
        let mut frames: Vec<Vec<u8>> = Vec::new();
        push_frames(&mut frames, &self.zmq_identities);
        let delim = delimiter_frame();
        push_frame(&mut frames, &delim);
        let sig = sign(key, &self.header, &self.parent_header, &self.metadata, &self.content);
        push_frame(&mut frames, &sig);
        push_frame(&mut frames, &self.header);
        push_frame(&mut frames, &self.parent_header);
        push_frame(&mut frames, &self.metadata);
        push_frame(&mut frames, &self.content);
        push_frames(&mut frames, &self.buffers);
        assert(frames_view(frames) =~= frames_of(self@, key@));
        frames
    }

    /// Reads a message from its frames, checking the signature under `key`;
    /// nothing is returned from frames whose signature does not match.
    pub fn decode(frames: &Vec<Vec<u8>>, key: &Vec<u8>) -> (r: Result<WireMessage, Error>)
        ensures
            match (r, decode_spec(frames_view(*frames), key@)) {
                (Ok(m), Ok(v)) => m@ == v,
                (Err(e), Err(f)) => e == f,
                _ => false,
            },
    {
        let ghost fs = frames_view(*frames);
        let d = find_delimiter(frames);
        assert(fs.len() == frames@.len());
        if d == frames.len() {
            return Err(Error::MissingDelimiter);
        }
        proof {
            lemma_choose_first_delimiter(fs, d as int);
        }
        let after = frames.len() - d - 1;
        if after < 5 {
            return Err(Error::InsufficientFrames(after));
        }
        if !verify(key, &frames[d + 1], &frames[d + 2], &frames[d + 3], &frames[d + 4], &frames[d + 5]) {
            return Err(Error::BadSignature);
        }
        let header = copy_bytes(&frames[d + 2]);
        let parent_header = copy_bytes(&frames[d + 3]);
        let metadata = copy_bytes(&frames[d + 4]);
        let content = copy_bytes(&frames[d + 5]);
        let m = WireMessage {
            zmq_identities: copy_frames(frames, 0, d),
            header,
            parent_header,
            metadata,
            content,
            buffers: copy_frames(frames, d + 6, frames.len()),
        };
        assert(m@ == message_at(fs, d as int));
        Ok(m)
    }
}

/// Round trip: decoding the frames of an encoded message gives the message
/// back, whenever no routing identity is itself the delimiter.
pub proof fn lemma_round_trip(m: WireView, key: Seq<u8>)
    requires
        has_no_delimiter(m.ids),
    ensures
        decode_spec(frames_of(m, key), key) == Ok::<WireView, Error>(m),
{
    let fs = frames_of(m, key);
    let d = m.ids.len() as int;
    assert(fs[d] == delimiter());
    assert(is_first_delimiter(fs, d));
    lemma_choose_first_delimiter(fs, d);
    assert(message_at(fs, d).ids =~= m.ids);
    assert(message_at(fs, d).buffers =~= m.buffers);
    assert(message_at(fs, d) == m);
}

/// Authenticity of valid envelopes: the frames of a message signed under
/// `key` pass the signature check.
pub proof fn lemma_signed_frames_accepted(m: WireView, key: Seq<u8>)
    requires
        has_no_delimiter(m.ids),
    ensures
        decode_spec(frames_of(m, key), key) is Ok,
{
    lemma_round_trip(m, key);
}

/// A changed signature frame is refused: changing one byte of the signature
/// of a signed message makes decoding fail with `BadSignature`.
pub proof fn lemma_changed_signature_refused(m: WireView, key: Seq<u8>, i: int, b: u8)
    requires
        has_no_delimiter(m.ids),
        0 <= i < signature_for(m, key).len(),
        signature_for(m, key)[i] != b,
    ensures
        decode_spec(
            frames_of(m, key).update(m.ids.len() as int + 1, signature_for(m, key).update(i, b)),
            key,
        ) == Err::<WireView, Error>(Error::BadSignature),
{
    let d = m.ids.len() as int;
    let sig = signature_for(m, key).update(i, b);
    let fs = frames_of(m, key).update(d + 1, sig);
    assert(fs[d] == delimiter());
    assert(is_first_delimiter(fs, d));
    lemma_choose_first_delimiter(fs, d);
    assert(message_at(fs, d).ids =~= m.ids);
    assert(message_at(fs, d).buffers =~= m.buffers);
    assert(message_at(fs, d) == m);
    assert(sig[i] != signature_for(m, key)[i]);
}

/// A changed header or content frame passes only by a tag collision: if the
/// frames of a signed message, with its header and content replaced, still
/// decode, then the new frames have the very signature of the old ones.
pub proof fn lemma_changed_body_needs_same_signature(
    m: WireView,
    key: Seq<u8>,
    header: Seq<u8>,
    content: Seq<u8>,
)
    requires
        has_no_delimiter(m.ids),
        decode_spec(
            frames_of(m, key).update(m.ids.len() as int + 2, header).update(
                m.ids.len() as int + 5,
                content,
            ),
            key,
        ) is Ok,
    ensures
        signature_of(key, header, m.parent_header, m.metadata, content) == signature_for(m, key),
{
    let d = m.ids.len() as int;
    let fs = frames_of(m, key).update(d + 2, header).update(d + 5, content);
    assert(fs[d] == delimiter());
    assert(is_first_delimiter(fs, d));
    lemma_choose_first_delimiter(fs, d);
}

} // verus!
