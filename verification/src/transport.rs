use vstd::prelude::*;
use bytes::{Buf, BufMut, BytesMut};
use crate::crypto::{decrypt, encrypt, decrypt_outcome, xchacha20poly1305_seal, CryptoError, AEAD_MAX_PLAINTEXT_LEN};

verus! {

#[verifier::external_type_specification]
#[verifier::external_body]
pub struct ExBytesMut(bytes::BytesMut);

/// The bytes a `bytes::BytesMut` holds, in order.
pub uninterp spec fn bytes_mut_contents(b: BytesMut) -> Seq<u8>;

/// `BytesMut::with_capacity`: an empty buffer.
#[verifier::external_body]
fn bytes_with_capacity(capacity: usize) -> (b: BytesMut)
    ensures
        bytes_mut_contents(b) == Seq::<u8>::empty(),
{
    BytesMut::with_capacity(capacity)
}

/// `BytesMut::len`: the number of bytes held.
#[verifier::external_body]
fn bytes_len(b: &BytesMut) -> (n: usize)
    ensures
        n == bytes_mut_contents(*b).len(),
{
    b.len()
}

/// `<BytesMut as Deref>::deref`: the bytes held, as a slice.
#[verifier::external_body]
fn bytes_as_slice(b: &BytesMut) -> (s: &[u8])
    ensures
        s@ == bytes_mut_contents(*b),
{
    &b[..]
}

/// `<BytesMut as BufMut>::put_slice`: appends the slice. The buffer cannot
/// grow past `isize::MAX` bytes; `requires` keeps the contents and the
/// appended bytes under that bound. Bytes already consumed but not yet
/// reclaimed also count against the capacity; that is left unsaid.
#[verifier::external_body]
fn bytes_put_slice(b: &mut BytesMut, src: &[u8])
    requires
        bytes_mut_contents(*old(b)).len() + src@.len() <= isize::MAX,
    ensures
        bytes_mut_contents(*final(b)) == bytes_mut_contents(*old(b)) + src@,
{
    b.put_slice(src)
}

/// `<BytesMut as BufMut>::put_u32`: appends the four big-endian bytes of
/// `n` (with the same capacity bound as `put_slice`).
#[verifier::external_body]
fn bytes_put_u32(b: &mut BytesMut, n: u32)
    requires
        bytes_mut_contents(*old(b)).len() + 4 <= isize::MAX,
    ensures
        bytes_mut_contents(*final(b)) == bytes_mut_contents(*old(b)) + be32_bytes(n),
{
    b.put_u32(n)
}

/// `<BytesMut as Buf>::advance`: drops the first `n` bytes; it panics past
/// the end, which `requires` leaves out.
#[verifier::external_body]
fn bytes_advance(b: &mut BytesMut, n: usize)
    requires
        n <= bytes_mut_contents(*old(b)).len(),
    ensures
        bytes_mut_contents(*final(b)) == bytes_mut_contents(*old(b)).skip(n as int),
{
    b.advance(n)
}

/// `BytesMut::clear`: drops every byte.
#[verifier::external_body]
fn bytes_clear(b: &mut BytesMut)
    ensures
        bytes_mut_contents(*final(b)) == Seq::<u8>::empty(),
{
    b.clear()
}

/// 24 bytes from the thread-local generator (`rand::thread_rng()` and
/// `RngCore::fill_bytes`); nothing is claimed of them.
#[verifier::external_body]
fn thread_random_nonce() -> (n: [u8; 24]) {
    let mut nonce = [0u8; 24];
    rand::RngCore::fill_bytes(&mut rand::thread_rng(), &mut nonce);
    nonce
}

/// The four big-endian bytes of `n`.
pub open spec fn be32_bytes(n: u32) -> Seq<u8> {
    seq![(n / 0x1000000) as u8, ((n / 0x10000) % 0x100) as u8, ((n / 0x100) % 0x100) as u8, (n % 0x100) as u8]
}

/// The number that four big-endian bytes encode.
pub open spec fn be32_value(b: Seq<u8>) -> nat {
    (b[0] as nat) * 0x1000000 + (b[1] as nat) * 0x10000 + (b[2] as nat) * 0x100 + (b[3] as nat)
}

/// Length in bytes of a frame's nonce.
pub const FRAME_NONCE_LEN: usize = 24;

/// The frame of a ciphertext: a big-endian `u32` holding the length of
/// what follows (nonce and ciphertext, truncated to 32 bits), the 24-byte
/// nonce, then the ciphertext.
pub open spec fn frame_bytes(nonce: Seq<u8>, ciphertext: Seq<u8>) -> Seq<u8> {
    be32_bytes((24 + ciphertext.len()) as u32) + nonce + ciphertext
}

/// The length a buffer's first frame declares (its first four bytes).
pub open spec fn declared_len(buf: Seq<u8>) -> nat {
    be32_value(buf.take(4))
}

/// The buffer holds a whole frame: its length prefix and the bytes it
/// declares.
pub open spec fn frame_ready(buf: Seq<u8>) -> bool {
    buf.len() >= 4 && buf.len() - 4 >= declared_len(buf)
}

/// The buffer holds a whole frame that declares less than a nonce: such a
/// frame cannot be read, and is refused as malformed.
pub open spec fn frame_malformed(buf: Seq<u8>) -> bool {
    frame_ready(buf) && declared_len(buf) < 24
}

/// The nonce of a ready frame.
pub open spec fn frame_nonce(buf: Seq<u8>) -> Seq<u8> {
    buf.subrange(4, 28)
}

/// The ciphertext of a ready frame.
pub open spec fn frame_ciphertext(buf: Seq<u8>) -> Seq<u8> {
    buf.subrange(28, 4 + declared_len(buf) as int)
}

/// Errors of the frame transport.
#[derive(Debug, Clone, Copy, PartialEq, Eq, Structural)]
pub enum TransportError {
    /// Encrypting an outgoing frame or authenticating an incoming one failed.
    Crypto(CryptoError),
    /// An incoming frame declares a length shorter than its nonce.
    MalformedFrame,
    /// The peer closed the connection in the middle of a frame.
    ConnectionClosed,
}

/// A frame that was authenticated and decrypted; its ciphertext is still
/// at the front of the inbound buffer until `consume` drops it.
pub struct OpenedFrame {
    pub plaintext: Vec<u8>,
    pub ciphertext_len: usize,
}

/// What `open_frame` gives for an inbound buffer that holds a well-formed
/// frame: the decrypted plaintext and the ciphertext length, or the error.
pub open spec fn open_outcome(key: Seq<u8>, buf: Seq<u8>) -> Result<(Seq<u8>, nat), TransportError> {
    match decrypt_outcome(key, frame_nonce(buf), frame_ciphertext(buf)) {
        Ok(p) => Ok((p, frame_ciphertext(buf).len())),
        Err(e) => Err(TransportError::Crypto(e)),
    }
}

/// The frame that seals `plaintext` under `key` and `nonce` reads back: its
/// ciphertext decrypts to the plaintext and, where its length fits the
/// 32-bit prefix, a decoder with that key that holds the frame followed by
/// any bytes opens it to the plaintext and the ciphertext's length.
pub open spec fn frame_opens_to(key: Seq<u8>, nonce: Seq<u8>, plaintext: Seq<u8>) -> bool {
    &&& decrypt_outcome(key, nonce, xchacha20poly1305_seal(key, nonce, plaintext)) == Ok::<Seq<u8>, CryptoError>(plaintext)
    &&& plaintext.len() + 40 <= u32::MAX ==> forall|rest: Seq<u8>|
        #![trigger frame_bytes(nonce, xchacha20poly1305_seal(key, nonce, plaintext)) + rest]
        open_outcome(key, frame_bytes(nonce, xchacha20poly1305_seal(key, nonce, plaintext)) + rest)
            == Ok::<(Seq<u8>, nat), TransportError>((plaintext, plaintext.len() + 16))
}

/// The view of what `open_frame` returned for a ready frame.
pub open spec fn opened_view(r: Result<Option<OpenedFrame>, TransportError>) -> Result<(Seq<u8>, nat), TransportError> {
    match r {
        Ok(Some(f)) => Ok((f.plaintext@, f.ciphertext_len as nat)),
        Ok(None) => Err(TransportError::Crypto(CryptoError::DecryptionFailed)),
        Err(e) => Err(e),
    }
}

proof fn lemma_be32_roundtrip(n: u32)
    ensures
        be32_bytes(n).len() == 4,
        be32_value(be32_bytes(n)) == n,
{
    let b = be32_bytes(n);
    let q0 = n / 0x1000000;
    let q1 = n / 0x10000;
    let q2 = n / 0x100;
    assert(q0 < 0x100) by (nonlinear_arith)
        requires q0 == n / 0x1000000, n <= 0xFFFFFFFF;
    assert(q0 * 0x1000000 + (q1 % 0x100) * 0x10000 + (q2 % 0x100) * 0x100 + n % 0x100 == n) by (nonlinear_arith)
        requires q0 == n / 0x1000000, q1 == n / 0x10000, q2 == n / 0x100, n <= 0xFFFFFFFF;
    assert(b[0] as nat == q0);
    assert(b[1] as nat == q1 % 0x100);
    assert(b[2] as nat == q2 % 0x100);
    assert(b[3] as nat == n % 0x100);
}

/// Framing law: a buffer that starts with the frame of a 24-byte nonce and
/// a ciphertext (short enough that its length fits the 32-bit prefix) holds
/// a whole, well-formed frame whose nonce and ciphertext are those.
pub proof fn lemma_frame_parses(nonce: Seq<u8>, ciphertext: Seq<u8>, rest: Seq<u8>)
    requires
        nonce.len() == 24,
        24 + ciphertext.len() <= u32::MAX,
    ensures
        frame_ready(frame_bytes(nonce, ciphertext) + rest),
        !frame_malformed(frame_bytes(nonce, ciphertext) + rest),
        declared_len(frame_bytes(nonce, ciphertext) + rest) == 24 + ciphertext.len(),
        frame_nonce(frame_bytes(nonce, ciphertext) + rest) == nonce,
        frame_ciphertext(frame_bytes(nonce, ciphertext) + rest) == ciphertext,
        (frame_bytes(nonce, ciphertext) + rest).skip(4 + declared_len(frame_bytes(nonce, ciphertext) + rest) as int) == rest,
{
    let n = (24 + ciphertext.len()) as u32;
    lemma_be32_roundtrip(n);
    let buf = frame_bytes(nonce, ciphertext) + rest;
    assert(buf.take(4) =~= be32_bytes(n));
    assert(frame_nonce(buf) =~= nonce);
    assert(frame_ciphertext(buf) =~= ciphertext);
    assert(buf.skip(4 + declared_len(buf) as int) =~= rest);
}

/// A decoder that holds a frame followed by other bytes, once it has opened
/// the frame (dropping prefix and nonce) and consumed its ciphertext, holds
/// exactly the other bytes: frames are read back one after another.
pub proof fn law_open_then_consume_leaves_rest(nonce: Seq<u8>, ciphertext: Seq<u8>, rest: Seq<u8>)
    requires
        nonce.len() == 24,
        24 + ciphertext.len() <= u32::MAX,
    ensures
        (frame_bytes(nonce, ciphertext) + rest).skip(28).skip(
            frame_ciphertext(frame_bytes(nonce, ciphertext) + rest).len() as int,
        ) == rest,
{
    lemma_frame_parses(nonce, ciphertext, rest);
    let buf = frame_bytes(nonce, ciphertext) + rest;
    assert(buf.skip(28).skip(ciphertext.len() as int) =~= rest);
}

/// The bytes of a stream of frames, one per nonce and ciphertext, in order.
pub open spec fn frame_stream(nonces: Seq<Seq<u8>>, ciphertexts: Seq<Seq<u8>>) -> Seq<u8>
    decreases ciphertexts.len(),
{
    if ciphertexts.len() == 0 || nonces.len() == 0 {
        Seq::empty()
    } else {
        frame_bytes(nonces[0], ciphertexts[0]) + frame_stream(nonces.drop_first(), ciphertexts.drop_first())
    }
}

/// Every nonce is 24 bytes long and every frame's length fits its 32-bit
/// prefix; there are as many nonces as ciphertexts.
pub open spec fn frames_well_formed(nonces: Seq<Seq<u8>>, ciphertexts: Seq<Seq<u8>>) -> bool {
    &&& nonces.len() == ciphertexts.len()
    &&& forall|j: int| 0 <= j < ciphertexts.len() ==> #[trigger] nonces[j].len() == 24 && 24 + ciphertexts[j].len() <= u32::MAX
}

/// The inbound buffer of a decoder that has read the first `i` frames of a
/// stream and has received `k` further bytes of it.
pub open spec fn stream_buffer(nonces: Seq<Seq<u8>>, ciphertexts: Seq<Seq<u8>>, i: int, k: int) -> Seq<u8> {
    frame_stream(nonces.skip(i), ciphertexts.skip(i)).take(k)
}

/// What opening the `i`-th frame of a stream gives: its decryption under
/// `key` and its ciphertext's length, or the error.
pub open spec fn stream_frame_outcome(key: Seq<u8>, nonce: Seq<u8>, ciphertext: Seq<u8>) -> Result<(Seq<u8>, nat), TransportError> {
    match decrypt_outcome(key, nonce, ciphertext) {
        Ok(p) => Ok((p, ciphertext.len())),
        Err(e) => Err(TransportError::Crypto(e)),
    }
}

proof fn lemma_frame_stream_unfold(nonces: Seq<Seq<u8>>, ciphertexts: Seq<Seq<u8>>, i: int)
    requires
        nonces.len() == ciphertexts.len(),
        0 <= i < ciphertexts.len(),
    ensures
        frame_stream(nonces.skip(i), ciphertexts.skip(i)) == frame_bytes(nonces[i], ciphertexts[i])
            + frame_stream(nonces.skip(i + 1), ciphertexts.skip(i + 1)),
{
    assert(nonces.skip(i).drop_first() =~= nonces.skip(i + 1));
    assert(ciphertexts.skip(i).drop_first() =~= ciphertexts.skip(i + 1));
}

/// Reading a stream of frames, however it arrives in pieces: a decoder
/// that has read the first `i` frames and holds any `k` further bytes of the
/// stream never sees a malformed frame. While fewer bytes than the next
/// whole frame have come, no frame is ready (the reader waits for more);
/// once the whole frame has come, it opens to that frame's decryption, and
/// consuming it leaves exactly the buffer of a decoder that has read `i + 1`
/// frames and holds the bytes received beyond it. After the last frame the
/// buffer is empty, which is a clean end of the stream.
pub proof fn law_frame_stream_reads_back(key: Seq<u8>, nonces: Seq<Seq<u8>>, ciphertexts: Seq<Seq<u8>>, i: int, k: int)
    requires
        frames_well_formed(nonces, ciphertexts),
        0 <= i <= ciphertexts.len(),
        0 <= k <= frame_stream(nonces.skip(i), ciphertexts.skip(i)).len(),
    ensures
        !frame_malformed(stream_buffer(nonces, ciphertexts, i, k)),
        i == ciphertexts.len() ==> stream_buffer(nonces, ciphertexts, i, k).len() == 0,
        i < ciphertexts.len() && k < 28 + ciphertexts[i].len() ==> !frame_ready(stream_buffer(nonces, ciphertexts, i, k)),
        i < ciphertexts.len() && k >= 28 + ciphertexts[i].len() ==> {
            &&& frame_ready(stream_buffer(nonces, ciphertexts, i, k))
            &&& open_outcome(key, stream_buffer(nonces, ciphertexts, i, k))
                == stream_frame_outcome(key, nonces[i], ciphertexts[i])
            &&& stream_buffer(nonces, ciphertexts, i, k).skip(28).skip(ciphertexts[i].len() as int)
                == stream_buffer(nonces, ciphertexts, i + 1, k - 28 - ciphertexts[i].len())
        },
{
    let buf = stream_buffer(nonces, ciphertexts, i, k);
    if i == ciphertexts.len() {
        assert(nonces.skip(i).len() == 0);
        assert(ciphertexts.skip(i).len() == 0);
        assert(frame_stream(nonces.skip(i), ciphertexts.skip(i)).len() == 0);
        assert(buf.len() == 0);
    } else {
        assert(nonces[i].len() == 24 && 24 + ciphertexts[i].len() <= u32::MAX);
        lemma_frame_stream_unfold(nonces, ciphertexts, i);
        let f = frame_bytes(nonces[i], ciphertexts[i]);
        let rest = frame_stream(nonces.skip(i + 1), ciphertexts.skip(i + 1));
        let n = (24 + ciphertexts[i].len()) as u32;
        lemma_be32_roundtrip(n);
        assert(f.len() == 28 + ciphertexts[i].len());
        if k >= 4 {
            assert(buf.take(4) =~= be32_bytes(n));
            assert(declared_len(buf) == 24 + ciphertexts[i].len());
        }
        if k >= 28 + ciphertexts[i].len() {
            let more = rest.take(k - 28 - ciphertexts[i].len());
            assert(buf =~= f + more);
            lemma_frame_parses(nonces[i], ciphertexts[i], more);
            law_open_then_consume_leaves_rest(nonces[i], ciphertexts[i], more);
        }
    }
}

/// A transport that seals each message in an XChaCha20-Poly1305 frame.
pub struct EncryptedFrameCodec {
    key: [u8; 32],
    read_buf: BytesMut,
    write_buf: BytesMut,
}

impl EncryptedFrameCodec {
    /// The frame key.
    pub closed spec fn key_bytes(&self) -> Seq<u8> {
        self.key@
    }

    /// The received bytes not yet consumed.
    pub closed spec fn inbound(&self) -> Seq<u8> {
        bytes_mut_contents(self.read_buf)
    }

    /// The staged bytes not yet sent.
    pub closed spec fn outbound(&self) -> Seq<u8> {
        bytes_mut_contents(self.write_buf)
    }

    pub fn new(key: [u8; 32]) -> (c: Self)
        ensures
            c.key_bytes() == key@,
            c.inbound() == Seq::<u8>::empty(),
            c.outbound() == Seq::<u8>::empty(),
    {
        EncryptedFrameCodec { key, read_buf: bytes_with_capacity(8192), write_buf: bytes_with_capacity(8192) }
    }

    /// Appends received bytes to the inbound buffer.
    pub fn feed(&mut self, data: &[u8])
        requires
            old(self).inbound().len() + data@.len() <= isize::MAX,
        ensures
            final(self).inbound() == old(self).inbound() + data@,
            final(self).outbound() == old(self).outbound(),
            final(self).key_bytes() == old(self).key_bytes(),
    {
        bytes_put_slice(&mut self.read_buf, data);
    }

    /// The number of received bytes not yet consumed.
    pub fn inbound_len(&self) -> (n: usize)
        ensures
            n == self.inbound().len(),
    {
        bytes_len(&self.read_buf)
    }

    /// The length the first inbound frame declares, once its prefix is in.
    fn declared(&self) -> (n: Option<usize>)
        ensures
            n is Some <==> self.inbound().len() >= 4,
            n matches Some(v) ==> v == declared_len(self.inbound()),
    {
        let buf = bytes_as_slice(&self.read_buf);
        if buf.len() < 4 {
            return None;
        }
        let v: u64 = (buf[0] as u64) * 0x1000000 + (buf[1] as u64) * 0x10000 + (buf[2] as u64) * 0x100
            + (buf[3] as u64);
        assert(buf@.take(4)[0] == buf@[0] && buf@.take(4)[1] == buf@[1] && buf@.take(4)[2] == buf@[2]
            && buf@.take(4)[3] == buf@[3]);
        if v > usize::MAX as u64 {
            assert(false) by {
                assert(v <= 0xFFFFFFFF);
            }
            return None;
        }
        Some(v as usize)
    }

    /// Whether the inbound buffer holds a whole frame that declares less
    /// than a nonce; such a frame cannot be opened.
    pub fn pending_frame_is_malformed(&self) -> (b: bool)
        ensures
            b == frame_malformed(self.inbound()),
    {
        match self.declared() {
            Some(total) => self.inbound_len() - 4 >= total && total < FRAME_NONCE_LEN,
            None => false,
        }
    }

    /// Opens the first inbound frame, if it is all in. A frame that declares
    /// less than a nonce is refused as malformed and left in the buffer.
    /// Otherwise its length prefix and nonce are dropped from the buffer
    /// whether or not it authenticates; its ciphertext stays until `consume`.
    pub fn open_frame(&mut self) -> (r: Result<Option<OpenedFrame>, TransportError>)
        ensures
            final(self).key_bytes() == old(self).key_bytes(),
            final(self).outbound() == old(self).outbound(),
            r matches Ok(None) <==> !frame_ready(old(self).inbound()),
            frame_malformed(old(self).inbound()) ==> (r matches Err(e) && e == TransportError::MalformedFrame),
            !frame_ready(old(self).inbound()) || frame_malformed(old(self).inbound())
                ==> final(self).inbound() == old(self).inbound(),
            frame_ready(old(self).inbound()) && !frame_malformed(old(self).inbound())
                ==> final(self).inbound() == old(self).inbound().skip(28),
            frame_ready(old(self).inbound()) && !frame_malformed(old(self).inbound())
                ==> opened_view(r) == open_outcome(old(self).key_bytes(), old(self).inbound()),
    {
        let total = match self.declared() {
            Some(t) => t,
            None => return Ok(None),
        };
        if self.inbound_len() - 4 < total {
            return Ok(None);
        }
        if total < FRAME_NONCE_LEN {
            return Err(TransportError::MalformedFrame);
        }
        let ghost buf0 = self.inbound();
        bytes_advance(&mut self.read_buf, 4);
        let mut nonce = [0u8; 24];
        let rest = bytes_as_slice(&self.read_buf);
        let mut i: usize = 0;
        while i < 24
            invariant
                i <= 24,
                rest@ == buf0.skip(4),
                rest@.len() >= 24,
                nonce@.len() == 24,
                forall|k: int| 0 <= k < i ==> nonce@[k] == rest@[k],
            decreases 24 - i,
        {
            nonce[i] = rest[i];
            i = i + 1;
        }
        assert(nonce@ =~= frame_nonce(buf0));
        bytes_advance(&mut self.read_buf, 24);
        let ciphertext_len = total - FRAME_NONCE_LEN;
        let body = bytes_as_slice(&self.read_buf);
        let ciphertext = &body[0..ciphertext_len];
        assert(ciphertext@ =~= frame_ciphertext(buf0));
        assert(self.inbound() =~= buf0.skip(28));
        match decrypt(&self.key, &nonce, ciphertext) {
            Ok(plaintext) => Ok(Some(OpenedFrame { plaintext, ciphertext_len })),
            Err(e) => Err(TransportError::Crypto(e)),
        }
    }

    /// What the end of the inbound stream means: a clean close when no
    /// received byte is left over, otherwise a connection closed in the
    /// middle of a frame.
    pub fn end_of_stream(&self) -> (r: Result<(), TransportError>)
        ensures
            r is Ok <==> self.inbound().len() == 0,
            r matches Err(e) ==> e == TransportError::ConnectionClosed,
    {
        if self.inbound_len() == 0 {
            Ok(())
        } else {
            Err(TransportError::ConnectionClosed)
        }
    }

    /// Drops the first `n` inbound bytes (the ciphertext of a frame once its
    /// message has been decoded).
    pub fn consume(&mut self, n: usize)
        requires
            n <= old(self).inbound().len(),
        ensures
            final(self).inbound() == old(self).inbound().skip(n as int),
            final(self).outbound() == old(self).outbound(),
            final(self).key_bytes() == old(self).key_bytes(),
    {
        bytes_advance(&mut self.read_buf, n);
    }

    /// Encrypts `plaintext` under `nonce` and appends its frame to the
    /// outbound buffer. Succeeds exactly for plaintexts the cipher accepts;
    /// a decoder with the same key that holds the frame opens it to the
    /// plaintext, as long as the frame's length fits its 32-bit prefix.
    pub fn stage_frame(&mut self, plaintext: &[u8], nonce: &[u8; 24]) -> (r: Result<(), TransportError>)
        requires
            old(self).outbound().len() + plaintext@.len() + 44 <= isize::MAX,
        ensures
            final(self).key_bytes() == old(self).key_bytes(),
            final(self).inbound() == old(self).inbound(),
            r is Ok <==> plaintext@.len() < AEAD_MAX_PLAINTEXT_LEN,
            r matches Err(e) ==> e == TransportError::Crypto(CryptoError::EncryptionFailed)
                && final(self).outbound() == old(self).outbound(),
            r is Ok ==> final(self).outbound() == old(self).outbound() + frame_bytes(
                nonce@,
                xchacha20poly1305_seal(old(self).key_bytes(), nonce@, plaintext@),
            ),
            r is Ok ==> xchacha20poly1305_seal(old(self).key_bytes(), nonce@, plaintext@).len() == plaintext@.len() + 16,
            r is Ok ==> frame_opens_to(old(self).key_bytes(), nonce@, plaintext@),
    {
        let ciphertext = match encrypt(&self.key, nonce, plaintext) {
            Ok(c) => c,
            Err(e) => return Err(TransportError::Crypto(e)),
        };
        let total_len = (24 + ciphertext.len()) as u32;
        bytes_put_u32(&mut self.write_buf, total_len);
        bytes_put_slice(&mut self.write_buf, nonce.as_slice());
        bytes_put_slice(&mut self.write_buf, ciphertext.as_slice());
        assert(self.outbound() =~= old(self).outbound() + frame_bytes(nonce@, ciphertext@));
        proof {
            if plaintext@.len() + 40 <= u32::MAX {
                assert forall|rest: Seq<u8>| #![trigger frame_bytes(nonce@, ciphertext@) + rest]
                    open_outcome(self.key@, frame_bytes(nonce@, ciphertext@) + rest)
                        == Ok::<(Seq<u8>, nat), TransportError>((plaintext@, plaintext@.len() + 16)) by {
                    lemma_frame_parses(nonce@, ciphertext@, rest);
                }
            }
        }
        Ok(())
    }

    /// Encrypts `plaintext` under a fresh random nonce and appends its frame
    /// to the outbound buffer. Succeeds exactly for plaintexts the cipher
    /// accepts; the staged frame reads back to the plaintext.
    pub fn stage_message(&mut self, plaintext: &[u8]) -> (r: Result<(), TransportError>)
        requires
            old(self).outbound().len() + plaintext@.len() + 44 <= isize::MAX,
        ensures
            final(self).key_bytes() == old(self).key_bytes(),
            final(self).inbound() == old(self).inbound(),
            r is Ok <==> plaintext@.len() < AEAD_MAX_PLAINTEXT_LEN,
            r matches Err(e) ==> e == TransportError::Crypto(CryptoError::EncryptionFailed)
                && final(self).outbound() == old(self).outbound(),
            r is Ok ==> exists|nonce: Seq<u8>|
                nonce.len() == 24 && #[trigger] final(self).outbound() == old(self).outbound() + frame_bytes(
                    nonce,
                    xchacha20poly1305_seal(old(self).key_bytes(), nonce, plaintext@),
                ) && xchacha20poly1305_seal(old(self).key_bytes(), nonce, plaintext@).len() == plaintext@.len() + 16
                && frame_opens_to(old(self).key_bytes(), nonce, plaintext@),
    {
        let nonce = thread_random_nonce();
        self.stage_frame(plaintext, &nonce)
    }

    /// The staged bytes not yet sent.
    pub fn pending_output(&self) -> (s: &[u8])
        ensures
            s@ == self.outbound(),
    {
        bytes_as_slice(&self.write_buf)
    }

    /// Forgets the staged bytes once they have been sent.
    pub fn clear_output(&mut self)
        ensures
            final(self).outbound() == Seq::<u8>::empty(),
            final(self).inbound() == old(self).inbound(),
            final(self).key_bytes() == old(self).key_bytes(),
    {
        bytes_clear(&mut self.write_buf);
    }
}

} // verus!
