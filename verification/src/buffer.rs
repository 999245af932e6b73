use vstd::prelude::*;
use crate::error::{bare, caused, ErrorKind, ErrorView, VoiceError};

verus! {

/// Lowest bitrate, in bits per second, that the wire codec supports.
pub const MIN_BITRATE: i32 = 500;

/// Highest bitrate, in bits per second, that the wire codec supports.
pub const MAX_BITRATE: i32 = 512000;

/// Longest packet, in bytes, that the buffer's length prefix can describe:
/// the prefix is a signed 16-bit number, low byte first, and never negative.
pub const MAX_PACKET_BYTES: usize = 32767;

/// Milliseconds of audio in one packet.
pub const FRAME_MILLIS: u64 = 20;

/// Whether the wire codec supports `bitrate`.
pub open spec fn bitrate_supported(bitrate: i32) -> bool {
    MIN_BITRATE <= bitrate <= MAX_BITRATE
}

/// Whether the wire codec supports `bitrate`.
pub fn is_bitrate_supported(bitrate: i32) -> (ok: bool)
    ensures
        ok == bitrate_supported(bitrate),
{
    MIN_BITRATE <= bitrate && bitrate <= MAX_BITRATE
}

/// The payloads of a list of packets.
pub open spec fn payloads(packets: Seq<Vec<u8>>) -> Seq<Seq<u8>> {
    Seq::new(packets.len(), |i: int| packets[i]@)
}

/// Whether every packet is short enough for its length prefix.
pub open spec fn all_storable(packets: Seq<Seq<u8>>) -> bool {
    forall|i: int| 0 <= i < packets.len() ==> (#[trigger] packets[i]).len() <= MAX_PACKET_BYTES
}

/// The two bytes that precede a packet of `len` bytes: its length, low byte first.
pub open spec fn prefix(len: nat) -> Seq<u8> {
    seq![(len % 256) as u8, (len / 256) as u8]
}

/// The byte buffer that holds `packets` one after another, each behind its
/// length prefix.
pub open spec fn framed(packets: Seq<Seq<u8>>) -> Seq<u8>
    decreases packets.len(),
{
    if packets.len() == 0 {
        Seq::empty()
    } else {
        framed(packets.drop_last()) + prefix(packets.last().len()) + packets.last()
    }
}

/// Where in the framed buffer the prefix of packet `i` begins; for `i` the
/// number of packets, the buffer's length.
pub open spec fn offset(packets: Seq<Seq<u8>>, i: int) -> int
    recommends
        0 <= i <= packets.len(),
    decreases i,
{
    if i <= 0 {
        0
    } else {
        offset(packets, i - 1) + 2 + packets[i - 1].len()
    }
}

/// The length that the two bytes at `at` declare, low byte first.
pub open spec fn declared_len(bytes: Seq<u8>, at: int) -> int {
    bytes[at] as int + 256 * (bytes[at + 1] as int)
}

/// The packets that a framed byte buffer holds, read from its front; `None`
/// where the bytes are not the framing of any packets: a prefix is cut
/// short, declares a negative length, or declares more than is there.
pub open spec fn unframed(bytes: Seq<u8>) -> Option<Seq<Seq<u8>>>
    decreases bytes.len(),
{
    if bytes.len() == 0 {
        Some(Seq::empty())
    } else if bytes.len() < 2 {
        None
    } else {
        let n = declared_len(bytes, 0);
        if n > MAX_PACKET_BYTES || 2 + n > bytes.len() {
            None
        } else {
            match unframed(bytes.skip(2 + n)) {
                Some(rest) => Some(seq![bytes.subrange(2, 2 + n)] + rest),
                None => None,
            }
        }
    }
}

/// The cause reported when a byte buffer is not the framing of any packets.
pub open spec fn malformed_framing() -> Seq<char> {
    "the encoded bytes are not a sequence of length-prefixed packets"@
}

/// The cause reported when the encoder hands over a packet too long to store.
pub open spec fn oversized_packet() -> Seq<char> {
    "an encoded packet is too long to store"@
}

/// An immutable, fully materialised encoding of a source at one bitrate:
/// the packets behind their length prefixes in one byte buffer, and a seek
/// index with the offset of every packet.
#[derive(Debug)]
pub struct CompressedBuffer {
    bytes: Vec<u8>,
    index: Vec<usize>,
    bitrate: i32,
}

/// A compressed buffer as a mathematical value.
pub struct BufferView {
    pub packets: Seq<Seq<u8>>,
    pub bitrate: i32,
}

impl View for CompressedBuffer {
    type V = BufferView;

    closed spec fn view(&self) -> BufferView {
        BufferView { packets: indexed(self.bytes@, self.index@), bitrate: self.bitrate }
    }
}

/// The packets that a seek index marks out in a byte buffer: packet `i`
/// stands two bytes past offset `i` and ends at offset `i + 1`.
pub open spec fn indexed(bytes: Seq<u8>, index: Seq<usize>) -> Seq<Seq<u8>> {
    Seq::new(
        (index.len() - 1) as nat,
        |i: int| bytes.subrange(index[i] + 2, index[i + 1] as int),
    )
}

/// The offsets only depend on the packets before them.
proof fn offset_of_prefix(packets: Seq<Seq<u8>>, n: int, i: int)
    requires
        0 <= i <= n <= packets.len(),
    ensures
        offset(packets.take(n), i) == offset(packets, i),
    decreases i,
{
    if i > 0 {
        offset_of_prefix(packets, n, i - 1);
    }
}

/// The framed buffer is as long as the offset past its last packet.
proof fn framed_length(packets: Seq<Seq<u8>>)
    ensures
        framed(packets).len() == offset(packets, packets.len() as int),
    decreases packets.len(),
{
    if packets.len() > 0 {
        let n = packets.len();
        framed_length(packets.drop_last());
        assert(packets.drop_last() =~= packets.take(n - 1));
        offset_of_prefix(packets, n - 1, n - 1);
    }
}

impl CompressedBuffer {
    /// The invariant: the bitrate is supported, the byte buffer is exactly
    /// the framing of the packets, and the seek index holds every packet's
    /// offset and, last, the buffer's length.
    #[verifier::type_invariant]
    closed spec fn wf(&self) -> bool {
        &&& bitrate_supported(self.bitrate)
        &&& self.index@.len() >= 1
        &&& all_storable(self@.packets)
        &&& self.bytes@ == framed(self@.packets)
        &&& forall|i: int|
            0 <= i < self.index@.len() ==> #[trigger] self.index@[i] == offset(
                self@.packets,
                i,
            )
    }

    /// What `assemble` returns for these packets and this bitrate.
    pub open spec fn assemble_outcome(packets: Seq<Seq<u8>>, bitrate: i32) -> Result<
        BufferView,
        ErrorView,
    > {
        if !bitrate_supported(bitrate) {
            Err(bare(ErrorKind::InvalidBitrate))
        } else if !all_storable(packets) {
            Err(caused(ErrorKind::CompressionError, oversized_packet()))
        } else {
            Ok(BufferView { packets, bitrate })
        }
    }

    /// Stores the encoder's packets, in order, as one buffer encoded at
    /// `bitrate`. Fails with `InvalidBitrate` when the codec does not
    /// support the bitrate, else with `CompressionError` when a packet is
    /// longer than `MAX_PACKET_BYTES`.
    pub fn assemble(packets: &Vec<Vec<u8>>, bitrate: i32) -> (r: Result<
        CompressedBuffer,
        VoiceError,
    >)
        ensures
            match r {
                Ok(b) => Self::assemble_outcome(payloads(packets@), bitrate) == Ok::<
                    BufferView,
                    ErrorView,
                >(b@),
                Err(e) => Self::assemble_outcome(payloads(packets@), bitrate) == Err::<
                    BufferView,
                    ErrorView,
                >(e@),
            },
    {
        if !is_bitrate_supported(bitrate) {
            return Err(VoiceError::InvalidBitrate);
        }
        let ghost all = payloads(packets@);
        let mut bytes: Vec<u8> = Vec::new();
        let mut index: Vec<usize> = Vec::new();
        index.push(0);
        let mut done: usize = 0;
        while done < packets.len()
            invariant
                done <= packets.len(),
                bitrate_supported(bitrate),
                all == payloads(packets@),
                all_storable(all.take(done as int)),
                bytes@ == framed(all.take(done as int)),
                index@.len() == done + 1,
                forall|i: int|
                    0 <= i <= done ==> #[trigger] index@[i] == offset(all.take(done as int), i),
            decreases packets.len() - done,
        {
            let packet = &packets[done];
            let len = packet.len();
            if len > MAX_PACKET_BYTES {
                proof {
                    assert(all[done as int] == packet@);
                    assert(!all_storable(all));
                }
                return Err(
                    VoiceError::CompressionError("an encoded packet is too long to store".to_owned()),
                );
            }
            let ghost before = all.take(done as int);
            let ghost after = all.take(done + 1);
            proof {
                assert(after.drop_last() =~= before);
                assert(after.last() == packet@);
                framed_length(before);
                framed_length(after);
                assert forall|i: int| 0 <= i <= done implies offset(after, i) == offset(
                    before,
                    i,
                ) by {
                    offset_of_prefix(all, done as int, i);
                    offset_of_prefix(all, done + 1, i);
                }
                assert(all_storable(after)) by {
                    assert forall|i: int| 0 <= i < after.len() implies (#[trigger] after[i]).len()
                        <= MAX_PACKET_BYTES by {
                        if i < done {
                            assert(after[i] == before[i]);
                        }
                    }
                }
            }
            bytes.push((len % 256) as u8);
            bytes.push((len / 256) as u8);
            bytes.extend_from_slice(packet.as_slice());
            proof {
                assert(bytes@ =~= framed(before) + prefix(len as nat) + packet@);
            }
            index.push(bytes.len());
            done = done + 1;
        }
        proof {
            assert(all.take(done as int) =~= all);
        }
        proof {
            index_recovers_packets(bytes@, index@, all);
        }
        Ok(CompressedBuffer { bytes, index, bitrate })
    }

    /// What `parse` returns for these bytes and this bitrate.
    pub open spec fn parse_outcome(bytes: Seq<u8>, bitrate: i32) -> Result<BufferView, ErrorView> {
        if !bitrate_supported(bitrate) {
            Err(bare(ErrorKind::InvalidBitrate))
        } else {
            match unframed(bytes) {
                Some(packets) => Ok(BufferView { packets, bitrate }),
                None => Err(caused(ErrorKind::CompressionError, malformed_framing())),
            }
        }
    }

    /// Takes over an encoder's output that is already framed: packets one
    /// after another, each behind its two-byte length. The bytes are kept
    /// as they are and the seek index is built from the lengths. Fails with
    /// `InvalidBitrate` when the codec does not support the bitrate, else
    /// with `CompressionError` when the bytes are not such a framing.
    pub fn parse(bytes: Vec<u8>, bitrate: i32) -> (r: Result<CompressedBuffer, VoiceError>)
        ensures
            match r {
                Ok(b) => Self::parse_outcome(bytes@, bitrate) == Ok::<BufferView, ErrorView>(b@),
                Err(e) => Self::parse_outcome(bytes@, bitrate) == Err::<BufferView, ErrorView>(e@),
            },
    {
        if !is_bitrate_supported(bitrate) {
            return Err(VoiceError::InvalidBitrate);
        }
        let total = bytes.len();
        let mut index: Vec<usize> = Vec::new();
        index.push(0);
        let mut at: usize = 0;
        let ghost mut found: Seq<Seq<u8>> = Seq::empty();
        proof {
            assert(bytes@.skip(0) =~= bytes@);
            assert(found + unframed(bytes@)->0 =~= unframed(bytes@)->0);
            assert(bytes@.take(0) =~= framed(found));
        }
        while at < total
            invariant
                at <= total == bytes@.len(),
                bitrate_supported(bitrate),
                all_storable(found),
                bytes@.take(at as int) == framed(found),
                unframed(bytes@) == match unframed(bytes@.skip(at as int)) {
                    Some(rest) => Some(found + rest),
                    None => None,
                },
                index@.len() == found.len() + 1,
                forall|i: int| 0 <= i <= found.len() ==> #[trigger] index@[i] == offset(found, i),
                offset(found, found.len() as int) == at,
            decreases total - at,
        {
            let ghost tail = bytes@.skip(at as int);
            if total - at < 2 {
                return Err(
                    VoiceError::CompressionError(
                        "the encoded bytes are not a sequence of length-prefixed packets".to_owned(),
                    ),
                );
            }
            let low = bytes[at] as usize;
            let high = bytes[at + 1] as usize;
            let len = low + 256 * high;
            proof {
                assert(declared_len(tail, 0) == len);
            }
            if len > MAX_PACKET_BYTES || len > total - at - 2 {
                return Err(
                    VoiceError::CompressionError(
                        "the encoded bytes are not a sequence of length-prefixed packets".to_owned(),
                    ),
                );
            }
            let ghost payload = bytes@.subrange(at + 2, at + 2 + len);
            let ghost grown = found.push(payload);
            proof {
                assert(tail.subrange(2, 2 + len) =~= payload);
                assert(tail.skip(2 + len) =~= bytes@.skip(at + 2 + len));
                if let Some(rest) = unframed(bytes@.skip(at + 2 + len)) {
                    assert(found + (seq![payload] + rest) =~= grown + rest);
                }
                assert(grown.drop_last() =~= found);
                assert(prefix(len as nat) =~= bytes@.subrange(at as int, at + 2));
                assert(bytes@.take(at + 2 + len) =~= bytes@.take(at as int) + bytes@.subrange(
                    at as int,
                    at + 2,
                ) + payload);
                assert forall|i: int| 0 <= i <= found.len() implies offset(grown, i) == offset(
                    found,
                    i,
                ) by {
                    assert(grown.take(found.len() as int) =~= found);
                    offset_of_prefix(grown, found.len() as int, i);
                }
                assert(all_storable(grown)) by {
                    assert forall|i: int| 0 <= i < grown.len() implies (#[trigger] grown[i]).len()
                        <= MAX_PACKET_BYTES by {
                        if i < found.len() {
                            assert(grown[i] == found[i]);
                        }
                    }
                }
                found = grown;
            }
            at = at + 2 + len;
            index.push(at);
        }
        proof {
            assert(bytes@.take(at as int) =~= bytes@);
            assert(bytes@.skip(at as int) =~= Seq::<u8>::empty());
            assert(found + Seq::<Seq<u8>>::empty() =~= found);
            index_recovers_packets(bytes@, index@, found);
        }
        Ok(CompressedBuffer { bytes, index, bitrate })
    }

    /// How many packets the buffer holds.
    pub fn len(&self) -> (n: usize)
        ensures
            n == self@.packets.len(),
    {
        proof {
            use_type_invariant(self);
        }
        self.index.len() - 1
    }

    /// The bitrate the packets were encoded at.
    pub fn bitrate(&self) -> (b: i32)
        ensures
            b == self@.bitrate,
    {
        self.bitrate
    }

    /// The audio the buffer holds, in milliseconds: `FRAME_MILLIS` for each
    /// packet, or `u64::MAX` where that does not fit.
    pub fn duration_ms(&self) -> (ms: u64)
        ensures
            ms == if self@.packets.len() * FRAME_MILLIS <= u64::MAX {
                self@.packets.len() * FRAME_MILLIS
            } else {
                u64::MAX as int
            },
    {
        let n = self.len() as u64;
        if n <= u64::MAX / FRAME_MILLIS {
            n * FRAME_MILLIS
        } else {
            u64::MAX
        }
    }

    /// The encoded bytes as they are held: every packet behind its length
    /// prefix, in order.
    pub fn as_bytes(&self) -> (bytes: &Vec<u8>)
        ensures
            bytes@ == framed(self@.packets),
    {
        proof {
            use_type_invariant(self);
        }
        &self.bytes
    }

    /// The seek index's entry for packet `i`: where in the encoded bytes
    /// its length prefix begins. `None` exactly when the buffer holds no
    /// such packet.
    pub fn offset_of(&self, i: usize) -> (at: Option<usize>)
        ensures
            i < self@.packets.len() ==> at == Some(offset(self@.packets, i as int) as usize),
            i < self@.packets.len() ==> offset(self@.packets, i as int) + 2 <= framed(
                self@.packets,
            ).len(),
            i >= self@.packets.len() ==> at is None,
    {
        proof {
            use_type_invariant(self);
            if i < self@.packets.len() {
                framed_holds(self@.packets, i as int);
                offsets_ascend(self@.packets, i as int, i + 1);
            }
        }
        if i < self.index.len() - 1 {
            Some(self.index[i])
        } else {
            None
        }
    }

    /// A copy of packet `i`, found through the seek index; `None` exactly
    /// when the buffer holds no such packet.
    pub fn packet(&self, i: usize) -> (p: Option<Vec<u8>>)
        ensures
            i < self@.packets.len() ==> p is Some && p->0@ == self@.packets[i as int],
            i >= self@.packets.len() ==> p is None,
    {
        proof {
            use_type_invariant(self);
        }
        if i >= self.index.len() - 1 {
            return None;
        }
        let start = self.index[i];
        let end = self.index[i + 1];
        proof {
            framed_length(self@.packets);
            offsets_ascend(self@.packets, i as int, i + 1);
            offsets_ascend(self@.packets, i + 1, self@.packets.len() as int);
        }
        let mut out: Vec<u8> = Vec::new();
        let mut at: usize = start + 2;
        while at < end
            invariant
                start + 2 <= at <= end <= self.bytes@.len(),
                out@ == self.bytes@.subrange(start + 2, at as int),
            decreases end - at,
        {
            out.push(self.bytes[at]);
            at = at + 1;
            proof {
                assert(out@ =~= self.bytes@.subrange(start + 2, at as int));
            }
        }
        Some(out)
    }
}

/// A byte buffer that frames `packets`, with an index that holds their
/// offsets, yields exactly `packets` through that index.
pub proof fn index_recovers_packets(bytes: Seq<u8>, index: Seq<usize>, packets: Seq<Seq<u8>>)
    requires
        bytes == framed(packets),
        index.len() == packets.len() + 1,
        forall|i: int| 0 <= i <= packets.len() ==> #[trigger] index[i] == offset(packets, i),
    ensures
        indexed(bytes, index) == packets,
{
    assert forall|i: int| 0 <= i < packets.len() implies bytes.subrange(
        index[i] + 2,
        index[i + 1] as int,
    ) == packets[i] by {
        framed_holds(packets, i);
    }
    assert(indexed(bytes, index) =~= packets);
}

/// Framing two lists of packets one after the other frames them together.
pub proof fn framed_appends(a: Seq<Seq<u8>>, b: Seq<Seq<u8>>)
    ensures
        framed(a + b) == framed(a) + framed(b),
    decreases b.len(),
{
    if b.len() == 0 {
        assert(a + b =~= a);
        assert(framed(a) + framed(b) =~= framed(a));
    } else {
        framed_appends(a, b.drop_last());
        assert((a + b).drop_last() =~= a + b.drop_last());
        assert((a + b).last() == b.last());
        assert(framed(a + b) =~= framed(a) + framed(b));
    }
}

/// One packet is framed as its prefix and its payload.
pub proof fn framed_single(packet: Seq<u8>)
    ensures
        framed(seq![packet]) == prefix(packet.len()) + packet,
{
    let one = seq![packet];
    assert(one.drop_last() =~= Seq::<Seq<u8>>::empty());
    assert(framed(one.drop_last()) =~= Seq::<u8>::empty());
    assert(one.last() == packet);
    assert(framed(one) =~= prefix(packet.len()) + packet);
}

/// Reading a framing back gives the packets that were framed: nothing is
/// lost and nothing is added, whatever the packets hold.
pub proof fn unframed_inverts_framed(packets: Seq<Seq<u8>>)
    requires
        all_storable(packets),
    ensures
        unframed(framed(packets)) == Some(packets),
    decreases packets.len(),
{
    if packets.len() > 0 {
        let first = packets[0];
        let rest = packets.skip(1);
        let bytes = framed(packets);
        assert(packets =~= seq![first] + rest);
        framed_appends(seq![first], rest);
        framed_single(first);
        assert(bytes =~= prefix(first.len()) + first + framed(rest));
        assert(declared_len(bytes, 0) == first.len());
        assert(bytes.skip(2 + first.len() as int) =~= framed(rest));
        assert(bytes.subrange(2, 2 + first.len() as int) =~= first);
        assert forall|i: int| 0 <= i < rest.len() implies (#[trigger] rest[i]).len()
            <= MAX_PACKET_BYTES by {
            assert(rest[i] == packets[i + 1]);
        }
        unframed_inverts_framed(rest);
    }
}

/// What can be read back from bytes frames to exactly those bytes, and
/// every packet read is short enough to store.
pub proof fn framed_inverts_unframed(bytes: Seq<u8>)
    requires
        unframed(bytes) is Some,
    ensures
        framed(unframed(bytes)->0) == bytes,
        all_storable(unframed(bytes)->0),
    decreases bytes.len(),
{
    if bytes.len() > 0 {
        let n = declared_len(bytes, 0);
        let first = bytes.subrange(2, 2 + n);
        let tail = bytes.skip(2 + n);
        let rest = unframed(tail)->0;
        framed_inverts_unframed(tail);
        framed_appends(seq![first], rest);
        framed_single(first);
        assert(prefix(first.len()) =~= bytes.subrange(0, 2));
        assert(framed(seq![first] + rest) =~= bytes);
        assert forall|i: int| 0 <= i < (seq![first] + rest).len() implies (#[trigger] (seq![first]
            + rest)[i]).len() <= MAX_PACKET_BYTES by {
            if i > 0 {
                assert((seq![first] + rest)[i] == rest[i - 1]);
            }
        }
    } else {
        assert(unframed(bytes)->0 =~= Seq::<Seq<u8>>::empty());
    }
}

/// Offsets never decrease, and each packet takes its prefix and its payload.
pub proof fn offsets_ascend(packets: Seq<Seq<u8>>, i: int, j: int)
    requires
        0 <= i <= j <= packets.len(),
    ensures
        offset(packets, i) <= offset(packets, j),
        i < j ==> offset(packets, i) + 2 + packets[i].len() <= offset(packets, j),
    decreases j,
{
    if i < j {
        offsets_ascend(packets, i, j - 1);
    }
}

/// In the framed buffer, packet `i` stands two bytes past its offset and
/// ends where the next one's prefix begins.
pub proof fn framed_holds(packets: Seq<Seq<u8>>, i: int)
    requires
        0 <= i < packets.len(),
    ensures
        offset(packets, i + 1) <= framed(packets).len(),
        framed(packets).subrange(
            offset(packets, i) + 2,
            offset(packets, i + 1) as int,
        ) == packets[i],
        framed(packets).subrange(
            offset(packets, i) as int,
            offset(packets, i) + 2,
        ) == prefix(packets[i].len()),
    decreases packets.len(),
{
    let n = packets.len();
    let front = packets.drop_last();
    framed_length(packets);
    framed_length(front);
    assert(front =~= packets.take(n - 1));
    offsets_ascend(packets, i + 1, n as int);
    offsets_ascend(packets, 0, i);
    if i == n - 1 {
        offset_of_prefix(packets, n - 1, n - 1);
        assert(framed(packets).subrange(
            offset(packets, i) + 2,
            offset(packets, i + 1) as int,
        ) =~= packets[i]);
        assert(framed(packets).subrange(
            offset(packets, i) as int,
            offset(packets, i) + 2,
        ) =~= prefix(packets[i].len()));
    } else {
        framed_holds(front, i);
        offset_of_prefix(packets, n - 1, i);
        offset_of_prefix(packets, n - 1, i + 1);
        assert(framed(packets).subrange(
            offset(packets, i) + 2,
            offset(packets, i + 1) as int,
        ) =~= framed(front).subrange(
            offset(front, i) + 2,
            offset(front, i + 1) as int,
        ));
        assert(framed(packets).subrange(
            offset(packets, i) as int,
            offset(packets, i) + 2,
        ) =~= framed(front).subrange(
            offset(front, i) as int,
            offset(front, i) + 2,
        ));
    }
}

} // verus!
