//! Shared framing layer: the 16-bit checksum both wire protocols append to
//! every frame, append/validate helpers, the serial-link abstraction, and a
//! bounded-deadline exact read.
//!
//! The checksum processes each byte LSB-first with polynomial 0xA001 and
//! initial value 0xFFFF, and is appended little-endian (low byte first).

use vstd::prelude::*;

use crate::errors::TransportError;

verus! {

/// One LSB-first shift step of the checksum state.
pub open spec fn crc16_shift(c: u16) -> u16 {
    if c & 1 == 1 {
        (c >> 1) ^ 0xA001
    } else {
        c >> 1
    }
}

/// The checksum state after `n` shift steps from `c`.
pub open spec fn crc16_shifts(c: u16, n: nat) -> u16
    decreases n,
{
    if n == 0 {
        c
    } else {
        crc16_shift(crc16_shifts(c, (n - 1) as nat))
    }
}

/// Folding one byte into the checksum state: xor, then eight shift steps.
pub open spec fn crc16_byte(c: u16, b: u8) -> u16 {
    crc16_shifts(c ^ (b as u16), 8)
}

/// The checksum state after folding every byte of `s` into `c`, in order.
pub open spec fn crc16_from(c: u16, s: Seq<u8>) -> u16
    decreases s.len(),
{
    if s.len() == 0 {
        c
    } else {
        crc16_from(crc16_byte(c, s[0]), s.drop_first())
    }
}

/// The checksum of a byte sequence, from the initial state 0xFFFF.
pub open spec fn crc16_spec(s: Seq<u8>) -> u16 {
    crc16_from(0xFFFF, s)
}

/// The low checksum byte, transmitted first.
pub open spec fn crc_lo(c: u16) -> u8 {
    (c & 0x00FF) as u8
}

/// The high checksum byte, transmitted second.
pub open spec fn crc_hi(c: u16) -> u8 {
    (c >> 8) as u8
}

/// `s` followed by its two checksum bytes, little-endian.
pub open spec fn with_crc(s: Seq<u8>) -> Seq<u8> {
    s.push(crc_lo(crc16_spec(s))).push(crc_hi(crc16_spec(s)))
}

/// The checksum value carried by the last two bytes of `s`.
pub open spec fn seen_crc(s: Seq<u8>) -> u16 {
    (s[s.len() - 2] as u16) | ((s[s.len() - 1] as u16) << 8)
}

/// A frame is acceptable when it is long enough to carry an address, a
/// command byte and a checksum, and its trailing checksum matches the one
/// recomputed over the rest.
pub open spec fn crc_ok(s: Seq<u8>) -> bool {
    &&& s.len() >= 4
    &&& crc16_spec(s.take(s.len() - 2)) == seen_crc(s)
}

/// Folding a byte appended at the end equals folding it into the state
/// reached over the prefix.
pub proof fn lemma_crc16_from_push(c: u16, s: Seq<u8>, b: u8)
    ensures
        crc16_from(c, s.push(b)) == crc16_byte(crc16_from(c, s), b),
    decreases s.len(),
{
    if s.len() == 0 {
        assert(s.push(b)[0] == b);
        assert(s.push(b).drop_first() =~= Seq::<u8>::empty());
        assert(crc16_from(c, s.push(b)) == crc16_from(crc16_byte(c, b), Seq::<u8>::empty()));
    } else {
        assert(s.push(b)[0] == s[0]);
        assert(s.push(b).drop_first() =~= s.drop_first().push(b));
        lemma_crc16_from_push(crc16_byte(c, s[0]), s.drop_first(), b);
        assert(crc16_from(c, s.push(b)) == crc16_from(
            crc16_byte(c, s[0]),
            s.drop_first().push(b),
        ));
    }
}

/// One shift step maps no two checksum states to the same state.
proof fn lemma_crc16_shift_injective(a: u16, b: u16)
    requires
        crc16_shift(a) == crc16_shift(b),
    ensures
        a == b,
{
    assert(a == b) by (bit_vector)
        requires
            crc16_shift(a) == crc16_shift(b),
    ;
}

/// Any number of shift steps maps no two checksum states to the same state.
proof fn lemma_crc16_shifts_injective(a: u16, b: u16, n: nat)
    requires
        crc16_shifts(a, n) == crc16_shifts(b, n),
    ensures
        a == b,
    decreases n,
{
    if n > 0 {
        lemma_crc16_shift_injective(crc16_shifts(a, (n - 1) as nat), crc16_shifts(b, (n - 1) as nat));
        lemma_crc16_shifts_injective(a, b, (n - 1) as nat);
    }
}

/// Folding the same byte into two different states leaves them different.
proof fn lemma_crc16_byte_keeps_diff(c1: u16, c2: u16, b: u8)
    requires
        c1 != c2,
    ensures
        crc16_byte(c1, b) != crc16_byte(c2, b),
{
    if crc16_byte(c1, b) == crc16_byte(c2, b) {
        lemma_crc16_shifts_injective(c1 ^ (b as u16), c2 ^ (b as u16), 8);
        assert(c1 == c2) by (bit_vector)
            requires
                c1 ^ (b as u16) == c2 ^ (b as u16),
        ;
    }
}

/// Folding two different bytes into the same state tells them apart.
proof fn lemma_crc16_byte_splits(c: u16, b1: u8, b2: u8)
    requires
        b1 != b2,
    ensures
        crc16_byte(c, b1) != crc16_byte(c, b2),
{
    if crc16_byte(c, b1) == crc16_byte(c, b2) {
        lemma_crc16_shifts_injective(c ^ (b1 as u16), c ^ (b2 as u16), 8);
        assert(b1 == b2) by (bit_vector)
            requires
                c ^ (b1 as u16) == c ^ (b2 as u16),
        ;
    }
}

/// Folding the same bytes into two different states leaves them different.
proof fn lemma_crc16_from_keeps_diff(c1: u16, c2: u16, s: Seq<u8>)
    requires
        c1 != c2,
    ensures
        crc16_from(c1, s) != crc16_from(c2, s),
    decreases s.len(),
{
    if s.len() > 0 {
        lemma_crc16_byte_keeps_diff(c1, c2, s[0]);
        lemma_crc16_from_keeps_diff(crc16_byte(c1, s[0]), crc16_byte(c2, s[0]), s.drop_first());
    }
}

/// Two equal-length sequences that differ in exactly one byte have
/// different checksum states from any common starting state.
proof fn lemma_crc16_from_diff_at(c: u16, s1: Seq<u8>, s2: Seq<u8>, i: int)
    requires
        s1.len() == s2.len(),
        0 <= i < s1.len(),
        s1[i] != s2[i],
        forall|j: int| 0 <= j < s1.len() && j != i ==> s1[j] == s2[j],
    ensures
        crc16_from(c, s1) != crc16_from(c, s2),
    decreases s1.len(),
{
    if i == 0 {
        lemma_crc16_byte_splits(c, s1[0], s2[0]);
        assert(s1.drop_first() =~= s2.drop_first());
        lemma_crc16_from_keeps_diff(crc16_byte(c, s1[0]), crc16_byte(c, s2[0]), s1.drop_first());
    } else {
        assert(s1[0] == s2[0]);
        assert(forall|j: int|
            0 <= j < s1.drop_first().len() && j != i - 1 ==> s1.drop_first()[j]
                == s2.drop_first()[j]);
        lemma_crc16_from_diff_at(crc16_byte(c, s1[0]), s1.drop_first(), s2.drop_first(), i - 1);
    }
}

/// Checksum round trip: a frame of at least two bytes with its checksum
/// appended always validates.
pub proof fn lemma_append_validate_round_trip(frame: Seq<u8>)
    requires
        frame.len() >= 2,
    ensures
        crc_ok(with_crc(frame)),
{
    let t = with_crc(frame);
    let c = crc16_spec(frame);
    assert(t.take(t.len() - 2) =~= frame);
    assert(t[t.len() - 2] == crc_lo(c) && t[t.len() - 1] == crc_hi(c));
    assert((((c & 0x00FF) as u8) as u16) | ((((c >> 8) as u8) as u16) << 8) == c) by (bit_vector);
}

/// Any single-bit mutation of a checksummed frame fails validation: a flip
/// in the body changes the recomputed checksum but not the trailing bytes,
/// and a flip in the trailing bytes changes them but not the recomputed
/// checksum.
pub proof fn lemma_bit_flip_detected(frame: Seq<u8>, i: int, k: u8)
    requires
        frame.len() >= 2,
        0 <= i < frame.len() + 2,
        k < 8,
    ensures
        !crc_ok(with_crc(frame).update(i, with_crc(frame)[i] ^ (1u8 << k))),
{
    let n = frame.len() as int;
    let t = with_crc(frame);
    let m = t.update(i, t[i] ^ (1u8 << k));
    let c = crc16_spec(frame);
    lemma_append_validate_round_trip(frame);
    let flipped = t[i];
    assert(flipped ^ (1u8 << k) != flipped) by (bit_vector)
        requires
            k < 8,
    ;
    assert(t.take(n) =~= frame);
    assert(seen_crc(t) == c);
    if i < n {
        assert(m[n] == t[n] && m[n + 1] == t[n + 1]);
        assert(seen_crc(m) == seen_crc(t));
        assert(m.take(n).len() == frame.len());
        assert(m.take(n)[i] != frame[i]);
        assert(forall|j: int| 0 <= j < n && j != i ==> m.take(n)[j] == frame[j]);
        lemma_crc16_from_diff_at(0xFFFF, m.take(n), frame, i);
        assert(crc16_spec(m.take(m.len() - 2)) != seen_crc(m));
    } else {
        assert(m.take(n) =~= frame);
        assert(crc16_spec(m.take(m.len() - 2)) == c);
        let lo = t[n];
        let hi = t[n + 1];
        if i == n {
            assert(m[n] == lo ^ (1u8 << k) && m[n + 1] == hi);
            assert((((lo ^ (1u8 << k)) as u16) | ((hi as u16) << 8)) != ((lo as u16) | ((hi
                as u16) << 8))) by (bit_vector)
                requires
                    k < 8,
            ;
        } else {
            assert(m[n] == lo && m[n + 1] == hi ^ (1u8 << k));
            assert(((lo as u16) | (((hi ^ (1u8 << k)) as u16) << 8)) != ((lo as u16) | ((hi
                as u16) << 8))) by (bit_vector)
                requires
                    k < 8,
            ;
        }
        assert(seen_crc(m) != seen_crc(t));
    }
}

/// Computes the frame checksum of `data`.
pub fn crc16_modbus(data: &[u8]) -> (crc: u16)
    ensures
        crc == crc16_spec(data@),
{
    let mut crc: u16 = 0xFFFF;
    let mut i: usize = 0;
    while i < data.len()
        invariant
            i <= data@.len(),
            crc == crc16_from(0xFFFF, data@.take(i as int)),
        decreases data@.len() - i,
    {
        let b = data[i];
        let mut c = crc ^ (b as u16);
        let mut k: usize = 0;
        while k < 8
            invariant
                k <= 8,
                c == crc16_shifts(crc ^ (b as u16), k as nat),
            decreases 8 - k,
        {
            if c & 1 == 1 {
                c = (c >> 1) ^ 0xA001;
            } else {
                c = c >> 1;
            }
            k = k + 1;
        }
        proof {
            lemma_crc16_from_push(0xFFFF, data@.take(i as int), b);
            assert(data@.take(i as int).push(data@[i as int]) =~= data@.take(i + 1));
        }
        crc = c;
        i = i + 1;
    }
    proof {
        assert(data@.take(data@.len() as int) =~= data@);
    }
    crc
}

/// Returns `frame` with its checksum appended, low byte first.
pub fn append_crc(frame: &[u8]) -> (out: Vec<u8>)
    ensures
        out@ == with_crc(frame@),
        out@.len() == frame@.len() + 2,
{
    let crc = crc16_modbus(frame);
    let mut out: Vec<u8> = Vec::new();
    let mut i: usize = 0;
    while i < frame.len()
        invariant
            i <= frame@.len(),
            out@ == frame@.take(i as int),
        decreases frame@.len() - i,
    {
        out.push(frame[i]);
        proof {
            assert(frame@.take(i as int).push(frame@[i as int]) =~= frame@.take(i + 1));
        }
        i = i + 1;
    }
    proof {
        assert(frame@.take(frame@.len() as int) =~= frame@);
    }
    out.push((crc & 0x00FF) as u8);
    out.push((crc >> 8) as u8);
    proof {
        assert(out@ =~= with_crc(frame@));
    }
    out
}

/// Recomputes the checksum over all but the trailing two bytes of `frame`
/// and compares it against those bytes. Fails on a frame shorter than the
/// minimum viable length, or on a mismatch, reporting both values.
pub fn validate_crc(frame: &[u8]) -> (r: Result<(), TransportError>)
    ensures
        r is Ok <==> crc_ok(frame@),
        frame@.len() < 4 ==> r == Err::<(), TransportError>(TransportError::FrameTooShort),
        frame@.len() >= 4 && !crc_ok(frame@) ==> r == Err::<(), TransportError>(
            TransportError::CrcMismatch {
                expected: crc16_spec(frame@.take(frame@.len() - 2)),
                got: seen_crc(frame@),
            },
        ),
{
    if frame.len() < 4 {
        return Err(TransportError::FrameTooShort);
    }
    let body_len = frame.len() - 2;
    let expected = crc16_modbus(&frame[0..body_len]);
    proof {
        assert(frame@.subrange(0, body_len as int) =~= frame@.take(frame@.len() - 2));
    }
    let seen = (frame[body_len] as u16) | ((frame[body_len + 1] as u16) << 8);
    if expected != seen {
        return Err(TransportError::CrcMismatch { expected, got: seen });
    }
    Ok(())
}

/// The 16-bit value carried big-endian by two payload bytes.
pub open spec fn be16(hi: u8, lo: u8) -> u16 {
    ((hi as u16) * 256 + (lo as u16)) as u16
}

/// The 16-bit values carried by consecutive big-endian byte pairs of `p`;
/// a trailing odd byte carries no value.
pub open spec fn words_of(p: Seq<u8>) -> Seq<u16> {
    Seq::new((p.len() / 2) as nat, |i: int| be16(p[2 * i], p[2 * i + 1]))
}

/// The word at index `i`, or zero when `i` lies beyond the sequence.
pub open spec fn word_or_zero(ws: Seq<u16>, i: int) -> u16 {
    if 0 <= i < ws.len() {
        ws[i]
    } else {
        0
    }
}

/// The high byte of a 16-bit value, transmitted first in payloads.
pub open spec fn u16_hi(v: u16) -> u8 {
    (v >> 8) as u8
}

/// The low byte of a 16-bit value, transmitted second in payloads.
pub open spec fn u16_lo(v: u16) -> u8 {
    (v & 0x00FF) as u8
}

/// Reassembles a big-endian byte pair into the 16-bit value it carries.
pub fn be16_pair(hi: u8, lo: u8) -> (r: u16)
    ensures
        r == be16(hi, lo),
{
    (hi as u16) * 256 + (lo as u16)
}

/// The serial link a backend drives: a byte sink, a byte source that may
/// deliver nothing yet, and a monotonic millisecond clock for deadlines.
/// The process's real serial handle implements this outside the library.
pub trait SerialLink {
    /// Transmits `frame` in full, or reports a write failure.
    fn write_frame(&mut self, frame: &[u8]) -> (r: Result<(), TransportError>);

    /// Delivers at most `max` of the next received bytes; an empty chunk
    /// means nothing has arrived yet. An error is a fatal read failure.
    fn read_some(&mut self, max: usize) -> (r: Result<Vec<u8>, TransportError>)
        ensures
            r matches Ok(chunk) ==> chunk@.len() <= max,
    ;

    /// A monotonic reading of elapsed milliseconds.
    fn now_ms(&mut self) -> u64;
}

/// How many consecutive empty reads are tolerated before the deadline is
/// treated as missed. Each empty read of a real link blocks for the link's
/// own timeout, so this bound never fires before the deadline in practice;
/// it makes the read loop terminate even against a clock that stands still.
pub const MAX_IDLE_READS: u32 = 1_000_000;

/// Reads exactly `size` bytes from `link`, giving up with a timeout error
/// once `timeout_ms` milliseconds have passed without completing.
pub fn read_exact_with_timeout<L: SerialLink>(
    link: &mut L,
    size: usize,
    timeout_ms: u64,
) -> (r: Result<Vec<u8>, TransportError>)
    ensures
        r matches Ok(buffer) ==> buffer@.len() == size,
{
    let mut buffer: Vec<u8> = Vec::new();
    let start = link.now_ms();
    let deadline = if timeout_ms > u64::MAX - start {
        u64::MAX
    } else {
        start + timeout_ms
    };
    let mut idle_left: u32 = MAX_IDLE_READS;

    while buffer.len() < size
        invariant
            buffer@.len() <= size,
        decreases size - buffer@.len(), idle_left,
    {
        if link.now_ms() > deadline {
            return Err(TransportError::ReadTimeout);
        }
        let mut chunk = link.read_some(size - buffer.len())?;
        if chunk.len() == 0 {
            if idle_left == 0 {
                return Err(TransportError::ReadTimeout);
            }
            idle_left = idle_left - 1;
        } else {
            idle_left = MAX_IDLE_READS;
            buffer.append(&mut chunk);
        }
    }

    Ok(buffer)
}

} // verus!
