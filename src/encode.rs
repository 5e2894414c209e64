//! Byte encodings of command parameters and of whole command frames.
use vstd::prelude::*;
use crate::protocol::{Command, opcode_of};

verus! {

/// Two bytes of `v`, most significant first.
pub open spec fn be16(v: u16) -> Seq<u8> {
    seq![(v / 0x100) as u8, (v % 0x100) as u8]
}

/// Four bytes of `v`, most significant first.
pub open spec fn be32(v: u32) -> Seq<u8> {
    seq![
        (v / 0x100_0000) as u8,
        ((v / 0x1_0000) % 0x100) as u8,
        ((v / 0x100) % 0x100) as u8,
        (v % 0x100) as u8,
    ]
}

/// The three low bytes of a 32-bit timeout, most significant first: the
/// chip takes a 24-bit timeout, and the top byte is dropped.
pub open spec fn timeout_bytes(v: u32) -> Seq<u8> {
    be32(v).subrange(1, 4)
}

/// A frame on the wire: the command's opcode, then its parameters.
pub open spec fn frame_of(c: Command, params: Seq<u8>) -> Seq<u8> {
    seq![opcode_of(c)] + params
}

/// Every frame starts with its command's opcode, and the opcode is followed
/// by the parameters alone.
pub proof fn lemma_frame_layout(c: Command, params: Seq<u8>)
    ensures
        frame_of(c, params)[0] == opcode_of(c),
        frame_of(c, params).len() == params.len() + 1,
        frame_of(c, params).subrange(1, params.len() as int + 1) == params,
{
    assert(frame_of(c, params).subrange(1, params.len() as int + 1) =~= params);
}

/// Appends `v` to `buf`, most significant byte first.
pub fn push_be16(buf: &mut Vec<u8>, v: u16)
    ensures
        final(buf)@ == old(buf)@ + be16(v),
{
    buf.push((v / 0x100) as u8);
    buf.push((v % 0x100) as u8);
    assert(final(buf)@ =~= old(buf)@ + be16(v));
}

/// Appends `v` to `buf`, most significant byte first.
pub fn push_be32(buf: &mut Vec<u8>, v: u32)
    ensures
        final(buf)@ == old(buf)@ + be32(v),
{
    buf.push((v / 0x100_0000) as u8);
    buf.push(((v / 0x1_0000) % 0x100) as u8);
    buf.push(((v / 0x100) % 0x100) as u8);
    buf.push((v % 0x100) as u8);
    assert(final(buf)@ =~= old(buf)@ + be32(v));
}

/// Appends the 24-bit timeout held in the low bytes of `v` to `buf`.
pub fn push_timeout(buf: &mut Vec<u8>, v: u32)
    ensures
        final(buf)@ == old(buf)@ + timeout_bytes(v),
{
    buf.push(((v / 0x1_0000) % 0x100) as u8);
    buf.push(((v / 0x100) % 0x100) as u8);
    buf.push((v % 0x100) as u8);
    assert(final(buf)@ =~= old(buf)@ + timeout_bytes(v));
}

/// Appends `data` to `buf` unchanged.
pub fn push_bytes(buf: &mut Vec<u8>, data: &[u8])
    ensures
        final(buf)@ == old(buf)@ + data@,
{
    let ghost start = buf@;
    let mut i: usize = 0;
    while i < data.len()
        invariant
            i <= data@.len(),
            buf@ == start + data@.subrange(0, i as int),
        decreases data@.len() - i,
    {
        buf.push(data[i]);
        i = i + 1;
        assert(buf@ =~= start + data@.subrange(0, i as int));
    }
    assert(data@.subrange(0, i as int) =~= data@);
}

/// A frame of `command` with `params` after its opcode.
pub fn frame(command: Command, params: &[u8]) -> (r: Vec<u8>)
    ensures
        r@ == frame_of(command, params@),
        r@[0] == opcode_of(command),
        r@.len() == params@.len() + 1,
{
    let mut buf: Vec<u8> = Vec::new();
    buf.push(command.opcode());
    push_bytes(&mut buf, params);
    assert(buf@ =~= frame_of(command, params@));
    buf
}

/// The chip's frequency step is the crystal frequency over 2^25.
pub open spec fn frequency_step_divisor() -> int {
    0x200_0000
}

/// The frequency word for `target_hz`: `target_hz * 2^25 / crystal_hz`,
/// rounded to the nearest integer (halves round up).
pub open spec fn frequency_word(target_hz: int, crystal_hz: int) -> int {
    (target_hz * frequency_step_divisor() + crystal_hz / 2) / crystal_hz
}

/// The frequency, in whole hertz, that a frequency word stands for with a
/// crystal of `crystal_hz`: `word * crystal_hz / 2^25`, rounded down.
pub open spec fn frequency_hz(word: int, crystal_hz: int) -> int {
    word * crystal_hz / frequency_step_divisor()
}

/// Why a frequency cannot be encoded.
#[derive(Clone, Copy, Debug, PartialEq, Eq, Structural)]
pub enum FrequencyError {
    /// The crystal frequency is zero.
    ZeroCrystal,
    /// The frequency word does not fit in 32 bits.
    WordOverflow,
}

/// The frequency word for `target_hz`, or why there is none.
pub open spec fn encode_frequency(target_hz: u32, crystal_hz: u32) -> Result<u32, FrequencyError> {
    if crystal_hz == 0 {
        Err(FrequencyError::ZeroCrystal)
    } else if frequency_word(target_hz as int, crystal_hz as int) > u32::MAX {
        Err(FrequencyError::WordOverflow)
    } else {
        Ok(frequency_word(target_hz as int, crystal_hz as int) as u32)
    }
}

/// Computes the word that the RF frequency command carries for a carrier of
/// `target_hz` with a crystal of `crystal_hz`.
pub fn rf_frequency_word(target_hz: u32, crystal_hz: u32) -> (r: Result<u32, FrequencyError>)
    ensures
        r == encode_frequency(target_hz, crystal_hz),
{
    if crystal_hz == 0 {
        return Err(FrequencyError::ZeroCrystal);
    }
    proof {
        assert(target_hz * 0x200_0000 <= 0xFFFF_FFFF * 0x200_0000) by (nonlinear_arith)
            requires
                target_hz <= 0xFFFF_FFFF,
        ;
    }
    let scaled: u64 = (target_hz as u64) * 0x200_0000 + (crystal_hz as u64) / 2;
    let word: u64 = scaled / (crystal_hz as u64);
    if word > 0xFFFF_FFFF {
        Err(FrequencyError::WordOverflow)
    } else {
        Ok(word as u32)
    }
}

/// Computes the frequency, in whole hertz, that `word` stands for with a
/// crystal of `crystal_hz`.
pub fn rf_frequency_hz(word: u32, crystal_hz: u32) -> (r: u64)
    ensures
        r == frequency_hz(word as int, crystal_hz as int),
{
    proof {
        assert(word * crystal_hz <= 0xFFFF_FFFF * 0xFFFF_FFFF) by (nonlinear_arith)
            requires
                word <= 0xFFFF_FFFF,
                crystal_hz <= 0xFFFF_FFFF,
        ;
    }
    (word as u64) * (crystal_hz as u64) / 0x200_0000
}

/// Encoding a frequency and decoding the word again gives the frequency
/// back to within one step of the chip's resolution (`crystal_hz / 2^25`
/// hertz), plus the hertz that rounding the decoded value down may lose.
pub proof fn lemma_frequency_round_trip(target_hz: u32, crystal_hz: u32)
    requires
        encode_frequency(target_hz, crystal_hz) is Ok,
    ensures
        ({
            let back = frequency_hz(
                encode_frequency(target_hz, crystal_hz)->Ok_0 as int,
                crystal_hz as int,
            );
            &&& (back - target_hz) * frequency_step_divisor() <= crystal_hz / 2
            &&& (target_hz - back) * frequency_step_divisor() < crystal_hz - crystal_hz / 2
                + frequency_step_divisor()
        }),
{
    let t = target_hz as int;
    let c = crystal_hz as int;
    let s = frequency_step_divisor();
    let h = c / 2;
    let x = t * s + h;
    let w = frequency_word(t, c);
    assert(encode_frequency(target_hz, crystal_hz)->Ok_0 as int == w);
    assert(w * c <= x && x < w * c + c) by (nonlinear_arith)
        requires
            c > 0,
            x >= 0,
            w == x / c,
    ;
    let m = w * c;
    let back = frequency_hz(w, c);
    assert(back == m / s);
    assert(back * s <= m && m < back * s + s) by (nonlinear_arith)
        requires
            s > 0,
            m >= 0,
            back == m / s,
    ;
    assert((back - t) * s == back * s - t * s) by (nonlinear_arith);
    assert((t - back) * s == t * s - back * s) by (nonlinear_arith);
}

} // verus!
