//! WAV headers.
use crate::audio::SAMPLE_RATE;
use vstd::prelude::*;

verus! {

#[derive(Debug, Clone, Copy, PartialEq, Eq, Structural)]
pub struct WavConfig {
    pub sample_rate: u32,
    pub channels: u16,
    pub bits_per_sample: u16,
}

impl Default for WavConfig {
    fn default() -> (r: Self)
        ensures
            r == (WavConfig { sample_rate: 16_000, channels: 1, bits_per_sample: 16 }),
    {
        WavConfig { sample_rate: SAMPLE_RATE, channels: 1, bits_per_sample: 16 }
    }
}

/// The two bytes of a number, the low one first.
pub open spec fn le16(n: int) -> Seq<u8> {
    seq![(n % 256) as u8, (n / 256 % 256) as u8]
}

/// The four bytes of a number, the low one first.
pub open spec fn le32(n: int) -> Seq<u8> {
    seq![
        (n % 256) as u8,
        (n / 256 % 256) as u8,
        (n / 65_536 % 256) as u8,
        (n / 16_777_216 % 256) as u8,
    ]
}

fn push_le16(out: &mut Vec<u8>, n: u16)
    ensures
        final(out)@ == old(out)@ + le16(n as int),
{
    let ghost before = out@;
    out.push((n % 256) as u8);
    out.push((n / 256) as u8);
    assert(out@ =~= before + le16(n as int));
}

fn push_le32(out: &mut Vec<u8>, n: u32)
    ensures
        final(out)@ == old(out)@ + le32(n as int),
{
    let ghost before = out@;
    out.push((n % 256) as u8);
    out.push((n / 256 % 256) as u8);
    out.push((n / 65_536 % 256) as u8);
    out.push((n / 16_777_216) as u8);
    assert(out@ =~= before + le32(n as int));
}

fn push_tag(out: &mut Vec<u8>, a: u8, b: u8, c: u8, d: u8)
    ensures
        final(out)@ == old(out)@ + seq![a, b, c, d],
{
    let ghost before = out@;
    out.push(a);
    out.push(b);
    out.push(c);
    out.push(d);
    assert(out@ =~= before + seq![a, b, c, d]);
}

/// The bytes of one sample.
pub open spec fn sample_bytes(config: WavConfig) -> int {
    config.bits_per_sample as int / 8
}

/// The bytes of one second of sound.
pub open spec fn byte_rate(config: WavConfig) -> int {
    config.sample_rate * config.channels * sample_bytes(config)
}

/// The header of a WAV of unlimited length: plain PCM, with sizes that stand for no limit.
pub open spec fn wav_header(config: WavConfig) -> Seq<u8> {
    seq![0x52u8, 0x49, 0x46, 0x46] + le32(0x7fff_ffff) + seq![0x57u8, 0x41, 0x56, 0x45] + seq![
        0x66u8,
        0x6d,
        0x74,
        0x20,
    ] + le32(16) + le16(1) + le16(config.channels as int) + le32(config.sample_rate as int) + le32(
        byte_rate(config),
    ) + le16(config.channels * sample_bytes(config)) + le16(config.bits_per_sample as int) + seq![
        0x64u8,
        0x61,
        0x74,
        0x61,
    ] + le32(0xffff_ffff)
}

/// The header of a WAV of unlimited length.
pub fn create_unlimited_wav_header(config: &WavConfig) -> (r: Vec<u8>)
    requires
        config.sample_rate * config.channels <= u32::MAX,
        byte_rate(*config) <= u32::MAX,
        config.channels * sample_bytes(*config) <= u16::MAX,
    ensures
        r@ == wav_header(*config),
        r@.len() == 44,
{
    let bytes_per_sample: u16 = config.bits_per_sample / 8;
    proof {
        assert(config.sample_rate * config.channels >= 0) by (nonlinear_arith);
        assert(config.channels * sample_bytes(*config) >= 0) by (nonlinear_arith)
            requires
                sample_bytes(*config) >= 0,
        ;
        assert(byte_rate(*config) >= 0) by (nonlinear_arith)
            requires
                byte_rate(*config) == config.sample_rate * config.channels * sample_bytes(*config),
                sample_bytes(*config) >= 0,
                config.sample_rate * config.channels >= 0,
        ;
    }
    let byte_rate: u32 = config.sample_rate * config.channels as u32 * bytes_per_sample as u32;
    let block_align: u16 = config.channels * bytes_per_sample;
    let mut out: Vec<u8> = Vec::new();
    push_tag(&mut out, 0x52, 0x49, 0x46, 0x46);
    push_le32(&mut out, 0x7fff_ffff);
    push_tag(&mut out, 0x57, 0x41, 0x56, 0x45);
    push_tag(&mut out, 0x66, 0x6d, 0x74, 0x20);
    push_le32(&mut out, 16);
    push_le16(&mut out, 1);
    push_le16(&mut out, config.channels);
    push_le32(&mut out, config.sample_rate);
    push_le32(&mut out, byte_rate);
    push_le16(&mut out, block_align);
    push_le16(&mut out, config.bits_per_sample);
    push_tag(&mut out, 0x64, 0x61, 0x74, 0x61);
    push_le32(&mut out, 0xffff_ffff);
    assert(out@ =~= wav_header(*config));
    out
}

/// The number that four bytes make, the low one first.
pub open spec fn number_of(b: Seq<u8>) -> int {
    b[0] + 256 * b[1] + 65_536 * b[2] + 16_777_216 * b[3]
}

/// Numbers are written with the low byte first: the bytes make the number again.
pub proof fn law_numbers_are_written_low_byte_first(n: u32, m: u16)
    ensures
        le32(n as int).len() == 4 && number_of(le32(n as int)) == n,
        le16(m as int).len() == 2 && le16(m as int)[0] + 256 * le16(m as int)[1] == m,
{
}

/// The header tells the format in its places: `RIFF`, `WAVE`, `fmt ` and `data` at their four
/// places, and between them plain PCM, the channels, the rate, the bytes of a second and of a
/// sample of all channels, and the bits of a sample.
pub proof fn law_header_tells_the_format(config: WavConfig)
    requires
        0 <= byte_rate(config) <= u32::MAX,
        0 <= config.channels * sample_bytes(config) <= u16::MAX,
    ensures
        ({
            let h = wav_header(config);
            &&& h.len() == 44
            &&& h.subrange(0, 4) == seq!['R' as u8, 'I' as u8, 'F' as u8, 'F' as u8]
            &&& h.subrange(8, 12) == seq!['W' as u8, 'A' as u8, 'V' as u8, 'E' as u8]
            &&& h.subrange(12, 16) == seq!['f' as u8, 'm' as u8, 't' as u8, ' ' as u8]
            &&& h.subrange(36, 40) == seq!['d' as u8, 'a' as u8, 't' as u8, 'a' as u8]
            &&& h[20] + 256 * h[21] == 1
            &&& h[22] + 256 * h[23] == config.channels
            &&& number_of(h.subrange(24, 28)) == config.sample_rate
            &&& number_of(h.subrange(28, 32)) == byte_rate(config)
            &&& h[32] + 256 * h[33] == config.channels * sample_bytes(config)
            &&& h[34] + 256 * h[35] == config.bits_per_sample
        }),
{
    let h = wav_header(config);
    let rate = config.sample_rate;
    let bytes = byte_rate(config) as u32;
    let align = (config.channels * sample_bytes(config)) as u16;
    law_numbers_are_written_low_byte_first(rate, config.channels);
    law_numbers_are_written_low_byte_first(bytes, align);
    law_numbers_are_written_low_byte_first(16, config.bits_per_sample);
    assert(h.subrange(0, 4) =~= seq!['R' as u8, 'I' as u8, 'F' as u8, 'F' as u8]);
    assert(h.subrange(8, 12) =~= seq!['W' as u8, 'A' as u8, 'V' as u8, 'E' as u8]);
    assert(h.subrange(12, 16) =~= seq!['f' as u8, 'm' as u8, 't' as u8, ' ' as u8]);
    assert(h.subrange(36, 40) =~= seq!['d' as u8, 'a' as u8, 't' as u8, 'a' as u8]);
    assert(h.subrange(24, 28) =~= le32(rate as int));
    assert(h.subrange(28, 32) =~= le32(bytes as int));
    assert(h.subrange(20, 22) =~= le16(1));
    assert(h.subrange(22, 24) =~= le16(config.channels as int));
    assert(h.subrange(32, 34) =~= le16(align as int));
    assert(h.subrange(34, 36) =~= le16(config.bits_per_sample as int));
    assert(h[20] == h.subrange(20, 22)[0] && h[21] == h.subrange(20, 22)[1]);
    assert(h[22] == h.subrange(22, 24)[0] && h[23] == h.subrange(22, 24)[1]);
    assert(h[32] == h.subrange(32, 34)[0] && h[33] == h.subrange(32, 34)[1]);
    assert(h[34] == h.subrange(34, 36)[0] && h[35] == h.subrange(34, 36)[1]);
}

} // verus!
