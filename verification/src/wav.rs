//! The WAV container that a capture is streamed into: 32-bit IEEE-float
//! samples, little-endian, behind a 44-byte header whose two size fields are
//! written as zero first and patched once the amount of sample data is known.
//!
//! The library computes every byte of the header and of the patches and keeps
//! count of the sample bytes written; the file itself is handled by the
//! program around it.

use vstd::prelude::*;

verus! {

/// The two bytes of `x`, least significant first.
pub open spec fn le16(x: u16) -> Seq<u8> {
    seq![(x % 256) as u8, (x / 256) as u8]
}

/// The four bytes of `x`, least significant first.
pub open spec fn le32(x: u32) -> Seq<u8> {
    seq![
        (x % 256) as u8,
        ((x / 256) % 256) as u8,
        ((x / 65536) % 256) as u8,
        (x / 16777216) as u8,
    ]
}

/// The number that four bytes, least significant first, stand for.
pub open spec fn from_le32(b: Seq<u8>) -> nat {
    b[0] as nat + 256 * (b[1] as nat) + 65536 * (b[2] as nat) + 16777216 * (b[3] as nat)
}

/// The ASCII bytes `RIFF`.
pub open spec fn riff_tag() -> Seq<u8> {
    seq![0x52u8, 0x49u8, 0x46u8, 0x46u8]
}

/// The ASCII bytes `WAVE`.
pub open spec fn wave_tag() -> Seq<u8> {
    seq![0x57u8, 0x41u8, 0x56u8, 0x45u8]
}

/// The ASCII bytes `fmt ` (with a trailing space).
pub open spec fn fmt_tag() -> Seq<u8> {
    seq![0x66u8, 0x6du8, 0x74u8, 0x20u8]
}

/// The ASCII bytes `data`.
pub open spec fn data_tag() -> Seq<u8> {
    seq![0x64u8, 0x61u8, 0x74u8, 0x61u8]
}

/// Whether a stream of `channels` channels at `sample_rate` frames per
/// second, four bytes a sample, has a byte rate and a frame size that fit
/// the header's 32-bit and 16-bit fields.
pub open spec fn format_fits(sample_rate: u32, channels: u16) -> bool {
    &&& sample_rate * channels * 4 <= u32::MAX
    &&& channels * 4 <= u16::MAX
}

/// The 44-byte header of a float WAV file with the given format and the
/// given values in its RIFF-size and data-size fields.
pub open spec fn wav_header(sample_rate: u32, channels: u16, riff_size: u32, data_size: u32) -> Seq<u8>
    recommends
        format_fits(sample_rate, channels),
{
    riff_tag() + le32(riff_size) + wave_tag() + fmt_tag() + le32(16) + le16(3) + le16(channels)
        + le32(sample_rate) + le32((sample_rate * channels * 4) as u32) + le16((channels * 4) as u16)
        + le16(32) + data_tag() + le32(data_size)
}

/// `h` with the bytes from `offset` on replaced by `b`.
pub open spec fn patched(h: Seq<u8>, offset: int, b: Seq<u8>) -> Seq<u8> {
    h.subrange(0, offset) + b + h.subrange(offset + b.len(), h.len() as int)
}

/// The RIFF-size field once `data_size` bytes of samples follow the header:
/// the data plus the 36 header bytes after that field, kept to 32 bits.
pub open spec fn riff_size_for(data_size: nat) -> u32 {
    ((data_size + 36) % 0x1_0000_0000) as u32
}

/// The data-size field for `data_size` bytes of samples, kept to 32 bits.
pub open spec fn data_size_field(data_size: nat) -> u32 {
    (data_size % 0x1_0000_0000) as u32
}

/// Reading four little-endian bytes back gives the number they were made of.
pub proof fn law_le32_round_trip(x: u32)
    ensures
        le32(x).len() == 4,
        from_le32(le32(x)) == x,
{
    let b0 = x % 256;
    let b1 = (x / 256) % 256;
    let b2 = (x / 65536) % 256;
    let b3 = x / 16777216;
    assert(x == b0 + 256 * b1 + 65536 * b2 + 16777216 * b3) by (nonlinear_arith)
        requires
            b0 == x % 256,
            b1 == (x / 256) % 256,
            b2 == (x / 65536) % 256,
            b3 == x / 16777216,
    ;
}

/// Applying the two patches that finalizing gives to the header that was
/// written first yields the header of the same format whose size fields hold
/// the RIFF size and the data size of the samples written.
pub proof fn law_finalize_completes_header(sample_rate: u32, channels: u16, data_size: nat)
    requires
        format_fits(sample_rate, channels),
    ensures
        patched(
            patched(wav_header(sample_rate, channels, 0, 0), 4, le32(riff_size_for(data_size))),
            40,
            le32(data_size_field(data_size)),
        ) == wav_header(sample_rate, channels, riff_size_for(data_size), data_size_field(data_size)),
{
    let h0 = wav_header(sample_rate, channels, 0, 0);
    let r = le32(riff_size_for(data_size));
    let d = le32(data_size_field(data_size));
    let h1 = patched(h0, 4, r);
    let h2 = patched(h1, 40, d);
    let target = wav_header(sample_rate, channels, riff_size_for(data_size), data_size_field(data_size));
    assert(h0.len() == 44);
    assert(h1.len() == 44);
    assert(h2 =~= target);
}

/// In a header, the four bytes at offset 4 read back as the RIFF-size field
/// and the four bytes at offset 40 as the data-size field.
pub proof fn law_header_sizes_read_back(sample_rate: u32, channels: u16, riff_size: u32, data_size: u32)
    ensures
        wav_header(sample_rate, channels, riff_size, data_size).len() == 44,
        from_le32(wav_header(sample_rate, channels, riff_size, data_size).subrange(4, 8)) == riff_size,
        from_le32(wav_header(sample_rate, channels, riff_size, data_size).subrange(40, 44)) == data_size,
{
    let h = wav_header(sample_rate, channels, riff_size, data_size);
    assert(h.subrange(4, 8) =~= le32(riff_size));
    assert(h.subrange(40, 44) =~= le32(data_size));
    law_le32_round_trip(riff_size);
    law_le32_round_trip(data_size);
}

/// A write of `bytes` at byte `offset` of the file.
pub struct HeaderPatch {
    pub offset: u64,
    pub bytes: Vec<u8>,
}

/// The format of a WAV file being written and the sample bytes written so far.
pub struct WavState {
    pub sample_rate: u32,
    pub channels: u16,
    pub data_size: nat,
}

/// Bookkeeping for a WAV file being streamed to disk.
pub struct WavWriter {
    sample_rate: u32,
    channels: u16,
    data_size: u64,
}

impl View for WavWriter {
    type V = WavState;

    closed spec fn view(&self) -> WavState {
        WavState {
            sample_rate: self.sample_rate,
            channels: self.channels,
            data_size: self.data_size as nat,
        }
    }
}

fn push_le16(v: &mut Vec<u8>, x: u16)
    ensures
        final(v)@ == old(v)@ + le16(x),
{
    v.push((x % 256) as u8);
    v.push((x / 256) as u8);
}

fn push_le32(v: &mut Vec<u8>, x: u32)
    ensures
        final(v)@ == old(v)@ + le32(x),
{
    v.push((x % 256) as u8);
    v.push(((x / 256) % 256) as u8);
    v.push(((x / 65536) % 256) as u8);
    v.push((x / 16777216) as u8);
}

fn push_tag(v: &mut Vec<u8>, a: u8, b: u8, c: u8, d: u8)
    ensures
        final(v)@ == old(v)@ + seq![a, b, c, d],
{
    v.push(a);
    v.push(b);
    v.push(c);
    v.push(d);
}

/// The little-endian bytes of `x`.
fn le32_bytes(x: u32) -> (res: Vec<u8>)
    ensures
        res@ == le32(x),
{
    let mut v: Vec<u8> = Vec::new();
    push_le32(&mut v, x);
    assert(v@ =~= le32(x));
    v
}

impl WavWriter {
    #[verifier::type_invariant]
    spec fn fits(self) -> bool {
        format_fits(self.sample_rate, self.channels)
    }

    /// Starts a file of `channels` channels at `sample_rate` frames per
    /// second, with no sample data yet.
    pub fn new(sample_rate: u32, channels: u16) -> (res: WavWriter)
        requires
            format_fits(sample_rate, channels),
        ensures
            res@ == (WavState { sample_rate, channels, data_size: 0 }),
    {
        WavWriter { sample_rate, channels, data_size: 0 }
    }

    /// The header written when the file is created: the format, and zero
    /// in both size fields.
    pub fn header(&self) -> (res: Vec<u8>)
        ensures
            format_fits(self@.sample_rate, self@.channels),
            res@ == wav_header(self@.sample_rate, self@.channels, 0, 0),
            res@.len() == 44,
    {
        proof {
            use_type_invariant(self);
        }
        let channels = self.channels;
        let byte_rate: u32 = self.sample_rate * (channels as u32) * 4;
        let block_align: u16 = channels * 4;
        let mut h: Vec<u8> = Vec::new();
        push_tag(&mut h, 0x52, 0x49, 0x46, 0x46);
        push_le32(&mut h, 0);
        push_tag(&mut h, 0x57, 0x41, 0x56, 0x45);
        push_tag(&mut h, 0x66, 0x6d, 0x74, 0x20);
        push_le32(&mut h, 16);
        push_le16(&mut h, 3);
        push_le16(&mut h, channels);
        push_le32(&mut h, self.sample_rate);
        push_le32(&mut h, byte_rate);
        push_le16(&mut h, block_align);
        push_le16(&mut h, 32);
        push_tag(&mut h, 0x64, 0x61, 0x74, 0x61);
        push_le32(&mut h, 0);
        assert(h@ =~= wav_header(self@.sample_rate, self@.channels, 0, 0));
        h
    }

    /// Counts the outcome of appending `len` bytes of samples: bytes count
    /// only when the write succeeded.
    pub fn record_write(&mut self, len: usize, written: bool)
        requires
            written ==> old(self)@.data_size + len <= u64::MAX,
        ensures
            final(self)@.sample_rate == old(self)@.sample_rate,
            final(self)@.channels == old(self)@.channels,
            final(self)@.data_size == old(self)@.data_size + (if written { len as nat } else { 0 }),
    {
        proof {
            use_type_invariant(&*self);
        }
        if written {
            self.data_size = self.data_size + len as u64;
        }
    }

    /// The number of sample bytes counted so far.
    pub fn data_size(&self) -> (res: u64)
        ensures
            res == self@.data_size,
    {
        self.data_size
    }

    /// The writes that complete the header once all samples are in: the
    /// RIFF size at byte 4 and the data size at byte 40, each kept to 32 bits.
    pub fn finalize(&self) -> (res: Vec<HeaderPatch>)
        requires
            self@.data_size + 36 <= u64::MAX,
        ensures
            res@.len() == 2,
            res@[0].offset == 4,
            res@[0].bytes@ == le32(riff_size_for(self@.data_size)),
            res@[1].offset == 40,
            res@[1].bytes@ == le32(data_size_field(self@.data_size)),
    {
        let riff = ((self.data_size + 36) % 0x1_0000_0000) as u32;
        let data = (self.data_size % 0x1_0000_0000) as u32;
        let mut res: Vec<HeaderPatch> = Vec::new();
        res.push(HeaderPatch { offset: 4, bytes: le32_bytes(riff) });
        res.push(HeaderPatch { offset: 40, bytes: le32_bytes(data) });
        res
    }
}

} // verus!
