use echo::wav::WavWriter;

fn le32(x: u32) -> [u8; 4] {
    x.to_le_bytes()
}

fn expected_header(sample_rate: u32, channels: u16, riff: u32, data: u32) -> Vec<u8> {
    let mut h = Vec::new();
    h.extend_from_slice(b"RIFF");
    h.extend_from_slice(&le32(riff));
    h.extend_from_slice(b"WAVE");
    h.extend_from_slice(b"fmt ");
    h.extend_from_slice(&16u32.to_le_bytes());
    h.extend_from_slice(&3u16.to_le_bytes());
    h.extend_from_slice(&channels.to_le_bytes());
    h.extend_from_slice(&sample_rate.to_le_bytes());
    h.extend_from_slice(&(sample_rate * channels as u32 * 4).to_le_bytes());
    h.extend_from_slice(&(channels * 4).to_le_bytes());
    h.extend_from_slice(&32u16.to_le_bytes());
    h.extend_from_slice(b"data");
    h.extend_from_slice(&le32(data));
    h
}

fn apply(header: &mut Vec<u8>, w: &WavWriter) {
    for p in w.finalize() {
        let at = p.offset as usize;
        header[at..at + p.bytes.len()].copy_from_slice(&p.bytes);
    }
}

#[test]
fn header_for_stereo_48k() {
    let w = WavWriter::new(48000, 2);
    let h = w.header();
    assert_eq!(h.len(), 44);
    assert_eq!(h, expected_header(48000, 2, 0, 0));
    assert_eq!(&h[28..32], &384000u32.to_le_bytes());
    assert_eq!(&h[32..34], &8u16.to_le_bytes());
}

#[test]
fn header_for_mono_44k() {
    let w = WavWriter::new(44100, 1);
    assert_eq!(w.header(), expected_header(44100, 1, 0, 0));
}

#[test]
fn writes_are_counted_only_when_successful() {
    let mut w = WavWriter::new(48000, 2);
    assert_eq!(w.data_size(), 0);
    w.record_write(1024, true);
    w.record_write(512, false);
    w.record_write(8, true);
    assert_eq!(w.data_size(), 1032);
}

#[test]
fn finalize_patches_sizes() {
    let mut w = WavWriter::new(48000, 2);
    w.record_write(1000, true);
    let p = w.finalize();
    assert_eq!(p.len(), 2);
    assert_eq!(p[0].offset, 4);
    assert_eq!(p[0].bytes, 1036u32.to_le_bytes().to_vec());
    assert_eq!(p[1].offset, 40);
    assert_eq!(p[1].bytes, 1000u32.to_le_bytes().to_vec());
}

#[test]
fn finalize_with_no_data() {
    let w = WavWriter::new(48000, 2);
    let p = w.finalize();
    assert_eq!(p[0].bytes, vec![36, 0, 0, 0]);
    assert_eq!(p[1].bytes, vec![0, 0, 0, 0]);
}

#[test]
fn finalize_truncates_sizes_to_32_bits() {
    let mut w = WavWriter::new(48000, 2);
    w.record_write(4_294_967_290, true);
    let p = w.finalize();
    assert_eq!(p[0].bytes, 30u32.to_le_bytes().to_vec());
    assert_eq!(p[1].bytes, 4_294_967_290u32.to_le_bytes().to_vec());
}

#[test]
fn patched_header_is_complete_header() {
    let mut w = WavWriter::new(48000, 2);
    w.record_write(123_456, true);
    let mut h = w.header();
    apply(&mut h, &w);
    assert_eq!(h, expected_header(48000, 2, 123_492, 123_456));
    assert_eq!(u32::from_le_bytes([h[40], h[41], h[42], h[43]]), 123_456);
    assert_eq!(u32::from_le_bytes([h[4], h[5], h[6], h[7]]), 123_492);
}
