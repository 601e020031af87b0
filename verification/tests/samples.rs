use wave_cid::encoder::encode_samples;
use wave_cid::oscillator::TOTAL_SAMPLES;
use wave_cid::samples::SampleBuffer;

#[test]
fn a_buffer_takes_exactly_the_full_signal() {
    assert!(SampleBuffer::new(vec![0; TOTAL_SAMPLES]).is_some());
    assert!(SampleBuffer::new(Vec::new()).is_none());
    assert!(SampleBuffer::new(vec![0; 1]).is_none());
    assert!(SampleBuffer::new(vec![0; TOTAL_SAMPLES - 1]).is_none());
    assert!(SampleBuffer::new(vec![0; TOTAL_SAMPLES + 1]).is_none());
}

#[test]
fn a_buffer_keeps_its_samples() {
    let bits: Vec<u32> = (0..TOTAL_SAMPLES as u32).map(|i| i.wrapping_mul(2_654_435_761)).collect();
    let buffer = SampleBuffer::new(bits.clone()).unwrap();
    assert_eq!(buffer.len(), 88200);
    assert_eq!(buffer.as_slice(), &bits[..]);
}

#[test]
fn a_buffer_encodes_to_four_bytes_per_sample() {
    let bits: Vec<u32> = (0..TOTAL_SAMPLES as u32).collect();
    let buffer = SampleBuffer::new(bits.clone()).unwrap();
    let bytes = buffer.encode();
    assert_eq!(bytes.len(), 352_800);
    assert_eq!(&bytes[..8], &[0, 0, 0, 0, 1, 0, 0, 0]);
    assert_eq!(&bytes[4 * 88_199..], &[0x87, 0x58, 0x01, 0x00]);
    assert_eq!(bytes, encode_samples(&bits));
}
