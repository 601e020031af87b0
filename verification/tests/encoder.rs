use wave_cid::encoder::{decode_samples, encode_samples};

#[test]
fn encodes_least_significant_byte_first() {
    assert_eq!(encode_samples(&[0x0403_0201]), vec![1, 2, 3, 4]);
    assert_eq!(encode_samples(&[0xdead_beef]), vec![0xef, 0xbe, 0xad, 0xde]);
    assert_eq!(encode_samples(&[0, u32::MAX]), vec![0, 0, 0, 0, 255, 255, 255, 255]);
}

#[test]
fn encodes_in_sample_order() {
    assert_eq!(
        encode_samples(&[1, 0x100, 0x1_0000, 0x100_0000]),
        vec![1, 0, 0, 0, 0, 1, 0, 0, 0, 0, 1, 0, 0, 0, 0, 1]
    );
}

#[test]
fn empty_signal_has_no_bytes() {
    assert_eq!(encode_samples(&[]), Vec::<u8>::new());
    assert_eq!(decode_samples(&[]), Some(Vec::new()));
}

#[test]
fn encodes_single_precision_patterns() {
    let samples = [1.0f32, -1.0, 0.49, 0.5];
    let bits: Vec<u32> = samples.iter().map(|s| s.to_bits()).collect();
    assert_eq!(
        encode_samples(&bits),
        vec![
            0x00, 0x00, 0x80, 0x3f, 0x00, 0x00, 0x80, 0xbf, 0x48, 0xe1, 0xfa, 0x3e, 0x00, 0x00,
            0x00, 0x3f
        ]
    );
}

#[test]
fn encoding_agrees_with_the_bytes_of_each_number() {
    let samples = [0.0f32, -0.0, 1.0, -1.0, 0.333_333_34, f32::MIN_POSITIVE, f32::MAX, 1.0e-40];
    let bits: Vec<u32> = samples.iter().map(|s| s.to_bits()).collect();
    let mut expected = Vec::new();
    for s in samples {
        expected.extend_from_slice(&s.to_le_bytes());
    }
    let bytes = encode_samples(&bits);
    assert_eq!(bytes.len(), 4 * samples.len());
    assert_eq!(bytes, expected);
}

#[test]
fn decoding_reproduces_the_samples_exactly() {
    let samples = [0.0f32, -0.0, 0.1, -0.75, 1.0e-40, f32::INFINITY, f32::NAN, f32::MAX];
    let bits: Vec<u32> = samples.iter().map(|s| s.to_bits()).collect();
    let bytes = encode_samples(&bits);
    let back = decode_samples(&bytes).unwrap();
    assert_eq!(back, bits);
    for (chunk, sample) in bytes.chunks(4).zip(samples) {
        let read = f32::from_le_bytes([chunk[0], chunk[1], chunk[2], chunk[3]]);
        assert_eq!(read.to_bits(), sample.to_bits());
    }
}

#[test]
fn encoding_what_was_decoded_reproduces_the_bytes() {
    let bytes: Vec<u8> = (0u8..=255).collect();
    let samples = decode_samples(&bytes).unwrap();
    assert_eq!(samples.len(), 64);
    assert_eq!(samples[0], 0x0302_0100);
    assert_eq!(samples[63], 0xfffe_fdfc);
    assert_eq!(encode_samples(&samples), bytes);
}

#[test]
fn decoding_needs_whole_samples() {
    assert_eq!(decode_samples(&[1]), None);
    assert_eq!(decode_samples(&[1, 2]), None);
    assert_eq!(decode_samples(&[1, 2, 3]), None);
    assert_eq!(decode_samples(&[1, 2, 3, 4]), Some(vec![0x0403_0201]));
    assert_eq!(decode_samples(&[1, 2, 3, 4, 5]), None);
    assert_eq!(decode_samples(&[0, 0, 0, 0, 255, 255, 255, 255]), Some(vec![0, u32::MAX]));
}

#[test]
fn different_signals_encode_differently() {
    assert_ne!(encode_samples(&[1, 2]), encode_samples(&[2, 1]));
    assert_ne!(encode_samples(&[0x100]), encode_samples(&[0x1_0000]));
    assert_ne!(encode_samples(&[0.0f32.to_bits()]), encode_samples(&[(-0.0f32).to_bits()]));
}
