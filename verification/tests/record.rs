use ask_bayes::record::decode_prior;
use ask_bayes::{Binary64, Failure};

#[test]
fn a_record_is_the_big_endian_bytes_of_the_float() {
    for value in [0.0, 0.75, 1.0, 0.1, -0.0, f64::MAX, 5e-324, f64::INFINITY] {
        let record = Binary64::from_bits(value.to_bits()).to_be_bytes();
        assert_eq!(record, value.to_be_bytes());
    }
    assert_eq!(
        Binary64::from_bits(0x3fe8_0000_0000_0000).to_be_bytes(),
        [0x3f, 0xe8, 0, 0, 0, 0, 0, 0]
    );
    assert_eq!(
        Binary64::from_bits(0x0102_0304_0506_0708).to_be_bytes(),
        [1, 2, 3, 4, 5, 6, 7, 8]
    );
}

#[test]
fn a_record_of_eight_bytes_is_read_back() {
    assert_eq!(
        decode_prior(&[0x3f, 0xe8, 0, 0, 0, 0, 0, 0]),
        Ok(Binary64::from_bits(0x3fe8_0000_0000_0000))
    );
    assert_eq!(
        decode_prior(&[1, 2, 3, 4, 5, 6, 7, 8]),
        Ok(Binary64::from_bits(0x0102_0304_0506_0708))
    );
    assert_eq!(decode_prior(&[0xff; 8]), Ok(Binary64::from_bits(u64::MAX)));
    let decoded = decode_prior(&0.6_f64.to_be_bytes()).unwrap();
    assert_eq!(f64::from_bits(decoded.to_bits()), 0.6);
}

#[test]
fn a_record_of_another_length_is_malformed() {
    assert_eq!(decode_prior(&[]), Err(Failure::MalformedStoredValue));
    assert_eq!(decode_prior(&[0x3f, 0xe8, 0, 0, 0, 0, 0]), Err(Failure::MalformedStoredValue));
    assert_eq!(decode_prior(&[0; 9]), Err(Failure::MalformedStoredValue));
    assert_eq!(decode_prior(&[0x3f, 0xe8, 0, 0]), Err(Failure::MalformedStoredValue));
}

#[test]
fn every_pattern_survives_its_record() {
    let mut bits: u64 = 0xfeed_face_cafe_beef;
    for _ in 0..20_000 {
        bits = bits.wrapping_mul(6364136223846793005).wrapping_add(1442695040888963407);
        let value = Binary64::from_bits(bits);
        assert_eq!(decode_prior(&value.to_be_bytes()), Ok(value));
    }
}
