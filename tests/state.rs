use counter::error::CounterError;
use counter::state::{Counter, COUNTER_LEN};

#[test]
fn encoding_is_one_byte_holding_the_value() {
    let mut buf = [0xaau8; COUNTER_LEN];
    Counter { value: 200 }.pack_into_slice(&mut buf);
    assert_eq!(buf, [200u8]);
}

#[test]
fn decode_of_encode_round_trips() {
    for v in 0..=255u8 {
        let c = Counter { value: v };
        let mut buf = [0u8; 1];
        c.pack_into_slice(&mut buf);
        assert_eq!(Counter::unpack(&buf), Ok(c));
        assert_eq!(Counter::unpack_from_slice(&buf), Ok(c));
    }
}

#[test]
fn unpack_rejects_wrong_lengths() {
    assert_eq!(Counter::unpack(&[]), Err(CounterError::DecodeFailure));
    assert_eq!(Counter::unpack(&[1, 2]), Err(CounterError::DecodeFailure));
    assert_eq!(Counter::unpack(&[0]), Ok(Counter { value: 0 }));
}

#[test]
fn is_initialized_means_nonzero() {
    assert!(!Counter { value: 0 }.is_initialized());
    assert!(Counter { value: 1 }.is_initialized());
    assert!(Counter { value: 255 }.is_initialized());
}

#[test]
fn increment_wraps() {
    let mut c = Counter { value: 254 };
    c.increment();
    assert_eq!(c.value, 255);
    c.increment();
    assert_eq!(c.value, 0);
}
