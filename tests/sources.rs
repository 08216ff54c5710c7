use urandom_bench::entropy::parse_entropy_count;
use urandom_bench::rng::{counter_entropy_count, OsRngSource, Rng, ThreadRngSource, UrandomError};

#[test]
fn parses_counter_with_newline() {
    assert_eq!(parse_entropy_count(b"256\n"), Some(256));
}

#[test]
fn parses_counter_without_newline() {
    assert_eq!(parse_entropy_count(b"3840"), Some(3840));
}

#[test]
fn parses_only_first_line() {
    assert_eq!(parse_entropy_count(b"17\n99\n"), Some(17));
}

#[test]
fn parses_plus_sign_and_carriage_return() {
    assert_eq!(parse_entropy_count(b"+42\r\n"), Some(42));
}

#[test]
fn parses_largest_count() {
    assert_eq!(parse_entropy_count(b"4294967295\n"), Some(u32::MAX));
}

#[test]
fn rejects_count_beyond_u32() {
    assert_eq!(parse_entropy_count(b"4294967296\n"), None);
}

#[test]
fn rejects_empty_counter() {
    assert_eq!(parse_entropy_count(b""), None);
}

#[test]
fn rejects_empty_first_line() {
    assert_eq!(parse_entropy_count(b"\n256\n"), None);
}

#[test]
fn rejects_non_digits() {
    assert_eq!(parse_entropy_count(b"25x\n"), None);
    assert_eq!(parse_entropy_count(b"-1\n"), None);
    assert_eq!(parse_entropy_count(b"+\n"), None);
    assert_eq!(parse_entropy_count(b" 7\n"), None);
}

#[test]
fn malformed_counter_is_an_error() {
    assert!(matches!(counter_entropy_count(b"oops"), Err(UrandomError::Malformed)));
    assert!(matches!(counter_entropy_count(b"128\n"), Ok(128)));
}

#[test]
fn thread_source_fills_whole_buffer() {
    let mut rng = ThreadRngSource::new();
    let mut data = vec![0u8; 10];
    assert!(matches!(rng.get_random(data.as_mut_slice()), Ok(10)));
    let mut big = vec![0u8; 4096];
    assert!(matches!(rng.get_random(big.as_mut_slice()), Ok(4096)));
    assert!(big.iter().any(|b| *b != 0));
}

#[test]
fn os_source_fills_whole_buffer() {
    let mut rng = OsRngSource::new();
    let mut data = vec![0u8; 10];
    assert!(matches!(rng.get_random(data.as_mut_slice()), Ok(10)));
    let mut big = vec![0u8; 4096];
    assert!(matches!(rng.get_random(big.as_mut_slice()), Ok(4096)));
    assert!(big.iter().any(|b| *b != 0));
}

#[test]
fn empty_draw_returns_zero() {
    let mut rng = ThreadRngSource::new();
    let mut data: Vec<u8> = Vec::new();
    assert!(matches!(rng.get_random(data.as_mut_slice()), Ok(0)));
}

#[test]
fn sources_read_the_counter_file_content() {
    let t = ThreadRngSource::new();
    let o = OsRngSource::new();
    assert!(matches!(t.get_entropy_count(b"256\n"), Ok(256)));
    assert!(matches!(o.get_entropy_count(b"512\n"), Ok(512)));
    assert!(matches!(t.get_entropy_count(b"x\n"), Err(UrandomError::Malformed)));
    assert!(matches!(o.get_entropy_count(b""), Err(UrandomError::Malformed)));
}

#[test]
fn keeps_carriage_return_without_newline() {
    assert_eq!(parse_entropy_count(b"42\r"), None);
    assert_eq!(parse_entropy_count(b"42\r\n"), Some(42));
}

#[test]
fn os_source_accepts_empty_buffer() {
    let mut rng = OsRngSource::new();
    let mut data: Vec<u8> = Vec::new();
    assert!(matches!(rng.get_random(data.as_mut_slice()), Ok(0)));
}

#[test]
fn thread_source_draws_repeatedly() {
    let mut rng = ThreadRngSource::new();
    let mut data = vec![0u8; 1024];
    for _ in 0..100 {
        assert!(matches!(rng.get_random(data.as_mut_slice()), Ok(1024)));
    }
}
