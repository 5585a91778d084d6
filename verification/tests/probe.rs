use easygif::errors::ApiError;
use easygif::probe::{parse_report, probe_from_output, Probe};

/// The host-side frame rate: dividend over divisor, non-finite when either
/// frame-rate field stayed absent.
fn frame_rate(dividend: Option<u64>, divisor: Option<u64>) -> f64 {
    match (dividend, divisor) {
        (Some(a), Some(b)) => a as f64 / b as f64,
        _ => f64::NAN,
    }
}

#[test]
fn parses_plain_report() {
    let f = parse_report(&b"1920,1080,30/1\n".to_vec());
    assert_eq!(f.width, 1920);
    assert_eq!(f.height, Some(1080));
    assert_eq!(f.fps_dividend, Some(30));
    assert_eq!(f.fps_divisor, Some(1));
    assert_eq!(frame_rate(f.fps_dividend, f.fps_divisor), 30.0);
}

#[test]
fn parses_fractional_rate() {
    let f = parse_report(&b"640,480,24000/1001\r\n".to_vec());
    assert_eq!(f.width, 640);
    assert_eq!(f.height, Some(480));
    assert_eq!(f.fps_dividend, Some(24000));
    assert_eq!(f.fps_divisor, Some(1001));
    let fps = frame_rate(f.fps_dividend, f.fps_divisor);
    assert!((fps - 23.976).abs() < 0.001);
}

#[test]
fn only_first_line_is_consulted() {
    let f = parse_report(&b"1920,1080,30/1\n640,480,24/1\n".to_vec());
    assert_eq!(f.width, 1920);
    assert_eq!(f.height, Some(1080));
    assert_eq!(f.fps_dividend, Some(30));
    assert_eq!(f.fps_divisor, Some(1));
}

#[test]
fn carriage_return_ends_the_scan() {
    let f = parse_report(&b"12,34,5/6\r99,99,9/9\n".to_vec());
    assert_eq!(f.width, 12);
    assert_eq!(f.height, Some(34));
    assert_eq!(f.fps_dividend, Some(5));
    assert_eq!(f.fps_divisor, Some(6));
}

#[test]
fn empty_input_leaves_fields_absent() {
    let f = parse_report(&Vec::new());
    assert_eq!(f.width, 0);
    assert_eq!(f.height, None);
    assert_eq!(f.fps_dividend, None);
    assert_eq!(f.fps_divisor, None);
}

#[test]
fn untouched_divisor_makes_rate_non_finite() {
    // The frame-rate field can stay absent; the division is surfaced as a
    // non-finite rate, not turned into a parse error.
    let f = parse_report(&b"1920,1080,30\n".to_vec());
    assert_eq!(f.fps_dividend, Some(30));
    assert_eq!(f.fps_divisor, None);
    assert!(!frame_rate(f.fps_dividend, f.fps_divisor).is_finite());
}

#[test]
fn divisor_without_digits_makes_rate_non_finite() {
    // The slash activates the divisor at a fresh zero; dividing by it is
    // likewise non-finite.
    let f = parse_report(&b"1920,1080,30/\n".to_vec());
    assert_eq!(f.fps_dividend, Some(30));
    assert_eq!(f.fps_divisor, Some(0));
    assert!(!frame_rate(f.fps_dividend, f.fps_divisor).is_finite());
}

#[test]
fn extra_separators_activate_fields_in_order() {
    // Separators alone walk the fields; with no digits after them the later
    // fields hold fresh zero accumulators.
    let f = parse_report(&b",,,\n".to_vec());
    assert_eq!(f.width, 0);
    assert_eq!(f.height, Some(0));
    assert_eq!(f.fps_dividend, Some(0));
    assert_eq!(f.fps_divisor, Some(0));
}

#[test]
fn separators_beyond_the_last_field_change_nothing() {
    let f = parse_report(&b"1,2,3/4,5/6\n".to_vec());
    assert_eq!(f.width, 1);
    assert_eq!(f.height, Some(2));
    assert_eq!(f.fps_dividend, Some(3));
    // All fields are active after the first slash; later digits keep
    // accumulating into the divisor and later separators do nothing.
    assert_eq!(f.fps_divisor, Some(456));
}

#[test]
fn non_digit_bytes_are_ignored() {
    let f = parse_report(&b" 19 20,10x80,3 0/1\n".to_vec());
    assert_eq!(f.width, 1920);
    assert_eq!(f.height, Some(1080));
    assert_eq!(f.fps_dividend, Some(30));
    assert_eq!(f.fps_divisor, Some(1));
}

#[test]
fn overlong_accumulator_saturates() {
    let mut report = Vec::new();
    report.extend_from_slice(&[b'9'; 25]);
    report.push(b'\n');
    let f = parse_report(&report);
    assert_eq!(f.width, u64::MAX);
}

#[test]
fn empty_output_is_source_not_found() {
    let r = probe_from_output(String::from("missing.gif"), &Vec::new());
    assert_eq!(r, Err(ApiError::SourceNotFound));
}

#[test]
fn probe_carries_source_and_fields() {
    let r = probe_from_output(String::from("clip.gif"), &b"320,240,12/1\n".to_vec());
    let expected = Probe {
        src: String::from("clip.gif"),
        width: 320,
        height: Some(240),
        fps_dividend: Some(12),
        fps_divisor: Some(1),
    };
    assert_eq!(r, Ok(expected));
}
