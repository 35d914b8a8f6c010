use keystrokes::ErrorCodes;
use keystrokes::KeyError;
use keystrokes::VK_SHIFT;
use keystrokes::classify::classify_byte;
use keystrokes::classify::lookup_punctuation;
use keystrokes::convert::to_keystrokes_bytes;
use keystrokes::to_keystrokes_mut;
use keystrokes::to_keystrokes_new;

#[test]
fn test_empty_input_yields_empty_output() {
    let strokes = to_keystrokes_new("").unwrap();
    assert_eq!(strokes.len(), 0);
}

#[test]
fn test_conversion_is_repeatable() {
    let first = to_keystrokes_new("Hello, World 42!");
    let second = to_keystrokes_new("Hello, World 42!");
    assert_eq!(first, second);
}

#[test]
fn test_control_byte_is_out_of_range() {
    let err = to_keystrokes_new("\u{1}").unwrap_err();
    assert_eq!(err, KeyError { byte: 0x01, error_code: ErrorCodes::OutOfRange });
}

#[test]
fn test_delete_byte_is_out_of_range() {
    let err = to_keystrokes_new("\u{7f}").unwrap_err();
    assert_eq!(err, KeyError { byte: 0x7F, error_code: ErrorCodes::OutOfRange });
}

#[test]
fn test_error_reports_first_bad_byte() {
    // The prefix is convertible; the tab byte aborts the conversion.
    let err = to_keystrokes_new("ab\tcd").unwrap_err();
    assert_eq!(err, KeyError { byte: 0x09, error_code: ErrorCodes::OutOfRange });
}

#[test]
fn test_mut_appends_to_existing_vector() {
    let mut strokes: Vec<u8> = vec![0x99];
    to_keystrokes_mut("ab", &mut strokes).unwrap();
    assert_eq!(strokes, vec![0x99, 0x41, 0x42]);
}

#[test]
fn test_mut_leaves_vector_unchanged_on_error() {
    let mut strokes: Vec<u8> = vec![0x41, 0x42];
    let err = to_keystrokes_mut("a\u{1}b", &mut strokes).unwrap_err();
    assert_eq!(err.error_code, ErrorCodes::OutOfRange);
    assert_eq!(strokes, vec![0x41, 0x42]);
}

#[test]
fn test_bytes_mixed_runs() {
    // 'a' + '+' + '1': the shift key closes and opens between runs.
    let strokes = to_keystrokes_bytes(b"a+1").unwrap();
    assert_eq!(strokes, vec![0x41, VK_SHIFT, 0xBB, VK_SHIFT, 0x31]);
}

#[test]
fn test_bytes_out_of_range_high() {
    let err = to_keystrokes_bytes(&[0x41, 0x80]).unwrap_err();
    assert_eq!(err, KeyError { byte: 0x80, error_code: ErrorCodes::OutOfRange });
}

#[test]
fn test_classify_byte_values() {
    assert_eq!(classify_byte(0x61), Ok((0x41, false))); // 'a'
    assert_eq!(classify_byte(0x41), Ok((0x41, true))); // 'A'
    assert_eq!(classify_byte(0x37), Ok((0x37, false))); // '7'
    assert_eq!(classify_byte(0x26), Ok((0x37, true))); // '&'
    assert_eq!(classify_byte(0x1F), Err(ErrorCodes::OutOfRange));
    assert_eq!(classify_byte(0xFF), Err(ErrorCodes::OutOfRange));
}

#[test]
fn test_lookup_same_code_with_and_without_shift() {
    // '=' and '+' share the key; only '+' needs shift.
    assert_eq!(lookup_punctuation(0x3D), Some((0xBB, false)));
    assert_eq!(lookup_punctuation(0x2B), Some((0xBB, true)));
    // Letters are not in the punctuation table.
    assert_eq!(lookup_punctuation(0x41), None);
}
