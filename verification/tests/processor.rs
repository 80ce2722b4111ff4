use backup_copy::decimal::decimal_string;
use backup_copy::{BackupCopyProcessor, Stats};

#[test]
fn test_processor_creation() {
    let processor = BackupCopyProcessor::new(true);
    assert_eq!(processor.verbose(), true);
    assert_eq!(processor.processed_count(), 0);
}

#[test]
fn test_data_processing() {
    let mut processor = BackupCopyProcessor::new(false);
    let result = processor.process("test data").unwrap();

    assert!(result.success);
    assert_eq!(processor.processed_count(), 1);
}

#[test]
fn first_record_is_fully_determined() {
    let mut processor = BackupCopyProcessor::new(false);
    let result = processor
        .process_at("test data", String::from("2024-05-06T07:08:09+00:00"))
        .unwrap();

    assert!(result.success);
    assert_eq!(result.message, "Successfully processed item #1");
    let data = result.data.unwrap();
    assert_eq!(data.length, 9);
    assert_eq!(data.processed_at, "2024-05-06T07:08:09+00:00");
    assert_eq!(data.item_number, 1);
}

#[test]
fn empty_text_has_length_zero() {
    let mut processor = BackupCopyProcessor::new(false);
    let result = processor.process("").unwrap();

    assert!(result.success);
    let data = result.data.unwrap();
    assert_eq!(data.length, 0);
    assert_eq!(data.item_number, 1);
}

#[test]
fn length_counts_bytes_not_characters() {
    let mut processor = BackupCopyProcessor::new(false);

    let accented = processor.process("h\u{e9}llo").unwrap().data.unwrap();
    assert_eq!(accented.length, 6);

    let mixed = processor.process("a\u{20ac}\u{1f600}\n").unwrap().data.unwrap();
    assert_eq!(mixed.length, 1 + 3 + 4 + 1);
}

#[test]
fn nth_call_reports_item_number_n() {
    let mut processor = BackupCopyProcessor::new(true);
    for n in 1..=25usize {
        let result = processor.process("x").unwrap();
        assert_eq!(result.data.unwrap().item_number, n);
        assert_eq!(processor.processed_count(), n);
        assert_eq!(result.message, format!("Successfully processed item #{}", n));
    }
    assert_eq!(processor.processed_count(), 25);
}

#[test]
fn messages_carry_multi_digit_numbers() {
    let mut processor = BackupCopyProcessor::new(false);
    let mut last = String::new();
    for _ in 0..120 {
        last = processor.process("payload").unwrap().message;
    }
    assert_eq!(last, "Successfully processed item #120");
}

#[test]
fn item_numbers_never_repeat() {
    let mut processor = BackupCopyProcessor::new(false);
    let mut seen: Vec<usize> = Vec::new();
    for _ in 0..50 {
        let number = processor.process("same text").unwrap().data.unwrap().item_number;
        assert!(!seen.contains(&number));
        if let Some(previous) = seen.last() {
            assert!(*previous < number);
        }
        seen.push(number);
    }
}

fn digits_only(text: &str) -> bool {
    !text.is_empty() && text.chars().all(|c| c.is_ascii_digit())
}

#[test]
fn timestamp_is_taken_from_the_clock_in_utc() {
    let before = chrono::Utc::now();
    let mut processor = BackupCopyProcessor::new(false);
    let data = processor.process("tick").unwrap().data.unwrap();
    let after = chrono::Utc::now();

    let parsed = chrono::DateTime::parse_from_rfc3339(&data.processed_at).unwrap();
    assert!(before <= parsed);
    assert!(parsed <= after);
}

#[test]
fn timestamp_has_the_shape_of_a_utc_instant() {
    let mut processor = BackupCopyProcessor::new(false);
    let stamp = processor.process("tick").unwrap().data.unwrap().processed_at;

    assert!(stamp.is_ascii());
    let body = stamp.strip_suffix("+00:00").unwrap();
    let (seconds, fraction) = match body.split_once('.') {
        Some((seconds, fraction)) => (seconds, Some(fraction)),
        None => (body, None),
    };
    if let Some(fraction) = fraction {
        assert!(digits_only(fraction));
        assert!(fraction.len() == 3 || fraction.len() == 6 || fraction.len() == 9);
    }
    assert_eq!(seconds.len(), 19);
    let bytes = seconds.as_bytes();
    assert!(digits_only(&seconds[0..4]));
    assert_eq!(bytes[4], b'-');
    assert!(digits_only(&seconds[5..7]));
    assert_eq!(bytes[7], b'-');
    assert!(digits_only(&seconds[8..10]));
    assert_eq!(bytes[10], b'T');
    assert!(digits_only(&seconds[11..13]));
    assert_eq!(bytes[13], b':');
    assert!(digits_only(&seconds[14..16]));
    assert_eq!(bytes[16], b':');
    assert!(digits_only(&seconds[17..19]));
}

#[test]
fn given_timestamp_is_kept_verbatim() {
    let mut processor = BackupCopyProcessor::new(false);
    let data = processor.process_at("a", String::from("not even a date")).unwrap().data.unwrap();
    assert_eq!(data.processed_at, "not even a date");
}

#[test]
fn stats_of_a_fresh_processor() {
    let quiet = BackupCopyProcessor::new(false);
    assert_eq!(quiet.get_stats(), Stats { processed_count: 0, verbose: false });

    let chatty = BackupCopyProcessor::new(true);
    assert_eq!(chatty.get_stats(), Stats { processed_count: 0, verbose: true });
}

#[test]
fn stats_follow_the_counter() {
    let mut processor = BackupCopyProcessor::new(true);
    processor.process("one").unwrap();
    processor.process("two").unwrap();
    processor.process("three").unwrap();
    assert_eq!(processor.get_stats(), Stats { processed_count: 3, verbose: true });
}

#[test]
fn consecutive_stats_are_identical() {
    let mut processor = BackupCopyProcessor::new(false);
    processor.process("something").unwrap();
    let first = processor.get_stats();
    let second = processor.get_stats();
    assert_eq!(first, second);
    assert_eq!(processor.processed_count(), 1);
}

#[test]
fn decimal_numerals() {
    assert_eq!(decimal_string(0), "0");
    assert_eq!(decimal_string(7), "7");
    assert_eq!(decimal_string(9), "9");
    assert_eq!(decimal_string(10), "10");
    assert_eq!(decimal_string(101), "101");
    assert_eq!(decimal_string(1234567890), "1234567890");
    assert_eq!(decimal_string(usize::MAX), usize::MAX.to_string());
}
