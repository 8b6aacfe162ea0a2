use bff_proxy::storage::{format_i64, fresh_object_key, object_key, upload_failure_message,
    upload_success_message};

#[test]
fn decimal_rendering_is_exact() {
    assert_eq!(format_i64(0), "0");
    assert_eq!(format_i64(7), "7");
    assert_eq!(format_i64(10), "10");
    assert_eq!(format_i64(-5), "-5");
    assert_eq!(format_i64(1700000000), "1700000000");
    assert_eq!(format_i64(i64::MAX), "9223372036854775807");
    assert_eq!(format_i64(i64::MIN), "-9223372036854775808");
}

#[test]
fn object_key_is_timestamp_with_suffix() {
    assert_eq!(object_key(0), "0.txt");
    assert_eq!(object_key(1700000000), "1700000000.txt");
    assert_eq!(object_key(-1), "-1.txt");
}

#[test]
fn fresh_object_key_reads_the_clock() {
    let key = fresh_object_key();
    assert!(key.ends_with(".txt"));
    let digits = &key[..key.len() - 4];
    assert!(!digits.is_empty());
    assert!(digits.chars().all(|c| c.is_ascii_digit() || c == '-'));
    // the clock is well past the epoch: the stamp has several digits
    assert!(digits.len() >= 9);
}

#[test]
fn upload_messages_are_exact() {
    assert_eq!(
        upload_success_message("1700000000.txt"),
        "the lambda has successfully stored your request in S3 with the name '1700000000.txt'"
    );
    assert_eq!(
        upload_failure_message(),
        "The lambda encountered an error while uploading the file to S3."
    );
}
