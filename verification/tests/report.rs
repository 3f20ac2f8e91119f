use tend::job::report::decimal_text;
use tend::job::supervisor::Elapsed;
use tend::job::supervisor::Notice;

#[test]
fn decimal_text_of_small_and_large_numbers() {
    assert_eq!(decimal_text(0), "0");
    assert_eq!(decimal_text(7), "7");
    assert_eq!(decimal_text(10), "10");
    assert_eq!(decimal_text(15), "15");
    assert_eq!(decimal_text(60), "60");
    assert_eq!(decimal_text(1234567890), "1234567890");
    assert_eq!(decimal_text(u64::MAX), "18446744073709551615");
}

#[test]
fn elapsed_keeps_nanoseconds_under_a_second() {
    let elapsed = Elapsed::new(3, 999_999_999).unwrap();
    assert_eq!(elapsed.as_secs(), 3);
    assert_eq!(elapsed.subsec_nanos(), 999_999_999);
    assert_eq!(Elapsed::new(3, 1_000_000_000), None);
    assert_eq!(Elapsed::new(0, u32::MAX), None);
    assert!(Elapsed::new(u64::MAX, 0).is_some());
}

#[test]
fn elapsed_text_is_short() {
    assert_eq!(Elapsed::new(5, 0).unwrap().text(), "5.00s");
    assert_eq!(Elapsed::new(0, 123_456_789).unwrap().text(), "123ms");
    assert_eq!(Elapsed::new(1, 123_456_789).unwrap().text(), "1.12s");
    assert_eq!(Elapsed::new(12, 123_456_789).unwrap().text(), "12.1s");
    assert_eq!(Elapsed::new(123, 123_456_789).unwrap().text(), "2.05m");
    assert_eq!(Elapsed::new(0, 0).unwrap().text(), "0.00s");
}

#[test]
fn notice_of_start_restart_and_stop() {
    assert_eq!(Notice::Starting.text("web"), "web starting");
    assert_eq!(Notice::Restarting.text("web"), "web restarting");
    assert_eq!(Notice::Stopping.text("web"), "web stopping");
}

#[test]
fn notice_of_output_lines() {
    assert_eq!(Notice::StdoutLine("listening on 8080".to_string()).text("web"), "web: listening on 8080");
    assert_eq!(Notice::StderrLine("warn: slow".to_string()).text("web"), "web (stderr): warn: slow");
    assert_eq!(Notice::StdoutLine(String::new()).text("web"), "web: ");
}

#[test]
fn notice_of_finished_process() {
    let success = Notice::Finished { success: true, elapsed: Elapsed::new(5, 0).unwrap() };
    assert_eq!(success.text("web"), "web process finished indicating success after running for 5.00s");
    let failure = Notice::Finished { success: false, elapsed: Elapsed::new(0, 123_456_789).unwrap() };
    assert_eq!(failure.text("web"), "web process finished indicating failure after running for 123ms");
}

#[test]
fn notice_of_delayed_restart() {
    assert_eq!(Notice::RestartingIn { seconds: 15 }.text("web"), "web restarting in 15 seconds");
    assert_eq!(Notice::RestartingIn { seconds: 60 }.text("web"), "web restarting in 60 seconds");
}

#[test]
fn notice_of_failed_wait() {
    let notice = Notice::NotAwaited { reason: "no child process".to_string() };
    assert_eq!(notice.text("web"), "web could not be awaited (no child process)");
}

#[test]
fn finished_line_names_the_class_and_the_run_time() {
    assert_eq!(
        tend::job::report::finished_line("web", true, "5.00s"),
        "web process finished indicating success after running for 5.00s"
    );
    assert_eq!(
        tend::job::report::finished_line("db", false, ""),
        "db process finished indicating failure after running for "
    );
}
