use aleo_utils::prober::{
    after_attempt, bump, next_attempt, rate, report_line, worker_count, AttemptInput, Rate,
    WorkerStep, EPOCH_HASH_VARIABLE, REPORT_INTERVAL_SECS, REWARD_ADDRESS,
};
use aleo_utils::text::{decimal_string, trim_end_slashes};

#[test]
fn at_least_one_worker() {
    assert!(worker_count() >= 1);
}

#[test]
fn attempts_carry_no_minimum_target() {
    let first = next_attempt();
    let second = next_attempt();
    assert_eq!(first.minimum_target, None);
    assert_eq!(second.minimum_target, None);
}

#[test]
fn an_attempt_keeps_its_nonce() {
    let input = AttemptInput::with_nonce(77);
    assert_eq!(input.nonce, 77);
    assert_eq!(input.minimum_target, None);
    assert_eq!(AttemptInput::with_nonce(u64::MAX).nonce, u64::MAX);
}

#[test]
fn a_proof_is_counted_and_a_failure_halts() {
    assert_eq!(after_attempt(true), WorkerStep::Count);
    assert_eq!(after_attempt(false), WorkerStep::Halt);
}

#[test]
fn counter_never_decreases_short_of_the_wrap() {
    let mut count: u64 = 0;
    for expected in 1..=1000u64 {
        let next = bump(count);
        assert!(next >= count);
        assert_eq!(next, expected);
        count = next;
    }
    assert_eq!(bump(u64::MAX - 1), u64::MAX);
}

#[test]
fn counter_wraps_only_at_the_top() {
    assert_eq!(bump(u64::MAX), 0);
}

#[test]
fn rate_is_the_difference_over_ten() {
    assert_eq!(rate(0, 25), Rate { whole: 2, tenths: 5 });
    assert_eq!(rate(100, 150), Rate { whole: 5, tenths: 0 });
    assert_eq!(rate(7, 7), Rate { whole: 0, tenths: 0 });
    assert_eq!(rate(7, 8), Rate { whole: 0, tenths: 1 });
    assert_eq!(rate(0, u64::MAX), Rate { whole: 1844674407370955161, tenths: 5 });
    let r = rate(1000, 1234);
    assert_eq!(r.whole as f64 + r.tenths as f64 / 10.0, (1234.0 - 1000.0) / 10.0);
}

#[test]
fn rate_survives_a_wrapped_counter() {
    assert_eq!(rate(u64::MAX, 4), Rate { whole: 0, tenths: 5 });
    assert_eq!(rate(u64::MAX - 9, 0), Rate { whole: 1, tenths: 0 });
}

#[test]
fn rate_text() {
    assert_eq!(Rate { whole: 2, tenths: 5 }.text(), "2.5");
    assert_eq!(Rate { whole: 5, tenths: 0 }.text(), "5");
    assert_eq!(Rate { whole: 0, tenths: 0 }.text(), "0");
    assert_eq!(Rate { whole: 0, tenths: 3 }.text(), "0.3");
}

#[test]
fn report_line_text() {
    assert_eq!(report_line(0, 25), "Proofs per second: 2.5");
    assert_eq!(report_line(10, 60), "Proofs per second: 5");
    assert_eq!(report_line(3, 3), "Proofs per second: 0");
    assert_eq!(report_line(0, 25), format!("Proofs per second: {}", 25.0 / 10.0));
    assert_eq!(report_line(10, 60), format!("Proofs per second: {}", 50.0 / 10.0));
}

#[test]
fn the_window_is_ten_seconds() {
    assert_eq!(REPORT_INTERVAL_SECS, 10);
}

#[test]
fn decimal_numerals() {
    assert_eq!(decimal_string(0), "0");
    assert_eq!(decimal_string(9), "9");
    assert_eq!(decimal_string(10), "10");
    assert_eq!(decimal_string(404), "404");
    assert_eq!(decimal_string(1234567890), "1234567890");
    assert_eq!(decimal_string(u64::MAX), "18446744073709551615");
}

#[test]
fn trimming_slashes() {
    assert_eq!(trim_end_slashes("http://host/api/"), "http://host/api");
    assert_eq!(trim_end_slashes("http://host/api"), "http://host/api");
    assert_eq!(trim_end_slashes("/"), "");
    assert_eq!(trim_end_slashes("//a//"), "//a");
    assert_eq!(trim_end_slashes("h\u{e9}//"), "h\u{e9}");
    assert_eq!(trim_end_slashes("a/ "), "a/ ");
}

#[test]
fn startup_names() {
    assert_eq!(EPOCH_HASH_VARIABLE, "EPOCH_HASH");
    assert_eq!(
        REWARD_ADDRESS,
        "aleo15qwecrrmvf53x4npnz6aj5xlcs0a7524ukz7hr9cvaxw5av98uxqdq0ula"
    );
}

#[test]
fn trimming_twice_is_trimming_once() {
    for given in ["", "/", "a", "a/", "a///", "/a/b//", "http://host/api/"] {
        let once = trim_end_slashes(given);
        assert_eq!(trim_end_slashes(&once), once);
        assert!(!once.ends_with('/'));
        assert!(given.starts_with(once.as_str()));
        assert!(given[once.len()..].chars().all(|c| c == '/'));
    }
}

#[test]
fn numerals_read_back() {
    for n in [0u64, 1, 9, 10, 99, 100, 1000, 65535, 4294967295, u64::MAX] {
        let text = decimal_string(n);
        assert_eq!(text.parse::<u64>().unwrap(), n);
        assert_eq!(text, format!("{}", n));
    }
}

#[test]
fn counter_follows_the_attempts_of_all_workers() {
    let outcomes = [true, true, false, true, false, true];
    let mut count: u64 = 40;
    let mut readings = vec![count];
    for proved in outcomes {
        if after_attempt(proved) == WorkerStep::Count {
            count = bump(count);
        }
        readings.push(count);
    }
    assert_eq!(count, 44);
    assert!(readings.windows(2).all(|pair| pair[0] <= pair[1]));
}
