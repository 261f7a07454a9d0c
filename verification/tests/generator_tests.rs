use git_tc::ConfigError;
use git_tc::LocalStamp;
use git_tc::TimeOfDay;
use git_tc::TimeWindow;
use git_tc::generate;
use git_tc::plan_commit_time;

fn secs(t: LocalStamp) -> i64 {
    t.day * 86400 + t.sec as i64
}

fn window(start: &str, end: &str) -> TimeWindow {
    TimeWindow::parse(start, end).unwrap()
}

// day 19723 is 2024-01-01, day 19727 is 2024-01-05, counted from 1970-01-01

#[test]
fn result_time_of_day_stays_in_window() {
    let w = window("09:00", "17:00");
    let now = LocalStamp { day: 19723, sec: 28800 };
    let refs = [
        None,
        Some(LocalStamp { day: 19720, sec: 0 }),
        Some(LocalStamp { day: 19723, sec: 50000 }),
        Some(LocalStamp { day: 19730, sec: 86399 }),
    ];
    for reference in refs {
        for _ in 0..50 {
            let t = generate(w, reference, now).unwrap();
            assert!(t.sec >= 32400 && t.sec <= 61200);
        }
    }
}

#[test]
fn result_is_strictly_after_the_reference() {
    let now = LocalStamp { day: 19723, sec: 28800 };
    let w = window("09:00", "10:00");
    let refs = [
        LocalStamp { day: 19000, sec: 0 },
        LocalStamp { day: 19723, sec: 32400 },
        LocalStamp { day: 19723, sec: 36000 },
        LocalStamp { day: 19723, sec: 86399 },
        LocalStamp { day: 19727, sec: 34200 },
    ];
    for reference in refs {
        for _ in 0..50 {
            let t = generate(w, Some(reference), now).unwrap();
            assert!(secs(t) > secs(reference));
        }
    }
}

#[test]
fn without_reference_result_is_never_in_the_past() {
    let w = window("09:00", "10:00");
    let nows = [
        LocalStamp { day: 19723, sec: 28800 },  // before the window
        LocalStamp { day: 19723, sec: 34200 },  // inside the window
        LocalStamp { day: 19723, sec: 50000 },  // after the window
    ];
    for now in nows {
        for _ in 0..50 {
            let t = generate(w, None, now).unwrap();
            assert!(secs(t) >= secs(now));
        }
    }
}

#[test]
fn correction_moves_one_day_forward_at_the_same_time_of_day() {
    // window 09:00-10:00, now 2024-01-01T08:00, last commit 2024-01-01T09:30:
    // a draw at or before 09:30 must land on 2024-01-02, a later draw stays
    let w = window("09:00", "10:00");
    let now = LocalStamp { day: 19723, sec: 28800 };
    let reference = LocalStamp { day: 19723, sec: 34200 };
    for _ in 0..200 {
        let t = generate(w, Some(reference), now).unwrap();
        if t.day == 19723 {
            assert!(t.sec > 34200 && t.sec <= 36000);
        } else {
            assert_eq!(t.day, 19724);
            assert!(t.sec >= 32400 && t.sec <= 36000);
        }
        assert!(secs(t) > secs(reference));
    }
}

#[test]
fn correction_is_forced_when_the_whole_window_precedes_the_reference() {
    // every draw from 09:15-09:16 lies at or before a 09:30 reference,
    // so the result is always the next day, same time of day
    let w = window("09:15", "09:16");
    let now = LocalStamp { day: 19723, sec: 28800 };
    let reference = LocalStamp { day: 19723, sec: 34200 };
    for _ in 0..50 {
        let t = generate(w, Some(reference), now).unwrap();
        assert_eq!(t.day, 19724);
        assert!(t.sec >= 33300 && t.sec <= 33360);
    }
}

#[test]
fn anchor_advances_to_a_future_dated_reference() {
    // reference dated 2024-01-05, now 2024-01-01: the result never lands
    // before 2024-01-05
    let w = window("09:00", "17:00");
    let now = LocalStamp { day: 19723, sec: 3600 };
    let reference = LocalStamp { day: 19727, sec: 34200 };
    for _ in 0..50 {
        let t = generate(w, Some(reference), now).unwrap();
        assert!(t.day >= 19727);
        assert!(secs(t) > secs(reference));
    }
}

#[test]
fn inverted_window_is_rejected_at_generation_time() {
    let now = LocalStamp { day: 19723, sec: 28800 };
    let nine = TimeOfDay::from_hm(9, 0).unwrap();
    let five = TimeOfDay::from_hm(17, 0).unwrap();
    let inverted = TimeWindow { start: five, end: nine };
    assert_eq!(generate(inverted, None, now), Err(ConfigError::InvalidWindow));
    let empty = TimeWindow { start: nine, end: nine };
    assert_eq!(generate(empty, None, now), Err(ConfigError::InvalidWindow));
}

#[test]
fn plan_commit_time_reports_each_error() {
    let now = LocalStamp { day: 19723, sec: 28800 };
    assert_eq!(
        plan_commit_time("9am", "17:00", None, now),
        Err(ConfigError::MalformedTimeString)
    );
    assert_eq!(
        plan_commit_time("17:00", "09:00", None, now),
        Err(ConfigError::InvalidWindow)
    );
    let t = plan_commit_time("09:00", "17:00", None, now).unwrap();
    assert!(t.sec >= 32400 && t.sec <= 61200);
    assert!(secs(t) >= secs(now));
}

#[test]
fn draws_are_not_all_the_same() {
    // if the random draw always handed back its lower bound, every result
    // in a wide window would carry the same second
    let w = window("00:00", "23:59");
    let now = LocalStamp { day: 19723, sec: 0 };
    let mut seen = Vec::new();
    for _ in 0..100 {
        let t = generate(w, None, now).unwrap();
        seen.push(t.sec);
    }
    let first = seen[0];
    assert!(seen.iter().any(|s| *s != first));
}
