use ping_graph::classify::{Category, ProbeOutcome};
use ping_graph::monitor::{Monitor, Phase};
use ping_graph::record::{header, log_directory, log_path, record_line, GraphSample};
use ping_graph::settings::{Palette, Settings};
use ping_graph::timestamp::Timestamp;

fn at(second: u32) -> Timestamp {
    Timestamp::new(2022, 7, 30, 12, 0, second, 1_659_182_400_000 + second as i64 * 1000).unwrap()
}

fn settings(probe_count: u64, upper_bound_ms: u64) -> Settings {
    Settings {
        start: at(0),
        probe_interval_ms: 10000,
        probe_count,
        destination: "1.1.1.1".to_string(),
        probe_timeout_ms: 1000,
        buffer_size: 1000,
        upper_bound_ms,
        graph_title: "Ping Results".to_string(),
        graph_x_label: "Pings".to_string(),
        graph_y_label: "Time (ms)".to_string(),
        palette: Palette {
            fail: 0xFB092CFF,
            upper: 0xFD9050FF,
            pass: 0xFFFFFFFF,
            background: 0x1E2028FF,
            frame: 0xFFFFFFFF,
            major_divisions: 0xFFFFFFFF,
            plot_line: 0x19C4F1FF,
            title: 0x46E415FF,
            labels: 0xFD9050FF,
            numbering: 0x8572F8FF,
        },
    }
}

/// Drives a run whose probe always gives `outcome`, collecting the log the
/// way the program writes it; stops offering cycles after `limit`.
fn drive(s: &Settings, outcome: &ProbeOutcome, limit: u32) -> (Vec<String>, Vec<Category>, Monitor) {
    let mut log = vec![header(s)];
    let mut categories = Vec::new();
    let mut m = Monitor::new(s.probe_count);
    let mut offered: u32 = 0;
    while offered < limit && m.begin_cycle(false) {
        offered += 1;
        let r = m.record_cycle(outcome, &at(offered), s);
        assert_eq!(r.console.text, r.log_line);
        categories.push(r.category);
        log.push(r.log_line);
    }
    (log, categories, m)
}

fn reply(ms: u32) -> ProbeOutcome {
    ProbeOutcome::Success { round_trip_ms: ms, address: "1.1.1.1".to_string() }
}

#[test]
fn steady_fast_replies_give_three_passes() {
    let s = settings(3, 200);
    let (log, categories, m) = drive(&s, &reply(50), 100);
    assert_eq!(log.len(), 4);
    assert_eq!(categories, vec![Category::Pass, Category::Pass, Category::Pass]);
    assert_eq!(log[1], "[2022-07-30_12-00-01]:  <P>  1.1.1.1 - 50ms\n");
    assert_eq!(log[3], "[2022-07-30_12-00-03]:  <P>  1.1.1.1 - 50ms\n");
    assert_eq!(m.phase, Phase::Terminated);
    assert_eq!(m.completed, 3);
}

#[test]
fn slow_reply_gives_one_upper_record() {
    let s = settings(1, 200);
    let (log, categories, m) = drive(&s, &reply(250), 100);
    assert_eq!(log.len(), 2);
    assert_eq!(categories, vec![Category::Upper]);
    assert_eq!(log[1], "[2022-07-30_12-00-01]:  <U>  1.1.1.1 - 250ms\n");
    assert_eq!(m.phase, Phase::Terminated);
}

#[test]
fn timeouts_give_fail_records_and_the_run_ends_normally() {
    let s = settings(2, 200);
    let timed_out = ProbeOutcome::Failure { reason: "TimedOut".to_string() };
    let (log, categories, m) = drive(&s, &timed_out, 100);
    assert_eq!(log.len(), 3);
    assert_eq!(categories, vec![Category::Fail, Category::Fail]);
    assert_eq!(log[2], "[2022-07-30_12-00-02]:  <F>  TimedOut\n");
    assert_eq!(m.phase, Phase::Terminated);
    assert_eq!(m.completed, 2);
}

#[test]
fn count_zero_keeps_running() {
    let s = settings(0, 200);
    let (log, _, mut m) = drive(&s, &reply(20), 50);
    assert_eq!(log.len(), 51);
    assert_eq!(m.phase, Phase::Recorded);
    assert!(m.begin_cycle(false));
}

#[test]
fn cancellation_is_honoured_between_cycles() {
    let s = settings(0, 200);
    let mut m = Monitor::new(0);
    assert!(m.begin_cycle(false));
    let _ = m.record_cycle(&reply(20), &at(1), &s);
    assert!(!m.begin_cycle(true));
    assert_eq!(m.phase, Phase::Terminated);
    assert!(!m.begin_cycle(false));
}

#[test]
fn log_and_console_carry_the_same_line() {
    let s = settings(1, 200);
    let mut m = Monitor::new(1);
    assert!(m.begin_cycle(false));
    let r = m.record_cycle(&reply(250), &at(5), &s);
    assert_eq!(r.console.text, r.log_line);
    assert_eq!(r.console.colour, Some((0xFD, 0x90, 0x50)));
    assert_eq!(r.sample, GraphSample { elapsed_ms: 5000, category: Category::Upper, round_trip_ms: Some(250) });
    let f = {
        let mut m2 = Monitor::new(1);
        assert!(m2.begin_cycle(false));
        m2.record_cycle(&ProbeOutcome::Failure { reason: "TimedOut".to_string() }, &at(2), &s)
    };
    assert_eq!(f.console.text, f.log_line);
    assert_eq!(f.console.colour, Some((0xFB, 0x09, 0x2C)));
    assert_eq!(f.sample, GraphSample { elapsed_ms: 2000, category: Category::Fail, round_trip_ms: None });
    let p = {
        let mut m3 = Monitor::new(1);
        assert!(m3.begin_cycle(false));
        m3.record_cycle(&reply(7), &at(3), &s)
    };
    assert_eq!(p.console.colour, None);
}

#[test]
fn header_describes_the_run() {
    let s = settings(3, 200);
    assert_eq!(
        header(&s),
        "-=-  Ping Graph  -=-\n-=>  Started:  2022-07-30_12-00-00\n-=>  Address:  1.1.1.1\n-=>  Period:  10s\n-=>  Timeout:  1000ms\n\n"
    );
}

#[test]
fn log_file_is_named_after_the_start() {
    assert_eq!(log_directory(), "./data");
    assert_eq!(log_path(&at(0)), "./data/pingResults-2022-07-30_12-00-00.csv");
    assert_eq!(log_path(&at(9)), "./data/pingResults-2022-07-30_12-00-09.csv");
}

#[test]
fn record_line_formats() {
    assert_eq!(record_line("S", &reply(0), Category::Pass), "[S]:  <P>  1.1.1.1 - 0ms\n");
    assert_eq!(record_line("S", &reply(4294967295), Category::Upper), "[S]:  <U>  1.1.1.1 - 4294967295ms\n");
}
