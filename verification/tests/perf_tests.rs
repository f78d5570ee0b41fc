use print_perf::{Elapsed, Perf};

fn busy_wait_millis(ms: u64) {
    let t = std::time::Instant::now();
    while t.elapsed() < std::time::Duration::from_millis(ms) {}
}

fn add(a: i32, b: i32) -> i32 {
    busy_wait_millis(100);
    a + b
}

fn add_fast(a: i32, b: i32) -> i32 {
    a + b
}

fn new_perf(label: &str, origin: &str) -> Perf {
    Perf::new(String::from(label), String::from(origin))
}

/// The total nanoseconds shown by a plain (undecorated) line.
fn parse_line_nanos(line: &str) -> u128 {
    let dot = line.find('.').expect("no period in line");
    let secs: u128 = line[..dot].parse().expect("bad seconds");
    let frac = &line[dot + 1..dot + 10];
    assert_eq!(frac.len(), 9);
    let nanos: u128 = frac.parse().expect("bad nanoseconds");
    secs * 1_000_000_000 + nanos
}

fn total_nanos(e: &Elapsed) -> u128 {
    e.secs as u128 * 1_000_000_000 + e.nanos as u128
}

#[test]
fn basic_example() {
    // to see output use: cargo test -- --nocapture
    let p = new_perf("add fn", "[tests/perf_tests.rs:36]");
    let _result = add(4, 4);
    p.end();
}

#[test]
fn split_test() {
    let p = new_perf("add fn", "[tests/perf_tests.rs:44]");
    let _result = add(4, 4);
    p.split("add");
    let _div = _result / 2;
    p.split("div");
    p.end();
}

#[test]
fn lap_test() {
    let mut p = new_perf("add fn", "[tests/perf_tests.rs:54]");
    let _result = add(4, 4);
    p.lap("add");
    let _div = _result / 2;
    p.lap("div");
    p.end();
}

#[test]
fn fast_example() {
    // to see output use: cargo test -- --nocapture
    let p = new_perf("add fn", "[tests/perf_tests.rs:64]");
    let _result = add_fast(4, 4);
    p.end();
}

#[test]
fn end_line_carries_label_and_origin() {
    let p = new_perf("my label", "[src/foo.rs:12]");
    let e = p.elapsed_since_start();
    let line = p.end_line(&e, false);
    assert!(line.contains("my label"));
    assert!(line.contains("[src/foo.rs:12]"));
    assert!(line.contains(" - end) @ "));
    // the span parses back as a non-negative pair
    let _v = parse_line_nanos(&line);
}

#[test]
fn rendered_lines_match_exact_format() {
    let p = new_perf("label", "[a.rs:7]");
    let e = Elapsed { secs: 2, nanos: 1 };
    assert_eq!(p.split_line("msg", &e, false), "2.000000001 (label - msg)");
    assert_eq!(p.lap_line("msg", &e, false), "2.000000001 (label - msg - lap 1)");
    assert_eq!(p.end_line(&e, false), "2.000000001 (label - end) @ [a.rs:7]");
    let big = Elapsed { secs: 61, nanos: 999_999_999 };
    assert_eq!(p.split_line("m", &big, false), "61.999999999 (label - m)");
    let zero = Elapsed { secs: 0, nanos: 0 };
    assert_eq!(p.split_line("m", &zero, false), "0.000000000 (label - m)");
    let huge = Elapsed { secs: u64::MAX, nanos: 999_999_999 };
    assert_eq!(p.split_line("m", &huge, false), "18446744073709551615.999999999 (label - m)");
}

#[test]
fn empty_label_and_message_render_verbatim() {
    let p = new_perf("", "");
    let e = Elapsed { secs: 0, nanos: 7 };
    assert_eq!(p.split_line("", &e, false), "0.000000007 ( - )");
    assert_eq!(p.lap_line("", &e, false), "0.000000007 ( -  - lap 1)");
    assert_eq!(p.end_line(&e, false), "0.000000007 ( - end) @ ");
}

#[test]
fn decoration_wraps_the_body_and_leaves_the_origin_plain() {
    let p = new_perf("label", "[a.rs:7]");
    let e = Elapsed { secs: 2, nanos: 1 };
    let plain = p.split_line("m", &e, false);
    let deco = p.split_line("m", &e, true);
    assert_eq!(deco, format!("\x1B[33m\x1B[1m{}\x1B[0m", plain));
    let deco_end = p.end_line(&e, true);
    assert_eq!(deco_end, "\x1B[33m\x1B[1m2.000000001 (label - end)\x1B[0m @ [a.rs:7]");
}

#[test]
fn split_lines_close_to_zero_and_monotone() {
    let p = new_perf("t", "[x:1]");
    let e1 = p.elapsed_since_start();
    let l1 = p.split_line("a", &e1, false);
    let e2 = p.elapsed_since_start();
    let l2 = p.split_line("b", &e2, false);
    let v1 = parse_line_nanos(&l1);
    let v2 = parse_line_nanos(&l2);
    // both anchored at start with no intervening delay: close to zero,
    // close to each other, and never decreasing
    assert!(v1 <= v2);
    assert!(v2 < 100_000_000);
    assert!(v2 - v1 < 100_000_000);
}

#[test]
fn lap_scenario_measures_each_phase() {
    let mut p = new_perf("work", "[x:2]");
    busy_wait_millis(80);
    let now = p.elapsed_since_start();
    let r1 = p.lap_report(&now);
    let line1 = p.lap_line("phase1", &r1, false);
    assert!(line1.contains("work"));
    assert!(line1.contains("phase1"));
    assert!(line1.contains("lap 1"));
    let v1 = parse_line_nanos(&line1);
    assert!(v1 >= 80_000_000, "first lap should cover the first wait");
    let f = p.elapsed_since_start();
    p.record_lap(f);
    busy_wait_millis(40);
    let now2 = p.elapsed_since_start();
    let r2 = p.lap_report(&now2);
    let line2 = p.lap_line("phase2", &r2, false);
    assert!(line2.contains("lap 2"));
    let v2 = parse_line_nanos(&line2);
    assert!(v2 >= 40_000_000, "second lap should cover the second wait");
    assert!(v2 < 120_000_000, "second lap must not report the sum of both waits");
}

#[test]
fn split_and_lap_do_not_perturb_each_other() {
    let mut p = new_perf("t", "[x:3]");
    busy_wait_millis(80);
    let s1 = parse_line_nanos(&p.split_line("s1", &p.elapsed_since_start(), false));
    let r1 = p.lap_report(&p.elapsed_since_start());
    let l1 = parse_line_nanos(&p.lap_line("l1", &r1, false));
    // before any lap, both measure from the start
    assert!(s1 >= 80_000_000);
    assert!(l1 >= 80_000_000);
    let f = p.elapsed_since_start();
    p.record_lap(f);
    busy_wait_millis(40);
    // a lap now measures only its own phase...
    let r2 = p.lap_report(&p.elapsed_since_start());
    let l2 = parse_line_nanos(&p.lap_line("l2", &r2, false));
    assert!(l2 >= 40_000_000);
    assert!(l2 < 120_000_000, "the recorded checkpoint, not the start, anchors a lap");
    // ...while a split still measures from the start
    let s2 = parse_line_nanos(&p.split_line("s2", &p.elapsed_since_start(), false));
    assert!(s2 >= 120_000_000, "no lap moves a split's anchor");
}

#[test]
fn lap_counter_starts_at_one_and_rises_by_one() {
    let mut p = new_perf("t", "[x:4]");
    let e = Elapsed { secs: 0, nanos: 3 };
    assert!(p.lap_line("m", &e, false).contains("lap 1"));
    p.record_lap(e);
    assert!(p.lap_line("m", &e, false).contains("lap 2"));
    p.record_lap(e);
    assert!(p.lap_line("m", &e, false).contains("lap 3"));
}

#[test]
fn saturating_sub_borrows_and_floors() {
    let a = Elapsed { secs: 3, nanos: 5 };
    let b = Elapsed { secs: 1, nanos: 7 };
    assert_eq!(a.saturating_sub(&b), Elapsed { secs: 1, nanos: 999_999_998 });
    assert_eq!(b.saturating_sub(&a), Elapsed { secs: 0, nanos: 0 });
    assert_eq!(a.saturating_sub(&a), Elapsed { secs: 0, nanos: 0 });
    let c = Elapsed { secs: 3, nanos: 2 };
    assert_eq!(a.saturating_sub(&c), Elapsed { secs: 0, nanos: 3 });
}

#[test]
fn clock_readings_stay_well_formed_and_do_not_decrease() {
    let p = new_perf("t", "[x:5]");
    let e1 = p.elapsed_since_start();
    busy_wait_millis(5);
    let e2 = p.elapsed_since_start();
    assert!(e1.nanos < 1_000_000_000);
    assert!(e2.nanos < 1_000_000_000);
    assert!(total_nanos(&e2) >= total_nanos(&e1) + 4_000_000);
}
