use greeter::hello;

#[test]
fn test_hello_does_not_panic() {
    let mut out = String::new();
    hello(&mut out);
}

#[test]
fn one_call_writes_the_line_once() {
    let mut out = String::new();
    hello(&mut out);
    assert_eq!(out, "Hello, world!\n");
    assert_eq!(out.matches("Hello, world!").count(), 1);
}

#[test]
fn three_calls_write_three_lines_in_order() {
    let mut out = String::new();
    hello(&mut out);
    hello(&mut out);
    hello(&mut out);
    assert_eq!(out, "Hello, world!\nHello, world!\nHello, world!\n");
    let lines: Vec<&str> = out.lines().collect();
    assert_eq!(lines, vec!["Hello, world!", "Hello, world!", "Hello, world!"]);
}

#[test]
fn many_calls_write_as_many_lines() {
    let mut out = String::new();
    let mut calls: usize = 0;
    while calls < 100 {
        hello(&mut out);
        calls += 1;
        assert_eq!(out.len(), 14 * calls);
        assert_eq!(out.lines().count(), calls);
    }
    assert!(out.lines().all(|line| line == "Hello, world!"));
}

#[test]
fn the_line_is_fourteen_characters_and_ends_in_a_line_feed() {
    let mut out = String::new();
    hello(&mut out);
    assert_eq!(out.chars().count(), 14);
    assert!(out.ends_with('\n'));
    assert_eq!(out.matches('\n').count(), 1);
    assert!(out.is_ascii());
}

#[test]
fn what_the_sink_held_stays_in_front() {
    let mut out = String::from("first\n");
    hello(&mut out);
    assert_eq!(out, "first\nHello, world!\n");
    hello(&mut out);
    assert_eq!(out, "first\nHello, world!\nHello, world!\n");
}

#[test]
fn calls_on_separate_sinks_agree() {
    let mut left = String::new();
    let mut right = String::new();
    hello(&mut left);
    hello(&mut right);
    assert_eq!(left, right);
    assert_ne!(left, "");
}
