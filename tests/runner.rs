use fedora_updater::{
    CommandCache, CommandResult, Invocation, Multiplexer, OutputSource, RunError, RunSession,
    StreamEvent, StringBuffer, StringBufferPool, STRING_POOL_SIZE,
};

fn line(src: OutputSource, text: &str) -> StreamEvent {
    StreamEvent::Line(src, StringBuffer::from_text(text))
}

fn session() -> RunSession {
    match RunSession::attach("echo", true, true, true) {
        Ok(s) => s,
        Err(e) => panic!("attach failed: {:?}", e),
    }
}

#[test]
fn echo_hello_captures_one_line() {
    let mut s = session();
    let printed = s.accept(line(OutputSource::Stdout, "hello")).expect("line printed");
    assert_eq!(printed.source, OutputSource::Stdout);
    assert_eq!(printed.text.as_str(), "hello");
    assert!(s.accept(StreamEvent::Closed(OutputSource::Stdout)).is_none());
    assert!(s.accept(StreamEvent::Closed(OutputSource::Stderr)).is_none());
    assert!(!s.is_complete());
    s.record_exit(Some(0));
    assert!(s.is_complete());
    let r = s.finish();
    assert!(r.success);
    assert_eq!(r.exit_code, Some(0));
    assert_eq!(r.output, "hello\n");
}

#[test]
fn thousand_lines_each_stream_all_printed() {
    let mut s = session();
    let mut printed = 0usize;
    let mut expected = String::new();
    for i in 0..1000 {
        let out = format!("out {}", i);
        let err = format!("err {}", i);
        expected.push_str(&out);
        expected.push('\n');
        // Vary the relative timing of the two streams.
        if i % 3 == 0 {
            printed += s.accept(line(OutputSource::Stderr, &err)).iter().count();
            printed += s.accept(line(OutputSource::Stdout, &out)).iter().count();
        } else {
            let a = s.accept(line(OutputSource::Stdout, &out)).expect("stdout line");
            assert_eq!(a.text.as_str(), out);
            let b = s.accept(line(OutputSource::Stderr, &err)).expect("stderr line");
            assert_eq!(b.text.as_str(), err);
            printed += 2;
        }
    }
    s.accept(StreamEvent::Closed(OutputSource::Stderr));
    assert!(!s.is_complete());
    s.accept(StreamEvent::Closed(OutputSource::Stdout));
    s.record_exit(Some(0));
    assert!(s.is_complete());
    assert_eq!(printed, 2000);
    let r = s.finish();
    assert_eq!(r.output, expected);
    assert_eq!(r.output.lines().count(), 1000);
}

#[test]
fn exit_code_100_is_kept_and_not_success() {
    let mut s = session();
    s.accept(StreamEvent::Closed(OutputSource::Stdout));
    s.accept(StreamEvent::Closed(OutputSource::Stderr));
    s.record_exit(Some(100));
    let r = s.finish();
    assert_eq!(r.exit_code, Some(100));
    assert!(!r.success);
    assert_eq!(r.output, "");
}

#[test]
fn killed_process_has_no_code_and_fails() {
    let r = CommandResult::new(None, String::from("partial\n"));
    assert!(!r.success);
    assert_eq!(r.exit_code, None);
    assert_eq!(r.output, "partial\n");
}

#[test]
fn failed_spawn_is_spawn_error() {
    match RunSession::attach("no-such-tool", false, false, false) {
        Err(RunError::Spawn(name)) => assert_eq!(name, "no-such-tool"),
        Err(e) => panic!("wrong error {:?}", e),
        Ok(_) => panic!("a session for a failed spawn"),
    }
}

#[test]
fn missing_pipes_are_stream_errors() {
    assert!(matches!(
        RunSession::attach("ls", true, false, true),
        Err(RunError::Stream(OutputSource::Stdout))
    ));
    assert!(matches!(
        RunSession::attach("ls", true, true, false),
        Err(RunError::Stream(OutputSource::Stderr))
    ));
}

#[test]
fn stderr_lines_are_printed_not_captured() {
    let mut m = Multiplexer::new();
    let l = m.accept(line(OutputSource::Stderr, "warning")).expect("printed");
    assert_eq!(l.source, OutputSource::Stderr);
    assert_eq!(m.captured(), "");
    m.accept(line(OutputSource::Stdout, "a"));
    m.accept(line(OutputSource::Stdout, ""));
    m.accept(line(OutputSource::Stdout, "b"));
    assert_eq!(m.captured(), "a\n\nb\n");
}

#[test]
fn line_after_close_is_dropped() {
    let mut m = Multiplexer::new();
    assert!(m.accept(StreamEvent::Closed(OutputSource::Stdout)).is_none());
    assert!(m.accept(line(OutputSource::Stdout, "late")).is_none());
    assert!(!m.is_finished());
    assert!(m.accept(StreamEvent::Closed(OutputSource::Stderr)).is_none());
    assert!(m.is_finished());
    assert_eq!(m.into_captured(), "");
}

#[test]
fn tags_name_the_stream() {
    assert_eq!(OutputSource::Stdout.tag(), "[stdout]");
    assert_eq!(OutputSource::Stderr.tag(), "[stderr]");
}

#[test]
fn elevated_invocation_wraps_in_sudo() {
    let args = vec![String::from("--refresh"), String::from("check-upgrade")];
    let inv = Invocation::new("dnf5", &args, true);
    assert_eq!(inv.program, "sudo");
    assert_eq!(inv.args, vec!["dnf5", "--refresh", "check-upgrade"]);
    let plain = Invocation::new("dnf5", &args, false);
    assert_eq!(plain.program, "dnf5");
    assert_eq!(plain.args, vec!["--refresh", "check-upgrade"]);
    let bare = Invocation::new("echo", &Vec::new(), false);
    assert!(bare.args.is_empty());
}

#[test]
fn probe_that_fails_is_cached_as_unavailable() {
    let mut c = CommandCache::new();
    assert_eq!(c.is_cached_available("dnf5"), None);
    assert!(!c.record_probe("dnf5", Some(false)));
    assert_eq!(c.is_cached_available("dnf5"), Some(false));
    assert_eq!(c.get_cached_availability("dnf5"), Some(false));
    // A second probe does not change the recorded answer.
    assert!(!c.record_probe("dnf5", Some(true)));
    assert_eq!(c.is_cached_available("dnf5"), Some(false));
    assert_eq!(c.is_cached_available("flatpak"), None);
}

#[test]
fn lookup_that_cannot_run_counts_as_unavailable() {
    let mut c = CommandCache::new();
    assert!(!c.record_probe("flatpak", None));
    assert_eq!(c.is_cached_available("flatpak"), Some(false));
    assert!(c.record_probe("cat", Some(true)));
    assert_eq!(c.is_cached_available("cat"), Some(true));
}

#[test]
fn preload_makes_every_name_known() {
    let names = fedora_updater::common_commands();
    assert_eq!(names, vec!["flatpak", "dnf5", "cat", "uname"]);
    let mut c = CommandCache::new();
    c.record_probe("cat", Some(false));
    let probes: Vec<(String, Option<bool>)> = vec![
        (names[0].clone(), Some(true)),
        (names[1].clone(), None),
        (names[2].clone(), Some(true)),
        (names[3].clone(), Some(true)),
    ];
    c.record_preload(&probes);
    assert_eq!(c.is_cached_available("flatpak"), Some(true));
    assert_eq!(c.is_cached_available("dnf5"), Some(false));
    assert_eq!(c.is_cached_available("cat"), Some(false));
    assert_eq!(c.is_cached_available("uname"), Some(true));
}

#[test]
fn pool_hands_out_empty_buffers() {
    let mut pool = StringBufferPool::new(1, 16);
    let mut a = pool.get();
    assert_eq!(a.as_str(), "");
    a.push_str("abc");
    assert_eq!(a.as_str(), "abc");
    pool.return_buffer(a);
    assert_eq!(pool.get().as_str(), "");
    // An empty pool allocates a fresh buffer.
    let b = pool.get();
    assert_eq!(b.as_str(), "");
}

#[test]
fn pool_keeps_at_most_the_cap() {
    let mut pool = StringBufferPool::new(0, 8);
    for _ in 0..(STRING_POOL_SIZE + 5) {
        pool.return_buffer(StringBuffer::from_text("y"));
    }
    assert_eq!(pool.idle_count(), STRING_POOL_SIZE);
    for _ in 0..(STRING_POOL_SIZE + 5) {
        assert_eq!(pool.get().as_str(), "");
    }
    assert_eq!(pool.idle_count(), 0);
    let mut full = StringBufferPool::new(STRING_POOL_SIZE + 3, 8);
    full.return_buffer(StringBuffer::new(8));
    assert_eq!(full.idle_count(), STRING_POOL_SIZE + 3);
    let mut s = StringBuffer::from_text("keep");
    s.clear();
    assert_eq!(s.as_str(), "");
}
