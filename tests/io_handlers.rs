use cargo_image_runner::io::{PatternResponder, TeeHandler};
use cargo_image_runner::qemu::Invocation;
use cargo_image_runner::runner::{IoEvent, IoLoop, LoopStep};
use cargo_image_runner::{CaptureHandler, IoAction, IoHandler};

#[test]
fn test_capture_handler_accumulates() {
    let mut handler = CaptureHandler::new();
    handler.on_output(b"hello ");
    handler.on_output(b"world");
    handler.on_stderr(b"err1");
    handler.on_stderr(b"err2");

    let captured = handler.finish().unwrap();
    assert_eq!(captured.serial, b"hello world");
    assert_eq!(captured.stderr, b"err1err2");
}

#[test]
fn test_capture_handler_empty() {
    let handler = CaptureHandler::new();
    let captured = handler.finish().unwrap();
    assert!(captured.serial.is_empty());
    assert!(captured.stderr.is_empty());
}

#[test]
fn test_tee_handler_captures() {
    let mut handler = TeeHandler::new();
    handler.on_output(b"data");
    handler.on_stderr(b"err");

    let captured = handler.finish().unwrap();
    assert_eq!(captured.serial, b"data");
    assert_eq!(captured.stderr, b"err");
}

#[test]
fn test_pattern_responder_matches() {
    let mut handler = PatternResponder::new()
        .on_pattern("login:", b"root\n")
        .on_pattern("$ ", b"ls\n");

    let action = handler.on_output(b"booting...\n");
    assert!(matches!(action, IoAction::Continue));

    let action = handler.on_output(b"login:");
    match action {
        IoAction::SendInput(data) => assert_eq!(data, b"root\n"),
        other => panic!("expected SendInput, got {:?}", other),
    }

    let action = handler.on_output(b"root@host:~$ ");
    match action {
        IoAction::SendInput(data) => assert_eq!(data, b"ls\n"),
        other => panic!("expected SendInput, got {:?}", other),
    }
}

#[test]
fn test_pattern_responder_captures() {
    let mut handler = PatternResponder::new().on_pattern("x", b"y");
    handler.on_output(b"abc");
    handler.on_stderr(b"err");

    let captured = handler.finish().unwrap();
    assert_eq!(captured.serial, b"abc");
    assert_eq!(captured.stderr, b"err");
}

#[test]
fn test_pattern_responder_no_rules() {
    let mut handler = PatternResponder::new();
    let action = handler.on_output(b"anything");
    assert!(matches!(action, IoAction::Continue));
}

#[test]
fn test_default_io_handler_noop() {
    struct Noop;
    impl IoHandler for Noop {
        fn on_output(&mut self, _data: &[u8]) -> IoAction {
            IoAction::Continue
        }
        fn on_stderr(&mut self, _data: &[u8]) {}
    }

    let mut handler = Noop;
    let action = handler.on_output(b"data");
    assert!(matches!(action, IoAction::Continue));
    handler.on_stderr(b"err");
    handler.on_exit(0, false);
    handler.on_start(&Invocation { program: "qemu".to_string(), args: Vec::new() });
    assert!(handler.finish().is_none());
}

#[test]
fn capture_keeps_interleaved_streams_apart_in_order() {
    let mut handler = CaptureHandler::new();
    handler.on_output(b"a");
    handler.on_stderr(b"1");
    handler.on_output(b"");
    handler.on_output(b"bc");
    handler.on_stderr(b"23");
    handler.on_output(b"a");
    let captured = handler.finish().unwrap();
    assert_eq!(captured.serial, b"abca");
    assert_eq!(captured.stderr, b"123");
}

#[test]
fn tee_and_capture_finish_identically() {
    let chunks: Vec<(bool, &[u8])> = vec![
        (true, b"boot"),
        (false, b"warn"),
        (true, b"ing\n"),
        (true, b""),
        (false, b"!"),
    ];
    let mut tee = TeeHandler::new();
    let mut capture = CaptureHandler::new();
    for (console, data) in &chunks {
        if *console {
            assert!(matches!(tee.on_output(data), IoAction::Continue));
            assert!(matches!(capture.on_output(data), IoAction::Continue));
        } else {
            tee.on_stderr(data);
            capture.on_stderr(data);
        }
    }
    let a = tee.finish().unwrap();
    let b = capture.finish().unwrap();
    assert_eq!(a.serial, b.serial);
    assert_eq!(a.stderr, b.stderr);
    assert_eq!(a.serial, b"booting\n");
    assert_eq!(a.stderr, b"warn!");
}

#[test]
fn pattern_fires_once_then_needs_new_text() {
    let mut handler = PatternResponder::new().on_pattern("login:", b"root\n");
    assert!(matches!(handler.on_output(b"booting...\n"), IoAction::Continue));
    match handler.on_output(b"login:") {
        IoAction::SendInput(data) => assert_eq!(data, b"root\n"),
        other => panic!("expected SendInput, got {:?}", other),
    }
    // the buffer was cleared: text without the pattern does not answer
    assert!(matches!(handler.on_output(b"Password"), IoAction::Continue));
    assert!(matches!(handler.on_output(b"\n"), IoAction::Continue));
    // a fresh prompt answers again
    match handler.on_output(b"login:") {
        IoAction::SendInput(data) => assert_eq!(data, b"root\n"),
        other => panic!("expected SendInput, got {:?}", other),
    }
}

#[test]
fn pattern_split_across_chunks_matches_once() {
    let mut handler = PatternResponder::new().on_pattern("login:", b"root\n");
    assert!(matches!(handler.on_output(b"log"), IoAction::Continue));
    match handler.on_output(b"in:") {
        IoAction::SendInput(data) => assert_eq!(data, b"root\n"),
        other => panic!("expected SendInput, got {:?}", other),
    }
    assert!(matches!(handler.on_output(b" "), IoAction::Continue));
}

#[test]
fn pattern_rule_order_breaks_ties() {
    let mut handler = PatternResponder::new()
        .on_pattern("b", b"second")
        .on_pattern("a", b"first");
    match handler.on_output(b"ab") {
        IoAction::SendInput(data) => assert_eq!(data, b"second"),
        other => panic!("expected SendInput, got {:?}", other),
    }
}

#[test]
fn pattern_buffer_keeps_recent_window() {
    let mut handler = PatternResponder::new().on_pattern("XY", b"go");
    // 9000 bytes exceed twice the 4096-byte window: the buffer is cut back to
    // its last 4096 bytes, which still hold the "X" at the end
    let mut big = vec![b'.'; 8999];
    big.push(b'X');
    assert!(matches!(handler.on_output(&big), IoAction::Continue));
    match handler.on_output(b"Y") {
        IoAction::SendInput(data) => assert_eq!(data, b"go"),
        other => panic!("expected SendInput, got {:?}", other),
    }
    let captured = handler.finish().unwrap();
    assert_eq!(captured.serial.len(), 9001);
}

#[test]
fn pattern_empty_pattern_always_answers() {
    let mut handler = PatternResponder::new().on_pattern("", b"!");
    match handler.on_output(b"") {
        IoAction::SendInput(data) => assert_eq!(data, b"!"),
        other => panic!("expected SendInput, got {:?}", other),
    }
}

#[test]
fn shutdown_on_first_chunk_ends_loop() {
    struct Stopper;
    impl IoHandler for Stopper {
        fn on_output(&mut self, _data: &[u8]) -> IoAction {
            IoAction::Shutdown
        }
        fn on_stderr(&mut self, _data: &[u8]) {}
    }
    let mut state = IoLoop::new();
    let mut handler = Stopper;
    assert!(!state.is_done());
    let step = state.handle(&mut handler, IoEvent::Stdout(b"hello".to_vec()));
    assert!(matches!(step, LoopStep::Kill));
    assert!(state.is_done());
    assert!(!state.stdout_closed);
    assert!(!state.stderr_closed);
}

#[test]
fn loop_forwards_input_and_waits_for_both_streams() {
    let mut state = IoLoop::new();
    let mut handler = PatternResponder::new().on_pattern("login:", b"root\n");
    match state.handle(&mut handler, IoEvent::Stdout(b"login:".to_vec())) {
        LoopStep::WriteInput(bytes) => assert_eq!(bytes, b"root\n"),
        other => panic!("expected WriteInput, got {:?}", other),
    }
    assert!(matches!(state.handle(&mut handler, IoEvent::Stderr(b"e".to_vec())), LoopStep::Wait));
    assert!(matches!(state.handle(&mut handler, IoEvent::StdoutClosed), LoopStep::Wait));
    assert!(!state.is_done());
    assert!(matches!(state.handle(&mut handler, IoEvent::StderrClosed), LoopStep::Wait));
    assert!(state.is_done());
    let captured = handler.finish().unwrap();
    assert_eq!(captured.serial, b"login:");
    assert_eq!(captured.stderr, b"e");
}

#[test]
fn step_for_each_action() {
    let mut state = IoLoop::new();
    assert!(matches!(state.step_for_action(IoAction::Continue), LoopStep::Wait));
    match state.step_for_action(IoAction::SendInput(vec![1, 2])) {
        LoopStep::WriteInput(b) => assert_eq!(b, vec![1, 2]),
        other => panic!("expected WriteInput, got {:?}", other),
    }
    assert!(!state.is_done());
    assert!(matches!(state.step_for_action(IoAction::Shutdown), LoopStep::Kill));
    assert!(state.is_done());
}

#[test]
fn pattern_window_floor_is_configurable() {
    // with a floor of 4 bytes, 9 buffered bytes exceed twice the window and
    // are cut back to the last 4, so an old prefix no longer completes a match
    let mut handler = PatternResponder::new().with_window_floor(4).on_pattern("ab", b"!");
    assert!(matches!(handler.on_output(b"a........"), IoAction::Continue));
    assert!(matches!(handler.on_output(b"b"), IoAction::Continue));
    let mut wide = PatternResponder::default().on_pattern("ab", b"!");
    assert!(matches!(wide.on_output(b"xa"), IoAction::Continue));
    assert!(matches!(wide.on_output(b"b"), IoAction::SendInput(_)));
}
