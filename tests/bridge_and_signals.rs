use std::time::{Duration, Instant};

use nix::sys::signal::Signal;

use zellij_os::process::{
    delivery_plan, signal_process, signal_process_unsupported, to_posix_signal, DeliveryStep,
    ProcessSignal, SignalError, SignalPlatform,
};
use zellij_os::pty::{exit_outcome, plan_launch, spawn_in_pty, watch_exit, ExitReport, PtySize};
use zellij_os::shell::{shell_output, ShellError};
use zellij_os::signals::{
    event_for_console_control, event_for_signal, watched_signals, BlockingSignalIterator,
    SignalEvent, SizeSampler,
};
use zellij_os::terminal_bytes::{
    classify_data, classify_error, BridgeAction, BridgeError, ReadOutcome, ScreenMessage, TerminalBytes,
    READ_CHUNK,
};

/// Runs a bridge over scripted reads and deliveries; returns the messages it
/// sent and how it finished.
fn run_scripted(
    id: u32,
    mut reads: Vec<ReadOutcome>,
    mut deliveries: Vec<bool>,
) -> (Vec<ScreenMessage>, Vec<&'static str>, Result<(), BridgeError>) {
    reads.reverse();
    deliveries.reverse();
    let mut bridge = TerminalBytes::new(id);
    let mut sent = Vec::new();
    let mut steps = Vec::new();
    let mut action = BridgeAction::Read;
    loop {
        action = match action {
            BridgeAction::Read | BridgeAction::Retry => {
                steps.push(if matches!(action, BridgeAction::Retry) { "retry" } else { "read" });
                bridge.on_read(reads.pop().expect("a scripted read"))
            },
            BridgeAction::Send(message) => {
                sent.push(message);
                bridge.on_delivered(deliveries.pop().unwrap_or(true))
            },
            BridgeAction::SendFinalRender => {
                steps.push("final render");
                bridge.on_delivered(deliveries.pop().unwrap_or(true))
            },
            BridgeAction::Finish(result) => return (sent, steps, result),
        }
    }
}

#[test]
fn bridge_sends_bytes_then_render_in_order() {
    let (sent, steps, result) = run_scripted(
        3,
        vec![
            ReadOutcome::Data(b"ab".to_vec()),
            ReadOutcome::Data(b"cd".to_vec()),
            ReadOutcome::EndOfStream,
        ],
        vec![],
    );
    assert_eq!(
        sent,
        vec![
            ScreenMessage::PtyBytes(3, b"ab".to_vec()),
            ScreenMessage::Render,
            ScreenMessage::PtyBytes(3, b"cd".to_vec()),
            ScreenMessage::Render,
        ]
    );
    assert_eq!(steps, vec!["read", "read", "read", "final render"]);
    assert!(result.is_ok());
}

#[test]
fn bridge_retries_a_read_that_would_block() {
    let (sent, steps, result) = run_scripted(
        1,
        vec![
            ReadOutcome::WouldBlock,
            ReadOutcome::WouldBlock,
            ReadOutcome::Data(b"x".to_vec()),
            ReadOutcome::EndOfStream,
        ],
        vec![],
    );
    assert_eq!(steps, vec!["read", "retry", "retry", "read", "final render"]);
    assert_eq!(sent.len(), 2);
    assert!(result.is_ok());
}

#[test]
fn bridge_ignores_a_failed_final_render() {
    let (sent, _, result) = run_scripted(9, vec![ReadOutcome::EndOfStream], vec![false]);
    assert!(sent.is_empty());
    assert!(result.is_ok());
}

#[test]
fn bridge_reports_a_read_error() {
    let error = std::io::Error::new(std::io::ErrorKind::Other, "gone");
    let (_, steps, result) = run_scripted(2, vec![ReadOutcome::Failed(error)], vec![]);
    assert_eq!(steps, vec!["read", "final render"]);
    assert!(matches!(result, Err(BridgeError::Read(_))));
}

#[test]
fn bridge_stops_when_the_sink_refuses_bytes() {
    let (sent, steps, result) = run_scripted(
        2,
        vec![ReadOutcome::Data(b"x".to_vec()), ReadOutcome::EndOfStream],
        vec![false],
    );
    assert_eq!(sent, vec![ScreenMessage::PtyBytes(2, b"x".to_vec())]);
    assert_eq!(steps, vec!["read"]);
    assert!(matches!(result, Err(BridgeError::Sink)));
}

#[test]
fn bridge_stops_when_the_sink_refuses_a_render() {
    let (sent, _, result) = run_scripted(
        2,
        vec![ReadOutcome::Data(b"x".to_vec()), ReadOutcome::EndOfStream],
        vec![true, false],
    );
    assert_eq!(sent.len(), 2);
    assert!(matches!(result, Err(BridgeError::Sink)));
}

#[test]
fn reads_are_classified() {
    assert!(matches!(classify_data(vec![]), ReadOutcome::EndOfStream));
    assert!(matches!(classify_data(vec![7]), ReadOutcome::Data(v) if v == vec![7]));
    let would_block = std::io::Error::new(std::io::ErrorKind::WouldBlock, "later");
    assert!(matches!(
        classify_error(std::io::ErrorKind::WouldBlock, would_block),
        ReadOutcome::WouldBlock
    ));
    let broken = std::io::Error::new(std::io::ErrorKind::BrokenPipe, "broken");
    assert!(matches!(
        classify_error(std::io::ErrorKind::BrokenPipe, broken),
        ReadOutcome::Failed(_)
    ));
    let interrupted = std::io::Error::new(std::io::ErrorKind::Interrupted, "signal");
    assert!(matches!(
        classify_error(std::io::ErrorKind::Interrupted, interrupted),
        ReadOutcome::Failed(_)
    ));
}

#[test]
fn echo_hi_reaches_the_screen_through_the_bridge() {
    let result = spawn_in_pty(
        "/bin/echo".to_string(),
        vec!["hi".to_string()],
        None,
        vec![],
        PtySize {
            rows: 24,
            cols: 80,
            pixel_width: 0,
            pixel_height: 0,
        },
    )
    .expect("spawn_in_pty should succeed");
    let mut reader = result.pty.try_clone_reader().expect("reader");
    let mut bridge = TerminalBytes::new(5);
    let mut sent = Vec::new();
    let mut action = BridgeAction::Read;
    let start = Instant::now();
    let finished = loop {
        assert!(start.elapsed() < Duration::from_secs(5));
        action = match action {
            BridgeAction::Read | BridgeAction::Retry => bridge.on_read(reader.read_chunk(READ_CHUNK)),
            BridgeAction::Send(message) => {
                sent.push(message);
                bridge.on_delivered(true)
            },
            BridgeAction::SendFinalRender => bridge.on_delivered(true),
            BridgeAction::Finish(r) => break r,
        };
    };
    let at = sent
        .iter()
        .position(|m| match m {
            ScreenMessage::PtyBytes(5, bytes) => String::from_utf8_lossy(bytes).contains("hi"),
            _ => false,
        })
        .expect("a bytes message holding \"hi\"");
    assert_eq!(sent.get(at + 1), Some(&ScreenMessage::Render));
    // On Linux the master reads EIO once the child has gone.
    let _ = finished;
    assert_eq!(result.child.wait_exit(), Some(0));
}

#[test]
fn exit_outcome_maps_reports() {
    assert_eq!(exit_outcome(Some(ExitReport { success: true, code: 0 })), Some(0));
    assert_eq!(exit_outcome(Some(ExitReport { success: false, code: 2 })), Some(2));
    assert_eq!(exit_outcome(None), None);
}

#[test]
fn launch_plan_keeps_cwd_only_when_it_is_a_directory() {
    let plan = plan_launch(
        "/bin/sh".to_string(),
        vec!["-c".to_string()],
        Some("/tmp".to_string()),
        false,
        vec![("A".to_string(), "1".to_string())],
    );
    assert_eq!(plan.cwd, None);
    assert_eq!(plan.program, "/bin/sh");
    assert_eq!(plan.args, vec!["-c".to_string()]);
    assert_eq!(plan.env, vec![("A".to_string(), "1".to_string())]);
    let plan = plan_launch("/bin/sh".to_string(), vec![], Some("/tmp".to_string()), true, vec![]);
    assert_eq!(plan.cwd, Some("/tmp".to_string()));
}

#[test]
fn signals_map_to_events() {
    assert_eq!(event_for_signal(Signal::SIGWINCH), Some(SignalEvent::Resize));
    for s in [Signal::SIGTERM, Signal::SIGINT, Signal::SIGQUIT, Signal::SIGHUP] {
        assert_eq!(event_for_signal(s), Some(SignalEvent::Quit));
    }
    assert_eq!(event_for_signal(Signal::SIGUSR1), None);
    assert_eq!(
        watched_signals(),
        vec![
            nix::libc::SIGWINCH,
            nix::libc::SIGTERM,
            nix::libc::SIGINT,
            nix::libc::SIGQUIT,
            nix::libc::SIGHUP
        ]
    );
}

#[test]
fn window_change_yields_one_resize() {
    let mut signals = BlockingSignalIterator::new().expect("signals can be registered");
    nix::sys::signal::raise(Signal::SIGWINCH).expect("raise");
    assert_eq!(signals.next(), Some(SignalEvent::Resize));
}

#[test]
fn size_sampler_yields_one_resize_per_change() {
    let mut sampler = SizeSampler::new(Some((80, 24)));
    assert_eq!(sampler.observe(Some((80, 24))), None);
    assert_eq!(sampler.observe(None), None);
    assert_eq!(sampler.observe(Some((120, 40))), Some(SignalEvent::Resize));
    assert_eq!(sampler.observe(Some((120, 40))), None);
    assert_eq!(sampler.observe(Some((120, 41))), Some(SignalEvent::Resize));
}

#[test]
fn size_sampler_falls_back_to_80_by_24() {
    let mut sampler = SizeSampler::new(None);
    assert_eq!(sampler.observe(Some((80, 24))), None);
    let _ = SizeSampler::from_terminal().sample_terminal();
}

#[test]
fn console_poll_prefers_quit_over_resize() {
    let mut sampler = SizeSampler::new(Some((80, 24)));
    assert_eq!(sampler.poll_console(true, Some((100, 30))), Some(SignalEvent::Quit));
    assert_eq!(sampler.poll_console(false, Some((100, 30))), Some(SignalEvent::Resize));
    assert_eq!(sampler.poll_console(false, Some((100, 30))), None);
}

#[test]
fn pids_that_name_no_single_process_are_refused() {
    assert!(matches!(
        signal_process(0, ProcessSignal::Kill),
        Err(SignalError::InvalidPid { pid: 0 })
    ));
    assert!(matches!(
        signal_process(u32::MAX, ProcessSignal::Interrupt),
        Err(SignalError::InvalidPid { pid: u32::MAX })
    ));
}

#[test]
fn logical_signals_map_to_posix_signals() {
    assert_eq!(to_posix_signal(ProcessSignal::HangUp), Signal::SIGHUP);
    assert_eq!(to_posix_signal(ProcessSignal::Kill), Signal::SIGKILL);
    assert_eq!(to_posix_signal(ProcessSignal::Interrupt), Signal::SIGINT);
}

#[test]
fn delivery_plans_per_platform() {
    assert_eq!(
        delivery_plan(SignalPlatform::Posix, ProcessSignal::HangUp),
        vec![DeliveryStep::Posix(ProcessSignal::HangUp)]
    );
    assert_eq!(
        delivery_plan(SignalPlatform::Console, ProcessSignal::Interrupt),
        vec![DeliveryStep::ConsoleCtrlC, DeliveryStep::Terminate]
    );
    assert_eq!(
        delivery_plan(SignalPlatform::Console, ProcessSignal::Kill),
        vec![DeliveryStep::Terminate]
    );
    assert_eq!(
        delivery_plan(SignalPlatform::Console, ProcessSignal::HangUp),
        vec![DeliveryStep::Terminate]
    );
    assert!(delivery_plan(SignalPlatform::Unsupported, ProcessSignal::Kill).is_empty());
}

#[test]
fn unsupported_platform_names_pid_and_signal() {
    assert!(matches!(
        signal_process_unsupported(42, ProcessSignal::Interrupt),
        Err(SignalError::Unsupported { pid: 42, signal: ProcessSignal::Interrupt })
    ));
}

#[test]
fn console_control_events_ask_to_quit() {
    for ctrl in [0u32, 1, 2] {
        assert_eq!(event_for_console_control(ctrl), Some(SignalEvent::Quit));
    }
    assert_eq!(event_for_console_control(5), None);
    assert_eq!(event_for_console_control(6), None);
}

#[test]
fn watch_exit_hands_the_outcome_over_once() {
    let size = PtySize {
        rows: 24,
        cols: 80,
        pixel_width: 0,
        pixel_height: 0,
    };
    let spawned = spawn_in_pty("/bin/sh".to_string(), vec!["-c".to_string(), "exit 4".to_string()], None, vec![], size)
        .expect("spawn");
    let mut calls = Vec::new();
    watch_exit(spawned.child, |outcome| calls.push(outcome));
    assert_eq!(calls, vec![Some(4)]);
}

#[test]
fn shell_output_is_trimmed_stdout() {
    assert_eq!(
        shell_output(true, b"  hello world \n".to_vec(), vec![]),
        Ok("hello world".to_string())
    );
    assert_eq!(shell_output(true, vec![], vec![]), Ok(String::new()));
}

#[test]
fn shell_failure_carries_stderr() {
    assert_eq!(
        shell_output(false, b"out".to_vec(), b"boom".to_vec()),
        Err(ShellError::HookFailed { stderr: b"boom".to_vec() })
    );
}

#[test]
fn shell_output_must_be_utf8() {
    assert_eq!(
        shell_output(true, vec![0xff, 0xfe], vec![]),
        Err(ShellError::InvalidOutput)
    );
}
