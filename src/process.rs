//! Logical signals sent to a process by id.
use vstd::prelude::*;

verus! {

#[verifier::external_type_specification]
pub struct ExSignal(nix::sys::signal::Signal);

#[verifier::external_type_specification]
#[verifier::external_body]
pub struct ExErrno(nix::errno::Errno);

/// Signals that can be sent to a process.
#[derive(Debug, Clone, Copy, PartialEq, Eq, Structural)]
pub enum ProcessSignal {
    /// SIGHUP on POSIX systems
    HangUp,
    /// SIGKILL on POSIX systems
    Kill,
    /// SIGINT on POSIX systems
    Interrupt,
}

/// Why a signal was not delivered.
#[derive(Debug)]
pub enum SignalError {
    /// The number names no single process: 0, or a value that a `pid_t`
    /// cannot hold (the kernel would read either as a process group).
    InvalidPid { pid: u32 },
    /// The kernel refused: no such process, or no permission to signal it.
    Delivery { pid: u32, signal: ProcessSignal, errno: nix::errno::Errno },
    /// The platform offers no way to signal another process.
    Unsupported { pid: u32, signal: ProcessSignal },
}

/// The POSIX signal that stands for each logical signal.
pub open spec fn posix_signal(s: ProcessSignal) -> nix::sys::signal::Signal {
    match s {
        ProcessSignal::HangUp => nix::sys::signal::Signal::SIGHUP,
        ProcessSignal::Kill => nix::sys::signal::Signal::SIGKILL,
        ProcessSignal::Interrupt => nix::sys::signal::Signal::SIGINT,
    }
}

/// A process id that addresses exactly one process.
pub open spec fn addressable_pid(pid: u32) -> bool {
    0 < pid && pid <= i32::MAX
}

pub fn to_posix_signal(s: ProcessSignal) -> (r: nix::sys::signal::Signal)
    ensures
        r == posix_signal(s),
{
    match s {
        ProcessSignal::HangUp => nix::sys::signal::Signal::SIGHUP,
        ProcessSignal::Kill => nix::sys::signal::Signal::SIGKILL,
        ProcessSignal::Interrupt => nix::sys::signal::Signal::SIGINT,
    }
}

/// Relies on nix::sys::signal::kill, which sends `sig` to the process `pid`
/// with kill(2) and reports the errno on failure.
#[verifier::external_body]
fn kill_process(pid: i32, sig: nix::sys::signal::Signal) -> (r: Result<(), nix::errno::Errno>)
    requires
        pid > 0,
{
    nix::sys::signal::kill(nix::unistd::Pid::from_raw(pid), sig)
}

/// Send a signal to a process by PID.
///
/// A pid that addresses no single process is refused before any call.
/// Otherwise the mapped POSIX signal goes to exactly that process, and a
/// refusal by the kernel (the process is gone, or no permission) comes back
/// as `Delivery` with the same pid and signal.
pub fn signal_process(pid: u32, signal: ProcessSignal) -> (r: Result<(), SignalError>)
    ensures
        !addressable_pid(pid) <==> r == Err::<(), SignalError>(SignalError::InvalidPid { pid }),
        addressable_pid(pid) ==> (r matches Err(e) ==> (e matches SignalError::Delivery {
            pid: p,
            signal: s,
            ..
        } && p == pid && s == signal)),
{
    if pid == 0 || pid > 0x7fff_ffff {
        return Err(SignalError::InvalidPid { pid });
    }
    match kill_process(pid as i32, to_posix_signal(signal)) {
        Ok(()) => Ok(()),
        Err(errno) => Err(SignalError::Delivery { pid, signal, errno }),
    }
}

/// One way of delivering a logical signal on a given kind of platform.
#[derive(Debug, Clone, Copy, PartialEq, Eq, Structural)]
pub enum DeliveryStep {
    /// A POSIX signal sent by process id.
    Posix(ProcessSignal),
    /// A Ctrl-C console control event, scoped to the target's console group.
    ConsoleCtrlC,
    /// Forceful termination of the process.
    Terminate,
}

/// The kinds of platform on which signal delivery differs.
#[derive(Debug, Clone, Copy, PartialEq, Eq, Structural)]
pub enum SignalPlatform {
    /// Signals by process id (kill(2)).
    Posix,
    /// Console control events and forceful termination only.
    Console,
    /// Neither.
    Unsupported,
}

/// The steps that deliver `s` on `p`, tried in order until one succeeds.
/// Console platforms have no analogue of HUP or INT for an arbitrary process:
/// an interrupt tries a console event first and falls back to termination.
pub open spec fn delivery_steps(p: SignalPlatform, s: ProcessSignal) -> Seq<DeliveryStep> {
    match p {
        SignalPlatform::Posix => seq![DeliveryStep::Posix(s)],
        SignalPlatform::Console => match s {
            ProcessSignal::Interrupt => seq![DeliveryStep::ConsoleCtrlC, DeliveryStep::Terminate],
            _ => seq![DeliveryStep::Terminate],
        },
        SignalPlatform::Unsupported => Seq::empty(),
    }
}

/// The steps that deliver `signal` on `platform`, in the order to try them.
pub fn delivery_plan(platform: SignalPlatform, signal: ProcessSignal) -> (r: Vec<DeliveryStep>)
    ensures
        r@ == delivery_steps(platform, signal),
{
    match platform {
        SignalPlatform::Posix => vec![DeliveryStep::Posix(signal)],
        SignalPlatform::Console => match signal {
            ProcessSignal::Interrupt => vec![DeliveryStep::ConsoleCtrlC, DeliveryStep::Terminate],
            _ => vec![DeliveryStep::Terminate],
        },
        SignalPlatform::Unsupported => Vec::new(),
    }
}

/// Signal delivery on a platform that supports none: it always fails, naming
/// the pid and the signal that were asked for.
pub fn signal_process_unsupported(pid: u32, signal: ProcessSignal) -> (r: Result<(), SignalError>)
    ensures
        r == Err::<(), SignalError>(SignalError::Unsupported { pid, signal }),
{
    Err(SignalError::Unsupported { pid, signal })
}

} // verus!
