//! OS notifications (terminal resize, termination requests) as a uniform
//! stream of two events.
use vstd::prelude::*;
use nix::sys::signal::Signal;

verus! {

/// Events that can be received from OS signals.
#[derive(Debug, Clone, Copy, PartialEq, Eq, Structural)]
pub enum SignalEvent {
    Resize,
    Quit,
}

/// The size assumed when the terminal's size cannot be read at start:
/// (columns, rows).
pub const FALLBACK_COLS: u16 = 80;
pub const FALLBACK_ROWS: u16 = 24;

/// The signal number that the platform gives a POSIX signal.
pub uninterp spec fn signal_number(sig: Signal) -> int;

/// Relies on nix's `Signal`, whose discriminant is the platform's number for
/// the signal.
#[verifier::external_body]
fn number_of_signal(sig: Signal) -> (r: i32)
    ensures
        r as int == signal_number(sig),
{
    sig as i32
}

/// Relies on nix's `Signal::try_from`, which gives the signal whose platform
/// number is `n`, and an error for a number that names none.
#[verifier::external_body]
fn signal_of_number(n: i32) -> (r: Option<Signal>)
    ensures
        forall|sig: Signal| #[trigger] signal_number(sig) == n as int <==> r == Some(sig),
{
    Signal::try_from(n).ok()
}

/// The signals that the listeners watch.
pub open spec fn watched(sig: Signal) -> bool {
    sig == Signal::SIGWINCH || sig == Signal::SIGTERM || sig == Signal::SIGINT || sig
        == Signal::SIGQUIT || sig == Signal::SIGHUP
}

/// Window change is a resize; terminate, interrupt, quit and hangup ask the
/// program to quit; other signals mean nothing here.
pub open spec fn event_of_signal(sig: Signal) -> Option<SignalEvent> {
    if sig == Signal::SIGWINCH {
        Some(SignalEvent::Resize)
    } else if sig == Signal::SIGTERM || sig == Signal::SIGINT || sig == Signal::SIGQUIT || sig
        == Signal::SIGHUP {
        Some(SignalEvent::Quit)
    } else {
        None
    }
}

/// The event that a POSIX signal stands for, if any.
pub fn event_for_signal(sig: Signal) -> (r: Option<SignalEvent>)
    ensures
        r == event_of_signal(sig),
{
    match sig {
        Signal::SIGWINCH => Some(SignalEvent::Resize),
        Signal::SIGTERM | Signal::SIGINT | Signal::SIGQUIT | Signal::SIGHUP => Some(
            SignalEvent::Quit,
        ),
        _ => None,
    }
}

/// The platform numbers of the watched signals, each once.
pub fn watched_signals() -> (r: Vec<i32>)
    ensures
        r@.len() == 5,
        r@[0] as int == signal_number(Signal::SIGWINCH),
        r@[1] as int == signal_number(Signal::SIGTERM),
        r@[2] as int == signal_number(Signal::SIGINT),
        r@[3] as int == signal_number(Signal::SIGQUIT),
        r@[4] as int == signal_number(Signal::SIGHUP),
{
    vec![
        number_of_signal(Signal::SIGWINCH),
        number_of_signal(Signal::SIGTERM),
        number_of_signal(Signal::SIGINT),
        number_of_signal(Signal::SIGQUIT),
        number_of_signal(Signal::SIGHUP),
    ]
}

/// Each watched signal yields exactly one event: a resize for window change,
/// a quit for each of the termination requests.
pub proof fn lemma_one_event_per_signal(sig: Signal)
    requires
        watched(sig),
    ensures
        event_of_signal(sig) == Some(
            if sig == Signal::SIGWINCH {
                SignalEvent::Resize
            } else {
                SignalEvent::Quit
            },
        ),
{
}

/// Console control events, numbered as the Windows console numbers them.
pub const CTRL_C_EVENT: u32 = 0;
pub const CTRL_BREAK_EVENT: u32 = 1;
pub const CTRL_CLOSE_EVENT: u32 = 2;

/// Ctrl-C, Ctrl-Break and Ctrl-Close ask the program to quit; a console
/// handler leaves other control events to the next handler.
pub open spec fn event_of_console_control(ctrl_type: u32) -> Option<SignalEvent> {
    if ctrl_type == CTRL_C_EVENT || ctrl_type == CTRL_BREAK_EVENT || ctrl_type == CTRL_CLOSE_EVENT {
        Some(SignalEvent::Quit)
    } else {
        None
    }
}

/// The event that a console control event stands for, if any.
pub fn event_for_console_control(ctrl_type: u32) -> (r: Option<SignalEvent>)
    ensures
        r == event_of_console_control(ctrl_type),
{
    if ctrl_type == CTRL_C_EVENT || ctrl_type == CTRL_BREAK_EVENT || ctrl_type == CTRL_CLOSE_EVENT {
        Some(SignalEvent::Quit)
    } else {
        None
    }
}

/// The set of signals registered with signal-hook, delivered as they arrive.
#[verifier::external_body]
pub struct SignalQueue(signal_hook::iterator::Signals);

/// The signal numbers that a queue was registered for.
pub uninterp spec fn registered_signals(q: SignalQueue) -> Set<int>;

/// Relies on signal_hook::iterator::Signals::new, which registers exactly the
/// listed signal numbers (it panics only on signals that may not be handled,
/// such as SIGKILL, which the watched ones are not).
#[verifier::external_body]
fn register_signals(signals: &Vec<i32>) -> (r: Result<SignalQueue, std::io::Error>)
    requires
        forall|i: int|
            0 <= i < signals@.len() ==> exists|sig: Signal|
                watched(sig) && #[trigger] signal_number(sig) == #[trigger] signals@[i] as int,
    ensures
        r matches Ok(q) ==> forall|s: int| #[trigger]
            registered_signals(q).contains(s) <==> exists|i: int|
                0 <= i < signals@.len() && signals@[i] as int == s,
{
    Ok(SignalQueue(signal_hook::iterator::Signals::new(signals)?))
}

/// Relies on Signals::forever: blocks until a signal out of the registered
/// set arrives and gives its number; `None` once the queue was closed. (It
/// panics only if its own internal pipe fails, which no input here causes.)
#[verifier::external_body]
fn next_signal(q: &mut SignalQueue) -> (r: Option<i32>)
    ensures
        registered_signals(*final(q)) == registered_signals(*old(q)),
        r matches Some(s) ==> registered_signals(*old(q)).contains(s as int),
{
    q.0.forever().next()
}

/// Blocking signal iterator that maps OS signals to `SignalEvent` variants,
/// for a dedicated thread. It waits on the OS signal set.
pub struct BlockingSignalIterator {
    queue: SignalQueue,
}

impl BlockingSignalIterator {
    /// Every registered signal stands for an event.
    pub closed spec fn well_formed(&self) -> bool {
        forall|n: int|
            #[trigger] registered_signals(self.queue).contains(n) ==> exists|sig: Signal|
                watched(sig) && #[trigger] signal_number(sig) == n
    }

    /// Registers the watched signals; fails at once if that is refused.
    pub fn new() -> (r: Result<Self, std::io::Error>)
        ensures
            r matches Ok(it) ==> it.well_formed(),
    {
        let signals = watched_signals();
        let queue = register_signals(&signals)?;
        Ok(BlockingSignalIterator { queue })
    }

    /// Blocks until the next watched signal and gives its event; `None` only
    /// when the signal source is gone.
    pub fn next(&mut self) -> (r: Option<SignalEvent>)
        requires
            old(self).well_formed(),
        ensures
            final(self).well_formed(),
    {
        match next_signal(&mut self.queue) {
            Some(n) => {
                assert(registered_signals(self.queue).contains(n as int));
                let sig = signal_of_number(n);
                match sig {
                    Some(sig) => event_for_signal(sig),
                    None => None,
                }
            },
            None => None,
        }
    }
}

/// Relies on crossterm::terminal::size: the terminal's (columns, rows), when
/// it can be read.
#[verifier::external_body]
fn terminal_size() -> (r: Option<(u16, u16)>) {
    crossterm::terminal::size().ok()
}

/// A size sample yields a resize exactly when it was read and differs from
/// the last size seen.
pub open spec fn sampled_event(last: (u16, u16), sample: Option<(u16, u16)>) -> Option<SignalEvent> {
    match sample {
        Some(size) => if size != last {
            Some(SignalEvent::Resize)
        } else {
            None
        },
        None => None,
    }
}

/// The last size seen after a sample.
pub open spec fn sampled_last(last: (u16, u16), sample: Option<(u16, u16)>) -> (u16, u16) {
    match sample {
        Some(size) => size,
        None => last,
    }
}

/// Turns samples of the terminal size into resize events, for platforms
/// without a native resize notification.
pub struct SizeSampler {
    last: (u16, u16),
}

impl SizeSampler {
    pub closed spec fn last(&self) -> (u16, u16) {
        self.last
    }

    /// Starts from the size read at start, or the fallback size.
    pub fn new(initial: Option<(u16, u16)>) -> (r: Self)
        ensures
            r.last() == match initial {
                Some(size) => size,
                None => (FALLBACK_COLS, FALLBACK_ROWS),
            },
    {
        match initial {
            Some(size) => SizeSampler { last: size },
            None => SizeSampler { last: (FALLBACK_COLS, FALLBACK_ROWS) },
        }
    }

    /// Starts from the terminal's current size.
    pub fn from_terminal() -> (r: Self) {
        SizeSampler::new(terminal_size())
    }

    /// Takes one sample (`None`: it could not be read).
    pub fn observe(&mut self, sample: Option<(u16, u16)>) -> (r: Option<SignalEvent>)
        ensures
            r == sampled_event(old(self).last(), sample),
            final(self).last() == sampled_last(old(self).last(), sample),
    {
        match sample {
            Some(size) => {
                let (cols, rows) = size;
                let (last_cols, last_rows) = self.last;
                self.last = size;
                if cols != last_cols || rows != last_rows {
                    Some(SignalEvent::Resize)
                } else {
                    None
                }
            },
            None => None,
        }
    }

    /// Samples the terminal now.
    pub fn sample_terminal(&mut self) -> (r: Option<SignalEvent>)
        ensures
            exists|sample: Option<(u16, u16)>|
                r == #[trigger] sampled_event(old(self).last(), sample) && final(self).last()
                    == sampled_last(old(self).last(), sample),
    {
        let sample = terminal_size();
        let r = self.observe(sample);
        assert(r == sampled_event(old(self).last(), sample));
        r
    }

    /// One poll of a console listener. `quit_requested` says whether a quit
    /// request arrived since the last poll; the caller takes it as it polls
    /// (clearing the flag that the control handler set), so that each request
    /// is reported once. A quit request wins over a size change seen at the
    /// same poll (and the size is then not taken).
    pub fn poll_console(&mut self, quit_requested: bool, sample: Option<(u16, u16)>) -> (r: Option<
        SignalEvent,
    >)
        ensures
            r == polled_event(old(self).last(), quit_requested, sample),
            quit_requested ==> final(self).last() == old(self).last(),
            !quit_requested ==> final(self).last() == sampled_last(old(self).last(), sample),
    {
        if quit_requested {
            Some(SignalEvent::Quit)
        } else {
            self.observe(sample)
        }
    }
}

/// What one console poll yields.
pub open spec fn polled_event(last: (u16, u16), quit_requested: bool, sample: Option<(u16, u16)>) -> Option<
    SignalEvent,
> {
    if quit_requested {
        Some(SignalEvent::Quit)
    } else {
        sampled_event(last, sample)
    }
}

/// A console poll yields a quit exactly when it carries a quit request, so a
/// request taken once is reported once; it yields a resize only without one.
pub proof fn lemma_one_quit_per_request(
    last: (u16, u16),
    quit_requested: bool,
    sample: Option<(u16, u16)>,
)
    ensures
        (polled_event(last, quit_requested, sample) == Some(SignalEvent::Quit)) == quit_requested,
        polled_event(last, quit_requested, sample) == Some(SignalEvent::Resize) ==> !quit_requested,
{
}

/// A change of size yields exactly one resize: the sample that shows it
/// yields a resize, and the same size sampled again yields nothing.
pub proof fn lemma_one_resize_per_change(last: (u16, u16), size: (u16, u16))
    requires
        size != last,
    ensures
        sampled_event(last, Some(size)) == Some(SignalEvent::Resize),
        sampled_event(sampled_last(last, Some(size)), Some(size)) == None::<SignalEvent>,
{
}

} // verus!
