//! Pseudo-terminal sessions: opening a PTY pair, launching a child on it, and
//! the controlling side's handle for size, input and output.
//!
//! portable-pty hands out its PTY sides, streams and children as trait
//! objects. Verus cannot name a trait object, so each is held in an opaque
//! struct of its own, and only the functions that call into it see inside.
use vstd::prelude::*;
use crate::terminal_bytes::{ReadOutcome, classify_data, classify_error};
use portable_pty::PtySize as PortablePtySize;

verus! {

#[verifier::external_type_specification]
pub struct ExPortablePtySize(PortablePtySize);

#[verifier::external_type_specification]
#[verifier::external_body]
pub struct ExAnyhowError(anyhow::Error);

#[verifier::external_type_specification]
#[verifier::external_body]
pub struct ExIoError(std::io::Error);

/// Terminal size in rows and columns, with optional pixel dimensions.
/// Rows and columns are positive by the OS's rule, which is not checked again
/// here.
#[derive(Debug, Clone, Copy, PartialEq, Eq, Structural)]
pub struct PtySize {
    pub rows: u16,
    pub cols: u16,
    pub pixel_width: u16,
    pub pixel_height: u16,
}

impl PtySize {
    /// The same four dimensions as `p`.
    pub open spec fn matches(self, p: PortablePtySize) -> bool {
        &&& self.rows == p.rows
        &&& self.cols == p.cols
        &&& self.pixel_width == p.pixel_width
        &&& self.pixel_height == p.pixel_height
    }
}

fn to_portable(size: PtySize) -> (r: PortablePtySize)
    ensures
        size.matches(r),
{
    PortablePtySize {
        rows: size.rows,
        cols: size.cols,
        pixel_width: size.pixel_width,
        pixel_height: size.pixel_height,
    }
}

fn from_portable(p: PortablePtySize) -> (r: PtySize)
    ensures
        r.matches(p),
{
    PtySize { rows: p.rows, cols: p.cols, pixel_width: p.pixel_width, pixel_height: p.pixel_height }
}

/// The controlling side of a PTY, as portable-pty hands it out.
#[verifier::external_body]
struct MasterSide(Box<dyn portable_pty::MasterPty + Send>);

/// The subordinate side of a PTY, as portable-pty hands it out.
#[verifier::external_body]
struct SlaveSide(Box<dyn portable_pty::SlavePty + Send>);

/// The single writable stream into a PTY: what is written reaches the child.
#[verifier::external_body]
pub struct PtyWriter(Box<dyn std::io::Write + Send>);

/// One reader of a PTY's output; clones share the same byte stream.
#[verifier::external_body]
pub struct PtyReader(Box<dyn std::io::Read + Send>);

/// A child process running on a PTY, owned until it is waited for.
#[verifier::external_body]
pub struct ChildProcess(Box<dyn portable_pty::Child + Send + Sync>);

/// Relies on portable_pty::native_pty_system and PtySystem::openpty: a new
/// PTY pair of the given size, split into its two sides.
#[verifier::external_body]
fn open_pty(size: PortablePtySize) -> (r: Result<(MasterSide, SlaveSide), anyhow::Error>) {
    let pair = portable_pty::native_pty_system().openpty(size)?;
    Ok((MasterSide(pair.master), SlaveSide(pair.slave)))
}

/// Relies on Path::is_dir: whether the path names an existing directory now.
#[verifier::external_body]
fn is_directory(path: &String) -> (r: bool) {
    std::path::Path::new(path).is_dir()
}

#[verifier::external_type_specification]
#[verifier::external_body]
pub struct ExCommandBuilder(portable_pty::CommandBuilder);

/// The argument vector that a command holds, program first.
pub uninterp spec fn command_argv(c: portable_pty::CommandBuilder) -> Seq<Seq<char>>;

/// The environment variables set on a command over the inherited ones.
pub uninterp spec fn command_overrides(c: portable_pty::CommandBuilder) -> Map<
    Seq<char>,
    Seq<char>,
>;

/// The working directory that a command holds, if any.
pub uninterp spec fn command_dir(c: portable_pty::CommandBuilder) -> Option<Seq<char>>;

/// Program first, then the arguments in order.
pub open spec fn argv_of(program: Seq<char>, args: Seq<String>) -> Seq<Seq<char>> {
    seq![program] + args.map_values(|a: String| a@)
}

/// The overrides that setting `env` pair by pair leaves: for a repeated key
/// the last pair wins.
pub open spec fn overrides_of(env: Seq<(String, String)>) -> Map<Seq<char>, Seq<char>>
    decreases env.len(),
{
    if env.len() == 0 {
        Map::empty()
    } else {
        overrides_of(env.drop_last()).insert(env.last().0@, env.last().1@)
    }
}

/// No variable set over the inherited environment.
pub open spec fn no_overrides() -> Map<Seq<char>, Seq<char>> {
    Map::empty()
}

pub open spec fn dir_of(cwd: Option<String>) -> Option<Seq<char>> {
    match cwd {
        Some(dir) => Some(dir@),
        None => None,
    }
}

/// Relies on CommandBuilder::new and CommandBuilder::args: argv is the
/// program followed by the arguments; no variable is set over the inherited
/// environment and no directory is chosen.
#[verifier::external_body]
fn command_new(program: &String, args: &Vec<String>) -> (r: portable_pty::CommandBuilder)
    ensures
        command_argv(r) == argv_of(program@, args@),
        command_overrides(r) == no_overrides(),
        command_dir(r) is None,
{
    let mut command = portable_pty::CommandBuilder::new(program);
    command.args(args);
    command
}

/// Relies on CommandBuilder::cwd: the directory the child starts in.
#[verifier::external_body]
fn command_cwd(command: &mut portable_pty::CommandBuilder, dir: &String)
    ensures
        command_dir(*final(command)) == Some(dir@),
        command_argv(*final(command)) == command_argv(*old(command)),
        command_overrides(*final(command)) == command_overrides(*old(command)),
{
    command.cwd(dir)
}

/// Relies on CommandBuilder::env: sets one variable over the inherited
/// environment, replacing an earlier value of the same key (keys are taken
/// as they are on Unix).
#[verifier::external_body]
fn command_env(command: &mut portable_pty::CommandBuilder, key: &String, value: &String)
    ensures
        command_overrides(*final(command)) == command_overrides(*old(command)).insert(
            key@,
            value@,
        ),
        command_argv(*final(command)) == command_argv(*old(command)),
        command_dir(*final(command)) == command_dir(*old(command)),
{
    command.env(key, value)
}

/// Relies on SlavePty::spawn_command: starts the command attached to the
/// subordinate side.
#[verifier::external_body]
fn slave_spawn(slave: &SlaveSide, command: portable_pty::CommandBuilder) -> (r: Result<
    ChildProcess,
    anyhow::Error,
>) {
    Ok(ChildProcess(slave.0.spawn_command(command)?))
}

/// The command for a plan: program and arguments in order, each environment
/// override in order over the inherited environment, and the working
/// directory if the plan keeps one.
fn build_command(plan: &LaunchPlan) -> (r: portable_pty::CommandBuilder)
    ensures
        command_argv(r) == argv_of(plan.program@, plan.args@),
        command_overrides(r) == overrides_of(plan.env@),
        command_dir(r) == dir_of(plan.cwd),
{
    let mut command = command_new(&plan.program, &plan.args);
    if let Some(dir) = &plan.cwd {
        command_cwd(&mut command, dir);
    }
    let mut j: usize = 0;
    while j < plan.env.len()
        invariant
            j <= plan.env@.len(),
            command_argv(command) == argv_of(plan.program@, plan.args@),
            command_dir(command) == dir_of(plan.cwd),
            command_overrides(command) == overrides_of(plan.env@.subrange(0, j as int)),
        decreases plan.env@.len() - j,
    {
        let (key, value) = &plan.env[j];
        command_env(&mut command, key, value);
        assert(plan.env@.subrange(0, j + 1).drop_last() =~= plan.env@.subrange(0, j as int));
        j = j + 1;
    }
    assert(plan.env@.subrange(0, plan.env@.len() as int) =~= plan.env@);
    command
}

/// Starts the planned command on the subordinate side.
fn spawn_planned(slave: &SlaveSide, plan: &LaunchPlan) -> (r: Result<ChildProcess, anyhow::Error>) {
    slave_spawn(slave, build_command(plan))
}

/// Relies on Child::process_id: the child's pid where the platform shows it.
#[verifier::external_body]
fn child_process_id(child: &ChildProcess) -> (r: Option<u32>) {
    child.0.process_id()
}

/// Relies on MasterPty::take_writer, which gives out the writer only once.
#[verifier::external_body]
fn master_take_writer(master: &MasterSide) -> (r: Result<PtyWriter, anyhow::Error>) {
    Ok(PtyWriter(master.0.take_writer()?))
}

/// Relies on MasterPty::resize: tells the kernel the new window size.
#[verifier::external_body]
fn master_resize(master: &MasterSide, size: PortablePtySize) -> (r: Result<(), anyhow::Error>) {
    master.0.resize(size)
}

/// Relies on MasterPty::get_size: the window size as the kernel knows it.
#[verifier::external_body]
fn master_get_size(master: &MasterSide) -> (r: Result<PortablePtySize, anyhow::Error>) {
    master.0.get_size()
}

/// Relies on MasterPty::try_clone_reader: a new reader of the output stream.
#[verifier::external_body]
fn master_clone_reader(master: &MasterSide) -> (r: Result<PtyReader, anyhow::Error>) {
    Ok(PtyReader(master.0.try_clone_reader()?))
}

/// Relies on Write::write, which reports how many bytes of `buf` it took,
/// never more than `buf` holds.
#[verifier::external_body]
fn writer_write(writer: &mut PtyWriter, buf: &[u8]) -> (r: Result<usize, std::io::Error>)
    ensures
        r matches Ok(n) ==> n <= buf@.len(),
{
    writer.0.write(buf)
}

/// Relies on Write::flush: returns once buffered bytes have been handed on.
#[verifier::external_body]
fn writer_flush(writer: &mut PtyWriter) -> (r: Result<(), std::io::Error>) {
    writer.0.flush()
}

/// Relies on Read::read into a buffer of `max` bytes: the bytes read, at most
/// `max` of them; none only at end of stream.
#[verifier::external_body]
fn reader_read(reader: &mut PtyReader, max: usize) -> (r: Result<Vec<u8>, std::io::Error>)
    requires
        max > 0,
    ensures
        r matches Ok(v) ==> v@.len() <= max,
{
    let mut buf = vec![0u8; max];
    let n = reader.0.read(&mut buf)?;
    buf.truncate(n);
    Ok(buf)
}

/// What waiting for a child reported: whether it succeeded, and its code.
#[derive(Debug, Clone, Copy, PartialEq, Eq, Structural)]
pub struct ExitReport {
    pub success: bool,
    pub code: u32,
}

impl ExitReport {
    /// Success is reported exactly for the exit code 0.
    pub open spec fn reliable(self) -> bool {
        self.success <==> self.code == 0
    }
}

/// Relies on Child::wait and portable_pty::ExitStatus: `success` holds
/// exactly when the recorded code is 0 (a death by signal records code 1).
#[verifier::external_body]
fn child_wait(child: &mut ChildProcess) -> (r: Result<ExitReport, std::io::Error>)
    ensures
        r matches Ok(rep) ==> rep.reliable(),
{
    let status = child.0.wait()?;
    Ok(ExitReport { success: status.success(), code: status.exit_code() })
}

/// The outcome handed to a completion handler: 0 for a clean exit, the
/// reported code otherwise, and nothing when waiting itself failed.
pub open spec fn outcome_of(report: Option<ExitReport>) -> Option<i32> {
    match report {
        Some(rep) => if rep.success {
            Some(0i32)
        } else {
            Some(rep.code as i32)
        },
        None => None,
    }
}

/// Maps what waiting reported (`None`: the wait failed) to an exit outcome.
pub fn exit_outcome(report: Option<ExitReport>) -> (r: Option<i32>)
    ensures
        r == outcome_of(report),
{
    match report {
        Some(rep) => if rep.success {
            Some(0)
        } else {
            Some(rep.code as i32)
        },
        None => None,
    }
}

/// A completion handler learns `Some(0)` exactly for a clean exit, a nonzero
/// `Some(code)` for a failed one, and `None` exactly when waiting failed.
pub proof fn lemma_exit_outcomes(report: Option<ExitReport>)
    requires
        report matches Some(rep) ==> rep.reliable(),
    ensures
        outcome_of(report) == Some(0i32) <==> (report matches Some(rep) && rep.success),
        outcome_of(report) is None <==> report is None,
        report matches Some(rep) ==> (!rep.success ==> outcome_of(report) == Some(rep.code as i32)
            && rep.code as i32 != 0),
{
    if let Some(rep) = report {
        let code = rep.code;
        if !rep.success {
            assert(code != 0 ==> code as i32 != 0) by (bit_vector);
        }
    }
}

impl ChildProcess {
    /// Blocks until the child terminates and gives its exit outcome: `Some(0)`
    /// on success, `Some(code)` with a nonzero code on failure, `None` when
    /// the wait failed. It consumes the child, so the outcome comes once.
    pub fn wait_exit(self) -> (r: Option<i32>)
        ensures
            exists|report: Option<ExitReport>|
                r == #[trigger] outcome_of(report) && (report matches Some(rep) ==> rep.reliable()),
    {
        let mut child = self;
        match child_wait(&mut child) {
            Ok(report) => {
                let r = exit_outcome(Some(report));
                assert(r == outcome_of(Some(report)));
                r
            },
            Err(_) => {
                let r = exit_outcome(None);
                assert(r == outcome_of(None));
                r
            },
        }
    }
}

/// Waits for the child to end and hands its exit outcome to `on_exit`. The
/// handler is a one-shot: it is called once, after the child has ended or
/// waiting for it has failed, with `Some(0)` for a clean exit, the nonzero
/// code for a failed one, and `None` when waiting failed.
pub fn watch_exit<F: FnOnce(Option<i32>)>(child: ChildProcess, on_exit: F)
    requires
        forall|outcome: Option<i32>| on_exit.requires((outcome,)),
    ensures
        exists|report: Option<ExitReport>|
            (report matches Some(rep) ==> rep.reliable()) && on_exit.ensures(
                (#[trigger] outcome_of(report),),
                (),
            ),
{
    let outcome = child.wait_exit();
    let ghost report = choose|report: Option<ExitReport>|
        outcome == #[trigger] outcome_of(report) && (report matches Some(rep) ==> rep.reliable());
    on_exit(outcome);
    assert(on_exit.ensures((outcome_of(report),), ()));
}

/// What went wrong in a PTY operation.
#[derive(Debug)]
pub enum PtyError {
    /// The PTY pair could not be opened.
    Open { cause: anyhow::Error },
    /// The child could not be started.
    Spawn { program: String, cause: anyhow::Error },
    /// The controlling side's writer could not be obtained.
    TakeWriter { cause: anyhow::Error },
    /// The writer was already taken out of this handle.
    WriterTaken,
    /// The window size could not be changed.
    Resize { cause: anyhow::Error },
    /// The window size could not be read.
    GetSize { cause: anyhow::Error },
    /// No new reader could be made.
    CloneReader { cause: anyhow::Error },
    /// Writing to the child failed.
    Write { source: std::io::Error },
    /// Flushing to the child failed.
    Drain { source: std::io::Error },
}

/// A handle to the master side of a PTY.
///
/// It owns the controlling side and at most one writer, which can be taken
/// out once; readers can be cloned from it any number of times.
pub struct PtyHandle {
    master: MasterSide,
    writer: Option<PtyWriter>,
}

impl PtyHandle {
    /// The writer is still held by this handle.
    pub closed spec fn writer_available(&self) -> bool {
        self.writer.is_some()
    }

    /// Resize the PTY to the given dimensions.
    pub fn resize(&self, size: PtySize) -> (r: Result<(), PtyError>)
        ensures
            r matches Err(e) ==> e matches PtyError::Resize { .. },
    {
        match master_resize(&self.master, to_portable(size)) {
            Ok(()) => Ok(()),
            Err(cause) => Err(PtyError::Resize { cause }),
        }
    }

    /// Get the current size of the PTY.
    pub fn get_size(&self) -> (r: Result<PtySize, PtyError>)
        ensures
            r matches Err(e) ==> e matches PtyError::GetSize { .. },
    {
        match master_get_size(&self.master) {
            Ok(p) => Ok(from_portable(p)),
            Err(cause) => Err(PtyError::GetSize { cause }),
        }
    }

    /// Clone the reader end of the PTY. Can be called multiple times.
    pub fn try_clone_reader(&self) -> (r: Result<PtyReader, PtyError>)
        ensures
            r matches Err(e) ==> e matches PtyError::CloneReader { .. },
    {
        match master_clone_reader(&self.master) {
            Ok(reader) => Ok(reader),
            Err(cause) => Err(PtyError::CloneReader { cause }),
        }
    }

    /// Write bytes to the PTY (i.e., send input to the child process).
    /// Fails with `WriterTaken` once the writer has left the handle.
    pub fn write(&mut self, buf: &[u8]) -> (r: Result<usize, PtyError>)
        ensures
            final(self).writer_available() == old(self).writer_available(),
            !old(self).writer_available() ==> r matches Err(PtyError::WriterTaken),
            old(self).writer_available() ==> match r {
                Ok(n) => n <= buf@.len(),
                Err(e) => e matches PtyError::Write { .. },
            },
    {
        match &mut self.writer {
            Some(writer) => match writer_write(writer, buf) {
                Ok(n) => Ok(n),
                Err(source) => Err(PtyError::Write { source }),
            },
            None => Err(PtyError::WriterTaken),
        }
    }

    /// Flush the PTY writer, so that the child sees every byte written
    /// before this returns. Fails with `WriterTaken` once the writer is gone.
    pub fn drain(&mut self) -> (r: Result<(), PtyError>)
        ensures
            final(self).writer_available() == old(self).writer_available(),
            !old(self).writer_available() ==> r matches Err(PtyError::WriterTaken),
            old(self).writer_available() ==> (r matches Err(e) ==> e matches PtyError::Drain { .. }),
    {
        match &mut self.writer {
            Some(writer) => match writer_flush(writer) {
                Ok(()) => Ok(()),
                Err(source) => Err(PtyError::Drain { source }),
            },
            None => Err(PtyError::WriterTaken),
        }
    }

    /// Take the writer out of the handle. It leaves exactly once: every later
    /// attempt fails with `WriterTaken`.
    pub fn take_writer(&mut self) -> (r: Result<PtyWriter, PtyError>)
        ensures
            !final(self).writer_available(),
            old(self).writer_available() <==> r is Ok,
            !old(self).writer_available() ==> r matches Err(PtyError::WriterTaken),
    {
        match self.writer.take() {
            Some(writer) => Ok(writer),
            None => Err(PtyError::WriterTaken),
        }
    }
}

impl PtyWriter {
    /// Write bytes to the child; at most `buf.len()` of them are taken.
    pub fn write(&mut self, buf: &[u8]) -> (r: Result<usize, PtyError>)
        ensures
            match r {
                Ok(n) => n <= buf@.len(),
                Err(e) => e matches PtyError::Write { .. },
            },
    {
        match writer_write(self, buf) {
            Ok(n) => Ok(n),
            Err(source) => Err(PtyError::Write { source }),
        }
    }

    /// Flush what was written, so that the child sees it.
    pub fn drain(&mut self) -> (r: Result<(), PtyError>)
        ensures
            r matches Err(e) ==> e matches PtyError::Drain { .. },
    {
        match writer_flush(self) {
            Ok(()) => Ok(()),
            Err(source) => Err(PtyError::Drain { source }),
        }
    }
}

impl PtyReader {
    /// One read of at most `max` bytes, classified for the byte bridge.
    pub fn read_chunk(&mut self, max: usize) -> (r: ReadOutcome)
        requires
            max > 0,
        ensures
            r matches ReadOutcome::Data(v) ==> 0 < v@.len() <= max,
    {
        match reader_read(self, max) {
            Ok(bytes) => classify_data(bytes),
            Err(e) => {
                let kind = e.kind();
                classify_error(kind, e)
            },
        }
    }
}

/// What the child is launched with.
pub struct LaunchPlan {
    pub program: String,
    pub args: Vec<String>,
    /// The working directory, kept only where it was found to be a directory.
    pub cwd: Option<String>,
    /// Overrides layered over the inherited environment, later ones winning.
    pub env: Vec<(String, String)>,
}

/// The launch plan for a request: everything as asked, except that a working
/// directory that is not an existing directory is dropped (the launch goes
/// on in the inherited one).
pub fn plan_launch(
    program: String,
    args: Vec<String>,
    cwd: Option<String>,
    cwd_is_dir: bool,
    env: Vec<(String, String)>,
) -> (r: LaunchPlan)
    ensures
        r.program@ == program@,
        r.args@ == args@,
        r.env@ == env@,
        r.cwd == (if cwd_is_dir { cwd } else { None }),
{
    let cwd = if cwd_is_dir {
        cwd
    } else {
        None
    };
    LaunchPlan { program, args, cwd, env }
}

/// Result of spawning a command in a PTY.
pub struct SpawnResult {
    /// Handle to the master side of the PTY.
    pub pty: PtyHandle,
    /// Process ID of the spawned child, if available.
    pub child_pid: Option<u32>,
    /// The child itself, for whoever waits for its exit.
    pub child: ChildProcess,
    /// A working directory was asked for, but it was not a directory: the
    /// child started in the inherited one.
    pub cwd_ignored: bool,
}

/// Spawn a command in a new PTY.
///
/// Opens a PTY pair of the given size, starts the command on the subordinate
/// side (in `cwd` where that is a directory), lets go of the subordinate side
/// so that the child alone holds it, and takes the controlling side's writer
/// into the returned handle.
pub fn spawn_in_pty(
    cmd: String,
    args: Vec<String>,
    cwd: Option<String>,
    env: Vec<(String, String)>,
    size: PtySize,
) -> (r: Result<SpawnResult, PtyError>)
    ensures
        match r {
            Ok(res) => res.pty.writer_available() && (res.cwd_ignored ==> cwd is Some),
            Err(e) => {
                ||| e matches PtyError::Open { .. }
                ||| e matches PtyError::TakeWriter { .. }
                ||| (e matches PtyError::Spawn { program, .. } && program@ == cmd@)
            },
        },
{
    // The subordinate side lives only in this block: once the child holds
    // it, the launcher lets go, so that end of stream reaches the master.
    let (master, child, child_pid, cwd_ignored) = {
        let (master, slave) = match open_pty(to_portable(size)) {
            Ok(pair) => pair,
            Err(cause) => return Err(PtyError::Open { cause }),
        };
        let cwd_is_dir = match &cwd {
            Some(dir) => is_directory(dir),
            None => false,
        };
        let cwd_ignored = cwd.is_some() && !cwd_is_dir;
        let program = cmd.clone();
        let plan = plan_launch(cmd, args, cwd, cwd_is_dir, env);
        let child = match spawn_planned(&slave, &plan) {
            Ok(child) => child,
            Err(cause) => return Err(PtyError::Spawn { program, cause }),
        };
        let child_pid = child_process_id(&child);
        (master, child, child_pid, cwd_ignored)
    };
    let writer = match master_take_writer(&master) {
        Ok(writer) => writer,
        Err(cause) => return Err(PtyError::TakeWriter { cause }),
    };
    Ok(
        SpawnResult {
            pty: PtyHandle { master, writer: Some(writer) },
            child_pid,
            child,
            cwd_ignored,
        },
    )
}

} // verus!
