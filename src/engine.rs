//! Supervision of the external engine process.
//!
//! The supervisor holds at most one process handle, the current engine. It
//! does no I/O itself: each command yields the steps that the caller performs
//! in order (terminate a process, launch one), and the caller reports a
//! successful launch back. Output chunks of a running engine are turned into
//! events by [`forward_output`].
use vstd::prelude::*;
use vstd::string::*;
use crate::text::{TextDecoding, decode_output, decoded};

verus! {

/// Why an engine command failed.
#[derive(Debug, PartialEq, Eq)]
pub enum EngineError {
    /// The engine could not be launched; the text says why.
    Spawn(String),
    /// The command needs a running engine and none is running.
    NotRunning,
    /// Writing to the engine's input failed; the text says why.
    Write(String),
}

impl EngineError {
    /// The launch of the engine failed with the launcher's `detail`.
    pub fn spawn_failed(detail: &str) -> (r: EngineError)
        ensures
            r is Spawn,
            r->Spawn_0@ == "Failed to spawn engine: "@ + detail@,
    {
        let mut message = String::from_str("Failed to spawn engine: ");
        message.append(detail);
        EngineError::Spawn(message)
    }

    /// Writing to the engine failed with the pipe's `detail`.
    pub fn write_failed(detail: &str) -> (r: EngineError)
        ensures
            r is Write,
            r->Write_0@ == "Failed to write to engine: "@ + detail@,
    {
        let mut message = String::from_str("Failed to write to engine: ");
        message.append(detail);
        EngineError::Write(message)
    }

    /// The message shown to the user interface.
    pub fn message(&self) -> (r: String)
        ensures
            self is Spawn ==> r@ == self->Spawn_0@,
            self is Write ==> r@ == self->Write_0@,
            self is NotRunning ==> r@ == "Engine not running."@,
    {
        match self {
            EngineError::Spawn(m) => m.clone(),
            EngineError::NotRunning => String::from_str("Engine not running."),
            EngineError::Write(m) => m.clone(),
        }
    }
}

/// How to launch the engine: the executable, its arguments, and the working
/// directory, which is the directory that holds the executable.
pub struct LaunchCommand {
    pub program: String,
    pub args: Vec<String>,
    pub working_dir: String,
}

/// One step of a command, for the caller to perform in order.
pub enum EngineStep<H> {
    /// Ask this process to terminate; a failure to do so is ignored.
    Terminate(H),
    /// Launch a new engine; on success report its handle with
    /// [`EngineSupervisor::engine_launched`].
    Launch(LaunchCommand),
    /// Stop here and report this error.
    Fail(EngineError),
}

/// The directory part of `path`, as `std::path::Path::parent` gives it.
pub uninterp spec fn parent_dir_of(path: Seq<char>) -> Option<Seq<char>>;

/// Relies on `std::path::Path::parent`, read back with `Path::to_str`: the
/// path without its last component, or `None` for a root or an empty path.
#[verifier::external_body]
fn parent_dir(path: &str) -> (r: Option<String>)
    ensures
        r is Some == parent_dir_of(path@) is Some,
        r is Some ==> r->Some_0@ == parent_dir_of(path@)->Some_0,
{
    let parent = std::path::Path::new(path).parent()?;
    Some(parent.to_str()?.to_string())
}

/// The steps that retire the current process, if there is one.
pub open spec fn retire_steps<H>(current: Option<H>) -> Seq<EngineStep<H>> {
    match current {
        Some(h) => seq![EngineStep::Terminate(h)],
        None => Seq::empty(),
    }
}

/// `step` launches the executable at `path` with `args` in its own directory,
/// or, when `path` has no directory part, fails with a spawn error.
pub open spec fn is_launch_step<H>(step: EngineStep<H>, path: Seq<char>, args: Seq<String>) -> bool {
    match parent_dir_of(path) {
        Some(dir) => {
            &&& step is Launch
            &&& step->Launch_0.program@ == path
            &&& step->Launch_0.args@ == args
            &&& step->Launch_0.working_dir@ == dir
        },
        None => {
            &&& step is Fail
            &&& step->Fail_0 is Spawn
            &&& step->Fail_0->Spawn_0@ == "Failed to get engine directory"@
        },
    }
}

/// The plan of a spawn while `current` runs: first terminate `current`, if
/// any, then launch the new engine (or fail); nothing else.
pub open spec fn is_spawn_plan<H>(
    steps: Seq<EngineStep<H>>,
    current: Option<H>,
    path: Seq<char>,
    args: Seq<String>,
) -> bool {
    &&& steps.len() == retire_steps(current).len() + 1
    &&& steps.drop_last() == retire_steps(current)
    &&& is_launch_step(steps.last(), path, args)
}

/// The current engine once a spawn has been planned: none, since the old one
/// is handed out to be terminated.
pub open spec fn after_spawn_plan<H>(current: Option<H>) -> Option<H> {
    None
}

/// The current engine once the launch of `child` has been reported.
pub open spec fn after_launch<H>(current: Option<H>, child: H) -> Option<H> {
    Some(child)
}

/// Owner of the current engine process handle, of any type `H`.
pub struct EngineSupervisor<H> {
    current: Option<H>,
}

impl<H> View for EngineSupervisor<H> {
    type V = Option<H>;

    closed spec fn view(&self) -> Option<H> {
        self.current
    }
}

impl<H> EngineSupervisor<H> {
    /// A supervisor with no engine.
    pub fn new() -> (r: EngineSupervisor<H>)
        ensures
            r@ is None,
    {
        EngineSupervisor { current: None }
    }

    /// Whether an engine is current.
    pub fn is_running(&self) -> (r: bool)
        ensures
            r == self@ is Some,
    {
        self.current.is_some()
    }

    /// Gives up the current engine, for the caller to terminate. Killing when
    /// nothing runs is a no-op that returns `None`.
    pub fn kill_engine(&mut self) -> (r: Option<H>)
        ensures
            r == old(self)@,
            final(self)@ is None,
    {
        self.current.take()
    }

    /// Plans the launch of the engine at `path` with `args`: the old engine,
    /// if any, is terminated first, whether or not the launch then succeeds.
    /// The supervisor holds no engine until [`Self::engine_launched`].
    pub fn spawn_engine(&mut self, path: &str, args: Vec<String>) -> (steps: Vec<EngineStep<H>>)
        ensures
            is_spawn_plan(steps@, old(self)@, path@, args@),
            final(self)@ == after_spawn_plan(old(self)@),
    {
        let mut steps: Vec<EngineStep<H>> = Vec::new();
        match self.kill_engine() {
            Some(old) => steps.push(EngineStep::Terminate(old)),
            None => {},
        }
        assert(steps@ =~= retire_steps(old(self)@));
        match parent_dir(path) {
            Some(dir) => {
                let launch = LaunchCommand { program: String::from_str(path), args, working_dir: dir };
                steps.push(EngineStep::Launch(launch));
            },
            None => {
                let message = String::from_str("Failed to get engine directory");
                steps.push(EngineStep::Fail(EngineError::Spawn(message)));
            },
        }
        assert(steps@.drop_last() =~= retire_steps(old(self)@));
        steps
    }

    /// Records the handle of a freshly launched engine as current. Returns
    /// the handle it displaced, which the caller terminates; after a spawn
    /// plan there is none.
    pub fn engine_launched(&mut self, child: H) -> (displaced: Option<H>)
        ensures
            final(self)@ == after_launch(old(self)@, child),
            displaced == old(self)@,
    {
        let displaced = self.current.take();
        self.current = Some(child);
        displaced
    }

    /// The line to write to the engine for `command`: the command and a
    /// newline. Fails with `NotRunning` when no engine is current.
    pub fn send_to_engine(&self, command: &str) -> (r: Result<String, EngineError>)
        ensures
            self@ is None ==> r == Err::<String, EngineError>(EngineError::NotRunning),
            self@ is Some ==> r is Ok && r->Ok_0@ == command@.push('\n'),
    {
        if self.current.is_some() {
            let mut line = String::from_str(command);
            line.append("\n");
            proof {
                reveal_strlit("\n");
            }
            assert(line@ =~= command@.push('\n'));
            Ok(line)
        } else {
            Err(EngineError::NotRunning)
        }
    }

    /// The current engine's handle, for writing to it.
    pub fn process_mut(&mut self) -> (r: Option<&mut H>)
        ensures
            old(self)@ is None ==> r is None && final(self)@ is None,
            old(self)@ is Some ==> r is Some && *r->Some_0 == old(self)@->Some_0 && final(self)@
                == Some(*final(r->Some_0)),
    {
        self.current.as_mut()
    }
}

/// The stream an output chunk came from.
#[derive(Clone, Copy, Debug, PartialEq, Eq, Structural)]
pub enum OutputSource {
    Stdout,
    Stderr,
}

/// What the engine's output stream delivers.
pub enum ProcessOutput {
    /// Raw bytes written to standard output.
    Stdout(Vec<u8>),
    /// Raw bytes written to standard error.
    Stderr(Vec<u8>),
    /// The launcher reported an error on the stream.
    Error(String),
    /// The process ended; no more output follows.
    Terminated,
}

/// Decoded engine output, tagged with its stream.
pub struct OutputEvent {
    pub source: OutputSource,
    pub text: String,
}

/// The name of the event channel that carries engine output.
pub const OUTPUT_CHANNEL: &'static str = "engine-output";

impl ProcessOutput {
    /// The chunk, if any, fits the decoder's size bound.
    pub open spec fn decodable(&self) -> bool {
        match self {
            ProcessOutput::Stdout(b) => b@.len() <= usize::MAX / 4,
            ProcessOutput::Stderr(b) => b@.len() <= usize::MAX / 4,
            _ => true,
        }
    }
}

/// The event for one item of engine output: a chunk of either stream becomes
/// its decoded text with the stream's tag; anything else yields no event.
pub fn forward_output(decoding: TextDecoding, output: &ProcessOutput) -> (r: Option<OutputEvent>)
    requires
        output.decodable(),
    ensures
        output is Stdout ==> r is Some && r->Some_0.source == OutputSource::Stdout
            && r->Some_0.text@ == decoded(decoding, output->Stdout_0@),
        output is Stderr ==> r is Some && r->Some_0.source == OutputSource::Stderr
            && r->Some_0.text@ == decoded(decoding, output->Stderr_0@),
        output is Error || output is Terminated ==> r is None,
{
    match output {
        ProcessOutput::Stdout(bytes) => Some(
            OutputEvent { source: OutputSource::Stdout, text: decode_output(decoding, bytes.as_slice()) },
        ),
        ProcessOutput::Stderr(bytes) => Some(
            OutputEvent { source: OutputSource::Stderr, text: decode_output(decoding, bytes.as_slice()) },
        ),
        _ => None,
    }
}

/// Spawning twice in succession leaves exactly one engine: the second
/// spawn's plan first terminates the engine that the first spawn launched,
/// and launches (or fails) only after that; once the second launch is
/// reported, the supervisor holds the second engine alone and nothing was
/// displaced by it.
pub proof fn lemma_spawn_twice_leaves_one<H>(
    start: Option<H>,
    first: H,
    second: H,
    first_plan: Seq<EngineStep<H>>,
    second_plan: Seq<EngineStep<H>>,
    first_path: Seq<char>,
    first_args: Seq<String>,
    second_path: Seq<char>,
    second_args: Seq<String>,
)
    requires
        is_spawn_plan(first_plan, start, first_path, first_args),
        is_spawn_plan(
            second_plan,
            after_launch(after_spawn_plan(start), first),
            second_path,
            second_args,
        ),
    ensures
        second_plan.len() == 2,
        second_plan[0] == EngineStep::<H>::Terminate(first),
        !(second_plan[1] is Terminate),
        parent_dir_of(second_path) is Some ==> second_plan[1] is Launch,
        after_spawn_plan(after_launch(after_spawn_plan(start), first)) is None,
        after_launch(after_spawn_plan(after_launch(after_spawn_plan(start), first)), second)
            == Some(second),
{
    assert(second_plan.drop_last()[0] == second_plan[0]);
}

} // verus!
