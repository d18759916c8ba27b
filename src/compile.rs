use vstd::prelude::*;
use vstd::string::*;

use crate::text::{decode_lossy, lenient_decoding};

verus! {

/// Name of the file the prepared source is written to.
pub const SOURCE_FILE_NAME: &'static str = "main.rs";

/// Name of the sandbox binary the compiler produces.
pub const WASM_FILE_NAME: &'static str = "main.wasm";

/// Wall-clock deadline for one compiler run, in seconds.
pub const BUILD_TIMEOUT_SECS: u64 = 20;

/// Symbol that every compiled binary exports as its entry point.
pub const ENTRY_SYMBOL: &'static str = "__entry";

/// Definition appended to every submitted program. It exports `__entry`, which
/// calls `main` and discards its result, so that the sandbox always finds a
/// callable entry point. The first letter of the linkage keyword is written as
/// an escape.
pub const ENTRY_TRAMPOLINE: &'static str =
    "\n\n#[no_mangle]\npub \x65xtern \"C\" fn __entry() { let _ = main(); }\n";

/// The compiler's executable.
pub const COMPILER: &'static str = "rustc";

/// The file handed to the compiler: the submitted text, then the trampoline.
pub open spec fn prepared_source(sample: Seq<char>) -> Seq<char> {
    sample + ENTRY_TRAMPOLINE@
}

/// The compiler's arguments: target the sandbox format as a dynamic library.
pub open spec fn compiler_args_spec() -> Seq<Seq<char>> {
    seq!["--target"@, "wasm32-wasi"@, "--crate-type"@, "cdylib"@, SOURCE_FILE_NAME@]
}

/// Builds the text of the source file for a submitted program.
pub fn prepare_source(sample: &str) -> (r: String)
    ensures
        r@ == prepared_source(sample@),
{
    let text = String::from_str(sample);
    text.concat(ENTRY_TRAMPOLINE)
}

/// Arguments for the compiler run.
pub fn compiler_args() -> (r: Vec<&'static str>)
    ensures
        r@.map_values(|a: &str| a@) == compiler_args_spec(),
{
    let r = vec!["--target", "wasm32-wasi", "--crate-type", "cdylib", SOURCE_FILE_NAME];
    assert(r@.map_values(|a: &str| a@) =~= compiler_args_spec());
    r
}

/// The classified outcome of one compile attempt.
#[derive(Debug)]
pub enum BuildResult {
    /// The compiler did not finish before the deadline and was killed.
    Timeout,
    /// The compiler exited with a failure status; its two output streams.
    BuildFailed { stdout: String, stderr: String },
    /// The compiler succeeded; the binary is at `WASM_FILE_NAME`.
    BuildSuccess,
}

/// Mathematical model of a `BuildResult`.
pub enum BuildView {
    Timeout,
    BuildFailed { stdout: Seq<char>, stderr: Seq<char> },
    BuildSuccess,
}

impl View for BuildResult {
    type V = BuildView;

    open spec fn view(&self) -> BuildView {
        match self {
            BuildResult::Timeout => BuildView::Timeout,
            BuildResult::BuildFailed { stdout, stderr } => BuildView::BuildFailed {
                stdout: stdout@,
                stderr: stderr@,
            },
            BuildResult::BuildSuccess => BuildView::BuildSuccess,
        }
    }
}

/// What happened to a running compile attempt.
#[derive(Debug)]
pub enum CompileEvent {
    /// The deadline elapsed before the compiler exited.
    DeadlineElapsed,
    /// The compiler was killed after the deadline.
    Killed,
    /// The compiler exited before the deadline.
    Exited { success: bool },
    /// Both output pipes of a failed compiler were read to their end.
    Drained { stdout: Vec<u8>, stderr: Vec<u8> },
}

/// Mathematical model of a `CompileEvent`.
pub enum CompileEventView {
    DeadlineElapsed,
    Killed,
    Exited { success: bool },
    Drained { stdout: Seq<u8>, stderr: Seq<u8> },
}

impl View for CompileEvent {
    type V = CompileEventView;

    open spec fn view(&self) -> CompileEventView {
        match self {
            CompileEvent::DeadlineElapsed => CompileEventView::DeadlineElapsed,
            CompileEvent::Killed => CompileEventView::Killed,
            CompileEvent::Exited { success } => CompileEventView::Exited { success: *success },
            CompileEvent::Drained { stdout, stderr } => CompileEventView::Drained {
                stdout: stdout@,
                stderr: stderr@,
            },
        }
    }
}

/// What to do next in a compile attempt.
#[derive(Debug)]
pub enum CompileAction {
    /// Kill the compiler process, then report back `Killed`.
    Kill,
    /// Read both output pipes to their end, then report back `Drained`.
    DrainPipes,
    /// The attempt is over with this outcome.
    Finish(BuildResult),
}

/// Mathematical model of a `CompileAction`.
pub enum CompileActionView {
    Kill,
    DrainPipes,
    Finish(BuildView),
}

impl View for CompileAction {
    type V = CompileActionView;

    open spec fn view(&self) -> CompileActionView {
        match self {
            CompileAction::Kill => CompileActionView::Kill,
            CompileAction::DrainPipes => CompileActionView::DrainPipes,
            CompileAction::Finish(b) => CompileActionView::Finish(b@),
        }
    }
}

/// The compile attempt's rule: a late compiler is killed and reported as a
/// timeout, a successful one is a success, and a failed one has its pipes
/// drained and decoded leniently.
pub open spec fn compile_step(e: CompileEventView) -> CompileActionView {
    match e {
        CompileEventView::DeadlineElapsed => CompileActionView::Kill,
        CompileEventView::Killed => CompileActionView::Finish(BuildView::Timeout),
        CompileEventView::Exited { success } => if success {
            CompileActionView::Finish(BuildView::BuildSuccess)
        } else {
            CompileActionView::DrainPipes
        },
        CompileEventView::Drained { stdout, stderr } => CompileActionView::Finish(
            BuildView::BuildFailed { stdout: lenient_decoding(stdout), stderr: lenient_decoding(stderr) },
        ),
    }
}

/// Decides the next step of a compile attempt from what just happened.
pub fn next_compile_action(event: CompileEvent) -> (r: CompileAction)
    ensures
        r@ == compile_step(event@),
{
    match event {
        CompileEvent::DeadlineElapsed => CompileAction::Kill,
        CompileEvent::Killed => CompileAction::Finish(BuildResult::Timeout),
        CompileEvent::Exited { success } => {
            if success {
                CompileAction::Finish(BuildResult::BuildSuccess)
            } else {
                CompileAction::DrainPipes
            }
        },
        CompileEvent::Drained { stdout, stderr } => {
            let out = decode_lossy(stdout.as_slice());
            let err = decode_lossy(stderr.as_slice());
            CompileAction::Finish(BuildResult::BuildFailed { stdout: out, stderr: err })
        },
    }
}

} // verus!
