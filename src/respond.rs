use vstd::prelude::*;
use vstd::string::*;

use crate::capture::{captured, lemma_ascii_writes_captured_verbatim, written};
use crate::compile::{compile_step, BuildResult, BuildView, CompileActionView, CompileEventView};
use crate::text::{all_ascii, ascii_chars, lenient_decoding};

verus! {

/// Message of the response to a compile attempt that ran past its deadline.
pub const BUILD_TIMEOUT_MESSAGE: &'static str = "timeout when building";

/// The two streams a sandboxed program wrote.
#[derive(Debug)]
pub struct ExecutionOutput {
    /// The stdout stream.
    pub stdout: String,
    /// The stderr stream.
    pub stderr: String,
}

/// The answer to one request.
#[derive(Debug)]
pub enum Response {
    /// The program ran to completion; what it wrote (status 200).
    Output(ExecutionOutput),
    /// The program did not compile; the compiler's diagnostics (status 400).
    BadRequest(String),
    /// A timeout or an internal fault; its description (status 500).
    InternalError(String),
}

/// Mathematical model of a `Response`.
pub enum ResponseView {
    Output { stdout: Seq<char>, stderr: Seq<char> },
    BadRequest(Seq<char>),
    InternalError(Seq<char>),
}

impl View for Response {
    type V = ResponseView;

    open spec fn view(&self) -> ResponseView {
        match self {
            Response::Output(o) => ResponseView::Output { stdout: o.stdout@, stderr: o.stderr@ },
            Response::BadRequest(m) => ResponseView::BadRequest(m@),
            Response::InternalError(m) => ResponseView::InternalError(m@),
        }
    }
}

/// The status code that goes with each kind of response.
pub open spec fn status_of(r: ResponseView) -> u16 {
    match r {
        ResponseView::Output { .. } => 200,
        ResponseView::BadRequest(_) => 400,
        ResponseView::InternalError(_) => 500,
    }
}

impl Response {
    /// The HTTP status code of this response.
    pub fn status(&self) -> (r: u16)
        ensures
            r == status_of(self@),
    {
        match self {
            Response::Output(_) => 200,
            Response::BadRequest(_) => 400,
            Response::InternalError(_) => 500,
        }
    }
}

/// What a request does once its compile attempt is over.
#[derive(Debug)]
pub enum AfterBuild {
    /// Run the compiled binary.
    Execute,
    /// Answer now; nothing is run.
    Respond(Response),
}

/// Mathematical model of an `AfterBuild`.
pub enum AfterBuildView {
    Execute,
    Respond(ResponseView),
}

impl View for AfterBuild {
    type V = AfterBuildView;

    open spec fn view(&self) -> AfterBuildView {
        match self {
            AfterBuild::Execute => AfterBuildView::Execute,
            AfterBuild::Respond(r) => AfterBuildView::Respond(r@),
        }
    }
}

/// The body of the answer to a failed build: the compiler's stdout, a line
/// break, and its stderr.
pub open spec fn failure_body(stdout: Seq<char>, stderr: Seq<char>) -> Seq<char> {
    stdout + "\n"@ + stderr
}

/// The rule after a classified compile outcome: only a success goes on to run.
pub open spec fn after_outcome(b: BuildView) -> AfterBuildView {
    match b {
        BuildView::Timeout => AfterBuildView::Respond(
            ResponseView::InternalError(BUILD_TIMEOUT_MESSAGE@),
        ),
        BuildView::BuildFailed { stdout, stderr } => AfterBuildView::Respond(
            ResponseView::BadRequest(failure_body(stdout, stderr)),
        ),
        BuildView::BuildSuccess => AfterBuildView::Execute,
    }
}

/// Decides what a request does after its compile attempt. `Err` carries the
/// description of an I/O fault that stopped the attempt (writing the source,
/// starting the compiler, reading its pipes).
pub fn after_build(build: Result<BuildResult, String>) -> (r: AfterBuild)
    ensures
        match build {
            Ok(b) => r@ == after_outcome(b@),
            Err(m) => r@ == AfterBuildView::Respond(ResponseView::InternalError(m@)),
        },
{
    match build {
        Err(m) => AfterBuild::Respond(Response::InternalError(m)),
        Ok(BuildResult::Timeout) => AfterBuild::Respond(
            Response::InternalError(String::from_str(BUILD_TIMEOUT_MESSAGE)),
        ),
        Ok(BuildResult::BuildFailed { stdout, stderr }) => {
            let body = stdout.concat("\n").concat(stderr.as_str());
            AfterBuild::Respond(Response::BadRequest(body))
        },
        Ok(BuildResult::BuildSuccess) => AfterBuild::Execute,
    }
}

/// The answer to a run: what it wrote, or the fault that stopped it.
pub open spec fn execution_response(run: Result<(Seq<char>, Seq<char>), Seq<char>>) -> ResponseView {
    match run {
        Ok((stdout, stderr)) => ResponseView::Output { stdout, stderr },
        Err(m) => ResponseView::InternalError(m),
    }
}

/// Answers a request whose binary was run. `Err` carries the description of
/// the execution fault (malformed binary, missing entry point, trap, fuel
/// exhausted, engine setup).
pub fn after_execution(run: Result<ExecutionOutput, String>) -> (r: Response)
    ensures
        match run {
            Ok(o) => r@ == execution_response(Ok((o.stdout@, o.stderr@))),
            Err(m) => r@ == execution_response(Err(m@)),
        },
{
    match run {
        Ok(o) => Response::Output(o),
        Err(m) => Response::InternalError(m),
    }
}

/// A program that writes only ASCII text to its two streams and returns
/// normally is answered with status 200 and exactly that text; a program that
/// writes nothing to stderr gets an empty stderr.
pub proof fn lemma_ascii_run_answered_verbatim(out: Seq<Seq<u8>>, err: Seq<Seq<u8>>)
    requires
        forall|i: int| 0 <= i < out.len() ==> all_ascii(#[trigger] out[i]),
        forall|i: int| 0 <= i < err.len() ==> all_ascii(#[trigger] err[i]),
    ensures
        execution_response(Ok((captured(out), captured(err)))) == (ResponseView::Output {
            stdout: ascii_chars(written(out)),
            stderr: ascii_chars(written(err)),
        }),
        status_of(execution_response(Ok((captured(out), captured(err))))) == 200,
        err.len() == 0 ==> captured(err).len() == 0,
{
    lemma_ascii_writes_captured_verbatim(out);
    lemma_ascii_writes_captured_verbatim(err);
}

/// A compiler that fails is answered with status 400 whose body holds its
/// stdout, then its stderr, and the request never goes on to run anything.
pub proof fn lemma_compile_failure_is_client_error(stdout: Seq<u8>, stderr: Seq<u8>)
    ensures
        compile_step(CompileEventView::Exited { success: false }) == CompileActionView::DrainPipes,
        ({
            let body = failure_body(lenient_decoding(stdout), lenient_decoding(stderr));
            &&& compile_step(CompileEventView::Drained { stdout, stderr })
                == CompileActionView::Finish(BuildView::BuildFailed {
                stdout: lenient_decoding(stdout),
                stderr: lenient_decoding(stderr),
            })
            &&& after_outcome(BuildView::BuildFailed {
                stdout: lenient_decoding(stdout),
                stderr: lenient_decoding(stderr),
            }) == AfterBuildView::Respond(ResponseView::BadRequest(body))
            &&& status_of(ResponseView::BadRequest(body)) == 400
            &&& body.subrange(0, lenient_decoding(stdout).len() as int) == lenient_decoding(stdout)
            &&& body.subrange(body.len() - lenient_decoding(stderr).len(), body.len() as int)
                == lenient_decoding(stderr)
        }),
{
    let o = lenient_decoding(stdout);
    let e = lenient_decoding(stderr);
    let body = failure_body(o, e);
    assert(body.subrange(0, o.len() as int) =~= o);
    assert(body.subrange(body.len() - e.len(), body.len() as int) =~= e);
}

/// A compiler that outlives its deadline is killed and the attempt reported as
/// a timeout, answered with status 500 and never run; only a compiler that
/// exited with success lets a request go on to run.
pub proof fn lemma_late_compiler_killed_and_reported(e: CompileEventView)
    ensures
        compile_step(CompileEventView::DeadlineElapsed) == CompileActionView::Kill,
        compile_step(CompileEventView::Killed) == CompileActionView::Finish(BuildView::Timeout),
        after_outcome(BuildView::Timeout) == AfterBuildView::Respond(
            ResponseView::InternalError(BUILD_TIMEOUT_MESSAGE@),
        ),
        status_of(ResponseView::InternalError(BUILD_TIMEOUT_MESSAGE@)) == 500,
        compile_step(e) == CompileActionView::Finish(BuildView::BuildSuccess) ==> e
            == (CompileEventView::Exited { success: true }),
        forall|b: BuildView| after_outcome(b) == AfterBuildView::Execute ==> b == BuildView::BuildSuccess,
{
}

/// A run stopped by a fault, running out of fuel included, is answered with
/// status 500 and the fault's description, never with partial output.
pub proof fn lemma_execution_fault_is_server_error(m: Seq<char>)
    ensures
        execution_response(Err(m)) == ResponseView::InternalError(m),
        status_of(execution_response(Err(m))) == 500,
{
}

} // verus!
