//! Pure logic of a compile-and-run service for untrusted programs: preparing the
//! source, classifying the compiler's outcome, capturing what the sandboxed
//! program writes, and mapping outcomes to responses.

pub mod text;

pub mod capture;
pub mod compile;
pub mod respond;
pub mod sandbox;

pub use capture::CaptureBuffer;
pub use compile::{
    compiler_args, next_compile_action, prepare_source, BuildResult, CompileAction, CompileEvent,
    BUILD_TIMEOUT_SECS, COMPILER, ENTRY_SYMBOL, ENTRY_TRAMPOLINE, SOURCE_FILE_NAME, WASM_FILE_NAME,
};
pub use respond::{
    after_build, after_execution, AfterBuild, ExecutionOutput, Response, BUILD_TIMEOUT_MESSAGE,
};
pub use sandbox::{
    sandbox_limits, session_capabilities, Capabilities, SandboxLimits, EXEC_FUEL_START,
    EXEC_FUEL_YIELD,
};
