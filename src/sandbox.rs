use vstd::prelude::*;

verus! {

/// Fuel a sandboxed run starts with.
pub const EXEC_FUEL_START: u64 = 100_000;

/// Fuel consumed between two cooperative yields of a sandboxed run.
pub const EXEC_FUEL_YIELD: u64 = 5000;

/// CPU budget of one sandboxed run.
#[derive(Debug)]
pub struct SandboxLimits {
    /// Fuel the run starts with; the run traps once it is spent.
    pub fuel: u64,
    /// Fuel consumed between two yields to the scheduler.
    pub yield_interval: u64,
}

impl SandboxLimits {
    /// A finite, non-zero budget that is a whole number of yield intervals.
    pub open spec fn wf(&self) -> bool {
        &&& 0 < self.yield_interval <= self.fuel
        &&& self.fuel % self.yield_interval == 0
    }

    /// How many slices of `yield_interval` fuel the whole budget allows.
    pub open spec fn slices(&self) -> nat {
        (self.fuel / self.yield_interval) as nat
    }
}

/// The budget every sandboxed run gets.
pub fn sandbox_limits() -> (r: SandboxLimits)
    ensures
        r.fuel == EXEC_FUEL_START,
        r.yield_interval == EXEC_FUEL_YIELD,
        r.wf(),
        r.slices() == 20,
{
    SandboxLimits { fuel: EXEC_FUEL_START, yield_interval: EXEC_FUEL_YIELD }
}

/// What a sandboxed program is granted beyond bare computation.
#[derive(Debug)]
pub struct Capabilities {
    /// Standard output goes to a capture buffer.
    pub capture_stdout: bool,
    /// Standard error goes to a capture buffer.
    pub capture_stderr: bool,
    /// Standard input is the host's.
    pub inherit_stdin: bool,
    /// The host's command-line arguments are visible.
    pub inherit_args: bool,
    /// The host's environment variables are visible.
    pub inherit_env: bool,
    /// The host's network is reachable.
    pub inherit_network: bool,
    /// Host directories are opened to the program.
    pub preopened_dirs: bool,
}

/// Exactly the two capture streams, and nothing of the host.
pub open spec fn only_capture_streams(c: Capabilities) -> bool {
    &&& c.capture_stdout
    &&& c.capture_stderr
    &&& !c.inherit_stdin
    &&& !c.inherit_args
    &&& !c.inherit_env
    &&& !c.inherit_network
    &&& !c.preopened_dirs
}

/// The grant of every sandboxed run.
pub fn session_capabilities() -> (r: Capabilities)
    ensures
        only_capture_streams(r),
{
    Capabilities {
        capture_stdout: true,
        capture_stderr: true,
        inherit_stdin: false,
        inherit_args: false,
        inherit_env: false,
        inherit_network: false,
        preopened_dirs: false,
    }
}

} // verus!
