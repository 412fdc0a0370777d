//! What a supervision run is told before it starts.
use vstd::prelude::*;
use vstd::string::StringExecFns;

verus! {

/// How many readiness probes are made before giving up on the server.
pub const DEFAULT_POLL_ATTEMPTS: u32 = 30;

/// The pause before each readiness probe, in milliseconds.
pub const DEFAULT_POLL_INTERVAL_MS: u64 = 500;

/// The loopback port the server listens on once it is ready.
pub const READINESS_PORT: u16 = 2620;

/// How the host runs the server it depends on.
#[derive(Clone, Copy, Debug, PartialEq, Eq, Structural)]
pub enum Mode {
    /// The server is started and managed by the developer, outside the shell.
    Development,
    /// The shell launches and supervises the server itself.
    Production,
}

/// An IPv4 address and port that the server is expected to bind.
#[derive(Clone, Copy, Debug)]
pub struct ReadinessAddress {
    pub ip: (u8, u8, u8, u8),
    pub port: u16,
}

impl ReadinessAddress {
    /// `127.0.0.1` on the server's port.
    pub fn loopback(port: u16) -> (r: ReadinessAddress)
        ensures
            r.ip == (127u8, 0u8, 0u8, 1u8),
            r.port == port,
    {
        ReadinessAddress { ip: (127u8, 0u8, 0u8, 1u8), port }
    }
}

/// Everything one supervision run needs, fixed before it starts.
#[derive(Clone, Debug)]
pub struct SupervisionConfig {
    /// Path of the script that the server runtime is started on.
    pub entry_path: String,
    pub mode: Mode,
    pub readiness_address: ReadinessAddress,
    /// How many readiness probes are made at most.
    pub poll_attempts: u32,
    /// The pause before each probe, in milliseconds.
    pub poll_interval_ms: u64,
}

impl SupervisionConfig {
    /// The standard policy: 30 probes, 500 ms apart, against `127.0.0.1:2620`.
    pub fn standard(entry_path: String, mode: Mode) -> (r: SupervisionConfig)
        ensures
            r.entry_path@ == entry_path@,
            r.mode == mode,
            r.readiness_address.ip == (127u8, 0u8, 0u8, 1u8),
            r.readiness_address.port == READINESS_PORT,
            r.poll_attempts == DEFAULT_POLL_ATTEMPTS,
            r.poll_interval_ms == DEFAULT_POLL_INTERVAL_MS,
    {
        SupervisionConfig {
            entry_path,
            mode,
            readiness_address: ReadinessAddress::loopback(READINESS_PORT),
            poll_attempts: DEFAULT_POLL_ATTEMPTS,
            poll_interval_ms: DEFAULT_POLL_INTERVAL_MS,
        }
    }

    /// Whether the supervisor has any work to do in this run.
    pub fn needs_supervision(&self) -> (r: bool)
        ensures
            r <==> self.mode == Mode::Production,
    {
        match self.mode {
            Mode::Development => false,
            Mode::Production => true,
        }
    }

    /// The process to start: the server runtime on the entry script, told
    /// that it runs in production.
    pub fn launch_command(&self) -> (r: LaunchCommand)
        ensures
            r.program@ == "node"@,
            r.args@.len() == 1,
            r.args@[0]@ == self.entry_path@,
            r.env@.len() == 1,
            r.env@[0].0@ == "NODE_ENV"@,
            r.env@[0].1@ == "production"@,
    {
        let mut args: Vec<String> = Vec::new();
        args.push(self.entry_path.clone());
        let mut env: Vec<(String, String)> = Vec::new();
        env.push((String::from_str("NODE_ENV"), String::from_str("production")));
        LaunchCommand { program: String::from_str("node"), args, env }
    }
}

/// A process to spawn: program, arguments, and environment variables set on
/// top of the inherited ones. Its standard output and error are always piped.
#[derive(Clone, Debug)]
pub struct LaunchCommand {
    pub program: String,
    pub args: Vec<String>,
    pub env: Vec<(String, String)>,
}

/// The directory the entry script sits in, below the resource directory.
pub const ENTRY_DIR: &'static str = "api-server";

/// The entry script's file name.
pub const ENTRY_FILE: &'static str = "index.js";

/// The directory used when the host cannot name its resource directory.
pub const FALLBACK_RESOURCE_DIR: &'static str = ".";

/// The path components of the entry script, to be joined in order: the
/// resource directory (the current one when the host has none), then the
/// server's directory, then the script.
pub fn entry_path_components(resource_dir: Option<String>) -> (r: Vec<String>)
    ensures
        r@.len() == 3,
        r@[0]@ == match resource_dir {
            Some(d) => d@,
            None => FALLBACK_RESOURCE_DIR@,
        },
        r@[1]@ == ENTRY_DIR@,
        r@[2]@ == ENTRY_FILE@,
{
    let base = match resource_dir {
        Some(d) => d,
        None => String::from_str(FALLBACK_RESOURCE_DIR),
    };
    let mut r: Vec<String> = Vec::new();
    r.push(base);
    r.push(String::from_str(ENTRY_DIR));
    r.push(String::from_str(ENTRY_FILE));
    r
}

} // verus!
