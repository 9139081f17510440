//! How a serial channel is attached on the host side, and the XON/XOFF rule
//! that the host adapters apply to bytes from the terminal.
use vstd::prelude::*;

verus! {

/// XON: the terminal is ready for more input.
pub const XON: u8 = 0x11;

/// XOFF: the terminal asks the host to stop sending.
pub const XOFF: u8 = 0x13;

/// The host side of a DUART channel.
#[derive(Debug)]
pub enum CommConfig {
    /// Bytes sent come straight back.
    Loopback,
    /// One bidirectional pipe at this path.
    Pipe(String),
    /// A pipe to read from and one to write to.
    Pipes { rx: String, tx: String },
    /// A shell command, on its stdin and stdout.
    Exec(String),
    /// A shell command, on a pty.
    ExecPty(String),
}

/// Pick the configuration from the command-line options of one channel: a
/// pty command first, then a plain command, a pipe pair, a single pipe;
/// loopback otherwise.
pub open spec fn spec_from_args(
    pipe: Option<String>,
    pipes: Option<(String, String)>,
    exec: Option<String>,
    exec_pty: Option<String>,
) -> CommConfig {
    match exec_pty {
        Some(c) => CommConfig::ExecPty(c),
        None => match exec {
            Some(c) => CommConfig::Exec(c),
            None => match pipes {
                Some((rx, tx)) => CommConfig::Pipes { rx, tx },
                None => match pipe {
                    Some(p) => CommConfig::Pipe(p),
                    None => CommConfig::Loopback,
                },
            },
        },
    }
}

impl CommConfig {
    /// The configuration that the options of one channel select (see
    /// `spec_from_args`). `loopback` asks for loopback explicitly; it is also
    /// what no option selects.
    pub fn from_args(
        pipe: Option<String>,
        pipes: Option<(String, String)>,
        exec: Option<String>,
        exec_pty: Option<String>,
        loopback: bool,
    ) -> (r: CommConfig)
        ensures
            r == spec_from_args(pipe, pipes, exec, exec_pty),
    {
        if let Some(c) = exec_pty {
            CommConfig::ExecPty(c)
        } else if let Some(c) = exec {
            CommConfig::Exec(c)
        } else if let Some((rx, tx)) = pipes {
            CommConfig::Pipes { rx, tx }
        } else if let Some(p) = pipe {
            CommConfig::Pipe(p)
        } else {
            let _ = loopback;
            CommConfig::Loopback
        }
    }
}

/// What a host adapter does with a byte from the terminal.
#[derive(Clone, Copy, Debug, PartialEq, Eq, Structural)]
pub enum FlowAction {
    /// Resume reading from the host (XON).
    Resume,
    /// Stop reading from the host (XOFF).
    Pause,
    /// Pass the byte on to the host.
    Forward(u8),
}

/// XON and XOFF steer the adapter; every other byte is passed on.
pub fn flow_control(byte: u8) -> (r: FlowAction)
    ensures
        r == (if byte == XON {
            FlowAction::Resume
        } else if byte == XOFF {
            FlowAction::Pause
        } else {
            FlowAction::Forward(byte)
        }),
{
    if byte == XON {
        FlowAction::Resume
    } else if byte == XOFF {
        FlowAction::Pause
    } else {
        FlowAction::Forward(byte)
    }
}

} // verus!
