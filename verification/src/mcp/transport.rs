//! The frames that go in and out: when a write has taken too long, and how serving ends.

use vstd::prelude::*;

use crate::mcp::MCP_MAX_FRAME_BYTES;

verus! {

/// Why a frame could not be written.
#[derive(Clone, Copy, Debug, PartialEq, Eq, Structural)]
pub enum GuardedSinkError {
    WriteFailed,
    Timeout,
    OutputTooLarge,
}

/// The text of such a fault.
pub open spec fn guarded_sink_error_text(error: GuardedSinkError) -> Seq<char> {
    match error {
        GuardedSinkError::WriteFailed => "mcp_output_failed"@,
        GuardedSinkError::Timeout => "mcp_output_timeout"@,
        GuardedSinkError::OutputTooLarge => "mcp_output_too_large"@,
    }
}

impl GuardedSinkError {
    pub fn as_str(self) -> (text: &'static str)
        ensures
            text@ == guarded_sink_error_text(self),
    {
        match self {
            GuardedSinkError::WriteFailed => "mcp_output_failed",
            GuardedSinkError::Timeout => "mcp_output_timeout",
            GuardedSinkError::OutputTooLarge => "mcp_output_too_large",
        }
    }
}

/// How far an operation of the writer below has come.
#[derive(Clone, Copy, Debug, PartialEq, Eq, Structural)]
pub enum Progress {
    Pending,
    Done,
    Failed,
}

/// The guard of a writer: a deadline that runs from when a frame is begun until all of it
/// has left.
#[derive(Clone, Copy, Debug, PartialEq, Eq, Structural)]
pub struct OutputGuard {
    /// Whether the deadline runs.
    pub armed: bool,
    /// Whether it ever passed.
    pub timed_out: bool,
}

impl OutputGuard {
    pub fn new() -> (guard: OutputGuard)
        ensures
            !guard.armed,
            !guard.timed_out,
    {
        OutputGuard { armed: false, timed_out: false }
    }

    /// Before the writer is turned to, the deadline is set if it does not run; `passed` is
    /// whether it is over.
    pub fn poll_deadline(&mut self, passed: bool) -> (checked: Result<(), GuardedSinkError>)
        ensures
            checked == if passed {
                Err::<(), GuardedSinkError>(GuardedSinkError::Timeout)
            } else {
                Ok(())
            },
            *final(self) == (OutputGuard {
                armed: true,
                timed_out: old(self).timed_out || passed,
            }),
    {
        self.armed = true;
        if passed {
            self.timed_out = true;
            return Err(GuardedSinkError::Timeout);
        }
        Ok(())
    }

    fn clear_deadline(&mut self)
        ensures
            *final(self) == (OutputGuard { armed: false, ..*old(self) }),
    {
        self.armed = false;
    }

    /// The writer was asked for room. The deadline runs on: the frame is still to be sent.
    pub fn poll_ready(&mut self, inner: Progress) -> (ready: Option<Result<(), GuardedSinkError>>)
        ensures
            ready == (match inner {
                Progress::Pending => None::<Result<(), GuardedSinkError>>,
                Progress::Done => Some(Ok(())),
                Progress::Failed => Some(Err(GuardedSinkError::WriteFailed)),
            }),
            *final(self) == (OutputGuard {
                armed: old(self).armed && !(inner is Failed),
                ..*old(self)
            }),
    {
        match inner {
            Progress::Done => Some(Ok(())),
            Progress::Failed => {
                self.clear_deadline();
                Some(Err(GuardedSinkError::WriteFailed))
            },
            Progress::Pending => None,
        }
    }

    /// Whether a frame of that many bytes may be given to the writer; one that has no
    /// encoding has no size.
    pub fn start_send(&mut self, size: Option<usize>) -> (checked: Result<(), GuardedSinkError>)
        ensures
            checked == (match size {
                Some(size) => if size <= MCP_MAX_FRAME_BYTES {
                    Ok::<(), GuardedSinkError>(())
                } else {
                    Err(GuardedSinkError::OutputTooLarge)
                },
                None => Err(GuardedSinkError::OutputTooLarge),
            }),
            *final(self) == (OutputGuard {
                armed: old(self).armed && !(size matches Some(size) && size > MCP_MAX_FRAME_BYTES),
                ..*old(self)
            }),
    {
        match size {
            None => Err(GuardedSinkError::OutputTooLarge),
            Some(size) => {
                if size > MCP_MAX_FRAME_BYTES {
                    self.clear_deadline();
                    return Err(GuardedSinkError::OutputTooLarge);
                }
                Ok(())
            },
        }
    }

    /// The writer was flushed or closed. Once it is through, no deadline runs.
    pub fn poll_flush(&mut self, inner: Progress) -> (flushed: Option<Result<(), GuardedSinkError>>)
        ensures
            flushed == (match inner {
                Progress::Pending => None::<Result<(), GuardedSinkError>>,
                Progress::Done => Some(Ok(())),
                Progress::Failed => Some(Err(GuardedSinkError::WriteFailed)),
            }),
            *final(self) == (OutputGuard {
                armed: old(self).armed && inner is Pending,
                ..*old(self)
            }),
    {
        match inner {
            Progress::Done => {
                self.clear_deadline();
                Some(Ok(()))
            },
            Progress::Failed => {
                self.clear_deadline();
                Some(Err(GuardedSinkError::WriteFailed))
            },
            Progress::Pending => None,
        }
    }
}

/// What has become of the two ends of the transport.
#[derive(Clone, Copy, Debug, PartialEq, Eq, Structural)]
pub struct TransportHealth {
    pub input_failed: bool,
    pub output_timed_out: bool,
}

impl TransportHealth {
    pub fn new() -> (health: TransportHealth)
        ensures
            !health.input_failed,
            !health.output_timed_out,
    {
        TransportHealth { input_failed: false, output_timed_out: false }
    }

    pub fn input_failed(&self) -> (failed: bool)
        ensures
            failed == self.input_failed,
    {
        self.input_failed
    }

    pub fn output_timed_out(&self) -> (timed_out: bool)
        ensures
            timed_out == self.output_timed_out,
    {
        self.output_timed_out
    }

    /// A frame arrived, or something that is none: after that, nothing more is read.
    pub fn read_frame(&mut self, frame: bool) -> (goes_on: bool)
        ensures
            goes_on == frame,
            *final(self) == (TransportHealth {
                input_failed: old(self).input_failed || !frame,
                ..*old(self)
            }),
    {
        if !frame {
            self.input_failed = true;
        }
        frame
    }
}

/// Why serving ended.
#[derive(Clone, Copy, Debug, PartialEq, Eq, Structural)]
pub enum McpRuntimeError {
    InvalidInput,
    OutputTimeout,
    Initialization,
    Service,
    BackendClose,
}

/// The text of such an end.
pub open spec fn runtime_error_text(error: McpRuntimeError) -> Seq<char> {
    match error {
        McpRuntimeError::InvalidInput => "mcp_invalid_frame"@,
        McpRuntimeError::OutputTimeout => "mcp_output_timeout"@,
        McpRuntimeError::Initialization => "mcp_initialization_failed"@,
        McpRuntimeError::Service => "mcp_service_failed"@,
        McpRuntimeError::BackendClose => "mcp_backend_close_failed"@,
    }
}

impl McpRuntimeError {
    pub fn as_str(self) -> (text: &'static str)
        ensures
            text@ == runtime_error_text(self),
    {
        match self {
            McpRuntimeError::InvalidInput => "mcp_invalid_frame",
            McpRuntimeError::OutputTimeout => "mcp_output_timeout",
            McpRuntimeError::Initialization => "mcp_initialization_failed",
            McpRuntimeError::Service => "mcp_service_failed",
            McpRuntimeError::BackendClose => "mcp_backend_close_failed",
        }
    }
}

/// How the service itself ended.
#[derive(Clone, Copy, Debug, PartialEq, Eq, Structural)]
pub enum ServiceEnd {
    Finished,
    NotInitialized,
    Failed,
}

/// How serving ended: what was wrong with the frames comes before what the service says of
/// it, and that before whether the backend could be closed.
pub fn serve_outcome(health: TransportHealth, service: ServiceEnd, backend_closed: bool) -> (outcome:
    Result<(), McpRuntimeError>)
    ensures
        outcome == if health.input_failed {
            Err::<(), McpRuntimeError>(McpRuntimeError::InvalidInput)
        } else if health.output_timed_out {
            Err(McpRuntimeError::OutputTimeout)
        } else {
            match service {
                ServiceEnd::NotInitialized => Err(McpRuntimeError::Initialization),
                ServiceEnd::Failed => Err(McpRuntimeError::Service),
                ServiceEnd::Finished => if backend_closed {
                    Ok(())
                } else {
                    Err(McpRuntimeError::BackendClose)
                },
            }
        },
{
    if health.input_failed() {
        return Err(McpRuntimeError::InvalidInput);
    }
    if health.output_timed_out() {
        return Err(McpRuntimeError::OutputTimeout);
    }
    match service {
        ServiceEnd::NotInitialized => Err(McpRuntimeError::Initialization),
        ServiceEnd::Failed => Err(McpRuntimeError::Service),
        ServiceEnd::Finished => if backend_closed {
            Ok(())
        } else {
            Err(McpRuntimeError::BackendClose)
        },
    }
}

} // verus!
