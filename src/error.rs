//! Failures of a remote stage call, and how one HTTP reply is judged.

use vstd::prelude::*;

verus! {

/// Why a stage or a run could not go on.
#[derive(Debug)]
pub enum PipelineError {
    /// The request never got an answer (connection, DNS or TLS failure).
    Transport(String),
    /// The service answered with a status that the call does not accept.
    Remote { status: u16, body: String },
    /// The answer did not have the shape that the call expects.
    Schema(String),
    /// An operation was polled the allowed number of times without finishing.
    PollTimeout { attempts: u64 },
    /// A setting that the run needs is missing; names the setting.
    Config(String),
}

/// The remote calls that the pipeline makes.
#[derive(Clone, Copy, PartialEq, Eq, Structural, Debug)]
pub enum RemoteCall {
    DigitizeStart,
    Classification,
    Extraction,
    ValidationStart,
    ValidationResult,
}

/// The HTTP statuses on which a call succeeded.
pub open spec fn accepts_status(call: RemoteCall, status: u16) -> bool {
    match call {
        RemoteCall::DigitizeStart => status == 202,
        RemoteCall::Classification => status == 200,
        RemoteCall::Extraction => status == 200,
        RemoteCall::ValidationStart => 200 <= status <= 299,
        RemoteCall::ValidationResult => status == 200,
    }
}

impl RemoteCall {
    pub fn accepts(&self, status: u16) -> (r: bool)
        ensures
            r == accepts_status(*self, status),
    {
        match self {
            RemoteCall::DigitizeStart => status == 202,
            RemoteCall::Classification => status == 200,
            RemoteCall::Extraction => status == 200,
            RemoteCall::ValidationStart => 200 <= status && status <= 299,
            RemoteCall::ValidationResult => status == 200,
        }
    }
}

/// An answer from the service: its status, its body as text, and the body
/// read as the record that the call expects, or why it could not be read.
#[derive(Debug)]
pub struct HttpReply<T> {
    pub status: u16,
    pub body: String,
    pub parsed: Result<T, String>,
}

/// Judges the outcome of one call: a transport failure, a refused status and
/// an unreadable body each become their error, in that order of precedence;
/// otherwise the parsed record is the result.
pub fn interpret_reply<T>(call: RemoteCall, reply: Result<HttpReply<T>, String>) -> (r: Result<
    T,
    PipelineError,
>)
    ensures
        match reply {
            Err(m) => r == Err::<T, PipelineError>(PipelineError::Transport(m)),
            Ok(h) => if !accepts_status(call, h.status) {
                r == Err::<T, PipelineError>(PipelineError::Remote { status: h.status, body: h.body })
            } else {
                match h.parsed {
                    Err(m) => r == Err::<T, PipelineError>(PipelineError::Schema(m)),
                    Ok(v) => r == Ok::<T, PipelineError>(v),
                }
            },
        },
{
    match reply {
        Err(m) => Err(PipelineError::Transport(m)),
        Ok(h) => {
            if !call.accepts(h.status) {
                Err(PipelineError::Remote { status: h.status, body: h.body })
            } else {
                match h.parsed {
                    Err(m) => Err(PipelineError::Schema(m)),
                    Ok(v) => Ok(v),
                }
            }
        },
    }
}

} // verus!
