//! Failures of the collector client, and what each means to the agent.

use vstd::prelude::*;

verus! {

/// Why a call to the collector did not succeed.
#[derive(Clone, Copy, Debug, PartialEq, Eq, Structural)]
pub enum ClientFailure {
    /// No connection to the collector could be made or kept.
    Connect,
    /// The collector did not answer in time.
    Timeout,
    /// The collector answered with this HTTP status.
    Status(u16),
    /// The request could not be formed.
    Malformed,
}

/// What a client tells of a call that failed.
#[derive(Clone, Copy, Debug, PartialEq, Eq, Structural)]
pub struct FailureSigns {
    /// The call ran out of time.
    pub timed_out: bool,
    /// The status with which the collector answered, if it answered.
    pub status: Option<u16>,
    /// The request could not be formed.
    pub malformed: bool,
}

/// The failure that the signs tell of. A call that ran out of time timed
/// out, whatever else is told of it. Otherwise an answer of the collector
/// counts before a fault in the request. A call of which nothing is told did
/// not reach the collector.
pub open spec fn failure_of(signs: FailureSigns) -> ClientFailure {
    if signs.timed_out {
        ClientFailure::Timeout
    } else if signs.status is Some {
        ClientFailure::Status(signs.status->0)
    } else if signs.malformed {
        ClientFailure::Malformed
    } else {
        ClientFailure::Connect
    }
}

/// Why a report was not accepted.
#[derive(Clone, Copy, Debug, PartialEq, Eq, Structural)]
pub enum ReportError {
    /// The collector could not be reached or was not ready. The next report
    /// may succeed.
    Transient,
    /// The collector refused the report. No later report will succeed.
    Fatal,
}

/// Whether a failure is expected to pass by itself: a failure to connect, a
/// timeout, or a status that reports trouble on the collector's side.
pub open spec fn is_transient(failure: ClientFailure) -> bool {
    match failure {
        ClientFailure::Connect => true,
        ClientFailure::Timeout => true,
        ClientFailure::Status(code) => 500 <= code <= 599,
        ClientFailure::Malformed => false,
    }
}

/// The report error that stands for a failure.
pub open spec fn classified(failure: ClientFailure) -> ReportError {
    if is_transient(failure) {
        ReportError::Transient
    } else {
        ReportError::Fatal
    }
}

/// What a reply of the collector to a heartbeat means to the agent.
pub open spec fn report_outcome(reply: Result<(), ClientFailure>) -> Result<(), ReportError> {
    match reply {
        Ok(_) => Ok(()),
        Err(failure) => Err(classified(failure)),
    }
}

/// The failure that the signs tell of.
pub fn read_failure(signs: FailureSigns) -> (failure: ClientFailure)
    ensures
        failure == failure_of(signs),
{
    if signs.timed_out {
        ClientFailure::Timeout
    } else {
        match signs.status {
            Some(code) => ClientFailure::Status(code),
            None => if signs.malformed {
                ClientFailure::Malformed
            } else {
                ClientFailure::Connect
            },
        }
    }
}

/// The report error that stands for a failure.
pub fn classify(failure: ClientFailure) -> (error: ReportError)
    ensures
        error == classified(failure),
{
    match failure {
        ClientFailure::Connect => ReportError::Transient,
        ClientFailure::Timeout => ReportError::Transient,
        ClientFailure::Status(code) => {
            if 500 <= code && code <= 599 {
                ReportError::Transient
            } else {
                ReportError::Fatal
            }
        },
        ClientFailure::Malformed => ReportError::Fatal,
    }
}

/// What a reply of the collector to a heartbeat means to the agent.
pub fn report_result(reply: Result<(), ClientFailure>) -> (outcome: Result<(), ReportError>)
    ensures
        outcome == report_outcome(reply),
{
    match reply {
        Ok(_) => Ok(()),
        Err(failure) => Err(classify(failure)),
    }
}

} // verus!
