//! Errors of a connection, and how long to wait on one.
use vstd::prelude::*;

verus! {

/// The kinds of error that are told apart.
#[derive(Debug, PartialEq, Eq, Clone, Copy, Structural)]
pub enum ErrorKind {
    InvalidInput,
    InvalidData,
    PermissionDenied,
    WouldBlock,
    TimedOut,
    Other,
}

/// An error of a connection, or one that it reports.
#[derive(Debug, PartialEq)]
pub struct WireError {
    pub kind: ErrorKind,
    pub message: String,
}

/// What a [`WireError`] says.
pub struct Fault {
    pub kind: ErrorKind,
    pub message: Seq<char>,
}

impl View for WireError {
    type V = Fault;

    open spec fn view(&self) -> Fault {
        Fault { kind: self.kind, message: self.message@ }
    }
}

impl WireError {
    /// An error of that kind.
    pub fn new(kind: ErrorKind, message: &str) -> (r: WireError)
        ensures
            r@ == (Fault { kind, message: message@ }),
    {
        WireError { kind, message: message.to_owned() }
    }
}

/// Something that is waited for no longer than its limit.
#[derive(Debug, PartialEq, Eq, Clone, Copy, Structural)]
pub enum Wait {
    /// A connection to the shared gateway.
    SharedConnect,
    /// The answer of the shared gateway to the greeting.
    SharedAdmission,
    /// A frame, while a reply of the shared gateway is awaited.
    SharedReply,
    /// A whole call to the host gateway.
    GatewayCall,
}

impl Wait {
    /// The limit, in milliseconds.
    pub open spec fn limit(self) -> u64 {
        match self {
            Wait::SharedConnect | Wait::SharedAdmission => 5000,
            Wait::SharedReply | Wait::GatewayCall => 10000,
        }
    }

    /// What is said when the limit is over.
    pub open spec fn complaint(self) -> Seq<char> {
        match self {
            Wait::SharedConnect => "shared connect timed out"@,
            Wait::SharedAdmission => "shared admission timed out"@,
            Wait::SharedReply => "shared reply timed out"@,
            Wait::GatewayCall => "gateway request timed out"@,
        }
    }

    /// The limit, in milliseconds.
    pub fn limit_ms(self) -> (r: u64)
        ensures
            r == self.limit(),
    {
        match self {
            Wait::SharedConnect => 5000,
            Wait::SharedAdmission => 5000,
            Wait::SharedReply => 10000,
            Wait::GatewayCall => 10000,
        }
    }

    /// The error of a wait whose limit is over.
    pub fn timed_out(self) -> (r: WireError)
        ensures
            r@ == (Fault { kind: ErrorKind::TimedOut, message: self.complaint() }),
    {
        let message = match self {
            Wait::SharedConnect => "shared connect timed out",
            Wait::SharedAdmission => "shared admission timed out",
            Wait::SharedReply => "shared reply timed out",
            Wait::GatewayCall => "gateway request timed out",
        };
        WireError::new(ErrorKind::TimedOut, message)
    }
}

/// Nothing is waited for without a limit: a connection to the shared gateway and its
/// admission for five seconds, and a reply or a whole call for ten. What was waited for in
/// vain is told.
pub proof fn waits_have_their_limits(wait: Wait)
    ensures
        wait is SharedConnect || wait is SharedAdmission <==> wait.limit() == 5000,
        wait is SharedReply || wait is GatewayCall <==> wait.limit() == 10000,
        wait is SharedConnect ==> wait.complaint() == "shared connect timed out"@,
        wait is SharedAdmission ==> wait.complaint() == "shared admission timed out"@,
        wait is SharedReply ==> wait.complaint() == "shared reply timed out"@,
        wait is GatewayCall ==> wait.complaint() == "gateway request timed out"@,
{
}

/// An error is seen as its kind and its message.
pub proof fn wire_errors_are_seen_as_they_are(error: WireError)
    ensures
        error@.kind == error.kind,
        error@.message == error.message@,
{
}

} // verus!
