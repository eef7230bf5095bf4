//! Structured failures of the client and server operations.
use vstd::prelude::*;

verus! {

/// The step of an operation at which a failure arose.
#[derive(Clone, Copy, Debug, PartialEq, Eq, Structural)]
pub enum Step {
    InvalidPort,
    UnsupportedInput,
    Resolve,
    NoAddress,
    UdpBind,
    UdpReadTimeout,
    UdpSend,
    UdpReceive,
    TcpConnect,
    TcpReadTimeout,
    TcpWrite,
    ListenBind,
    ListenNonBlocking,
    HandlerReadTimeout,
    HandlerRead,
    ClosureOutput,
    HandlerWrite,
}

/// The coarse classification of a failure.
#[derive(Clone, Copy, Debug, PartialEq, Eq, Structural)]
pub enum ErrorKind {
    InvalidArgument,
    Resolution,
    NoAddress,
    Bind,
    Connect,
    Configure,
    Write,
    Send,
    Read,
    Receive,
    Protocol,
}

/// Which input of the invocation a failure concerns.
#[derive(Clone, Copy, Debug, PartialEq, Eq, Structural)]
pub enum Subject {
    Host,
    Port,
    Input,
    Call,
}

/// The coarse classification of a failure at a step.
pub open spec fn kind_of(step: Step) -> ErrorKind {
    match step {
        Step::InvalidPort | Step::UnsupportedInput => ErrorKind::InvalidArgument,
        Step::Resolve => ErrorKind::Resolution,
        Step::NoAddress => ErrorKind::NoAddress,
        Step::UdpBind | Step::ListenBind => ErrorKind::Bind,
        Step::TcpConnect => ErrorKind::Connect,
        Step::UdpReadTimeout | Step::TcpReadTimeout | Step::ListenNonBlocking
        | Step::HandlerReadTimeout => ErrorKind::Configure,
        Step::TcpWrite | Step::HandlerWrite => ErrorKind::Write,
        Step::UdpSend => ErrorKind::Send,
        Step::HandlerRead => ErrorKind::Read,
        Step::UdpReceive => ErrorKind::Receive,
        Step::ClosureOutput => ErrorKind::Protocol,
    }
}

/// Which input a failure at a step concerns.
pub open spec fn subject_of(step: Step) -> Subject {
    match step {
        Step::InvalidPort => Subject::Port,
        Step::Resolve | Step::NoAddress => Subject::Host,
        Step::UnsupportedInput => Subject::Input,
        _ => Subject::Call,
    }
}

/// The short title of a failure at a step.
pub open spec fn title_of(step: Step) -> &'static str {
    match step {
        Step::InvalidPort => "Invalid port number",
        Step::UnsupportedInput => "Unsupported input type",
        Step::Resolve => "Failed to resolve host",
        Step::NoAddress => "No IP addresses found for host",
        Step::UdpBind => "Failed to bind UDP socket",
        Step::UdpReadTimeout => "Failed to set UDP read timeout",
        Step::UdpSend => "Failed to send UDP packet",
        Step::UdpReceive => "Failed to receive UDP packet (timed out?)",
        Step::TcpConnect => "Connection timed out or failed",
        Step::TcpReadTimeout => "Failed to set read timeout",
        Step::TcpWrite => "Failed to write to socket",
        Step::ListenBind => "Failed to bind to address",
        Step::ListenNonBlocking => "Failed to set listener to non-blocking",
        Step::HandlerReadTimeout => "Failed to set read timeout",
        Step::HandlerRead => "Failed to read from socket",
        Step::ClosureOutput => "Unsupported closure output",
        Step::HandlerWrite => "Failed to write to socket",
    }
}

/// A failure: the step it arose at and a human-readable cause.
#[derive(Debug)]
pub struct SocketError {
    pub step: Step,
    pub cause: String,
}

impl SocketError {
    /// A failure at `step` with a human-readable cause.
    pub fn new(step: Step, cause: String) -> (r: SocketError)
        ensures
            r.step == step,
            r.cause@ == cause@,
    {
        SocketError { step, cause }
    }

    /// The short title of this failure.
    pub fn title(&self) -> (r: &'static str)
        ensures
            r@ == title_of(self.step)@,
    {
        match self.step {
            Step::InvalidPort => "Invalid port number",
            Step::UnsupportedInput => "Unsupported input type",
            Step::Resolve => "Failed to resolve host",
            Step::NoAddress => "No IP addresses found for host",
            Step::UdpBind => "Failed to bind UDP socket",
            Step::UdpReadTimeout => "Failed to set UDP read timeout",
            Step::UdpSend => "Failed to send UDP packet",
            Step::UdpReceive => "Failed to receive UDP packet (timed out?)",
            Step::TcpConnect => "Connection timed out or failed",
            Step::TcpReadTimeout => "Failed to set read timeout",
            Step::TcpWrite => "Failed to write to socket",
            Step::ListenBind => "Failed to bind to address",
            Step::ListenNonBlocking => "Failed to set listener to non-blocking",
            Step::HandlerReadTimeout => "Failed to set read timeout",
            Step::HandlerRead => "Failed to read from socket",
            Step::ClosureOutput => "Unsupported closure output",
            Step::HandlerWrite => "Failed to write to socket",
        }
    }

    /// The coarse classification of this failure.
    pub fn kind(&self) -> (r: ErrorKind)
        ensures
            r == kind_of(self.step),
    {
        match self.step {
            Step::InvalidPort | Step::UnsupportedInput => ErrorKind::InvalidArgument,
            Step::Resolve => ErrorKind::Resolution,
            Step::NoAddress => ErrorKind::NoAddress,
            Step::UdpBind | Step::ListenBind => ErrorKind::Bind,
            Step::TcpConnect => ErrorKind::Connect,
            Step::UdpReadTimeout | Step::TcpReadTimeout | Step::ListenNonBlocking
            | Step::HandlerReadTimeout => ErrorKind::Configure,
            Step::TcpWrite | Step::HandlerWrite => ErrorKind::Write,
            Step::UdpSend => ErrorKind::Send,
            Step::HandlerRead => ErrorKind::Read,
            Step::UdpReceive => ErrorKind::Receive,
            Step::ClosureOutput => ErrorKind::Protocol,
        }
    }

    /// Which input of the invocation this failure concerns.
    pub fn subject(&self) -> (r: Subject)
        ensures
            r == subject_of(self.step),
    {
        match self.step {
            Step::InvalidPort => Subject::Port,
            Step::Resolve | Step::NoAddress => Subject::Host,
            Step::UnsupportedInput => Subject::Input,
            _ => Subject::Call,
        }
    }
}

} // verus!
