use vstd::prelude::*;

verus! {

/// Failure of the HTTP transfer, with the transport's own message.
#[derive(Debug, Clone, PartialEq, Eq)]
pub enum HttpError {
    Protocol(String),
}

/// Everything that can go wrong while the client runs, each with a message that says
/// why.
#[derive(Debug, Clone, PartialEq, Eq)]
pub enum EzcurlError {
    InvalidUrl(String),
    InvalidHeader(String),
    Network(HttpError),
    History(String),
    Terminal(String),
}

impl HttpError {
    /// The transport's message.
    pub fn message(&self) -> (r: String)
        ensures
            r@ == (match self {
                HttpError::Protocol(m) => m@,
            }),
    {
        match self {
            HttpError::Protocol(m) => m.clone(),
        }
    }
}

impl EzcurlError {
    /// The message shown to the user: the underlying message, and for a refused header
    /// line that message after "invalid header line: ".
    pub fn message(&self) -> (r: String)
        ensures
            r@ == (match self {
                EzcurlError::InvalidHeader(m) => "invalid header line: "@ + m@,
                EzcurlError::InvalidUrl(m) => m@,
                EzcurlError::Network(HttpError::Protocol(m)) => m@,
                EzcurlError::History(m) => m@,
                EzcurlError::Terminal(m) => m@,
            }),
    {
        match self {
            EzcurlError::InvalidHeader(m) => String::from_str("invalid header line: ").concat(
                m.as_str(),
            ),
            EzcurlError::InvalidUrl(m) => m.clone(),
            EzcurlError::Network(e) => e.message(),
            EzcurlError::History(m) => m.clone(),
            EzcurlError::Terminal(m) => m.clone(),
        }
    }
}

} // verus!
