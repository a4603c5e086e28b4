//! The failures that the bridge reports to its callers.

use vstd::prelude::*;

verus! {

/// Why an operation of the bridge failed. Where the failure came from the
/// transport, the parser or the operating system, the variant carries the
/// text of that failure.
#[derive(Debug, Clone, PartialEq, Eq)]
pub enum BridgeError {
    /// The serial transport could not be opened or configured.
    Serial(String),
    /// A structured message could not be parsed.
    Json(String),
    /// Reading or writing failed in the middle of a session, or the stream ended.
    Io(String),
    /// A command was issued while no session was active.
    NotConnected,
    /// The device answered with something that is no valid response.
    InvalidResponse(String),
    /// No answer arrived within the command timeout.
    Timeout,
    /// The device reported an error, or the session ended under the command.
    Device(String),
}

/// The mathematical value of a [`BridgeError`].
pub ghost enum BridgeErrorView {
    Serial(Seq<char>),
    Json(Seq<char>),
    Io(Seq<char>),
    NotConnected,
    InvalidResponse(Seq<char>),
    Timeout,
    Device(Seq<char>),
}

impl BridgeErrorView {
    /// The sentence shown to a user for this failure.
    pub open spec fn message(self) -> Seq<char> {
        match self {
            BridgeErrorView::Serial(detail) => "Serial communication error: "@ + detail,
            BridgeErrorView::Json(detail) => "JSON parsing error: "@ + detail,
            BridgeErrorView::Io(detail) => "IO error: "@ + detail,
            BridgeErrorView::NotConnected => "Device not connected"@,
            BridgeErrorView::InvalidResponse(detail) => "Invalid response from device: "@ + detail,
            BridgeErrorView::Timeout => "Timeout waiting for device response"@,
            BridgeErrorView::Device(detail) => "Device error: "@ + detail,
        }
    }
}

impl View for BridgeError {
    type V = BridgeErrorView;

    open spec fn view(&self) -> BridgeErrorView {
        match self {
            BridgeError::Serial(detail) => BridgeErrorView::Serial(detail@),
            BridgeError::Json(detail) => BridgeErrorView::Json(detail@),
            BridgeError::Io(detail) => BridgeErrorView::Io(detail@),
            BridgeError::NotConnected => BridgeErrorView::NotConnected,
            BridgeError::InvalidResponse(detail) => BridgeErrorView::InvalidResponse(detail@),
            BridgeError::Timeout => BridgeErrorView::Timeout,
            BridgeError::Device(detail) => BridgeErrorView::Device(detail@),
        }
    }
}

impl BridgeError {
    /// The sentence shown to a user for this failure.
    pub fn message(&self) -> (r: String)
        ensures
            r@ == self@.message(),
    {
        match self {
            BridgeError::Serial(detail) => String::from_str("Serial communication error: ").concat(
                detail.as_str(),
            ),
            BridgeError::Json(detail) => String::from_str("JSON parsing error: ").concat(
                detail.as_str(),
            ),
            BridgeError::Io(detail) => String::from_str("IO error: ").concat(detail.as_str()),
            BridgeError::NotConnected => String::from_str("Device not connected"),
            BridgeError::InvalidResponse(detail) => String::from_str(
                "Invalid response from device: ",
            ).concat(detail.as_str()),
            BridgeError::Timeout => String::from_str("Timeout waiting for device response"),
            BridgeError::Device(detail) => String::from_str("Device error: ").concat(
                detail.as_str(),
            ),
        }
    }

    /// A copy of this failure.
    pub fn duplicate(&self) -> (r: BridgeError)
        ensures
            r@ == self@,
    {
        match self {
            BridgeError::Serial(detail) => BridgeError::Serial(detail.clone()),
            BridgeError::Json(detail) => BridgeError::Json(detail.clone()),
            BridgeError::Io(detail) => BridgeError::Io(detail.clone()),
            BridgeError::NotConnected => BridgeError::NotConnected,
            BridgeError::InvalidResponse(detail) => BridgeError::InvalidResponse(detail.clone()),
            BridgeError::Timeout => BridgeError::Timeout,
            BridgeError::Device(detail) => BridgeError::Device(detail.clone()),
        }
    }
}

} // verus!
