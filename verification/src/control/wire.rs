//! Frame headers and error bodies: how the daemon answers on channel 0.
use crate::text::{decimal, decimal_text};
use vstd::prelude::*;

verus! {

/// The envelope version that this daemon speaks.
pub const PROTOCOL_VERSION: u8 = 2;

/// The lowest envelope version that this daemon negotiates. Negotiation is
/// exact, so it is also the highest.
pub const MIN_SUPPORTED_VERSION: u8 = PROTOCOL_VERSION;

/// What a frame is.
#[derive(Clone, Copy, Debug, PartialEq, Eq, Structural)]
pub enum FrameType {
    Hello,
    HelloAck,
    Ping,
    Pong,
    Goodbye,
    Request,
    Response,
    Error,
    Push,
    Cancel,
}

/// A frame type's name as it stands in a message.
pub open spec fn frame_type_name(ty: FrameType) -> Seq<char> {
    match ty {
        FrameType::Hello => "Hello"@,
        FrameType::HelloAck => "HelloAck"@,
        FrameType::Ping => "Ping"@,
        FrameType::Pong => "Pong"@,
        FrameType::Goodbye => "Goodbye"@,
        FrameType::Request => "Request"@,
        FrameType::Response => "Response"@,
        FrameType::Error => "Error"@,
        FrameType::Push => "Push"@,
        FrameType::Cancel => "Cancel"@,
    }
}

impl FrameType {
    /// The type's name as it stands in a message.
    pub fn name(&self) -> (r: &'static str)
        ensures
            r@ == frame_type_name(*self),
    {
        match self {
            FrameType::Hello => "Hello",
            FrameType::HelloAck => "HelloAck",
            FrameType::Ping => "Ping",
            FrameType::Pong => "Pong",
            FrameType::Goodbye => "Goodbye",
            FrameType::Request => "Request",
            FrameType::Response => "Response",
            FrameType::Error => "Error",
            FrameType::Push => "Push",
            FrameType::Cancel => "Cancel",
        }
    }
}

/// The flag byte of a frame.
#[derive(Clone, Copy, Debug, PartialEq, Eq, Structural)]
pub enum FrameFlags {
    /// Passive priority and no mark set: what the daemon's own control frames
    /// carry.
    Control,
    /// As they came with a peer's frame.
    Carried(u8),
}

/// A frame without its body.
#[derive(Clone, Copy, Debug, PartialEq, Eq, Structural)]
pub struct FrameHeader {
    pub ver: u8,
    pub ty: FrameType,
    pub flags: FrameFlags,
    pub channel: u16,
    pub epoch: u32,
    pub corr: u64,
}

/// The version that an answer to a frame of version `ver` carries: the peer's
/// own where the daemon speaks it.
pub open spec fn answer_version(ver: u8) -> u8 {
    if MIN_SUPPORTED_VERSION <= ver <= PROTOCOL_VERSION {
        ver
    } else {
        PROTOCOL_VERSION
    }
}

/// The version that an answer carries. It is always one that the daemon speaks.
pub fn response_version(ver: u8) -> (r: u8)
    ensures
        r == answer_version(ver),
        MIN_SUPPORTED_VERSION <= r <= PROTOCOL_VERSION,
{
    if MIN_SUPPORTED_VERSION <= ver && ver <= PROTOCOL_VERSION {
        ver
    } else {
        PROTOCOL_VERSION
    }
}

/// The flags of the daemon's own control frames.
pub fn control_flags() -> (r: FrameFlags)
    ensures
        r == FrameFlags::Control,
{
    FrameFlags::Control
}

/// The header of a control answer: on channel 0, to the request's correlation id.
pub open spec fn answer_header(request: FrameHeader, ty: FrameType) -> FrameHeader {
    FrameHeader {
        ver: answer_version(request.ver),
        ty,
        flags: FrameFlags::Control,
        channel: 0,
        epoch: 0,
        corr: request.corr,
    }
}

/// The header of a control answer.
pub fn control_answer_header(request: &FrameHeader, ty: FrameType) -> (r: FrameHeader)
    ensures
        r == answer_header(*request, ty),
{
    FrameHeader {
        ver: response_version(request.ver),
        ty,
        flags: control_flags(),
        channel: 0,
        epoch: 0,
        corr: request.corr,
    }
}

/// The header of the answer to a ping, which carries the ping's own flags.
pub fn pong(ping: &FrameHeader) -> (r: FrameHeader)
    ensures
        r == (FrameHeader { flags: ping.flags, ..answer_header(*ping, FrameType::Pong) }),
{
    FrameHeader {
        ver: response_version(ping.ver),
        ty: FrameType::Pong,
        flags: ping.flags,
        channel: 0,
        epoch: 0,
        corr: ping.corr,
    }
}

/// The header of a request to a module on channel 0.
pub fn module_request_header(negotiated_ver: u8, corr: u64) -> (r: FrameHeader)
    ensures
        r == (FrameHeader {
            ver: negotiated_ver,
            ty: FrameType::Request,
            flags: FrameFlags::Control,
            channel: 0,
            epoch: 0,
            corr,
        }),
{
    FrameHeader {
        ver: negotiated_ver,
        ty: FrameType::Request,
        flags: control_flags(),
        channel: 0,
        epoch: 0,
        corr,
    }
}

/// The header of a GOODBYE for a route channel.
pub open spec fn goodbye(negotiated_ver: u8, channel: u16, epoch: u32) -> FrameHeader {
    FrameHeader {
        ver: negotiated_ver,
        ty: FrameType::Goodbye,
        flags: FrameFlags::Control,
        channel,
        epoch,
        corr: 0,
    }
}

/// The header of a GOODBYE for a route channel.
pub fn goodbye_header(negotiated_ver: u8, channel: u16, epoch: u32) -> (r: FrameHeader)
    ensures
        r == goodbye(negotiated_ver, channel, epoch),
{
    FrameHeader {
        ver: negotiated_ver,
        ty: FrameType::Goodbye,
        flags: control_flags(),
        channel,
        epoch,
        corr: 0,
    }
}

/// What an error says beyond its message.
#[derive(Debug)]
pub enum ErrorDetail {
    /// An object of one field.
    Field { name: String, value: String },
    /// An object of one field whose value is a JSON text.
    Nested { name: String, json: String },
    /// A JSON text that a module sent, carried on as it came.
    Json(String),
}

/// An [`ErrorDetail`] over characters.
#[verifier::ext_equal]
pub enum DetailView {
    Field { name: Seq<char>, value: Seq<char> },
    Nested { name: Seq<char>, json: Seq<char> },
    Json(Seq<char>),
}

impl View for ErrorDetail {
    type V = DetailView;

    open spec fn view(&self) -> DetailView {
        match *self {
            ErrorDetail::Field { name, value } => DetailView::Field { name: name@, value: value@ },
            ErrorDetail::Nested { name, json } => DetailView::Nested { name: name@, json: json@ },
            ErrorDetail::Json(text) => DetailView::Json(text@),
        }
    }
}

/// The body of an ERROR frame. Clients branch on the code.
#[derive(Debug)]
pub struct ErrorBody {
    pub code: String,
    pub message: String,
    pub detail: Option<ErrorDetail>,
}

/// An [`ErrorBody`] over characters.
#[verifier::ext_equal]
pub struct ErrorView {
    pub code: Seq<char>,
    pub message: Seq<char>,
    pub detail: Option<DetailView>,
}

impl View for ErrorBody {
    type V = ErrorView;

    open spec fn view(&self) -> ErrorView {
        ErrorView {
            code: self.code@,
            message: self.message@,
            detail: match self.detail {
                Some(d) => Some(d@),
                None => None,
            },
        }
    }
}

/// An error of a code and a message.
pub open spec fn error_of(code: Seq<char>, message: Seq<char>) -> ErrorView {
    ErrorView { code, message, detail: None }
}

/// An error of a code and a message.
pub fn control_error(code: &str, message: String) -> (r: ErrorBody)
    ensures
        r@ == error_of(code@, message@),
{
    ErrorBody { code: code.to_owned(), message, detail: None }
}

/// An error that says more than its message by one field.
pub fn control_error_with_field(code: &str, message: String, name: &str, value: &str) -> (r:
    ErrorBody)
    ensures
        r@ == (ErrorView {
            code: code@,
            message: message@,
            detail: Some(DetailView::Field { name: name@, value: value@ }),
        }),
{
    ErrorBody {
        code: code.to_owned(),
        message,
        detail: Some(ErrorDetail::Field { name: name.to_owned(), value: value.to_owned() }),
    }
}

/// `prefix`, the module id and `suffix`.
pub fn about(prefix: &str, module_id: &str, suffix: &str) -> (r: String)
    ensures
        r@ == prefix@ + module_id@ + suffix@,
{
    String::from_str(prefix).concat(module_id).concat(suffix)
}

/// Accepts exactly the daemon's own version.
pub fn negotiate_version(peer_version: u8) -> (r: Result<u8, String>)
    ensures
        peer_version == PROTOCOL_VERSION ==> r == Ok::<u8, String>(PROTOCOL_VERSION),
        peer_version != PROTOCOL_VERSION ==> (r matches Err(message) && message@
            == version_refusal(peer_version)),
{
    if peer_version != PROTOCOL_VERSION {
        return Err(
            String::from_str("protocol_ver ").concat(
                decimal_text(peer_version as u64).as_str(),
            ).concat(" is unsupported; this daemon requires exactly ").concat(
                decimal_text(PROTOCOL_VERSION as u64).as_str(),
            ),
        );
    }
    Ok(PROTOCOL_VERSION)
}

/// What a peer of another version is told.
pub open spec fn version_refusal(peer_version: u8) -> Seq<char> {
    "protocol_ver "@ + decimal(peer_version as nat)
        + " is unsupported; this daemon requires exactly "@ + decimal(PROTOCOL_VERSION as nat)
}

} // verus!
