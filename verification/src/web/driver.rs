//! What a protocol driver tells a client.

use vstd::prelude::*;

use crate::web::error::Error;
use crate::web::error::ErrorView;
use crate::web::error::ProtocolErrorKind;
use crate::web::headers::checked_status;
use crate::web::headers::convert_headers;
use crate::web::headers::HeaderField;
use crate::web::message::HttpVersion;
use crate::web::message::ReceivedResponseHead;

verus! {

/// What a driver reports of a response.
pub enum DriverClientEvent {
    /// Its head.
    ResponseHead {
        /// The exchange.
        exchange_id: u64,
        /// The status code.
        status: u16,
        /// The HTTP version.
        version: HttpVersion,
        /// The header fields.
        headers: Vec<HeaderField>,
    },
    /// Part of its body.
    ResponseBody {
        /// The exchange.
        exchange_id: u64,
        /// The bytes.
        chunk: Vec<u8>,
    },
    /// Its trailers.
    ResponseTrailers {
        /// The exchange.
        exchange_id: u64,
        /// The fields.
        headers: Vec<HeaderField>,
    },
    /// Its end.
    ResponseComplete {
        /// The exchange.
        exchange_id: u64,
    },
    /// An event that this library does not know.
    Unknown,
}

/// What a driver asks for, or reports.
pub enum ClientStep {
    /// It needs bytes of the peer.
    NeedInput,
    /// It holds bytes for the peer.
    Write,
    /// It has nothing more to do.
    Done,
    /// It reports something.
    Event(DriverClientEvent),
    /// A step that this library does not know.
    Unknown,
}

impl ClientStep {
    /// Whether the fields of the step fit into a header map.
    pub open spec fn fits(&self) -> bool {
        match self {
            ClientStep::Event(
                DriverClientEvent::ResponseHead { headers, .. },
            ) => headers@.len() <= crate::web::headers::MAX_HEADER_NAMES,
            ClientStep::Event(
                DriverClientEvent::ResponseTrailers { headers, .. },
            ) => headers@.len() <= crate::web::headers::MAX_HEADER_NAMES,
            _ => true,
        }
    }
}

/// The head of a response.
#[verifier::ext_equal]
pub struct ResponseHeadView {
    /// The status code.
    pub status: u16,
    /// The HTTP version.
    pub version: HttpVersion,
    /// The header fields.
    pub fields: Map<Seq<u8>, Seq<Seq<u8>>>,
}

impl View for ReceivedResponseHead {
    type V = ResponseHeadView;

    open spec fn view(&self) -> ResponseHeadView {
        ResponseHeadView { status: self.status, version: self.version, fields: self.headers@ }
    }
}

/// The head of a response as a driver reports it, or what is wrong with it.
/// The status is looked at first.
pub open spec fn head_outcome(
    status: u16,
    version: HttpVersion,
    headers: Seq<HeaderField>,
) -> Result<ResponseHeadView, ErrorView> {
    let list = crate::web::headers::field_list(headers);
    if !crate::web::headers::valid_status(status as int) {
        Err(
            crate::web::message::protocol_fault(
                ProtocolErrorKind::MalformedMessage,
                "invalid response status: invalid status code"@,
            ),
        )
    } else {
        match crate::web::headers::list_fault(list) {
            Some(error) => Err(error),
            None => Ok(
                ResponseHeadView { status, version, fields: crate::web::headers::fields_of(list) },
            ),
        }
    }
}

/// Checks the head of a response.
pub fn receive_head(status: u16, version: HttpVersion, headers: &Vec<HeaderField>) -> (head: Result<
    ReceivedResponseHead,
    Error,
>)
    requires
        headers@.len() <= crate::web::headers::MAX_HEADER_NAMES,
    ensures
        match head {
            Ok(head) => head_outcome(status, version, headers@) == Ok::<
                ResponseHeadView,
                ErrorView,
            >(head@),
            Err(error) => head_outcome(status, version, headers@) == Err::<
                ResponseHeadView,
                ErrorView,
            >(error@),
        },
{
    let status: u16 = match checked_status(status) {
        Ok(status) => status,
        Err(error) => return Err(error),
    };
    match convert_headers(headers) {
        Ok(headers) => Ok(ReceivedResponseHead { status, version, headers }),
        Err(error) => Err(error),
    }
}

/// The head of a response is what the driver reported: its status, its version
/// and its fields. Only a number that is no status, or a field that cannot stand
/// in a message, is refused.
pub proof fn reported_heads_are_kept(
    status: u16,
    version: HttpVersion,
    headers: &Vec<HeaderField>,
    received: Result<ReceivedResponseHead, Error>,
    collected: Result<crate::web::headers::Headers, Error>,
)
    requires
        call_ensures(receive_head, (status, version, headers), received),
        call_ensures(crate::web::headers::convert_headers, (headers,), collected),
    ensures
        received is Ok <==> 100 <= status <= 999 && collected is Ok,
        received matches Ok(head) ==> {
            &&& head.status == status
            &&& head.version == version
            &&& head.headers@ == collected->Ok_0@
        },
        100 <= status <= 999 && collected is Err ==> received is Err && received->Err_0@
            == collected->Err_0@,
{
}

} // verus!
