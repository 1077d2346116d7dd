//! Requests and responses.

use vstd::prelude::*;
use vstd::string::*;

use crate::time::Instant;
use crate::web::body::Body;
use crate::web::body::BodyView;
use crate::web::config::ClientConfig;
use crate::web::config::Protocol;
use crate::web::error::Error;
use crate::web::error::ErrorView;
use crate::web::error::HttpErrorInfo;
use crate::web::error::MessagePart;
use crate::web::error::ProtocolErrorKind;
use crate::web::error::ProtocolErrorView;
use crate::web::error::Version;
use crate::web::headers::HeaderField;
use crate::web::headers::Headers;
use crate::web::headers::Method;
use crate::web::uri::Uri;
use crate::web::uri::UriTarget;
use crate::web::trailers::ReceivedView;
use crate::web::uri::UriTargetView;
use crate::web::uri::UriView;

verus! {

/// ASCII text as bytes.
pub open spec fn ascii(text: Seq<char>) -> Seq<u8> {
    Seq::new(text.len(), |i: int| text[i] as u8)
}

/// The header name `connection`.
fn connection_name() -> (name: &'static [u8])
    ensures
        name@ == ascii("connection"@),
        crate::web::headers::valid_header_name(name@),
        crate::web::headers::lowered(name@) == name@,
{
    let name = "connection".as_bytes();
    proof {
        reveal_strlit("connection");
        is_ascii_spec_bytes("connection");
        assert(name@ =~= ascii("connection"@));
        assert forall|i: int| 0 <= i < 10 implies crate::web::headers::token_byte(
            #[trigger] name@[i],
        ) && crate::web::headers::lower_byte(name@[i]) == name@[i] by {}
        assert(crate::web::headers::lowered(name@) =~= name@);
    }
    name
}

/// The header name `content-length`.
fn content_length_name() -> (name: &'static [u8])
    ensures
        name@ == ascii("content-length"@),
        crate::web::headers::valid_header_name(name@),
        crate::web::headers::lowered(name@) == name@,
{
    let name = "content-length".as_bytes();
    proof {
        reveal_strlit("content-length");
        is_ascii_spec_bytes("content-length");
        assert(name@ =~= ascii("content-length"@));
        assert forall|i: int| 0 <= i < 14 implies crate::web::headers::token_byte(
            #[trigger] name@[i],
        ) && crate::web::headers::lower_byte(name@[i]) == name@[i] by {}
        assert(crate::web::headers::lowered(name@) =~= name@);
    }
    name
}

/// The header name `host`.
fn host_name() -> (name: &'static [u8])
    ensures
        name@ == ascii("host"@),
        crate::web::headers::valid_header_name(name@),
        crate::web::headers::lowered(name@) == name@,
{
    let name = "host".as_bytes();
    proof {
        reveal_strlit("host");
        is_ascii_spec_bytes("host");
        assert(name@ =~= ascii("host"@));
        assert forall|i: int| 0 <= i < 4 implies crate::web::headers::token_byte(
            #[trigger] name@[i],
        ) && crate::web::headers::lower_byte(name@[i]) == name@[i] by {}
        assert(crate::web::headers::lowered(name@) =~= name@);
    }
    name
}

/// The header name `transfer-encoding`.
fn transfer_encoding_name() -> (name: &'static [u8])
    ensures
        name@ == ascii("transfer-encoding"@),
        crate::web::headers::valid_header_name(name@),
        crate::web::headers::lowered(name@) == name@,
{
    let name = "transfer-encoding".as_bytes();
    proof {
        reveal_strlit("transfer-encoding");
        is_ascii_spec_bytes("transfer-encoding");
        assert(name@ =~= ascii("transfer-encoding"@));
        assert forall|i: int| 0 <= i < 17 implies crate::web::headers::token_byte(
            #[trigger] name@[i],
        ) && crate::web::headers::lower_byte(name@[i]) == name@[i] by {}
        assert(crate::web::headers::lowered(name@) =~= name@);
    }
    name
}

/// A request.
pub struct Request {
    /// The method.
    pub method: Method,
    /// Where it goes.
    pub uri: Uri,
    /// The HTTP version.
    pub version: Version,
    /// The header fields.
    pub headers: Headers,
    /// The body.
    pub body: Body,
}

/// A response.
pub struct Response {
    /// The status code.
    pub status: u16,
    /// The HTTP version.
    pub version: Version,
    /// The header fields.
    pub headers: Headers,
    /// The body.
    pub body: Body,
}

/// The head of a request, without its body.
pub struct RequestHead {
    /// The method.
    pub method: Method,
    /// Where it goes.
    pub uri: Uri,
    /// The HTTP version.
    pub version: Version,
    /// The header fields.
    pub headers: Headers,
}

/// The error of a protocol failure without a known cause.
pub open spec fn protocol_fault(kind: ProtocolErrorKind, detail: Seq<char>) -> ErrorView {
    ErrorView::Protocol(ProtocolErrorView { kind, detail, source: None })
}

/// The fields of a request when it is sent: a known length is declared, an
/// unknown one is left to the framing, and HTTP/1.1 names its host.
pub open spec fn prepared_fields(
    fields: Map<Seq<u8>, Seq<Seq<u8>>>,
    body: BodyView,
    version: Version,
    authority: Seq<u8>,
) -> Map<Seq<u8>, Seq<Seq<u8>>> {
    let framed = match body {
        BodyView::Buffered(bytes) => fields.remove(ascii("transfer-encoding"@)).insert(
            ascii("content-length"@),
            seq![crate::text::decimal_ascii(bytes.len())],
        ),
        BodyView::Streaming(_) => fields.remove(ascii("content-length"@)).remove(
            ascii("transfer-encoding"@),
        ),
    };
    if version == Version::Http11 && !framed.contains_key(ascii("host"@)) {
        framed.insert(ascii("host"@), seq![authority])
    } else {
        framed
    }
}

/// Why a request cannot be sent, as far as its parts tell.
pub open spec fn request_fault(
    fields: Map<Seq<u8>, Seq<Seq<u8>>>,
    uri: UriView,
    version: Version,
    has_trailers: bool,
) -> Option<ErrorView> {
    if version != Version::Http11 && version != Version::Http2 {
        Some(ErrorView::UnsupportedVersion(version))
    } else {
        match crate::web::uri::uri_target(uri) {
            Err(error) => Some(error),
            Ok(target) => if has_trailers {
                Some(
                    protocol_fault(
                        ProtocolErrorKind::UnsupportedFeature,
                        "client request trailers are not supported"@,
                    ),
                )
            } else if version == Version::Http11 && !fields.contains_key(ascii("host"@))
                && !crate::web::headers::valid_header_value(
                vstd::utf8::encode_utf8(target.authority),
            ) {
                Some(ErrorView::InvalidHeaderValue)
            } else {
                None
            },
        }
    }
}

/// A request that is ready to be sent, and where it goes.
pub struct PreparedRequest {
    /// The request.
    pub request: Request,
    /// Where it goes.
    pub target: UriTarget,
}

/// What comes of a request that the protocol driver takes or refuses: the same
/// request, or what the driver reported.
pub open spec fn judged_so(
    prepared: PreparedRequest,
    verdict: Result<(), HttpErrorInfo>,
    judged: Result<PreparedRequest, Error>,
) -> bool {
    match verdict {
        Ok(()) => judged == Ok::<PreparedRequest, Error>(prepared),
        Err(fault) => judged matches Err(error) && error@ == fault.reported(),
    }
}

impl PreparedRequest {
    /// The protocol driver judged the request: it holds the limits, and the
    /// rules of the wire, or not.
    pub fn judged(self, verdict: Result<(), HttpErrorInfo>) -> (judged: Result<
        PreparedRequest,
        Error,
    >)
        ensures
            judged_so(self, verdict, judged),
    {
        match verdict {
            Ok(()) => Ok(self),
            Err(fault) => Err(fault.into_http_error()),
        }
    }
}

proof fn digits_are_a_header_value(number: nat)
    ensures
        crate::web::headers::valid_header_value(crate::text::decimal_ascii(number)),
{
    crate::text::decimal_reads_back(number);
}

proof fn other_names()
    ensures
        ascii("host"@) != ascii("content-length"@),
        ascii("host"@) != ascii("transfer-encoding"@),
        ascii("content-length"@) != ascii("transfer-encoding"@),
{
    reveal_strlit("host");
    reveal_strlit("content-length");
    reveal_strlit("transfer-encoding");
    assert(ascii("host"@).len() == 4);
    assert(ascii("content-length"@).len() == 14);
    assert(ascii("transfer-encoding"@).len() == 17);
}

/// Makes a request ready to be sent: checks its version, its target and its
/// body, and sets the fields that frame the body and name the host.
pub fn prepare_request(request: Request) -> (prepared: Result<PreparedRequest, Error>)
    requires
        request.headers@.dom().len() < crate::web::headers::MAX_HEADER_NAMES,
    ensures
        match prepared {
            Ok(prepared) => {
                &&& request_fault(
                    request.headers@,
                    request.uri@,
                    request.version,
                    request.body.outbound() is Some,
                ) is None
                &&& crate::web::uri::uri_target(request.uri@) == Ok::<UriTargetView, ErrorView>(
                    prepared.target@,
                )
                &&& prepared.request.method == request.method
                &&& prepared.request.uri == request.uri
                &&& prepared.request.version == request.version
                &&& prepared.request.body == request.body
                &&& prepared.request.headers@ == prepared_fields(
                    request.headers@,
                    request.body@,
                    request.version,
                    vstd::utf8::encode_utf8(prepared.target@.authority),
                )
            },
            Err(error) => request_fault(
                request.headers@,
                request.uri@,
                request.version,
                request.body.outbound() is Some,
            ) == Some(error@),
        },
{
    let protocol = match Protocol::from_version(request.version) {
        Ok(protocol) => protocol,
        Err(error) => return Err(error),
    };
    let target = match UriTarget::parse(&request.uri) {
        Ok(target) => target,
        Err(error) => return Err(error),
    };
    if request.body.has_outbound_trailers() {
        return Err(
            Error::protocol(
                ProtocolErrorKind::UnsupportedFeature,
                "client request trailers are not supported",
            ),
        );
    }
    let Request { method, uri, version, headers, body } = request;
    proof {
        other_names();
    }
    let framed = match body.known_len() {
        Some(len) => {
            let digits = crate::text::decimal_bytes(len);
            proof {
                digits_are_a_header_value(len as nat);
            }
            headers.remove(transfer_encoding_name()).insert(
                content_length_name(),
                digits.as_slice(),
            )
        },
        None => headers.remove(content_length_name()).remove(transfer_encoding_name()),
    };
    let headers = match protocol {
        Protocol::Http1 => {
            if framed.contains(host_name()) {
                framed
            } else {
                let authority = target.authority.as_str().as_bytes();
                if !crate::web::headers::accepts_header_value(authority) {
                    return Err(Error::InvalidHeaderValue);
                }
                framed.insert(host_name(), authority)
            }
        },
        Protocol::Http2PriorKnowledge => framed,
    };
    Ok(PreparedRequest { request: Request { method, uri, version, headers, body }, target })
}

/// Makes a request ready for the protocol that is spoken on the wire, starting
/// from the fields that the caller gave it. `Connection` does not exist in
/// HTTP/2.
pub fn prepare_request_for_wire(
    request: Request,
    original_headers: &Headers,
    wire_protocol: Protocol,
) -> (prepared: Result<PreparedRequest, Error>)
    requires
        original_headers@.dom().len() < crate::web::headers::MAX_HEADER_NAMES,
    ensures
        ({
            let fields = if wire_protocol == Protocol::Http2PriorKnowledge {
                original_headers@.remove(ascii("connection"@))
            } else {
                original_headers@
            };
            let version = wire_protocol.http_version();
            let has_trailers = request.body.outbound() is Some;
            match prepared {
                Ok(prepared) => {
                    &&& request_fault(fields, request.uri@, version, has_trailers) is None
                    &&& crate::web::uri::uri_target(request.uri@) == Ok::<UriTargetView, ErrorView>(
                        prepared.target@,
                    )
                    &&& prepared.request.method == request.method
                    &&& prepared.request.uri == request.uri
                    &&& prepared.request.version == version
                    &&& prepared.request.body == request.body
                    &&& prepared.request.headers@ == prepared_fields(
                        fields,
                        request.body@,
                        version,
                        vstd::utf8::encode_utf8(prepared.target@.authority),
                    )
                },
                Err(error) => request_fault(fields, request.uri@, version, has_trailers) == Some(
                    error@,
                ),
            }
        }),
{
    let headers = original_headers.duplicate();
    let headers = match wire_protocol {
        Protocol::Http1 => headers,
        Protocol::Http2PriorKnowledge => headers.remove(connection_name()),
    };
    prepare_request(
        Request {
            method: request.method,
            uri: request.uri,
            version: wire_protocol.version(),
            headers,
            body: request.body,
        },
    )
}

/// A header field as a protocol driver takes it.
pub struct HeaderRef {
    /// The name.
    pub name: Vec<u8>,
    /// The value.
    pub value: Vec<u8>,
    /// Whether the value must not be remembered by header compression.
    pub sensitive: bool,
}

/// Whether the value of a field is a secret.
pub open spec fn sensitive_name(name: Seq<u8>) -> bool {
    name == ascii("authorization"@) || name == ascii("cookie"@)
}

fn is_sensitive(name: &Vec<u8>) -> (sensitive: bool)
    ensures
        sensitive == sensitive_name(name@),
{
    proof {
        reveal_strlit("authorization");
        reveal_strlit("cookie");
        is_ascii_spec_bytes("authorization");
        is_ascii_spec_bytes("cookie");
        assert("authorization".spec_bytes() =~= ascii("authorization"@));
        assert("cookie".spec_bytes() =~= ascii("cookie"@));
    }
    crate::web::tls::bytes_equal(name.as_slice(), "authorization".as_bytes())
        || crate::web::tls::bytes_equal(name.as_slice(), "cookie".as_bytes())
}

/// The fields of a list of references.
pub open spec fn reference_list(references: Seq<HeaderRef>) -> Seq<(Seq<u8>, Seq<u8>)> {
    references.map_values(|reference: HeaderRef| (reference.name@, reference.value@))
}

/// The fields of a request as a protocol driver takes them. Credentials and
/// cookies are marked as secrets.
pub fn request_header_refs(headers: &Headers) -> (references: Vec<HeaderRef>)
    ensures
        crate::web::headers::fields_of(reference_list(references@)) == headers@,
        forall|i: int|
            0 <= i < references@.len() ==> (#[trigger] references@[i]).sensitive == sensitive_name(
                references@[i].name@,
            ),
{
    let mut list: Vec<HeaderField> = headers.list();
    let ghost fields = crate::web::headers::field_list(list@);
    let ghost total = list@;
    let mut references: Vec<HeaderRef> = Vec::new();
    while list.len() > 0
        invariant
            fields == crate::web::headers::field_list(total),
            references@.len() + list@.len() == total.len(),
            list@ == total.skip(references@.len() as int),
            reference_list(references@) == fields.take(references@.len() as int),
            forall|i: int|
                0 <= i < references@.len() ==> (#[trigger] references@[i]).sensitive
                    == sensitive_name(references@[i].name@),
        decreases list@.len(),
    {
        let ghost done = references@;
        let field = list.remove(0);
        assert(field == total[done.len() as int]);
        let sensitive = is_sensitive(&field.name);
        references.push(HeaderRef { name: field.name, value: field.value, sensitive });
        proof {
            assert(list@ =~= total.skip(references@.len() as int));
            assert(reference_list(references@) =~= reference_list(done).push(field@));
            assert(reference_list(references@) =~= fields.take(references@.len() as int));
        }
    }
    assert(fields.take(references@.len() as int) =~= fields);
    references
}

/// Whether a byte is a space or a tab.
pub open spec fn blank(byte: u8) -> bool {
    byte == 32 || byte == 9
}

/// Bytes without the blanks in front.
pub open spec fn trimmed_front(bytes: Seq<u8>) -> Seq<u8>
    decreases bytes.len(),
{
    if bytes.len() > 0 && blank(bytes[0]) {
        trimmed_front(bytes.drop_first())
    } else {
        bytes
    }
}

/// Bytes without the blanks behind.
pub open spec fn trimmed_back(bytes: Seq<u8>) -> Seq<u8>
    decreases bytes.len(),
{
    if bytes.len() > 0 && blank(bytes.last()) {
        trimmed_back(bytes.drop_last())
    } else {
        bytes
    }
}

/// The items of a comma-separated list, without blanks around them and in
/// lower case.
pub open spec fn list_items(value: Seq<u8>) -> Seq<Seq<u8>>
    decreases value.len(),
{
    proof {
        item_end_bounds(value);
    }
    let end = item_end(value);
    let item = crate::web::headers::lowered(trimmed_back(trimmed_front(value.take(end))));
    if end < value.len() {
        seq![item] + list_items(value.skip(end + 1))
    } else {
        seq![item]
    }
}

/// Where the first item of a comma-separated list ends.
pub open spec fn item_end(value: Seq<u8>) -> int
    decreases value.len(),
{
    if value.len() == 0 {
        0
    } else if value[0] == 44 {
        0
    } else {
        1 + item_end(value.drop_first())
    }
}

/// The first item of a list ends at its first comma, or with the list.
pub proof fn item_end_bounds(value: Seq<u8>)
    ensures
        0 <= item_end(value) <= value.len(),
        forall|i: int| 0 <= i < item_end(value) ==> value[i] != 44,
        item_end(value) < value.len() ==> value[item_end(value)] == 44,
    decreases value.len(),
{
    if value.len() > 0 && value[0] != 44 {
        let rest = value.drop_first();
        item_end_bounds(rest);
        assert forall|i: int| 0 <= i < item_end(value) implies value[i] != 44 by {
            if i > 0 {
                assert(rest[i - 1] == value[i]);
            }
        }
        if item_end(value) < value.len() {
            assert(rest[item_end(rest)] == value[item_end(value)]);
        }
    }
}

proof fn item_end_is(value: Seq<u8>, end: int)
    requires
        0 <= end <= value.len(),
        forall|i: int| 0 <= i < end ==> value[i] != 44,
        end < value.len() ==> value[end] == 44,
    ensures
        item_end(value) == end,
{
    item_end_bounds(value);
}

/// A byte in lower case.
fn lower(byte: u8) -> (lowered: u8)
    ensures
        lowered == crate::web::headers::lower_byte(byte),
{
    if 65 <= byte && byte <= 90 {
        byte + 32
    } else {
        byte
    }
}

/// Whether bytes between two positions are a token, whatever the case.
fn item_is(value: &[u8], start: usize, end: usize, token: &[u8]) -> (is: bool)
    requires
        start <= end <= value@.len(),
    ensures
        is == (crate::web::headers::lowered(value@.subrange(start as int, end as int)) == token@),
{
    let ghost item = crate::web::headers::lowered(value@.subrange(start as int, end as int));
    if end - start != token.len() {
        assert(item.len() != token@.len());
        return false;
    }
    let mut index: usize = 0;
    while index < token.len()
        invariant
            start <= end <= value@.len(),
            end - start == token@.len(),
            index <= token@.len(),
            item == crate::web::headers::lowered(value@.subrange(start as int, end as int)),
            forall|i: int| 0 <= i < index ==> item[i] == token@[i],
        decreases token@.len() - index,
    {
        assert(item[index as int] == crate::web::headers::lower_byte(value@[start + index]));
        if lower(value[start + index]) != token[index] {
            assert(item != token@);
            return false;
        }
        index = index + 1;
    }
    assert(item =~= token@);
    true
}

/// The bounds of the bytes between two positions without the blanks around
/// them.
fn trimmed(value: &[u8], start: usize, end: usize) -> (bounds: (usize, usize))
    requires
        start <= end <= value@.len(),
    ensures
        start <= bounds.0 <= bounds.1 <= end,
        value@.subrange(bounds.0 as int, bounds.1 as int) == trimmed_back(
            trimmed_front(value@.subrange(start as int, end as int)),
        ),
{
    let ghost all = trimmed_front(value@.subrange(start as int, end as int));
    let mut low: usize = start;
    while low < end && (value[low] == 32 || value[low] == 9)
        invariant
            start <= low <= end <= value@.len(),
            all == trimmed_front(value@.subrange(low as int, end as int)),
        decreases end - low,
    {
        assert(value@.subrange(low as int, end as int).drop_first() =~= value@.subrange(
            low + 1,
            end as int,
        ));
        low = low + 1;
    }
    assert(all == value@.subrange(low as int, end as int));
    let mut high: usize = end;
    while low < high && (value[high - 1] == 32 || value[high - 1] == 9)
        invariant
            start <= low <= high <= end <= value@.len(),
            trimmed_back(all) == trimmed_back(value@.subrange(low as int, high as int)),
        decreases high - low,
    {
        assert(value@.subrange(low as int, high as int).drop_last() =~= value@.subrange(
            low as int,
            high - 1,
        ));
        high = high - 1;
    }
    (low, high)
}

/// Whether a comma-separated list holds a token, whatever the case. Which blanks
/// do not count and that the case does not are rules of this library alone: a
/// protocol driver reads the same field by rules of its own, and nothing here
/// shows that they are the same.
pub fn value_has_token(value: &[u8], token: &[u8]) -> (has: bool)
    ensures
        has == list_items(value@).contains(token@),
{
    let mut start: usize = 0;
    assert(value@.skip(0) =~= value@);
    loop
        invariant
            start <= value@.len(),
            list_items(value@).contains(token@) == list_items(value@.skip(start as int)).contains(
                token@,
            ),
        decreases value@.len() - start,
    {
        let ghost rest = value@.skip(start as int);
        let mut end: usize = start;
        while end < value.len() && value[end] != 44
            invariant
                start <= end <= value@.len(),
                forall|i: int| start <= i < end ==> value@[i] != 44,
            decreases value@.len() - end,
        {
            end = end + 1;
        }
        proof {
            item_end_is(rest, end - start);
            assert(rest.take(end - start) =~= value@.subrange(start as int, end as int));
        }
        let (low, high) = trimmed(value, start, end);
        let ghost item = crate::web::headers::lowered(value@.subrange(low as int, high as int));
        if item_is(value, low, high, token) {
            assert(list_items(rest)[0] == token@);
            return true;
        }
        if end == value.len() {
            assert(list_items(rest) =~= seq![item]);
            return false;
        }
        proof {
            let others = list_items(value@.skip(end + 1));
            assert(rest.skip(end - start + 1) =~= value@.skip(end + 1));
            assert(list_items(rest) == seq![item] + others);
            assert(list_items(rest).contains(token@) == others.contains(token@)) by {
                if others.contains(token@) {
                    let i = choose|i: int| 0 <= i < others.len() && others[i] == token@;
                    assert(list_items(rest)[i + 1] == token@);
                }
                if list_items(rest).contains(token@) {
                    let i = choose|i: int|
                        0 <= i < list_items(rest).len() && list_items(rest)[i] == token@;
                    assert(others[i - 1] == token@);
                }
            }
        }
        start = end + 1;
    }
}

/// Whether one of the values of `connection` holds `close`.
pub open spec fn asks_to_close(fields: Map<Seq<u8>, Seq<Seq<u8>>>) -> bool {
    fields.contains_key(ascii("connection"@)) && exists|i: int|
        0 <= i < fields[ascii("connection"@)].len() && list_items(
            #[trigger] fields[ascii("connection"@)][i],
        ).contains(ascii("close"@))
}

/// Whether the connection may serve another request after this one. Only
/// HTTP/1.1 has a field that says otherwise.
pub fn request_allows_reuse(headers: &Headers, protocol: Protocol) -> (allows: bool)
    ensures
        allows == (protocol != Protocol::Http1 || !asks_to_close(headers@)),
{
    if protocol != Protocol::Http1 {
        return true;
    }
    let values = headers.values(connection_name());
    let ghost list = values@.map_values(|value: Vec<u8>| value@);
    let close = "close".as_bytes();
    proof {
        reveal_strlit("close");
        is_ascii_spec_bytes("close");
        assert(close@ =~= ascii("close"@));
    }
    let mut index: usize = 0;
    while index < values.len()
        invariant
            index <= values@.len(),
            protocol == Protocol::Http1,
            list == values@.map_values(|value: Vec<u8>| value@),
            close@ == ascii("close"@),
            list == if headers@.contains_key(ascii("connection"@)) {
                headers@[ascii("connection"@)]
            } else {
                Seq::empty()
            },
            forall|i: int|
                0 <= i < index ==> !list_items(#[trigger] list[i]).contains(ascii("close"@)),
        decreases values@.len() - index,
    {
        assert(list[index as int] == values@[index as int]@);
        if value_has_token(values[index].as_slice(), close) {
            assert(headers@[ascii("connection"@)][index as int] == list[index as int]);
            return false;
        }
        index = index + 1;
    }
    true
}

/// The same request again, for a second attempt.
pub fn clone_request_for_retry(request: &Request) -> (copy: Request)
    ensures
        copy.method@ == request.method@,
        copy.uri@ == request.uri@,
        copy.version == request.version,
        copy.headers@ == request.headers@,
        copy.body@ == request.body@,
        copy.body.outbound() == request.body.outbound(),
        copy.body.inbound() == request.body.inbound(),
{
    Request {
        method: request.method.duplicate(),
        uri: request.uri.duplicate(),
        version: request.version,
        headers: request.headers.duplicate(),
        body: request.body.duplicate(),
    }
}

/// The HTTP version of a received message.
#[derive(Clone, Copy, Debug, PartialEq, Eq, Structural)]
pub enum HttpVersion {
    /// HTTP/1.0.
    Http10,
    /// HTTP/1.1.
    Http11,
    /// HTTP/2.
    Http2,
    /// A version that this library does not know.
    Unknown,
}

impl HttpVersion {
    /// The version, where it is known.
    pub open spec fn known(self) -> Option<Version> {
        match self {
            HttpVersion::Http10 => Some(Version::Http10),
            HttpVersion::Http11 => Some(Version::Http11),
            HttpVersion::Http2 => Some(Version::Http2),
            HttpVersion::Unknown => None,
        }
    }

    /// The version, or an error where it is not known.
    pub fn version(self) -> (version: Result<Version, Error>)
        ensures
            match version {
                Ok(version) => self.known() == Some(version),
                Err(error) => self.known() is None && error@ == protocol_fault(
                    ProtocolErrorKind::InvalidState,
                    "the connection driver returned an unknown HTTP version"@,
                ),
            },
    {
        match self {
            HttpVersion::Http10 => Ok(Version::Http10),
            HttpVersion::Http11 => Ok(Version::Http11),
            HttpVersion::Http2 => Ok(Version::Http2),
            HttpVersion::Unknown => Err(
                Error::protocol(
                    ProtocolErrorKind::InvalidState,
                    "the connection driver returned an unknown HTTP version",
                ),
            ),
        }
    }
}

/// The head of a received response.
pub struct ReceivedResponseHead {
    /// The status code.
    pub status: u16,
    /// The HTTP version.
    pub version: HttpVersion,
    /// The header fields.
    pub headers: Headers,
}

/// A response from its received head and its body.
pub fn finish_response(head: Option<ReceivedResponseHead>, body: Body) -> (response: Result<
    Response,
    Error,
>)
    ensures
        match (head, response) {
            (None, Err(error)) => error@ == protocol_fault(
                ProtocolErrorKind::MalformedMessage,
                "response completed without headers"@,
            ),
            (Some(head), Ok(response)) => {
                &&& head.version.known() == Some(response.version)
                &&& response.status == head.status
                &&& response.headers == head.headers
                &&& response.body == body
            },
            (Some(head), Err(error)) => head.version.known() is None && error@ == protocol_fault(
                ProtocolErrorKind::InvalidState,
                "the connection driver returned an unknown HTTP version"@,
            ),
            (None, Ok(_)) => false,
        },
{
    match head {
        None => Err(
            Error::protocol(
                ProtocolErrorKind::MalformedMessage,
                "response completed without headers",
            ),
        ),
        Some(head) => match head.version.version() {
            Ok(version) => Ok(
                Response { status: head.status, version, headers: head.headers, body },
            ),
            Err(error) => Err(error),
        },
    }
}

/// What a request builder holds.
#[verifier::ext_equal]
pub struct RequestBuilderView {
    /// The method.
    pub method: Seq<char>,
    /// The URI, or why it could not be read.
    pub uri: Result<UriView, ErrorView>,
    /// The version that was asked for.
    pub version: Option<Version>,
    /// The header fields.
    pub fields: Map<Seq<u8>, Seq<Seq<u8>>>,
    /// The body.
    pub body: Body,
    /// The first fault of a header field.
    pub error: Option<ErrorView>,
}

/// Builds a request.
pub struct RequestBuilder {
    method: Method,
    uri: Result<Uri, Error>,
    version: Option<Version>,
    headers: Headers,
    body: Body,
    error: Option<Error>,
}

impl View for RequestBuilder {
    type V = RequestBuilderView;

    closed spec fn view(&self) -> RequestBuilderView {
        RequestBuilderView {
            method: self.method@,
            uri: match self.uri {
                Ok(uri) => Ok(uri@),
                Err(error) => Err(error@),
            },
            version: self.version,
            fields: self.headers@,
            body: self.body,
            error: match self.error {
                Some(error) => Some(error@),
                None => None,
            },
        }
    }
}

impl RequestBuilderView {
    /// The version of the request: that which was asked for, else that of the
    /// client.
    pub open spec fn chosen_version(self, default_protocol: Protocol) -> Version {
        match self.version {
            Some(version) => version,
            None => default_protocol.http_version(),
        }
    }

    /// Whether a request that was made ready is the one of the builder, with
    /// the fields that frame its body and name its host.
    pub open spec fn makes_ready(self, default_protocol: Protocol, prepared: PreparedRequest) -> bool {
        let version = self.chosen_version(default_protocol);
        &&& prepared.request.method@ == self.method
        &&& self.uri == Ok::<UriView, ErrorView>(prepared.request.uri@)
        &&& crate::web::uri::uri_target(prepared.request.uri@) == Ok::<UriTargetView, ErrorView>(
            prepared.target@,
        )
        &&& prepared.request.version == version
        &&& prepared.request.body == self.body
        &&& prepared.request.headers@ == prepared_fields(
            self.fields,
            self.body@,
            version,
            vstd::utf8::encode_utf8(prepared.target@.authority),
        )
    }

    /// Why the request cannot be made ready.
    pub open spec fn fault(
        self,
        config: crate::web::config::ClientConfigView,
        now: int,
    ) -> Option<ErrorView> {
        match self.error {
            Some(error) => Some(error),
            None => match config.fault(now) {
                Some(message) => Some(ErrorView::InvalidConfiguration(message)),
                None => match self.uri {
                    Err(error) => Some(error),
                    Ok(uri) => match crate::web::uri::uri_target(uri) {
                        Err(error) => Some(error),
                        Ok(_) => request_fault(
                            self.fields,
                            uri,
                            self.chosen_version(config.default_protocol),
                            self.body.outbound() is Some,
                        ),
                    },
                },
            },
        }
    }
}

impl RequestBuilder {
    /// Starts a request.
    pub fn new(method: Method, uri: Result<Uri, Error>) -> (builder: RequestBuilder)
        ensures
            builder@.method == method@,
            builder@.uri == (match uri {
                Ok(uri) => Ok::<UriView, ErrorView>(uri@),
                Err(error) => Err(error@),
            }),
            builder@.version is None,
            builder@.fields == crate::web::headers::no_fields(),
            builder@.body@ == BodyView::Buffered(Seq::empty()),
            builder@.body.outbound() is None,
            builder@.error is None,
    {
        RequestBuilder {
            method,
            uri,
            version: None,
            headers: Headers::new(),
            body: Body::empty(),
            error: None,
        }
    }

    /// Appends a header occurrence. The first invalid name or value is what
    /// building the request reports; nothing is appended after it.
    pub fn header(self, name: &[u8], value: &[u8]) -> (builder: RequestBuilder)
        requires
            self@.fields.dom().len() <= crate::web::headers::MAX_HEADER_NAMES,
        ensures
            builder@ == if self@.error is Some {
                self@
            } else if !crate::web::headers::valid_header_name(name@) {
                RequestBuilderView {
                    error: Some(ErrorView::InvalidMessage(MessagePart::HeaderName)),
                    ..self@
                }
            } else if !crate::web::headers::valid_header_value(value@) {
                RequestBuilderView {
                    error: Some(ErrorView::InvalidMessage(MessagePart::HeaderValue)),
                    ..self@
                }
            } else {
                RequestBuilderView {
                    fields: crate::web::headers::fields_appended(
                        self@.fields,
                        crate::web::headers::lowered(name@),
                        value@,
                    ),
                    ..self@
                }
            },
    {
        if self.error.is_some() {
            return self;
        }
        if crate::web::headers::parse_header_name(name).is_none() {
            return RequestBuilder {
                error: Some(Error::InvalidMessage(MessagePart::HeaderName)),
                ..self
            };
        }
        if !crate::web::headers::accepts_header_value(value) {
            return RequestBuilder {
                error: Some(Error::InvalidMessage(MessagePart::HeaderValue)),
                ..self
            };
        }
        let RequestBuilder { method, uri, version, headers, body, error } = self;
        RequestBuilder { method, uri, version, headers: headers.append(name, value), body, error }
    }

    /// Merges header occurrences into the request.
    pub fn headers(self, headers: Headers) -> (builder: RequestBuilder)
        requires
            self@.fields.dom().len() + headers@.dom().len()
                <= crate::web::headers::MAX_HEADER_NAMES,
        ensures
            builder@ == (RequestBuilderView {
                fields: self@.fields.union_prefer_right(headers@),
                ..self@
            }),
    {
        let RequestBuilder { method, uri, version, headers: own, body, error } = self;
        RequestBuilder { method, uri, version, headers: own.merge(headers), body, error }
    }

    /// Selects the HTTP wire version. Only HTTP/1.1 and HTTP/2 are supported.
    pub fn version(self, version: Version) -> (builder: RequestBuilder)
        ensures
            builder@ == (RequestBuilderView { version: Some(version), ..self@ }),
    {
        RequestBuilder { version: Some(version), ..self }
    }

    /// Sets the buffered or streaming request body.
    pub fn body(self, body: Body) -> (builder: RequestBuilder)
        ensures
            builder@ == (RequestBuilderView { body, ..self@ }),
    {
        RequestBuilder { body, ..self }
    }

    /// Builds and validates the request without sending it. Once it is made
    /// ready, `judge` asks the protocol driver for its verdict, which knows the
    /// limits and the rules of the wire: a request that the driver refuses is
    /// not built.
    pub fn build<J: FnOnce(&PreparedRequest) -> Result<(), HttpErrorInfo>>(
        self,
        config: &ClientConfig,
        now: Instant,
        judge: J,
    ) -> (built: Result<PreparedRequest, Error>)
        requires
            self@.fields.dom().len() < crate::web::headers::MAX_HEADER_NAMES,
            forall|prepared: PreparedRequest|
                self@.makes_ready(config@.default_protocol, prepared)
                    ==> #[trigger] judge.requires((&prepared,)),
        ensures
            match self@.fault(config@, now@) {
                Some(fault) => built matches Err(error) && error@ == fault,
                None => exists|prepared: PreparedRequest, verdict: Result<(), HttpErrorInfo>|
                    {
                        &&& self@.makes_ready(config@.default_protocol, prepared)
                        &&& #[trigger] judge.ensures((&prepared,), verdict)
                        &&& judged_so(prepared, verdict, built)
                    },
            },
    {
        match self.prepare(config, now) {
            Err(error) => Err(error),
            Ok(prepared) => {
                let verdict = judge(&prepared);
                prepared.judged(verdict)
            },
        }
    }

    /// Makes the request ready for the protocol driver's verdict, which
    /// [`PreparedRequest::judged`] takes.
    pub fn prepare(self, config: &ClientConfig, now: Instant) -> (ready: Result<
        PreparedRequest,
        Error,
    >)
        requires
            self@.fields.dom().len() < crate::web::headers::MAX_HEADER_NAMES,
        ensures
            match ready {
                Ok(prepared) => {
                    &&& self@.fault(config@, now@) is None
                    &&& self@.makes_ready(config@.default_protocol, prepared)
                },
                Err(error) => self@.fault(config@, now@) == Some(error@),
            },
    {
        if let Some(error) = self.error {
            return Err(error);
        }
        match config.validate(now) {
            Ok(()) => {},
            Err(error) => return Err(error),
        }
        let uri = match self.uri {
            Ok(uri) => uri,
            Err(error) => return Err(error),
        };
        match UriTarget::parse(&uri) {
            Ok(_) => {},
            Err(error) => return Err(error),
        }
        let version = match self.version {
            Some(version) => version,
            None => config.default_protocol().version(),
        };
        prepare_request(
            Request { method: self.method, uri, version, headers: self.headers, body: self.body },
        )
    }
}

/// What `str::from_utf8` says of bytes that are no UTF-8.
pub uninterp spec fn utf8_fault(bytes: Seq<u8>) -> Seq<char>;

/// `str::from_utf8`: the text, or the words of its error for bytes that are no
/// UTF-8. The words are named, not spelled out.
#[verifier::external_body]
fn utf8_text(bytes: &[u8]) -> (text: Result<String, String>)
    ensures
        match text {
            Ok(text) => vstd::utf8::valid_utf8(bytes@) && text@ == vstd::utf8::decode_utf8(bytes@),
            Err(message) => !vstd::utf8::valid_utf8(bytes@) && message@ == utf8_fault(bytes@),
        },
{
    std::str::from_utf8(bytes).map(|text| text.to_owned()).map_err(|error| error.to_string())
}

/// A received request while its body arrives.
pub struct RequestParts {
    /// The method.
    pub method: Method,
    /// Where it goes.
    pub uri: Uri,
    /// The HTTP version.
    pub version: Version,
    /// The header fields.
    pub headers: Headers,
    /// The bytes of the body so far.
    pub body: Vec<u8>,
    /// The trailers behind the body.
    pub trailers: Option<Headers>,
}

/// A request head as a protocol driver reports it.
pub struct ReceivedRequestHead {
    /// The method.
    pub method: Vec<u8>,
    /// The request target.
    pub target: Vec<u8>,
    /// The authority, where the protocol has one of its own.
    pub authority: Option<Vec<u8>>,
    /// The HTTP version.
    pub version: HttpVersion,
    /// The header fields.
    pub fields: Vec<HeaderField>,
    /// The length of the body that the peer announced.
    pub content_length: Option<usize>,
}

/// The fields of a received head: an authority takes the place of `host`.
pub open spec fn received_fields(head: ReceivedRequestHead) -> Map<Seq<u8>, Seq<Seq<u8>>> {
    let fields = crate::web::headers::fields_of(crate::web::headers::field_list(head.fields@));
    match head.authority {
        Some(authority) => fields.insert(ascii("host"@), seq![authority@]),
        None => fields,
    }
}

/// Why a received head is refused: its method, its target, its version, its
/// fields and its authority are looked at in that order.
pub open spec fn head_fault(head: ReceivedRequestHead) -> Option<ErrorView> {
    if !crate::web::headers::valid_method(head.method@) {
        Some(
            protocol_fault(
                ProtocolErrorKind::MalformedMessage,
                "invalid HTTP method: invalid HTTP method"@,
            ),
        )
    } else if !vstd::utf8::valid_utf8(head.target@) {
        Some(
            protocol_fault(
                ProtocolErrorKind::InvalidHeader,
                "invalid request target: "@ + utf8_fault(head.target@),
            ),
        )
    } else {
        match crate::web::uri::uri_of_text(vstd::utf8::decode_utf8(head.target@)) {
            Err(message) => Some(ErrorView::InvalidUri(message)),
            Ok(_) => if head.version.known() is None {
                Some(
                    protocol_fault(
                        ProtocolErrorKind::InvalidState,
                        "the connection driver returned an unknown HTTP version"@,
                    ),
                )
            } else {
                match crate::web::headers::list_fault(
                    crate::web::headers::field_list(head.fields@),
                ) {
                    Some(error) => Some(error),
                    None => match head.authority {
                        Some(
                            authority,
                        ) => if crate::web::headers::valid_header_value(authority@) {
                            None
                        } else {
                            Some(ErrorView::InvalidHeaderValue)
                        },
                        None => None,
                    },
                }
            },
        }
    }
}

/// The parts of a request from its received head. The announced length is not
/// trusted: nothing is set aside for the body before its bytes arrive.
pub fn request_parts(head: ReceivedRequestHead) -> (parts: Result<RequestParts, Error>)
    requires
        head.fields@.len() < crate::web::headers::MAX_HEADER_NAMES,
    ensures
        match parts {
            Ok(parts) => {
                &&& head_fault(head) is None
                &&& parts.method@ == head.method@.map_values(|byte: u8| byte as char)
                &&& crate::web::uri::uri_of_text(vstd::utf8::decode_utf8(head.target@)) == Ok::<
                    UriView,
                    Seq<char>,
                >(parts.uri@)
                &&& head.version.known() == Some(parts.version)
                &&& parts.headers@ == received_fields(head)
                &&& parts.body@ == Seq::<u8>::empty()
                &&& parts.trailers is None
            },
            Err(error) => head_fault(head) == Some(error@),
        },
{
    let method = match Method::from_bytes(head.method.as_slice()) {
        Ok(method) => method,
        Err(error) => return Err(error),
    };
    let target = match utf8_text(head.target.as_slice()) {
        Ok(target) => target,
        Err(message) => {
            let detail = crate::text::joined("invalid request target: ", message.as_str());
            return Err(Error::protocol(ProtocolErrorKind::InvalidHeader, detail.as_str()));
        },
    };
    let uri = match Uri::parse(target.as_str()) {
        Ok(uri) => uri,
        Err(error) => return Err(error),
    };
    let version = match head.version.version() {
        Ok(version) => version,
        Err(error) => return Err(error),
    };
    let headers = match crate::web::headers::convert_headers(&head.fields) {
        Ok(headers) => headers,
        Err(error) => return Err(error),
    };
    proof {
        crate::web::headers::few_names(crate::web::headers::field_list(head.fields@));
    }
    let headers = match &head.authority {
        Some(authority) => {
            if !crate::web::headers::accepts_header_value(authority.as_slice()) {
                return Err(Error::InvalidHeaderValue);
            }
            headers.insert(host_name(), authority.as_slice())
        },
        None => headers,
    };
    Ok(RequestParts { method, uri, version, headers, body: Vec::new(), trailers: None })
}

impl RequestParts {
    /// The head on its own.
    pub fn head_request(&self) -> (head: RequestHead)
        ensures
            head.method@ == self.method@,
            head.uri@ == self.uri@,
            head.version == self.version,
            head.headers@ == self.headers@,
    {
        RequestHead {
            method: self.method.duplicate(),
            uri: self.uri.duplicate(),
            version: self.version,
            headers: self.headers.duplicate(),
        }
    }

    /// The request with the body that arrived.
    pub fn into_request(self) -> (request: Request)
        ensures
            request.method == self.method,
            request.uri == self.uri,
            request.version == self.version,
            request.headers == self.headers,
            request.body@ == BodyView::Buffered(self.body@),
            request.body.outbound() is None,
            request.body.inbound() == match self.trailers {
                Some(trailers) => Some(ReceivedView::Complete(trailers@)),
                None => None,
            },
    {
        Request {
            method: self.method,
            uri: self.uri,
            version: self.version,
            headers: self.headers,
            body: Body::from_inbound(self.body, self.trailers),
        }
    }

    /// The request with another body.
    pub fn request_with_body(&self, body: Body) -> (request: Request)
        ensures
            request.method@ == self.method@,
            request.uri@ == self.uri@,
            request.version == self.version,
            request.headers@ == self.headers@,
            request.body == body,
    {
        Request {
            method: self.method.duplicate(),
            uri: self.uri.duplicate(),
            version: self.version,
            headers: self.headers.duplicate(),
            body,
        }
    }
}

/// A request always goes out with exactly one statement of its length: its
/// true length where that is known, and no length of the caller's otherwise.
pub proof fn declared_length_is_true(
    fields: Map<Seq<u8>, Seq<Seq<u8>>>,
    body: BodyView,
    version: Version,
    authority: Seq<u8>,
)
    ensures
        ({
            let prepared = prepared_fields(fields, body, version, authority);
            &&& !prepared.contains_key(ascii("transfer-encoding"@))
            &&& match body {
                BodyView::Buffered(bytes) => prepared.contains_key(ascii("content-length"@))
                    && prepared[ascii("content-length"@)] == seq![
                    crate::text::decimal_ascii(bytes.len()),
                ],
                BodyView::Streaming(_) => !prepared.contains_key(ascii("content-length"@)),
            }
        }),
{
    other_names();
}

/// A request over HTTP/1.1 always names its host, and the host that the caller
/// named stays.
pub proof fn host_is_named(
    fields: Map<Seq<u8>, Seq<Seq<u8>>>,
    body: BodyView,
    authority: Seq<u8>,
)
    ensures
        ({
            let prepared = prepared_fields(fields, body, Version::Http11, authority);
            &&& prepared.contains_key(ascii("host"@))
            &&& prepared[ascii("host"@)] == if fields.contains_key(ascii("host"@)) {
                fields[ascii("host"@)]
            } else {
                seq![authority]
            }
        }),
{
    other_names();
}

/// Preparing a request twice is preparing it once.
pub proof fn preparing_is_idempotent(
    fields: Map<Seq<u8>, Seq<Seq<u8>>>,
    body: BodyView,
    version: Version,
    authority: Seq<u8>,
)
    ensures
        ({
            let prepared = prepared_fields(fields, body, version, authority);
            prepared_fields(prepared, body, version, authority) == prepared
        }),
{
    other_names();
    let prepared = prepared_fields(fields, body, version, authority);
    assert(prepared_fields(prepared, body, version, authority) =~= prepared);
}

/// Whether fields say the same of a name.
pub open spec fn same_values(
    left: Map<Seq<u8>, Seq<Seq<u8>>>,
    right: Map<Seq<u8>, Seq<Seq<u8>>>,
    name: Seq<u8>,
) -> bool {
    &&& left.contains_key(name) == right.contains_key(name)
    &&& left.contains_key(name) ==> left[name] == right[name]
}

/// A request that was made ready is the request of the caller. Every field whose
/// name is none of `content-length`, `transfer-encoding` and `host` is as the
/// caller set it; a buffered body is declared with the number of its bytes, and
/// no other statement of its length is left; HTTP/1.1 names the host of the
/// caller, or else the authority of the target, and HTTP/2 adds none.
pub proof fn preparing_keeps_the_request(request: Request, prepared: PreparedRequest)
    requires
        call_ensures(prepare_request, (request,), Ok(prepared)),
    ensures
        prepared.request.method == request.method,
        prepared.request.uri == request.uri,
        prepared.request.version == request.version,
        prepared.request.body == request.body,
        forall|name: Seq<u8>|
            name != ascii("content-length"@) && name != ascii("transfer-encoding"@) && name
                != ascii("host"@) ==> #[trigger] same_values(
                prepared.request.headers@,
                request.headers@,
                name,
            ),
        !prepared.request.headers@.contains_key(ascii("transfer-encoding"@)),
        request.body@ is Streaming ==> !prepared.request.headers@.contains_key(
            ascii("content-length"@),
        ),
        request.body@ matches BodyView::Buffered(bytes) ==> {
            &&& prepared.request.headers@.contains_key(ascii("content-length"@))
            &&& prepared.request.headers@[ascii("content-length"@)].len() == 1
            &&& crate::text::ascii_value(
                prepared.request.headers@[ascii("content-length"@)][0],
            ) == bytes.len()
        },
        request.headers@.contains_key(ascii("host"@)) || request.version != Version::Http11
            ==> same_values(prepared.request.headers@, request.headers@, ascii("host"@)),
        !request.headers@.contains_key(ascii("host"@)) && request.version == Version::Http11 ==> {
            &&& prepared.request.headers@.contains_key(ascii("host"@))
            &&& prepared.request.headers@[ascii("host"@)] == seq![
                vstd::utf8::encode_utf8(prepared.target.authority@),
            ]
        },
        request.version == Version::Http11 || request.version == Version::Http2,
        request.body.outbound() is None,
{
    other_names();
    match request.body@ {
        BodyView::Buffered(bytes) => {
            crate::text::decimal_reads_back(bytes.len());
        },
        BodyView::Streaming(_) => {},
    }
}

/// A request that cannot be made ready has a version that is not spoken, a
/// target that cannot be reached, trailers, or an authority that is no header
/// value; one with neither is made ready.
pub proof fn only_faulty_requests_are_refused(
    request: Request,
    prepared: Result<PreparedRequest, Error>,
)
    requires
        call_ensures(prepare_request, (request,), prepared),
    ensures
        request.version != Version::Http11 && request.version != Version::Http2 ==> (
        prepared matches Err(error) && error@ == ErrorView::UnsupportedVersion(request.version)),
        (request.version == Version::Http11 || request.version == Version::Http2)
            && request.body.outbound() is None && (crate::web::uri::uri_target(
            request.uri@,
        ) matches Ok(target) && crate::web::headers::valid_header_value(
            vstd::utf8::encode_utf8(target.authority),
        )) ==> prepared is Ok,
        request.body.outbound() is Some ==> prepared is Err,
{
}

/// For the wire a request starts from the fields that its caller gave it. It
/// speaks the version of the protocol, and HTTP/2 loses `connection`, nothing
/// else.
pub proof fn the_wire_gets_the_callers_fields(
    request: Request,
    original: Headers,
    wire_protocol: Protocol,
    prepared: PreparedRequest,
)
    requires
        call_ensures(prepare_request_for_wire, (request, &original, wire_protocol), Ok(prepared)),
    ensures
        prepared.request.method == request.method,
        prepared.request.uri == request.uri,
        prepared.request.body == request.body,
        wire_protocol == Protocol::Http1 ==> prepared.request.version == Version::Http11,
        wire_protocol == Protocol::Http2PriorKnowledge ==> prepared.request.version
            == Version::Http2,
        forall|name: Seq<u8>|
            name != ascii("content-length"@) && name != ascii("transfer-encoding"@) && name
                != ascii("host"@) && name != ascii("connection"@) ==> #[trigger] same_values(
                prepared.request.headers@,
                original@,
                name,
            ),
        wire_protocol == Protocol::Http1 ==> same_values(
            prepared.request.headers@,
            original@,
            ascii("connection"@),
        ),
        wire_protocol == Protocol::Http2PriorKnowledge
            ==> !prepared.request.headers@.contains_key(ascii("connection"@)),
        !prepared.request.headers@.contains_key(ascii("transfer-encoding"@)),
        request.body@ matches BodyView::Buffered(bytes) ==> {
            &&& prepared.request.headers@.contains_key(ascii("content-length"@))
            &&& prepared.request.headers@[ascii("content-length"@)].len() == 1
            &&& crate::text::ascii_value(
                prepared.request.headers@[ascii("content-length"@)][0],
            ) == bytes.len()
        },
{
    other_names();
    reveal_strlit("connection");
    reveal_strlit("host");
    reveal_strlit("content-length");
    reveal_strlit("transfer-encoding");
    assert(ascii("connection"@).len() == 10);
    assert(ascii("host"@).len() == 4);
    assert(ascii("content-length"@).len() == 14);
    assert(ascii("transfer-encoding"@).len() == 17);
    match request.body@ {
        BodyView::Buffered(bytes) => {
            crate::text::decimal_reads_back(bytes.len());
        },
        BodyView::Streaming(_) => {},
    }
}

/// What a builder was given is what its request has: the method, the URI, the
/// version and the body, and every field that frames neither the body nor names
/// the host.
pub proof fn requests_are_built_as_told(
    method: Method,
    uri: Uri,
    version: Version,
    body: Body,
    name: &[u8],
    value: &[u8],
    builders: (RequestBuilder, RequestBuilder, RequestBuilder, RequestBuilder),
    config: &ClientConfig,
    now: Instant,
    prepared: PreparedRequest,
)
    requires
        call_ensures(RequestBuilder::new, (method, Ok(uri)), builders.0),
        call_ensures(RequestBuilder::header, (builders.0, name, value), builders.1),
        call_ensures(RequestBuilder::version, (builders.1, version), builders.2),
        call_ensures(RequestBuilder::body, (builders.2, body), builders.3),
        call_ensures(RequestBuilder::prepare, (builders.3, config, now), Ok(prepared)),
    ensures
        prepared.request.method@ == method@,
        prepared.request.uri@ == uri@,
        prepared.request.version == version,
        prepared.request.body == body,
        ({
            let lower = crate::web::headers::lowered(name@);
            lower != ascii("content-length"@) && lower != ascii("transfer-encoding"@) && lower
                != ascii("host"@) ==> {
                &&& prepared.request.headers@.contains_key(lower)
                &&& prepared.request.headers@[lower] == seq![value@]
            }
        }),
        forall|other: Seq<u8>| #[trigger]
            prepared.request.headers@.contains_key(other) ==> other
                == crate::web::headers::lowered(name@) || other == ascii("content-length"@) || other
                == ascii("host"@),
{
    other_names();
}

/// A builder without a version speaks the default protocol of the client.
pub proof fn clients_choose_the_version(
    builder: RequestBuilder,
    config: &ClientConfig,
    now: Instant,
    prepared: PreparedRequest,
)
    requires
        call_ensures(RequestBuilder::prepare, (builder, config, now), Ok(prepared)),
    ensures
        builder@.version matches Some(version) ==> prepared.request.version == version,
        builder@.version is None && config@.default_protocol == Protocol::Http1
            ==> prepared.request.version == Version::Http11,
        builder@.version is None && config@.default_protocol == Protocol::Http2PriorKnowledge
            ==> prepared.request.version == Version::Http2,
        builder@.error is None,
        builder@.uri is Ok,
{
}

/// A field is appended behind those of its name, whatever the case of the name,
/// and no other field changes. The first field that cannot stand in a message is
/// what the builder reports, whatever follows.
pub proof fn builders_append_fields(
    builder: RequestBuilder,
    name: &[u8],
    value: &[u8],
    after: RequestBuilder,
)
    requires
        call_ensures(RequestBuilder::header, (builder, name, value), after),
    ensures
        builder@.error is Some ==> after@ == builder@,
        builder@.error is None && !crate::web::headers::valid_header_name(name@) ==> after@.error
            == Some(ErrorView::InvalidMessage(MessagePart::HeaderName)),
        builder@.error is None && crate::web::headers::valid_header_name(name@)
            && !crate::web::headers::valid_header_value(value@) ==> after@.error == Some(
            ErrorView::InvalidMessage(MessagePart::HeaderValue),
        ),
        builder@.error is None && after@.error is None ==> ({
            let lower = crate::web::headers::lowered(name@);
            let before = if builder@.fields.contains_key(lower) {
                builder@.fields[lower]
            } else {
                Seq::empty()
            };
            &&& after@.fields.contains_key(lower)
            &&& after@.fields[lower] == before + seq![value@]
            &&& forall|other: Seq<u8>|
                other != lower ==> #[trigger] same_values(after@.fields, builder@.fields, other)
        }),
        after@.method == builder@.method,
        after@.uri == builder@.uri,
        after@.version == builder@.version,
        after@.body == builder@.body,
{
    let lower = crate::web::headers::lowered(name@);
    if builder@.error is None && after@.error is None {
        if builder@.fields.contains_key(lower) {
            assert(builder@.fields[lower].push(value@) =~= builder@.fields[lower] + seq![value@]);
        } else {
            assert(seq![value@] =~= Seq::<Seq<u8>>::empty() + seq![value@]);
        }
    }
}

/// Merged fields take the place of those of their names, and the others stay.
pub proof fn merged_fields_replace(
    builder: RequestBuilder,
    headers: Headers,
    after: RequestBuilder,
    name: Seq<u8>,
)
    requires
        call_ensures(RequestBuilder::headers, (builder, headers), after),
    ensures
        headers@.contains_key(name) ==> after@.fields.contains_key(name) && after@.fields[name]
            == headers@[name],
        !headers@.contains_key(name) ==> same_values(after@.fields, builder@.fields, name),
        after@.error == builder@.error,
        after@.body == builder@.body,
{
}

/// A request that the driver takes is built as it was made ready; of one that
/// the driver refuses the caller learns what the driver said.
pub proof fn drivers_decide_on_requests(
    prepared: PreparedRequest,
    taken: Result<PreparedRequest, Error>,
    fault: HttpErrorInfo,
    refused: Result<PreparedRequest, Error>,
)
    requires
        call_ensures(PreparedRequest::judged, (prepared, Ok(())), taken),
        call_ensures(PreparedRequest::judged, (prepared, Err(fault)), refused),
    ensures
        taken == Ok::<PreparedRequest, Error>(prepared),
        refused matches Err(error) && error@ == fault.reported(),
{
}

/// A response has the status and the fields that were received with its head,
/// the version that the head names, and the body that arrived.
pub proof fn responses_have_their_received_head(
    head: ReceivedResponseHead,
    body: Body,
    response: Result<Response, Error>,
    nothing: Result<Response, Error>,
)
    requires
        call_ensures(finish_response, (Some(head), body), response),
        call_ensures(finish_response, (None, body), nothing),
    ensures
        nothing is Err,
        response is Err <==> head.version is Unknown,
        response matches Ok(response) ==> {
            &&& response.status == head.status
            &&& response.headers@ == head.headers@
            &&& response.body == body
            &&& head.version is Http10 ==> response.version == Version::Http10
            &&& head.version is Http11 ==> response.version == Version::Http11
            &&& head.version is Http2 ==> response.version == Version::Http2
        },
{
}

/// A second attempt sends what the first one did.
pub proof fn retries_send_the_same_request(request: &Request, copy: Request)
    requires
        call_ensures(clone_request_for_retry, (request,), copy),
    ensures
        copy.method@ == request.method@,
        copy.uri@ == request.uri@,
        copy.version == request.version,
        copy.headers@ == request.headers@,
        copy.body@ == request.body@,
        copy.body.outbound() == request.body.outbound(),
{
}

/// A handler gets the request that was received: its method, its target, its
/// version and its fields, with the authority in the place of `host` where the
/// protocol has one.
pub proof fn received_requests_arrive_unchanged(
    head: ReceivedRequestHead,
    parts: RequestParts,
    alone: RequestHead,
    request: Request,
    other: Body,
    streamed: Request,
)
    requires
        call_ensures(request_parts, (head,), Ok(parts)),
        call_ensures(RequestParts::head_request, (&parts,), alone),
        call_ensures(RequestParts::into_request, (parts,), request),
        call_ensures(RequestParts::request_with_body, (&parts, other), streamed),
    ensures
        parts.method@.len() == head.method@.len(),
        forall|i: int|
            0 <= i < head.method@.len() ==> (#[trigger] parts.method@[i]) as int
                == head.method@[i] as int,
        head.version is Http10 ==> parts.version == Version::Http10,
        head.version is Http11 ==> parts.version == Version::Http11,
        head.version is Http2 ==> parts.version == Version::Http2,
        head.version !is Unknown,
        head.authority is None ==> parts.headers@ == crate::web::headers::fields_of(
            crate::web::headers::field_list(head.fields@),
        ),
        head.authority matches Some(authority) ==> {
            &&& parts.headers@.contains_key(ascii("host"@))
            &&& parts.headers@[ascii("host"@)] == seq![authority@]
            &&& forall|name: Seq<u8>|
                name != ascii("host"@) ==> #[trigger] same_values(
                    parts.headers@,
                    crate::web::headers::fields_of(crate::web::headers::field_list(head.fields@)),
                    name,
                )
        },
        parts.body@.len() == 0 && parts.trailers is None,
        alone.method@ == parts.method@ && request.method@ == parts.method@ && streamed.method@
            == parts.method@,
        alone.uri@ == parts.uri@ && request.uri@ == parts.uri@ && streamed.uri@ == parts.uri@,
        alone.version == parts.version && request.version == parts.version && streamed.version
            == parts.version,
        alone.headers@ == parts.headers@ && request.headers@ == parts.headers@ && streamed.headers@
            == parts.headers@,
        streamed.body == other,
{
}

/// A gathered request has the bytes and the trailers that were gathered.
pub proof fn gathered_requests_have_their_body(parts: RequestParts, request: Request)
    requires
        call_ensures(RequestParts::into_request, (parts,), request),
    ensures
        request.body@ == BodyView::Buffered(parts.body@),
        parts.trailers matches Some(trailers) ==> request.body.inbound() == Some(
            ReceivedView::Complete(trailers@),
        ),
        parts.trailers is None ==> request.body.inbound() is None,
{
}

proof fn items_without_commas(value: Seq<u8>)
    requires
        forall|i: int| 0 <= i < value.len() ==> value[i] != 44,
    ensures
        list_items(value) == seq![
            crate::web::headers::lowered(trimmed_back(trimmed_front(value))),
        ],
{
    item_end_is(value, value.len() as int);
    assert(value.take(value.len() as int) =~= value);
}

/// A list holds what its items hold: putting an item and a comma in front of a
/// list adds that item and no other.
pub proof fn lists_hold_their_items(
    item: &[u8],
    list: &[u8],
    joined: &[u8],
    token: &[u8],
    holds: (bool, bool, bool),
)
    requires
        forall|i: int| 0 <= i < item@.len() ==> item@[i] != 44,
        joined@ == item@ + seq![44u8] + list@,
        call_ensures(value_has_token, (item, token), holds.0),
        call_ensures(value_has_token, (list, token), holds.1),
        call_ensures(value_has_token, (joined, token), holds.2),
    ensures
        holds.2 == (holds.0 || holds.1),
{
    item_end_is(joined@, item@.len() as int);
    items_without_commas(item@);
    assert(joined@.take(item@.len() as int) =~= item@);
    assert(joined@.skip(item@.len() as int + 1) =~= list@);
    let front = list_items(item@);
    let rest = list_items(list@);
    assert(list_items(joined@) =~= front + rest);
    if front.contains(token@) {
        let i = choose|i: int| 0 <= i < front.len() && front[i] == token@;
        assert((front + rest)[i] == token@);
    }
    if rest.contains(token@) {
        let i = choose|i: int| 0 <= i < rest.len() && rest[i] == token@;
        assert((front + rest)[front.len() + i] == token@);
    }
    if (front + rest).contains(token@) {
        let i = choose|i: int| 0 <= i < (front + rest).len() && (front + rest)[i] == token@;
        if i < front.len() {
            assert(front[i] == token@);
        } else {
            assert(rest[i - front.len()] == token@);
        }
    }
}

/// A single item holds exactly itself, in whatever case, and a blank in front of
/// a list does not count.
pub proof fn items_hold_themselves(
    item: &[u8],
    list: &[u8],
    padded: &[u8],
    token: &[u8],
    holds: (bool, bool, bool),
)
    requires
        item@.len() > 0,
        forall|i: int|
            0 <= i < item@.len() ==> item@[i] != 44 && item@[i] != 32 && item@[i] != 9,
        padded@ == seq![32u8] + list@,
        call_ensures(value_has_token, (item, token), holds.0),
        call_ensures(value_has_token, (list, token), holds.1),
        call_ensures(value_has_token, (padded, token), holds.2),
    ensures
        holds.0 == (item@.len() == token@.len() && forall|i: int|
            0 <= i < item@.len() ==> (#[trigger] token@[i]) as int == if 65 <= item@[i] <= 90 {
                item@[i] + 32
            } else {
                item@[i] as int
            }),
        holds.2 == holds.1,
{
    items_without_commas(item@);
    assert(item@[0] != 44 && item@.last() != 44);
    let lower = crate::web::headers::lowered(item@);
    assert(list_items(item@) == seq![lower]);
    assert(seq![lower].contains(token@) == (lower == token@)) by {
        assert(seq![lower][0] == lower);
    }
    if lower == token@ {
        assert forall|i: int| 0 <= i < item@.len() implies (#[trigger] token@[i]) as int == if 65
            <= item@[i] <= 90 {
            item@[i] + 32
        } else {
            item@[i] as int
        } by {
            assert(token@[i] == lower[i]);
        }
    }
    if item@.len() == token@.len() && (forall|i: int|
        0 <= i < item@.len() ==> (#[trigger] token@[i]) as int == if 65 <= item@[i] <= 90 {
            item@[i] + 32
        } else {
            item@[i] as int
        }) {
        assert forall|i: int| 0 <= i < item@.len() implies lower[i] == token@[i] by {}
        assert(lower =~= token@);
    }
    item_end_bounds(list@);
    let end = item_end(list@);
    assert forall|i: int| 0 <= i < end + 1 implies padded@[i] != 44 by {
        if i > 0 {
            assert(padded@[i] == list@[i - 1]);
        }
    }
    item_end_is(padded@, end + 1);
    assert(padded@.take(end + 1).drop_first() =~= list@.take(end));
    if end < list@.len() {
        assert(padded@.skip(end + 2) =~= list@.skip(end + 1));
    }
}

/// A connection may serve another request unless it speaks HTTP/1.1 and one of
/// the values of `connection` holds `close`.
pub proof fn close_ends_http1_connections(headers: &Headers, allows: (bool, bool))
    requires
        call_ensures(request_allows_reuse, (headers, Protocol::Http1), allows.0),
        call_ensures(request_allows_reuse, (headers, Protocol::Http2PriorKnowledge), allows.1),
    ensures
        allows.1,
        !headers@.contains_key(ascii("connection"@)) ==> allows.0,
        headers@.contains_key(ascii("connection"@)) ==> (allows.0 <==> forall|i: int|
            0 <= i < headers@[ascii("connection"@)].len() ==> !list_items(
                #[trigger] headers@[ascii("connection"@)][i],
            ).contains(ascii("close"@))),
{
}

/// Credentials and cookies are marked as secrets, and nothing else is. The
/// driver gets the fields of the request.
pub proof fn secrets_are_marked(headers: &Headers, references: Vec<HeaderRef>)
    requires
        call_ensures(request_header_refs, (headers,), references),
    ensures
        forall|i: int|
            0 <= i < references@.len() ==> (#[trigger] references@[i]).sensitive == (
            references@[i].name@ == ascii("authorization"@) || references@[i].name@ == ascii(
                "cookie"@,
            )),
        crate::web::headers::fields_of(
            references@.map_values(|reference: HeaderRef| (reference.name@, reference.value@)),
        ) == headers@,
{
    assert(references@.map_values(|reference: HeaderRef| (reference.name@, reference.value@))
        =~= reference_list(references@));
}

/// A version that a driver names is that version, and one that it does not name
/// is an error.
pub proof fn named_versions_are_known(named: HttpVersion, version: Result<Version, Error>)
    requires
        call_ensures(HttpVersion::version, (named,), version),
    ensures
        version == Ok::<Version, Error>(Version::Http10) <==> named is Http10,
        version == Ok::<Version, Error>(Version::Http11) <==> named is Http11,
        version == Ok::<Version, Error>(Version::Http2) <==> named is Http2,
        version is Err <==> named is Unknown,
{
}

/// A request that is built and that the driver takes is what was told: its method,
/// its address, its body and the chosen version. One that the driver refuses is
/// refused for the reason that it gave, and one with a fault for its fault.
pub proof fn built_requests_are_as_told<J: FnOnce(&PreparedRequest) -> Result<(), HttpErrorInfo>>(
    builder: RequestBuilder,
    config: &ClientConfig,
    now: Instant,
    judge: J,
    built: Result<PreparedRequest, Error>,
    prepared: Result<PreparedRequest, Error>,
)
    requires
        call_ensures(RequestBuilder::build::<J>, (builder, config, now, judge), built),
        call_ensures(RequestBuilder::prepare, (builder, config, now), prepared),
        forall|request: PreparedRequest, verdict: Result<(), HttpErrorInfo>| #[trigger]
            judge.ensures((&request,), verdict) ==> verdict is Ok,
    ensures
        built is Ok <==> prepared is Ok,
        built matches Ok(request) ==> {
            &&& request.request.method@ == prepared->Ok_0.request.method@
            &&& request.request.uri@ == prepared->Ok_0.request.uri@
            &&& request.request.version == prepared->Ok_0.request.version
            &&& request.request.body == prepared->Ok_0.request.body
            &&& request.request.headers@ == prepared->Ok_0.request.headers@
        },
        built matches Err(error) ==> error@ == prepared->Err_0@,
{
}

/// A received head is taken exactly when its method, its target, its version, its
/// fields and its authority are all in order, and is refused for the first that
/// is not.
pub proof fn only_faulty_heads_are_refused(
    head: ReceivedRequestHead,
    parts: Result<RequestParts, Error>,
)
    requires
        call_ensures(request_parts, (head,), parts),
    ensures
        ({
            let method = crate::web::headers::valid_method(head.method@);
            let text = vstd::utf8::valid_utf8(head.target@);
            let uri = crate::web::uri::uri_of_text(vstd::utf8::decode_utf8(head.target@)) is Ok;
            let version = head.version !is Unknown;
            let fields = crate::web::headers::list_fault(
                crate::web::headers::field_list(head.fields@),
            ) is None;
            let authority = head.authority matches Some(authority)
                ==> crate::web::headers::valid_header_value(authority@);
            &&& parts is Ok <==> method && text && uri && version && fields && authority
            &&& !method ==> (parts matches Err(error) && (error@ matches ErrorView::Protocol(told)
                && told.kind is MalformedMessage))
            &&& method && !text ==> (parts matches Err(error) && (error@
                matches ErrorView::Protocol(told) && told.kind is InvalidHeader))
            &&& method && text && !uri ==> (parts matches Err(error) && error@ is InvalidUri)
            &&& method && text && uri && !version ==> (parts matches Err(error) && (error@
                matches ErrorView::Protocol(told) && told.kind is InvalidState))
            &&& method && text && uri && version && fields && !authority ==> (parts
                matches Err(error) && error@ is InvalidHeaderValue)
        }),
{
}

} // verus!
