//! Header fields, methods, status codes and URIs.
//!
//! Header fields live in the `http` crate's `HeaderMap`. A name is kept in
//! lower case, and the values of one name keep the order in which they came.

use http::header::HeaderMap;
use http::header::HeaderName;
use http::header::HeaderValue;

use vstd::prelude::*;

use crate::web::error::Error;
use crate::web::error::ErrorView;

verus! {

/// The multimap of header fields, of the `http` crate.
#[verifier::external_type_specification]
#[verifier::external_body]
#[verifier::reject_recursive_types(T)]
pub struct ExHeaderMap<T>(http::header::HeaderMap<T>);

/// A header value, of the `http` crate.
#[verifier::external_type_specification]
#[verifier::external_body]
pub struct ExHeaderValue(http::header::HeaderValue);

/// How many names a header map holds at most before an insertion may be
/// refused.
pub const MAX_HEADER_NAMES: usize = 6553;

/// What a header map holds: for each name, its values in their order.
pub uninterp spec fn header_fields(headers: HeaderMap<HeaderValue>) -> Map<Seq<u8>, Seq<Seq<u8>>>;

/// A byte that may stand in a header name or a method.
pub open spec fn token_byte(byte: u8) -> bool {
    ||| 48 <= byte <= 57
    ||| 65 <= byte <= 90
    ||| 97 <= byte <= 122
    ||| byte == 33
    ||| 35 <= byte <= 39
    ||| byte == 42
    ||| byte == 43
    ||| byte == 45
    ||| byte == 46
    ||| 94 <= byte <= 96
    ||| byte == 124
    ||| byte == 126
}

/// A byte in lower case.
pub open spec fn lower_byte(byte: u8) -> u8 {
    if 65 <= byte <= 90 {
        (byte + 32) as u8
    } else {
        byte
    }
}

/// Bytes in lower case.
pub open spec fn lowered(bytes: Seq<u8>) -> Seq<u8> {
    bytes.map_values(|byte: u8| lower_byte(byte))
}

/// Whether bytes are a method.
pub open spec fn valid_method(bytes: Seq<u8>) -> bool {
    bytes.len() > 0 && forall|i: int| 0 <= i < bytes.len() ==> token_byte(#[trigger] bytes[i])
}

/// Whether bytes are a header name.
pub open spec fn valid_header_name(bytes: Seq<u8>) -> bool {
    valid_method(bytes) && bytes.len() <= 65_535
}

/// Whether bytes are a header value: no control characters but the tab.
pub open spec fn valid_header_value(bytes: Seq<u8>) -> bool {
    forall|i: int|
        0 <= i < bytes.len() ==> (#[trigger] bytes[i] >= 32 && bytes[i] != 127) || bytes[i] == 9
}

/// Whether a number is a status code.
pub open spec fn valid_status(status: int) -> bool {
    100 <= status <= 999
}

/// Fields after a value was added behind those of its name.
pub open spec fn fields_appended(
    fields: Map<Seq<u8>, Seq<Seq<u8>>>,
    name: Seq<u8>,
    value: Seq<u8>,
) -> Map<Seq<u8>, Seq<Seq<u8>>> {
    if fields.contains_key(name) {
        fields.insert(name, fields[name].push(value))
    } else {
        fields.insert(name, seq![value])
    }
}

/// No fields.
pub open spec fn no_fields() -> Map<Seq<u8>, Seq<Seq<u8>>> {
    Map::empty()
}

/// The fields of a list of names and values.
pub open spec fn fields_of(list: Seq<(Seq<u8>, Seq<u8>)>) -> Map<Seq<u8>, Seq<Seq<u8>>>
    decreases list.len(),
{
    if list.len() == 0 {
        Map::empty()
    } else {
        fields_appended(fields_of(list.drop_last()), lowered(list.last().0), list.last().1)
    }
}

/// One header field.
pub struct HeaderField {
    /// The name.
    pub name: Vec<u8>,
    /// The value.
    pub value: Vec<u8>,
}

impl View for HeaderField {
    type V = (Seq<u8>, Seq<u8>);

    open spec fn view(&self) -> (Seq<u8>, Seq<u8>) {
        (self.name@, self.value@)
    }
}

/// A list of fields as names and values.
pub open spec fn field_list(fields: Seq<HeaderField>) -> Seq<(Seq<u8>, Seq<u8>)> {
    fields.map_values(|field: HeaderField| field@)
}

/// `HeaderMap::new`: a map without fields.
#[verifier::external_body]
pub(crate) fn empty_headers() -> (headers: HeaderMap<HeaderValue>)
    ensures
        header_fields(headers) == no_fields(),
{
    HeaderMap::new()
}

/// `HeaderMap::append`: adds a value behind those of its name. The names and
/// values are ones that `HeaderName::from_bytes` and `HeaderValue::from_bytes`
/// accept, and the map holds few enough names never to refuse.
#[verifier::external_body]
pub(crate) fn append_header(headers: &mut HeaderMap<HeaderValue>, name: &[u8], value: &[u8])
    requires
        valid_header_name(name@),
        valid_header_value(value@),
        header_fields(*old(headers)).dom().finite(),
        header_fields(*old(headers)).dom().len() <= MAX_HEADER_NAMES,
    ensures
        header_fields(*final(headers)) == fields_appended(
            header_fields(*old(headers)),
            lowered(name@),
            value@,
        ),
{
    let name = HeaderName::from_bytes(name).expect("a valid header name");
    let value = HeaderValue::from_bytes(value).expect("a valid header value");
    headers.append(name, value);
}

/// `HeaderMap::insert`: makes a value the only one of its name.
#[verifier::external_body]
pub(crate) fn insert_header(headers: &mut HeaderMap<HeaderValue>, name: &[u8], value: &[u8])
    requires
        valid_header_name(name@),
        valid_header_value(value@),
        header_fields(*old(headers)).dom().finite(),
        header_fields(*old(headers)).dom().len() <= MAX_HEADER_NAMES,
    ensures
        header_fields(*final(headers)) == header_fields(*old(headers)).insert(
            lowered(name@),
            seq![value@],
        ),
{
    let name = HeaderName::from_bytes(name).expect("a valid header name");
    let value = HeaderValue::from_bytes(value).expect("a valid header value");
    headers.insert(name, value);
}

/// `HeaderMap::remove`: removes a name with all its values.
#[verifier::external_body]
pub(crate) fn remove_header(headers: &mut HeaderMap<HeaderValue>, name: &[u8])
    requires
        valid_header_name(name@),
    ensures
        header_fields(*final(headers)) == header_fields(*old(headers)).remove(lowered(name@)),
{
    headers.remove(HeaderName::from_bytes(name).expect("a valid header name"));
}

/// `HeaderMap::contains_key`: whether a name has a value.
#[verifier::external_body]
pub(crate) fn contains_header(headers: &HeaderMap<HeaderValue>, name: &[u8]) -> (contains: bool)
    requires
        valid_header_name(name@),
    ensures
        contains == header_fields(*headers).contains_key(lowered(name@)),
{
    headers.contains_key(HeaderName::from_bytes(name).expect("a valid header name"))
}

/// `HeaderMap::get_all`: the values of a name in their order.
#[verifier::external_body]
pub(crate) fn header_values(headers: &HeaderMap<HeaderValue>, name: &[u8]) -> (values: Vec<Vec<u8>>)
    requires
        valid_header_name(name@),
    ensures
        header_fields(*headers).contains_key(lowered(name@)) ==> values@.map_values(
            |value: Vec<u8>| value@,
        ) == header_fields(*headers)[lowered(name@)],
        !header_fields(*headers).contains_key(lowered(name@)) ==> values@.len() == 0,
{
    let name = HeaderName::from_bytes(name).expect("a valid header name");
    headers.get_all(name).iter().map(|value| value.as_bytes().to_vec()).collect()
}

/// `HeaderMap::iter`: every name with each of its values, in some order that
/// keeps the values of one name in theirs. Names come in lower case.
#[verifier::external_body]
pub(crate) fn header_list(headers: &HeaderMap<HeaderValue>) -> (list: Vec<HeaderField>)
    ensures
        fields_of(field_list(list@)) == header_fields(*headers),
        forall|i: int|
            0 <= i < list@.len() ==> (#[trigger] list@[i]).name@ == lowered(list@[i].name@),
{
    headers.iter().map(
        |(name, value)|
            HeaderField { name: name.as_str().as_bytes().to_vec(), value: value.as_bytes().to_vec() },
    ).collect()
}

/// `HeaderMap::clone`: a map with the same fields.
#[verifier::external_body]
pub(crate) fn copy_headers(headers: &HeaderMap<HeaderValue>) -> (copy: HeaderMap<HeaderValue>)
    ensures
        header_fields(copy) == header_fields(*headers),
{
    headers.clone()
}

/// `HeaderMap::extend` with another map: the fields of the other map replace
/// those of the same name.
#[verifier::external_body]
pub(crate) fn merge_headers(headers: &mut HeaderMap<HeaderValue>, other: HeaderMap<HeaderValue>)
    requires
        header_fields(*old(headers)).dom().finite(),
        header_fields(other).dom().finite(),
        header_fields(*old(headers)).dom().len() + header_fields(other).dom().len()
            <= MAX_HEADER_NAMES,
    ensures
        header_fields(*final(headers)) == header_fields(*old(headers)).union_prefer_right(
            header_fields(other),
        ),
{
    headers.extend(other);
}

/// `HeaderName::from_bytes`: the name in lower case, or `None` for bytes that
/// are no header name.
#[verifier::external_body]
pub(crate) fn parse_header_name(bytes: &[u8]) -> (name: Option<Vec<u8>>)
    ensures
        match name {
            Some(name) => valid_header_name(bytes@) && name@ == lowered(bytes@),
            None => !valid_header_name(bytes@),
        },
{
    HeaderName::from_bytes(bytes).ok().map(|name| name.as_str().as_bytes().to_vec())
}

/// `HeaderValue::from_bytes`: whether bytes are a header value.
#[verifier::external_body]
pub(crate) fn accepts_header_value(bytes: &[u8]) -> (accepts: bool)
    ensures
        accepts == valid_header_value(bytes@),
{
    HeaderValue::from_bytes(bytes).is_ok()
}

/// `StatusCode::from_u16`: whether a number is a status code.
#[verifier::external_body]
fn accepts_status(status: u16) -> (accepts: bool)
    ensures
        accepts == valid_status(status as int),
{
    http::StatusCode::from_u16(status).is_ok()
}

/// The words that `StatusCode::canonical_reason` has for a status code.
pub uninterp spec fn canonical_reason(status: u16) -> Option<Seq<char>>;

/// `StatusCode::canonical_reason`: the usual words for a status code, where
/// there are any. Which words is named, not spelled out.
#[verifier::external_body]
pub(crate) fn usual_reason(status: u16) -> (reason: Option<String>)
    requires
        valid_status(status as int),
    ensures
        match reason {
            Some(reason) => canonical_reason(status) == Some(reason@),
            None => canonical_reason(status) is None,
        },
{
    let code = http::StatusCode::from_u16(status).unwrap();
    code.canonical_reason().map(|reason| reason.to_owned())
}

/// Header fields.
pub struct Headers {
    inner: HeaderMap<HeaderValue>,
}

impl View for Headers {
    type V = Map<Seq<u8>, Seq<Seq<u8>>>;

    /// For each name in lower case, its values in their order.
    closed spec fn view(&self) -> Map<Seq<u8>, Seq<Seq<u8>>> {
        header_fields(self.inner)
    }
}

impl Headers {
    /// There are finitely many names.
    #[verifier::type_invariant]
    spec fn is_finite(self) -> bool {
        header_fields(self.inner).dom().finite()
    }

    /// No fields.
    pub fn new() -> (headers: Headers)
        ensures
            headers@ == no_fields(),
    {
        Headers { inner: empty_headers() }
    }

    /// Adds a value behind those of its name.
    pub fn append(self, name: &[u8], value: &[u8]) -> (headers: Headers)
        requires
            valid_header_name(name@),
            valid_header_value(value@),
            self@.dom().len() <= MAX_HEADER_NAMES,
        ensures
            headers@ == fields_appended(self@, lowered(name@), value@),
    {
        proof {
            use_type_invariant(&self);
        }
        let mut inner = self.inner;
        append_header(&mut inner, name, value);
        Headers { inner }
    }

    /// Makes a value the only one of its name.
    pub fn insert(self, name: &[u8], value: &[u8]) -> (headers: Headers)
        requires
            valid_header_name(name@),
            valid_header_value(value@),
            self@.dom().len() <= MAX_HEADER_NAMES,
        ensures
            headers@ == self@.insert(lowered(name@), seq![value@]),
            headers@.dom().finite(),
            headers@.dom().len() <= self@.dom().len() + 1,
    {
        proof {
            use_type_invariant(&self);
        }
        let mut inner = self.inner;
        insert_header(&mut inner, name, value);
        Headers { inner }
    }

    /// Removes a name with all its values.
    pub fn remove(self, name: &[u8]) -> (headers: Headers)
        requires
            valid_header_name(name@),
        ensures
            headers@ == self@.remove(lowered(name@)),
            headers@.dom().finite(),
            headers@.dom().len() <= self@.dom().len(),
    {
        proof {
            use_type_invariant(&self);
        }
        let mut inner = self.inner;
        remove_header(&mut inner, name);
        Headers { inner }
    }

    /// Whether a name has a value.
    pub fn contains(&self, name: &[u8]) -> (contains: bool)
        requires
            valid_header_name(name@),
        ensures
            contains == self@.contains_key(lowered(name@)),
    {
        contains_header(&self.inner, name)
    }

    /// The values of a name in their order.
    pub fn values(&self, name: &[u8]) -> (values: Vec<Vec<u8>>)
        requires
            valid_header_name(name@),
        ensures
            values@.map_values(|value: Vec<u8>| value@) == if self@.contains_key(lowered(name@)) {
                self@[lowered(name@)]
            } else {
                Seq::empty()
            },
    {
        let values = header_values(&self.inner, name);
        proof {
            if !self@.contains_key(lowered(name@)) {
                assert(values@.map_values(|value: Vec<u8>| value@) =~= Seq::empty());
            }
        }
        values
    }

    /// Every field, in some order that keeps the values of one name in theirs.
    pub fn list(&self) -> (list: Vec<HeaderField>)
        ensures
            fields_of(field_list(list@)) == self@,
            forall|i: int|
                0 <= i < list@.len() ==> (#[trigger] list@[i]).name@ == lowered(list@[i].name@),
    {
        header_list(&self.inner)
    }

    /// The same fields again.
    pub fn duplicate(&self) -> (headers: Headers)
        ensures
            headers@ == self@,
            headers@.dom().finite(),
    {
        proof {
            use_type_invariant(self);
        }
        Headers { inner: copy_headers(&self.inner) }
    }

    /// Takes over fields, which replace those of the same name.
    pub fn merge(self, other: Headers) -> (headers: Headers)
        requires
            self@.dom().len() + other@.dom().len() <= MAX_HEADER_NAMES,
        ensures
            headers@ == self@.union_prefer_right(other@),
    {
        proof {
            use_type_invariant(&self);
            use_type_invariant(&other);
            assert(self@.union_prefer_right(other@).dom() =~= self@.dom().union(other@.dom()));
        }
        let mut inner = self.inner;
        merge_headers(&mut inner, other.inner);
        Headers { inner }
    }

    /// Takes the map of the `http` crate out.
    pub fn into_inner(self) -> (inner: HeaderMap<HeaderValue>)
        ensures
            header_fields(inner) == self@,
    {
        self.inner
    }
}

/// Why a field is refused. The name is looked at first.
pub open spec fn field_fault(field: (Seq<u8>, Seq<u8>)) -> Option<ErrorView> {
    if !valid_header_name(field.0) {
        Some(ErrorView::InvalidHeaderName)
    } else if !valid_header_value(field.1) {
        Some(ErrorView::InvalidHeaderValue)
    } else {
        None
    }
}

/// Why a list of fields is refused: the fault of the first field that has one.
pub open spec fn list_fault(list: Seq<(Seq<u8>, Seq<u8>)>) -> Option<ErrorView>
    decreases list.len(),
{
    if list.len() == 0 {
        None
    } else if list_fault(list.drop_last()) is Some {
        list_fault(list.drop_last())
    } else {
        field_fault(list.last())
    }
}

proof fn list_fault_is_early(list: Seq<(Seq<u8>, Seq<u8>)>, count: int)
    requires
        0 <= count <= list.len(),
        list_fault(list.take(count)) is Some,
    ensures
        list_fault(list) == list_fault(list.take(count)),
    decreases list.len(),
{
    if count == list.len() {
        assert(list.take(count) =~= list);
    } else {
        assert(list.drop_last().take(count) =~= list.take(count));
        list_fault_is_early(list.drop_last(), count);
    }
}

/// A list has no more names than entries.
pub proof fn few_names(list: Seq<(Seq<u8>, Seq<u8>)>)
    ensures
        fields_of(list).dom().finite(),
        fields_of(list).dom().len() <= list.len(),
    decreases list.len(),
{
    if list.len() > 0 {
        few_names(list.drop_last());
    }
}

/// A single field, checked and with its name in lower case.
fn checked_field(field: &HeaderField) -> (name: Result<Vec<u8>, Error>)
    ensures
        match name {
            Ok(name) => field_fault(field@) is None && name@ == lowered(field.name@),
            Err(error) => field_fault(field@) == Some(error@),
        },
{
    match parse_header_name(field.name.as_slice()) {
        None => Err(Error::InvalidHeaderName),
        Some(name) => {
            if accepts_header_value(field.value.as_slice()) {
                Ok(name)
            } else {
                Err(Error::InvalidHeaderValue)
            }
        },
    }
}

/// Collects received fields.
pub fn convert_headers(fields: &Vec<HeaderField>) -> (headers: Result<Headers, Error>)
    requires
        fields@.len() <= MAX_HEADER_NAMES,
    ensures
        match headers {
            Ok(headers) => {
                &&& list_fault(field_list(fields@)) is None
                &&& headers@ == fields_of(field_list(fields@))
            },
            Err(error) => list_fault(field_list(fields@)) == Some(error@),
        },
{
    let mut headers = Headers::new();
    let mut index: usize = 0;
    let ghost list = field_list(fields@);
    assert(list.take(0) =~= Seq::empty());
    while index < fields.len()
        invariant
            list == field_list(fields@),
            index <= fields@.len() <= MAX_HEADER_NAMES,
            headers@ == fields_of(list.take(index as int)),
            list_fault(list.take(index as int)) is None,
        decreases fields@.len() - index,
    {
        let ghost seen = list.take(index as int + 1);
        proof {
            assert(seen.drop_last() =~= list.take(index as int));
            assert(seen.last() == fields@[index as int]@);
            few_names(list.take(index as int));
        }
        match checked_field(&fields[index]) {
            Err(error) => {
                proof {
                    list_fault_is_early(list, index as int + 1);
                }
                return Err(error);
            },
            Ok(_name) => {
                headers = headers.append(
                    fields[index].name.as_slice(),
                    fields[index].value.as_slice(),
                );
            },
        }
        index = index + 1;
    }
    assert(list.take(index as int) =~= list);
    Ok(headers)
}

/// An HTTP method.
#[derive(Debug)]
pub struct Method {
    name: String,
}

impl View for Method {
    type V = Seq<char>;

    /// The method's name.
    closed spec fn view(&self) -> Seq<char> {
        self.name@
    }
}

/// `Method::from_bytes` and `Method::as_str`: the method's name, or `None` for
/// bytes that are no method.
#[verifier::external_body]
fn parse_method(bytes: &[u8]) -> (name: Option<String>)
    ensures
        match name {
            Some(name) => valid_method(bytes@) && name@ == bytes@.map_values(
                |byte: u8| byte as char,
            ),
            None => !valid_method(bytes@),
        },
{
    http::Method::from_bytes(bytes).ok().map(|method| method.as_str().to_owned())
}

/// Whether a method may be repeated without changing the outcome.
pub open spec fn idempotent_method(name: Seq<char>) -> bool {
    name == "GET"@ || name == "HEAD"@ || name == "OPTIONS"@ || name == "TRACE"@ || name == "PUT"@
        || name == "DELETE"@
}

impl Method {
    /// Reads a method.
    pub fn from_bytes(bytes: &[u8]) -> (method: Result<Method, Error>)
        ensures
            match method {
                Ok(method) => valid_method(bytes@) && method@ == bytes@.map_values(
                    |byte: u8| byte as char,
                ),
                Err(error) => !valid_method(bytes@) && error@ == ErrorView::Protocol(
                    crate::web::error::ProtocolErrorView {
                        kind: crate::web::error::ProtocolErrorKind::MalformedMessage,
                        detail: "invalid HTTP method: invalid HTTP method"@,
                        source: None,
                    },
                ),
            },
    {
        match parse_method(bytes) {
            Some(name) => Ok(Method { name }),
            None => Err(
                Error::protocol(
                    crate::web::error::ProtocolErrorKind::MalformedMessage,
                    "invalid HTTP method: invalid HTTP method",
                ),
            ),
        }
    }

    /// `GET`.
    pub fn get() -> (method: Method)
        ensures
            method@ == "GET"@,
    {
        Method { name: "GET".to_owned() }
    }

    /// `POST`.
    pub fn post() -> (method: Method)
        ensures
            method@ == "POST"@,
    {
        Method { name: "POST".to_owned() }
    }

    /// The method's name.
    pub fn as_str(&self) -> (name: &str)
        ensures
            name@ == self@,
    {
        self.name.as_str()
    }

    /// The same method again.
    pub fn duplicate(&self) -> (method: Method)
        ensures
            method@ == self@,
    {
        Method { name: self.name.clone() }
    }

    fn is(&self, name: &str) -> (is: bool)
        ensures
            is == (self@ == name@),
    {
        self.name == name.to_owned()
    }
}

/// Whether a request with this method may be repeated without changing the
/// outcome.
pub fn is_idempotent(method: &Method) -> (idempotent: bool)
    ensures
        idempotent == idempotent_method(method@),
{
    method.is("GET") || method.is("HEAD") || method.is("OPTIONS") || method.is("TRACE")
        || method.is("PUT") || method.is("DELETE")
}

/// Checks a received status code.
pub fn checked_status(status: u16) -> (checked: Result<u16, Error>)
    ensures
        match checked {
            Ok(checked) => checked == status && valid_status(status as int),
            Err(error) => !valid_status(status as int) && error@ == ErrorView::Protocol(
                crate::web::error::ProtocolErrorView {
                    kind: crate::web::error::ProtocolErrorKind::MalformedMessage,
                    detail: "invalid response status: invalid status code"@,
                    source: None,
                },
            ),
        },
{
    if accepts_status(status) {
        Ok(status)
    } else {
        Err(
            Error::protocol(
                crate::web::error::ProtocolErrorKind::MalformedMessage,
                "invalid response status: invalid status code",
            ),
        )
    }
}

/// Appending to one name leaves the values of every other name alone.
pub proof fn append_keeps_other_names(
    fields: Map<Seq<u8>, Seq<Seq<u8>>>,
    name: Seq<u8>,
    value: Seq<u8>,
    other: Seq<u8>,
)
    requires
        other != name,
    ensures
        fields_appended(fields, name, value).contains_key(other) == fields.contains_key(other),
        fields.contains_key(other) ==> fields_appended(fields, name, value)[other]
            == fields[other],
        fields_appended(fields, name, value)[name].last() == value,
{
}

/// Bytes in lower case are the same bytes with the letters `A` to `Z` turned into
/// `a` to `z`.
pub proof fn lower_case_changes_letters_only(bytes: Seq<u8>, index: int)
    requires
        0 <= index < bytes.len(),
    ensures
        lowered(bytes).len() == bytes.len(),
        65 <= bytes[index] <= 90 ==> lowered(bytes)[index] == bytes[index] + 32,
        !(65 <= bytes[index] <= 90) ==> lowered(bytes)[index] == bytes[index],
        lowered(lowered(bytes)) == lowered(bytes),
{
    assert(lowered(lowered(bytes)) =~= lowered(bytes));
}

/// The fields of a list hold, for each name whatever its case, the values of that
/// name in the order of the list.
pub proof fn lists_keep_the_order_of_values(list: Seq<(Seq<u8>, Seq<u8>)>, name: Seq<u8>)
    ensures
        ({
            let named = list.filter(|field: (Seq<u8>, Seq<u8>)| lowered(field.0) == name);
            &&& fields_of(list).contains_key(name) <==> named.len() > 0
            &&& fields_of(list).contains_key(name) ==> fields_of(list)[name] == named.map_values(
                |field: (Seq<u8>, Seq<u8>)| field.1,
            )
        }),
    decreases list.len(),
{
    reveal(Seq::filter);
    if list.len() > 0 {
        lists_keep_the_order_of_values(list.drop_last(), name);
        let before = list.drop_last().filter(
            |field: (Seq<u8>, Seq<u8>)| lowered(field.0) == name,
        );
        assert(before.push(list.last()).map_values(|field: (Seq<u8>, Seq<u8>)| field.1)
            =~= before.map_values(|field: (Seq<u8>, Seq<u8>)| field.1).push(list.last().1));
        if before.len() == 0 {
            assert(before.map_values(|field: (Seq<u8>, Seq<u8>)| field.1)
                =~= Seq::<Seq<u8>>::empty());
            assert(Seq::<Seq<u8>>::empty().push(list.last().1) =~= seq![list.last().1]);
        }
    }
}

/// A list of fields is taken exactly when every name is a header name and every
/// value a header value.
pub proof fn faulty_lists_are_refused(list: Seq<(Seq<u8>, Seq<u8>)>)
    ensures
        list_fault(list) is None <==> forall|i: int|
            0 <= i < list.len() ==> valid_header_name((#[trigger] list[i]).0)
                && valid_header_value(list[i].1),
        list_fault(list) is Some ==> list_fault(list) == Some(ErrorView::InvalidHeaderName)
            || list_fault(list) == Some(ErrorView::InvalidHeaderValue),
    decreases list.len(),
{
    if list.len() > 0 {
        faulty_lists_are_refused(list.drop_last());
        assert forall|i: int| 0 <= i < list.len() - 1 implies list.drop_last()[i]
            == #[trigger] list[i] by {}
    }
}

/// Received fields are collected as they came: each name has its values in the
/// order in which they were received.
pub proof fn received_fields_are_collected(
    fields: &Vec<HeaderField>,
    name: Seq<u8>,
    collected: Result<Headers, Error>,
)
    requires
        call_ensures(convert_headers, (fields,), collected),
    ensures
        collected is Ok <==> forall|i: int|
            0 <= i < fields@.len() ==> valid_header_name((#[trigger] fields@[i]).name@)
                && valid_header_value(fields@[i].value@),
        collected matches Ok(headers) ==> ({
            let named = field_list(fields@).filter(
                |field: (Seq<u8>, Seq<u8>)| lowered(field.0) == name,
            );
            &&& headers@.contains_key(name) <==> named.len() > 0
            &&& headers@.contains_key(name) ==> headers@[name] == named.map_values(
                |field: (Seq<u8>, Seq<u8>)| field.1,
            )
        }),
{
    let list = field_list(fields@);
    faulty_lists_are_refused(list);
    lists_keep_the_order_of_values(list, name);
    if collected is Ok {
        assert forall|i: int| 0 <= i < fields@.len() implies valid_header_name(
            (#[trigger] fields@[i]).name@,
        ) && valid_header_value(fields@[i].value@) by {
            assert(list[i] == fields@[i]@);
        }
    }
    if forall|i: int|
        0 <= i < fields@.len() ==> valid_header_name((#[trigger] fields@[i]).name@)
            && valid_header_value(fields@[i].value@) {
        assert forall|i: int| 0 <= i < list.len() implies valid_header_name((#[trigger] list[i]).0)
            && valid_header_value(list[i].1) by {
            assert(list[i] == fields@[i]@);
        }
    }
}

/// An appended value stands behind those of its name, an inserted one stands
/// alone, a removed name has none, and a name is found whatever its case.
pub proof fn fields_are_found_as_they_were_set(
    headers: Headers,
    name: &[u8],
    value: &[u8],
    after: (Headers, Headers, Headers),
    values: (Vec<Vec<u8>>, Vec<Vec<u8>>, Vec<Vec<u8>>),
    contains: (bool, bool, bool),
)
    requires
        call_ensures(Headers::values, (&headers, name), values.0),
        call_ensures(Headers::append, (headers, name, value), after.0),
        call_ensures(Headers::values, (&after.0, name), values.1),
        call_ensures(Headers::contains, (&after.0, name), contains.0),
        call_ensures(Headers::insert, (headers, name, value), after.1),
        call_ensures(Headers::values, (&after.1, name), values.2),
        call_ensures(Headers::contains, (&after.1, name), contains.1),
        call_ensures(Headers::remove, (headers, name), after.2),
        call_ensures(Headers::contains, (&after.2, name), contains.2),
    ensures
        contains.0 && contains.1 && !contains.2,
        values.1@.map_values(|value: Vec<u8>| value@) == values.0@.map_values(
            |value: Vec<u8>| value@,
        ) + seq![value@],
        values.2@.map_values(|value: Vec<u8>| value@) == seq![value@],
        forall|other: Seq<u8>|
            other != lowered(name@) ==> #[trigger] after.0@.contains_key(other)
                == headers@.contains_key(other) && (headers@.contains_key(other)
                ==> after.0@[other] == headers@[other]),
        forall|other: Seq<u8>|
            other != lowered(name@) ==> #[trigger] after.1@.contains_key(other)
                == headers@.contains_key(other) && (headers@.contains_key(other)
                ==> after.1@[other] == headers@[other]),
        forall|other: Seq<u8>|
            other != lowered(name@) ==> #[trigger] after.2@.contains_key(other)
                == headers@.contains_key(other) && (headers@.contains_key(other)
                ==> after.2@[other] == headers@[other]),
{
    let lower = lowered(name@);
    if headers@.contains_key(lower) {
        assert(headers@[lower].push(value@) =~= headers@[lower] + seq![value@]);
    } else {
        assert(seq![value@] =~= Seq::<Seq<u8>>::empty() + seq![value@]);
    }
}

/// New headers have no field, a copy has the same ones, and merged ones replace
/// those of their names.
pub proof fn headers_start_empty_and_merge(
    fresh: Headers,
    left: Headers,
    right: Headers,
    merged: Headers,
    copy: Headers,
    name: Seq<u8>,
)
    requires
        call_ensures(Headers::new, (), fresh),
        call_ensures(Headers::merge, (left, right), merged),
        call_ensures(Headers::duplicate, (&left,), copy),
    ensures
        !fresh@.contains_key(name),
        copy@ == left@,
        merged@.contains_key(name) <==> left@.contains_key(name) || right@.contains_key(name),
        right@.contains_key(name) ==> merged@[name] == right@[name],
        left@.contains_key(name) && !right@.contains_key(name) ==> merged@[name] == left@[name],
{
}

/// Listing fields and collecting them again gives the same fields.
pub proof fn listed_fields_are_all_fields(
    headers: Headers,
    list: Vec<HeaderField>,
    collected: Headers,
)
    requires
        call_ensures(Headers::list, (&headers,), list),
        call_ensures(convert_headers, (&list,), Ok(collected)),
    ensures
        collected@ == headers@,
{
}

/// A status code has three digits, and is taken as it is.
pub proof fn statuses_have_three_digits(status: u16, checked: Result<u16, Error>)
    requires
        call_ensures(checked_status, (status,), checked),
    ensures
        checked is Ok <==> 100 <= status && status < 1000,
        checked matches Ok(taken) ==> taken == status,
{
}

/// The methods that may be repeated are those that change nothing, or set or
/// delete as a whole. `POST` is none of them.
pub proof fn repeatable_methods_are_known(method: &Method, idempotent: bool, post: Method, posted: bool)
    requires
        call_ensures(is_idempotent, (method,), idempotent),
        call_ensures(Method::post, (), post),
        call_ensures(is_idempotent, (&post,), posted),
    ensures
        method@ == "GET"@ || method@ == "HEAD"@ || method@ == "OPTIONS"@ || method@ == "TRACE"@
            || method@ == "PUT"@ || method@ == "DELETE"@ <==> idempotent,
        !posted,
{
    reveal_strlit("POST");
    reveal_strlit("GET");
    reveal_strlit("HEAD");
    reveal_strlit("OPTIONS");
    reveal_strlit("TRACE");
    reveal_strlit("PUT");
    reveal_strlit("DELETE");
    assert("POST"@.len() == 4 && "HEAD"@.len() == 4);
    assert("POST"@[0] != "HEAD"@[0]);
}

/// A method is read as it is written.
pub proof fn methods_are_read_as_written(
    bytes: &[u8],
    read: Result<Method, Error>,
    copy: Method,
    known: (Method, Method),
)
    requires
        call_ensures(Method::from_bytes, (bytes,), read),
        read matches Ok(method) ==> call_ensures(Method::duplicate, (&method,), copy),
        call_ensures(Method::get, (), known.0),
        call_ensures(Method::post, (), known.1),
    ensures
        read is Ok <==> bytes@.len() > 0 && forall|i: int|
            0 <= i < bytes@.len() ==> token_byte(#[trigger] bytes@[i]),
        read matches Ok(method) ==> method@.len() == bytes@.len() && (forall|i: int|
            0 <= i < bytes@.len() ==> (#[trigger] method@[i]) as int == bytes@[i] as int) && copy@
            == method@,
        known.0@ == "GET"@ && known.1@ == "POST"@,
{
}

/// Names are made of letters, digits and a few marks; blanks, control characters
/// and the marks that separate are none of them.
pub proof fn names_hold_no_separators(byte: u8)
    ensures
        byte <= 32 || byte >= 127 ==> !token_byte(byte),
        48 <= byte <= 57 || 65 <= byte <= 90 || 97 <= byte <= 122 ==> token_byte(byte),
        byte == 34 || byte == 40 || byte == 41 || byte == 44 || byte == 47 || (58 <= byte <= 64)
            || (91 <= byte <= 93) || byte == 123 || byte == 125 ==> !token_byte(byte),
        byte == 33 || (35 <= byte <= 39) || byte == 42 || byte == 43 || byte == 45 || byte == 46
            || (94 <= byte <= 96) || byte == 124 || byte == 126 ==> token_byte(byte),
        valid_header_value(seq![byte]) <==> byte == 9 || (32 <= byte && byte != 127),
{
    assert(seq![byte][0] == byte);
}

/// The name of a method is its text, and headers give out the fields that they
/// hold.
pub proof fn methods_and_headers_are_given_out(
    method: &Method,
    name: &str,
    headers: Headers,
    inner: HeaderMap<HeaderValue>,
)
    requires
        call_ensures(Method::as_str, (method,), name),
        call_ensures(Headers::into_inner, (headers,), inner),
    ensures
        name@ == method@,
        header_fields(inner) == headers@,
{
}

} // verus!
