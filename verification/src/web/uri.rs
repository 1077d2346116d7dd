//! Where a request goes.

use vstd::prelude::*;

use crate::errno::Errno;
use crate::web::error::Error;
use crate::web::error::ErrorView;
use crate::web::error::ResolutionErrorKind;

verus! {

/// The parts of a URI.
#[verifier::ext_equal]
pub struct UriView {
    /// The scheme.
    pub scheme: Option<Seq<char>>,
    /// The authority: user, host and port.
    pub authority: Option<Seq<char>>,
    /// The host of the authority.
    pub host: Seq<char>,
    /// The port of the authority.
    pub port: Option<u16>,
    /// The path with the query.
    pub path_and_query: Option<Seq<char>>,
}

/// The parts of a URI.
#[derive(Debug)]
pub struct Uri {
    scheme: Option<String>,
    authority: Option<String>,
    host: String,
    port: Option<u16>,
    path_and_query: Option<String>,
}

/// The view of an optional text.
pub open spec fn text_view(text: Option<String>) -> Option<Seq<char>> {
    match text {
        Some(text) => Some(text@),
        None => None,
    }
}

impl View for Uri {
    type V = UriView;

    closed spec fn view(&self) -> UriView {
        UriView {
            scheme: text_view(self.scheme),
            authority: text_view(self.authority),
            host: self.host@,
            port: self.port,
            path_and_query: text_view(self.path_and_query),
        }
    }
}

/// What the `http` crate reads out of a URI's text: the parts, or the message
/// that says what is wrong with it.
pub uninterp spec fn uri_of_text(text: Seq<char>) -> Result<UriView, Seq<char>>;

/// `http::Uri::from_str`, with the parts read by `scheme_str`, `authority` and
/// `path_and_query`, and the authority's by `as_str`, `host` and `port_u16`. A
/// URI without an authority has an empty host here.
#[verifier::external_body]
fn parse_uri(text: &str) -> (uri: Result<Uri, String>)
    ensures
        match uri {
            Ok(uri) => uri_of_text(text@) == Ok::<UriView, Seq<char>>(uri@),
            Err(message) => uri_of_text(text@) == Err::<UriView, Seq<char>>(message@),
        },
{
    let uri: http::Uri = text.parse().map_err(|error: http::uri::InvalidUri| error.to_string())?;
    Ok(
        Uri {
            scheme: uri.scheme_str().map(str::to_owned),
            authority: uri.authority().map(|authority| authority.as_str().to_owned()),
            host: uri.authority().map_or("", |authority| authority.host()).to_owned(),
            port: uri.authority().and_then(|authority| authority.port_u16()),
            path_and_query: uri.path_and_query().map(|path| path.as_str().to_owned()),
        },
    )
}

/// A copy of an optional text.
fn copy_text(text: &Option<String>) -> (copy: Option<String>)
    ensures
        copy == *text,
{
    match text {
        Some(text) => Some(text.clone()),
        None => None,
    }
}

impl Uri {
    /// Reads a URI.
    pub fn parse(text: &str) -> (uri: Result<Uri, Error>)
        ensures
            match uri {
                Ok(uri) => uri_of_text(text@) == Ok::<UriView, Seq<char>>(uri@),
                Err(error) => uri_of_text(text@) is Err && error@ == ErrorView::InvalidUri(
                    uri_of_text(text@)->Err_0,
                ),
            },
    {
        match parse_uri(text) {
            Ok(uri) => Ok(uri),
            Err(message) => Err(Error::InvalidUri(message)),
        }
    }

    /// A URI made of its parts.
    pub fn from_parts(
        scheme: Option<String>,
        authority: Option<String>,
        host: String,
        port: Option<u16>,
        path_and_query: Option<String>,
    ) -> (uri: Uri)
        ensures
            uri@ == (UriView {
                scheme: text_view(scheme),
                authority: text_view(authority),
                host: host@,
                port,
                path_and_query: text_view(path_and_query),
            }),
    {
        Uri { scheme, authority, host, port, path_and_query }
    }

    /// The same URI again.
    pub fn duplicate(&self) -> (uri: Uri)
        ensures
            uri@ == self@,
    {
        Uri {
            scheme: copy_text(&self.scheme),
            authority: copy_text(&self.authority),
            host: self.host.clone(),
            port: self.port,
            path_and_query: copy_text(&self.path_and_query),
        }
    }
}

/// Where a request goes.
#[verifier::ext_equal]
pub struct UriTargetView {
    /// The authority, as sent to the server.
    pub authority: Seq<char>,
    /// The path with the query.
    pub request_target: Seq<char>,
    /// Whether the connection is encrypted.
    pub tls: bool,
    /// The host to connect to.
    pub host: Seq<char>,
    /// The port to connect to.
    pub port: u16,
}

/// Where a request goes.
#[derive(Debug)]
pub struct UriTarget {
    /// The authority, as sent to the server.
    pub authority: String,
    /// The path with the query.
    pub request_target: String,
    /// Whether the connection is encrypted.
    pub tls: bool,
    /// The host to connect to.
    pub host: String,
    /// The port to connect to.
    pub port: u16,
}

impl View for UriTarget {
    type V = UriTargetView;

    open spec fn view(&self) -> UriTargetView {
        UriTargetView {
            authority: self.authority@,
            request_target: self.request_target@,
            tls: self.tls,
            host: self.host@,
            port: self.port,
        }
    }
}

/// The target of a URI: `http` and `https` only, an authority with a host, the
/// scheme's port by default, and `/` for a missing path.
pub open spec fn uri_target(uri: UriView) -> Result<UriTargetView, ErrorView> {
    let tls = uri.scheme == Some("https"@);
    if uri.scheme != Some("http"@) && !tls {
        Err(ErrorView::UnsupportedScheme(uri.scheme))
    } else if uri.authority is None || uri.host.len() == 0 {
        Err(ErrorView::MissingAuthority)
    } else {
        Ok(
            UriTargetView {
                authority: uri.authority->0,
                request_target: match uri.path_and_query {
                    Some(path) => path,
                    None => "/"@,
                },
                tls,
                host: uri.host,
                port: match uri.port {
                    Some(port) => port,
                    None => if tls {
                        443
                    } else {
                        80
                    },
                },
            },
        )
    }
}

impl UriTarget {
    /// Finds out where a request to `uri` goes.
    pub fn parse(uri: &Uri) -> (target: Result<UriTarget, Error>)
        ensures
            match target {
                Ok(target) => uri_target(uri@) == Ok::<UriTargetView, ErrorView>(target@),
                Err(error) => uri_target(uri@) == Err::<UriTargetView, ErrorView>(error@),
            },
    {
        let tls = match &uri.scheme {
            None => return Err(Error::UnsupportedScheme(None)),
            Some(scheme) => {
                let tls = *scheme == "https".to_owned();
                if *scheme != "http".to_owned() && !tls {
                    return Err(Error::UnsupportedScheme(Some(scheme.clone())));
                }
                tls
            },
        };
        let authority = match &uri.authority {
            None => return Err(Error::MissingAuthority),
            Some(authority) => authority.clone(),
        };
        if uri.host.as_str().is_empty() {
            return Err(Error::MissingAuthority);
        }
        let request_target = match &uri.path_and_query {
            Some(path) => path.clone(),
            None => "/".to_owned(),
        };
        let port: u16 = match uri.port {
            Some(port) => port,
            None => if tls {
                443
            } else {
                80
            },
        };
        proof {
            reveal_strlit("http");
            reveal_strlit("https");
        }
        Ok(UriTarget { authority, request_target, tls, host: uri.host.clone(), port })
    }

    /// The scheme of the target.
    pub fn scheme(&self) -> (scheme: &'static str)
        ensures
            scheme@ == if self@.tls {
                "https"@
            } else {
                "http"@
            },
    {
        if self.tls {
            "https"
        } else {
            "http"
        }
    }

    /// The same target again.
    pub fn duplicate(&self) -> (target: UriTarget)
        ensures
            target@ == self@,
    {
        UriTarget {
            authority: self.authority.clone(),
            request_target: self.request_target.clone(),
            tls: self.tls,
            host: self.host.clone(),
            port: self.port,
        }
    }

    /// Takes what a resolver answered for the host and port: its failure, and
    /// an answer without an address, become errors.
    pub fn resolve<A>(&self, answer: Result<Vec<A>, String>) -> (addresses: Result<Vec<A>, Error>)
        ensures
            match answer {
                Ok(found) => if found@.len() > 0 {
                    addresses == Ok::<Vec<A>, Error>(found)
                } else {
                    addresses matches Err(error) && error@ == ErrorView::AddressResolution {
                        authority: self@.authority,
                        kind: ResolutionErrorKind::NotFound,
                        message: "no addresses returned"@,
                    }
                },
                Err(message) => addresses matches Err(error) && error@
                    == ErrorView::AddressResolution {
                    authority: self@.authority,
                    kind: ResolutionErrorKind::Other,
                    message: message@,
                },
            },
    {
        match answer {
            Ok(found) => {
                if found.len() > 0 {
                    Ok(found)
                } else {
                    Err(
                        Error::AddressResolution {
                            authority: self.authority.clone(),
                            kind: ResolutionErrorKind::NotFound,
                            message: "no addresses returned".to_owned(),
                        },
                    )
                }
            },
            Err(message) => Err(
                Error::AddressResolution {
                    authority: self.authority.clone(),
                    kind: ResolutionErrorKind::Other,
                    message,
                },
            ),
        }
    }
}

/// The outcome of connecting to addresses one after the other: the first that
/// answers, or the failure of the last.
pub open spec fn connect_outcome<S>(attempts: Seq<Result<S, Errno>>) -> Option<Result<S, Errno>>
    decreases attempts.len(),
{
    if attempts.len() == 0 {
        None
    } else {
        match connect_outcome(attempts.drop_last()) {
            Some(Ok(socket)) => Some(Ok(socket)),
            _ => Some(attempts.last()),
        }
    }
}

/// Connecting to addresses one after the other.
pub struct Connect<S> {
    total: usize,
    tried: usize,
    outcome: Option<Result<S, Errno>>,
}

impl<S> Connect<S> {
    /// How many addresses there are.
    pub closed spec fn addresses(&self) -> nat {
        self.total as nat
    }

    /// How many addresses were tried.
    pub closed spec fn attempts(&self) -> nat {
        self.tried as nat
    }

    /// What came of it so far.
    pub closed spec fn result(&self) -> Option<Result<S, Errno>> {
        self.outcome
    }

    /// Nothing was tried yet.
    pub fn new(total: usize) -> (connect: Connect<S>)
        ensures
            connect.addresses() == total,
            connect.attempts() == 0,
            connect.result() == connect_outcome(Seq::<Result<S, Errno>>::empty()),
    {
        Connect { total, tried: 0, outcome: None }
    }

    /// The address to try next, unless one answered or none is left.
    pub fn next_address(&self) -> (index: Option<usize>)
        ensures
            index == if self.result() matches Some(Ok(_)) {
                None
            } else if self.attempts() < self.addresses() {
                Some(self.attempts() as usize)
            } else {
                None
            },
    {
        match &self.outcome {
            Some(Ok(_)) => None,
            _ => if self.tried < self.total {
                Some(self.tried)
            } else {
                None
            },
        }
    }

    /// Takes the outcome of one attempt.
    pub fn attempted(&mut self, attempt: Result<S, Errno>)
        requires
            old(self).attempts() < old(self).addresses(),
            !(old(self).result() matches Some(Ok(_))),
        ensures
            final(self).addresses() == old(self).addresses(),
            final(self).attempts() == old(self).attempts() + 1,
            final(self).result() == Some(attempt),
            forall|attempts: Seq<Result<S, Errno>>|
                old(self).result() == #[trigger] connect_outcome(attempts)
                    ==> final(self).result() == connect_outcome(attempts.push(attempt)),
    {
        self.tried = self.tried + 1;
        self.outcome = Some(attempt);
        assert forall|attempts: Seq<Result<S, Errno>>|
            old(self).result() == #[trigger] connect_outcome(
                attempts,
            ) implies final(self).result() == connect_outcome(attempts.push(attempt)) by {
            assert(attempts.push(attempt).drop_last() =~= attempts);
        }
    }

    /// The socket, or the failure of the last address.
    pub fn finish(self) -> (outcome: Result<S, Error>)
        requires
            self.result() is Some,
        ensures
            match self.result()->0 {
                Ok(socket) => outcome == Ok::<S, Error>(socket),
                Err(error) => outcome matches Err(http_error) && http_error@ == ErrorView::Io(
                    error,
                ),
            },
    {
        match self.outcome {
            Some(Ok(socket)) => Ok(socket),
            Some(Err(error)) => Err(Error::Io(error)),
            None => Err(Error::Canceled),
        }
    }
}

/// Connecting fails only when every address failed.
pub proof fn connect_fails_only_after_all<S>(attempts: Seq<Result<S, Errno>>)
    requires
        attempts.len() > 0,
    ensures
        connect_outcome(attempts) matches Some(Err(_)) ==> forall|i: int|
            0 <= i < attempts.len() ==> (#[trigger] attempts[i]) is Err,
        connect_outcome(attempts) is Some,
    decreases attempts.len(),
{
    if attempts.len() > 1 {
        connect_fails_only_after_all(attempts.drop_last());
        assert forall|i: int|
            connect_outcome(attempts) matches Some(Err(_)) && 0 <= i
                < attempts.len() implies (#[trigger] attempts[i]) is Err by {
            if i < attempts.len() - 1 {
                assert(attempts.drop_last()[i] == attempts[i]);
            }
        }
    }
}

/// A request goes to the host, the port and the path of its URI, encrypted for
/// `https` and in clear for `http`. A missing port is that of the scheme and a
/// missing path the root; any other scheme, and a URI without a host, is refused.
pub proof fn requests_go_where_their_uri_says(
    parts: (Option<String>, Option<String>, String, Option<u16>, Option<String>),
    uri: Uri,
    found: Result<UriTarget, Error>,
    scheme: &'static str,
)
    requires
        call_ensures(Uri::from_parts, (parts.0, parts.1, parts.2, parts.3, parts.4), uri),
        call_ensures(UriTarget::parse, (&uri,), found),
        found matches Ok(target) ==> call_ensures(UriTarget::scheme, (&target,), scheme),
    ensures
        found is Ok <==> {
            &&& parts.0 matches Some(scheme) && (scheme@ == "http"@ || scheme@ == "https"@)
            &&& parts.1 is Some
            &&& parts.2@.len() > 0
        },
        found matches Ok(target) ==> {
            &&& target.tls == (parts.0->0@ == "https"@)
            &&& scheme@ == parts.0->0@
            &&& target.host@ == parts.2@
            &&& target.authority@ == parts.1->0@
            &&& parts.3 matches Some(port) ==> target.port == port
            &&& parts.3 is None ==> target.port == if parts.0->0@ == "https"@ {
                443u16
            } else {
                80u16
            }
            &&& parts.4 matches Some(path) ==> target.request_target@ == path@
            &&& parts.4 is None ==> target.request_target@ == "/"@
        },
        found matches Err(error) ==> {
            &&& error@ is UnsupportedScheme || error@ is MissingAuthority
            &&& error@ is MissingAuthority ==> parts.0 is Some && (parts.1 is None
                || parts.2@.len() == 0)
        },
{
}

/// The addresses of a target are those that the resolver found, when it found
/// any.
pub proof fn resolved_addresses_are_those_found<A>(
    target: &UriTarget,
    found: Vec<A>,
    message: String,
    answers: (Result<Vec<A>, Error>, Result<Vec<A>, Error>),
)
    requires
        call_ensures(UriTarget::resolve::<A>, (target, Ok(found)), answers.0),
        call_ensures(UriTarget::resolve::<A>, (target, Err(message)), answers.1),
    ensures
        found@.len() > 0 ==> answers.0 == Ok::<Vec<A>, Error>(found),
        found@.len() == 0 ==> answers.0 is Err,
        answers.1 matches Err(error) && (error@ matches ErrorView::AddressResolution {
            authority,
            message: said,
            ..
        } && authority == target.authority@ && said == message@),
{
}

/// Addresses are tried in their order until one answers. The first that answers
/// is the one that is used, and the failure is that of the last.
pub proof fn addresses_are_tried_in_order<S>(
    total: usize,
    fresh: Connect<S>,
    trying: &mut Connect<S>,
    attempt: Result<S, Errno>,
    nexts: (Option<usize>, Option<usize>, Option<usize>),
    outcome: Result<S, Error>,
)
    requires
        call_ensures(Connect::<S>::new, (total,), fresh),
        call_ensures(Connect::<S>::next_address, (&fresh,), nexts.0),
        old(trying).attempts() < old(trying).addresses(),
        !(old(trying).result() matches Some(Ok(_))),
        call_ensures(Connect::<S>::next_address, (&*old(trying),), nexts.1),
        call_ensures(Connect::<S>::attempted, (trying, attempt), ()),
        call_ensures(Connect::<S>::next_address, (final(trying),), nexts.2),
        call_ensures(Connect::<S>::finish, (*final(trying),), outcome),
    ensures
        total > 0 ==> nexts.0 == Some(0usize),
        total == 0 ==> nexts.0 is None,
        nexts.1 matches Some(index) && index == old(trying).attempts(),
        attempt matches Ok(socket) ==> nexts.2 is None && outcome == Ok::<S, Error>(socket),
        attempt matches Err(errno) ==> {
            &&& old(trying).attempts() + 1 < old(trying).addresses() ==> (nexts.2 matches Some(
                index,
            ) && index == old(trying).attempts() + 1)
            &&& old(trying).attempts() + 1 == old(trying).addresses() ==> nexts.2 is None
            &&& outcome matches Err(error) && error@ == ErrorView::Io(errno)
        },
{
}

/// Copies of URIs and targets are the same.
pub proof fn copies_lead_to_the_same_place(
    uri: &Uri,
    target: &UriTarget,
    copies: (Uri, UriTarget),
)
    requires
        call_ensures(Uri::duplicate, (uri,), copies.0),
        call_ensures(UriTarget::duplicate, (target,), copies.1),
    ensures
        copies.0@ == uri@,
        copies.1.tls == target.tls && copies.1.port == target.port,
        copies.1.host@ == target.host@ && copies.1.authority@ == target.authority@,
        copies.1.request_target@ == target.request_target@,
{
}

} // verus!
