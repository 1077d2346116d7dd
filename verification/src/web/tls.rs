//! TLS contexts and the choice of an application protocol (ALPN).

use openssl::error::ErrorStack;
use openssl::ssl::AlpnError;
use openssl::ssl::SslContext;
use openssl::ssl::SslContextBuilder;

use vstd::prelude::*;
use vstd::slice::slice_subrange;

use crate::web::config::Protocol;
use crate::web::error::Error;
use crate::web::error::ErrorView;

verus! {

/// A TLS context under construction, of the `openssl` crate.
#[verifier::external_type_specification]
#[verifier::external_body]
pub struct ExSslContextBuilder(openssl::ssl::SslContextBuilder);

/// A TLS context, of the `openssl` crate.
#[verifier::external_type_specification]
#[verifier::external_body]
pub struct ExSslContext(openssl::ssl::SslContext);

/// The errors that OpenSSL reported, of the `openssl` crate.
#[verifier::external_type_specification]
#[verifier::external_body]
pub struct ExErrorStack(openssl::error::ErrorStack);

/// An HTTP application protocol advertised or selected with TLS ALPN.
#[derive(Clone, Copy, Debug, PartialEq, Eq, Structural)]
pub enum AlpnProtocol {
    /// HTTP/1.1 (`http/1.1`).
    Http11,
    /// HTTP/2 (`h2`).
    H2,
}

/// The ALPN name of HTTP/1.1, `http/1.1`.
pub open spec fn http11_name() -> Seq<u8> {
    seq![104u8, 116u8, 116u8, 112u8, 47u8, 49u8, 46u8, 49u8]
}

/// The ALPN name of HTTP/2, `h2`.
pub open spec fn h2_name() -> Seq<u8> {
    seq![104u8, 50u8]
}

impl AlpnProtocol {
    /// The protocol's ALPN name.
    pub open spec fn name(self) -> Seq<u8> {
        match self {
            AlpnProtocol::Http11 => http11_name(),
            AlpnProtocol::H2 => h2_name(),
        }
    }

    /// Returns the protocol's ALPN name without its length prefix.
    pub fn wire_name(self) -> (name: &'static [u8])
        ensures
            name@ == self.name(),
            0 < name@.len() < 256,
    {
        match self {
            AlpnProtocol::Http11 => &[104u8, 116u8, 116u8, 112u8, 47u8, 49u8, 46u8, 49u8],
            AlpnProtocol::H2 => &[104u8, 50u8],
        }
    }
}

impl From<AlpnProtocol> for Protocol {
    fn from(protocol: AlpnProtocol) -> (wire: Protocol) {
        match protocol {
            AlpnProtocol::Http11 => Protocol::Http1,
            AlpnProtocol::H2 => Protocol::Http2PriorKnowledge,
        }
    }
}

impl vstd::std_specs::convert::FromSpecImpl<AlpnProtocol> for Protocol {
    open spec fn obeys_from_spec() -> bool {
        true
    }

    open spec fn from_spec(protocol: AlpnProtocol) -> Protocol {
        match protocol {
            AlpnProtocol::Http11 => Protocol::Http1,
            AlpnProtocol::H2 => Protocol::Http2PriorKnowledge,
        }
    }
}

/// A list of protocols on the wire: each name behind its length.
pub open spec fn alpn_wire(protocols: Seq<AlpnProtocol>) -> Seq<u8>
    decreases protocols.len(),
{
    if protocols.len() == 0 {
        Seq::empty()
    } else {
        alpn_wire(protocols.drop_last()).push(protocols.last().name().len() as u8)
            + protocols.last().name()
    }
}

/// The names in a list of protocols on the wire. The list ends at an empty
/// name or at one that is cut short.
pub open spec fn alpn_names(wire: Seq<u8>) -> Seq<Seq<u8>>
    decreases wire.len(),
{
    if wire.len() == 0 || wire[0] == 0 || wire.len() <= wire[0] {
        Seq::empty()
    } else {
        seq![wire.subrange(1, 1 + wire[0])] + alpn_names(wire.skip(1 + wire[0]))
    }
}

/// The first name of `server` that `client` has too.
pub open spec fn alpn_choice(server: Seq<Seq<u8>>, client: Seq<Seq<u8>>) -> Option<Seq<u8>>
    decreases server.len(),
{
    if server.len() == 0 {
        None
    } else if client.contains(server[0]) {
        Some(server[0])
    } else {
        alpn_choice(server.drop_first(), client)
    }
}

/// Walks the names in a list of protocols on the wire.
pub struct ProtocolIter<'a> {
    remaining: &'a [u8],
}

impl<'a> ProtocolIter<'a> {
    /// The names that are left.
    pub closed spec fn names(&self) -> Seq<Seq<u8>> {
        alpn_names(self.remaining@)
    }

    /// How many bytes are left.
    pub closed spec fn bytes_left(&self) -> nat {
        self.remaining@.len()
    }

    /// Starts at the first name.
    pub fn new(protocols: &'a [u8]) -> (iter: ProtocolIter<'a>)
        ensures
            iter.names() == alpn_names(protocols@),
    {
        ProtocolIter { remaining: protocols }
    }

    /// Takes the next name.
    pub fn next(&mut self) -> (name: Option<&'a [u8]>)
        ensures
            match name {
                Some(name) => old(self).names().len() > 0 && name@ == old(self).names()[0]
                    && final(self).names() == old(self).names().drop_first(),
                None => old(self).names().len() == 0 && final(self).names().len() == 0,
            },
            name is Some ==> final(self).bytes_left() < old(self).bytes_left(),
    {
        let wire: &'a [u8] = self.remaining;
        if wire.len() == 0 {
            return None;
        }
        let length: usize = wire[0] as usize;
        if length == 0 || wire.len() - 1 < length {
            self.remaining = slice_subrange(wire, 0, 0);
            return None;
        }
        self.remaining = slice_subrange(wire, 1 + length, wire.len());
        proof {
            assert(self.remaining@ =~= wire@.skip(1 + length as int));
            let names = alpn_names(wire@);
            assert(names.drop_first() =~= alpn_names(self.remaining@));
        }
        Some(slice_subrange(wire, 1, 1 + length))
    }
}

/// Whether two byte strings are equal.
pub fn bytes_equal(left: &[u8], right: &[u8]) -> (equal: bool)
    ensures
        equal == (left@ == right@),
{
    if left.len() != right.len() {
        return false;
    }
    let mut index: usize = 0;
    while index < left.len()
        invariant
            left@.len() == right@.len(),
            index <= left@.len(),
            forall|i: int| 0 <= i < index ==> left@[i] == right@[i],
        decreases left@.len() - index,
    {
        if left[index] != right[index] {
            assert(left@[index as int] != right@[index as int]);
            return false;
        }
        index = index + 1;
    }
    assert(left@ =~= right@);
    true
}

fn find_protocol<'a>(wire: &'a [u8], wanted: &[u8]) -> (found: Option<&'a [u8]>)
    ensures
        found is Some == alpn_names(wire@).contains(wanted@),
        found matches Some(name) ==> name@ == wanted@,
{
    let mut iter = ProtocolIter::new(wire);
    let ghost all = alpn_names(wire@);
    let ghost mut seen: int = 0;
    proof {
        assert(all.skip(0) =~= all);
    }
    loop
        invariant
            all == alpn_names(wire@),
            0 <= seen <= all.len(),
            iter.names() == all.skip(seen),
            forall|i: int| 0 <= i < seen ==> all[i] != wanted@,
        decreases iter.bytes_left(),
    {
        match iter.next() {
            Some(name) => {
                assert(name@ == all[seen]);
                if bytes_equal(name, wanted) {
                    assert(all[seen] == wanted@);
                    return Some(name);
                }
                proof {
                    assert(all.skip(seen).drop_first() =~= all.skip(seen + 1));
                    seen = seen + 1;
                }
            },
            None => {
                assert(seen == all.len());
                return None;
            },
        }
    }
}

/// Chooses the first protocol of the server that the client offers too.
pub fn select_server_protocol<'client>(server: &[u8], client: &'client [u8]) -> (selected: Option<
    &'client [u8],
>)
    ensures
        match selected {
            Some(name) => alpn_choice(alpn_names(server@), alpn_names(client@)) == Some(name@),
            None => alpn_choice(alpn_names(server@), alpn_names(client@)) is None,
        },
{
    let mut iter = ProtocolIter::new(server);
    let ghost choice = alpn_choice(alpn_names(server@), alpn_names(client@));
    loop
        invariant
            choice == alpn_choice(iter.names(), alpn_names(client@)),
            choice == alpn_choice(alpn_names(server@), alpn_names(client@)),
        decreases iter.bytes_left(),
    {
        match iter.next() {
            Some(preferred) => {
                let found = find_protocol(client, preferred);
                if found.is_some() {
                    return found;
                }
            },
            None => {
                return None;
            },
        }
    }
}

/// Why a TLS configuration could not be made.
#[derive(Debug)]
pub enum TlsConfigError {
    /// At least one ALPN protocol must be configured.
    EmptyProtocols,
    /// OpenSSL rejected the ALPN configuration.
    OpenSsl(ErrorStack),
}

/// The text that `openssl::error::ErrorStack` displays. It comes from OpenSSL,
/// so nothing is promised of it.
#[verifier::external_body]
fn stack_text(errors: &ErrorStack) -> (text: String) {
    errors.to_string()
}

impl TlsConfigError {
    /// The text that describes the error. The words of OpenSSL are not fixed.
    pub fn to_text(&self) -> (text: String)
        ensures
            match self {
                TlsConfigError::EmptyProtocols => text@
                    == "at least one HTTP ALPN protocol is required"@,
                TlsConfigError::OpenSsl(_) => crate::web::error::wraps(
                    text@,
                    "failed to configure HTTP ALPN: "@,
                    Seq::empty(),
                ),
            },
    {
        match self {
            TlsConfigError::EmptyProtocols => {
                "at least one HTTP ALPN protocol is required".to_owned()
            },
            TlsConfigError::OpenSsl(errors) => {
                let mut text = "failed to configure HTTP ALPN: ".to_owned();
                let words = stack_text(errors);
                text.append(words.as_str());
                assert(text@ =~= "failed to configure HTTP ALPN: "@ + words@ + Seq::empty());
                text
            },
        }
    }

    /// What OpenSSL reported.
    pub fn source(&self) -> (source: Option<&ErrorStack>)
        ensures
            match self {
                TlsConfigError::EmptyProtocols => source is None,
                TlsConfigError::OpenSsl(errors) => source == Some(errors),
            },
    {
        match self {
            TlsConfigError::EmptyProtocols => None,
            TlsConfigError::OpenSsl(errors) => Some(errors),
        }
    }
}

/// Writes a list of protocols as ALPN puts it on the wire.
pub fn encode_protocols(protocols: &[AlpnProtocol]) -> (wire: Result<Vec<u8>, TlsConfigError>)
    ensures
        match wire {
            Ok(wire) => protocols@.len() > 0 && wire@ == alpn_wire(protocols@),
            Err(error) => protocols@.len() == 0 && error is EmptyProtocols,
        },
{
    if protocols.len() == 0 {
        return Err(TlsConfigError::EmptyProtocols);
    }
    let mut wire: Vec<u8> = Vec::new();
    let mut index: usize = 0;
    while index < protocols.len()
        invariant
            index <= protocols@.len(),
            wire@ == alpn_wire(protocols@.take(index as int)),
        decreases protocols@.len() - index,
    {
        let name = protocols[index].wire_name();
        wire.push(name.len() as u8);
        wire.extend_from_slice(name);
        proof {
            let taken = protocols@.take(index as int + 1);
            assert(taken.drop_last() =~= protocols@.take(index as int));
            assert(wire@ =~= alpn_wire(taken));
        }
        index = index + 1;
    }
    assert(protocols@.take(index as int) =~= protocols@);
    Ok(wire)
}

/// The protocol that a TLS handshake settled on. No ALPN means HTTP/1.1.
pub fn negotiated_protocol(selected: Option<&[u8]>) -> (negotiated: Result<AlpnProtocol, Error>)
    ensures
        match selected {
            None => negotiated == Ok::<AlpnProtocol, Error>(AlpnProtocol::Http11),
            Some(name) => if name@ == http11_name() {
                negotiated == Ok::<AlpnProtocol, Error>(AlpnProtocol::Http11)
            } else if name@ == h2_name() {
                negotiated == Ok::<AlpnProtocol, Error>(AlpnProtocol::H2)
            } else {
                negotiated matches Err(error) && error@ == ErrorView::UnsupportedAlpnProtocol(
                    name@,
                )
            },
        },
{
    match selected {
        None => Ok(AlpnProtocol::Http11),
        Some(name) => {
            if bytes_equal(name, AlpnProtocol::Http11.wire_name()) {
                Ok(AlpnProtocol::Http11)
            } else if bytes_equal(name, AlpnProtocol::H2.wire_name()) {
                Ok(AlpnProtocol::H2)
            } else {
                let mut copy: Vec<u8> = Vec::new();
                copy.extend_from_slice(name);
                assert(copy@ =~= name@);
                Err(Error::UnsupportedAlpnProtocol(copy))
            }
        },
    }
}

/// The protocols, as ALPN puts them on the wire, that a context under
/// construction has its clients offer.
pub uninterp spec fn builder_offer(builder: SslContextBuilder) -> Seq<u8>;

/// The protocols, as ALPN puts them on the wire, that a context has its clients
/// offer.
pub uninterp spec fn context_offer(context: SslContext) -> Seq<u8>;

/// The protocols, as ALPN puts them on the wire, with which a context under
/// construction has its servers answer, and whether they refuse a client that
/// offers none of them.
pub uninterp spec fn builder_choice(builder: SslContextBuilder) -> Option<(Seq<u8>, bool)>;

/// The protocols, as ALPN puts them on the wire, with which a context has its
/// servers answer, and whether they refuse a client that offers none of them.
pub uninterp spec fn context_choice(context: SslContext) -> Option<(Seq<u8>, bool)>;

/// `SslContextBuilder::set_alpn_protos`: on success the context offers the
/// protocols of `wire`. It panics when their length does not fit a C `unsigned
/// int`. Whether OpenSSL agrees is not promised.
#[verifier::external_body]
fn offer_protocols(builder: &mut SslContextBuilder, wire: &[u8]) -> (offered: Result<
    (),
    ErrorStack,
>)
    requires
        wire@.len() <= u32::MAX,
    ensures
        offered is Ok ==> builder_offer(*final(builder)) == wire@,
{
    builder.set_alpn_protos(wire)
}

/// What a server answers to the protocols that a client offers.
pub enum AlpnAnswer<'client> {
    /// It speaks this one.
    Selected(&'client [u8]),
    /// It refuses the handshake.
    Refused,
    /// It goes on without.
    Ignored,
}

/// What a server answers to the protocols that a client offers: its own first
/// choice among them. Without a common protocol it refuses the handshake when
/// `require_alpn` is set, and goes on without otherwise.
pub fn answer_client<'client>(server: &[u8], client: &'client [u8], require_alpn: bool) -> (answer:
    AlpnAnswer<'client>)
    ensures
        match alpn_choice(alpn_names(server@), alpn_names(client@)) {
            Some(name) => answer matches AlpnAnswer::Selected(selected) && selected@ == name,
            None => if require_alpn {
                answer is Refused
            } else {
                answer is Ignored
            },
        },
{
    match select_server_protocol(server, client) {
        Some(selected) => AlpnAnswer::Selected(selected),
        None => if require_alpn {
            AlpnAnswer::Refused
        } else {
            AlpnAnswer::Ignored
        },
    }
}

/// `SslContextBuilder::set_alpn_select_callback`: the context answers each
/// client with [`answer_client`] on these arguments. A refusal is a fatal alert.
#[verifier::external_body]
fn choose_protocols(builder: &mut SslContextBuilder, wire: Vec<u8>, require_alpn: bool)
    ensures
        builder_choice(*final(builder)) == Some((wire@, require_alpn)),
{
    builder.set_alpn_select_callback(
        move |_, client|
            match answer_client(&wire, client, require_alpn) {
                AlpnAnswer::Selected(protocol) => Ok(protocol),
                AlpnAnswer::Refused => Err(AlpnError::ALERT_FATAL),
                AlpnAnswer::Ignored => Err(AlpnError::NOACK),
            },
    );
}

/// `SslContextBuilder::build`: the finished context, with all that was set.
#[verifier::external_body]
fn build_context(builder: SslContextBuilder) -> (context: SslContext)
    ensures
        context_offer(context) == builder_offer(builder),
        context_choice(context) == builder_choice(builder),
{
    builder.build()
}

fn copy_protocols(protocols: &[AlpnProtocol]) -> (copy: Vec<AlpnProtocol>)
    ensures
        copy@ == protocols@,
{
    let mut copy: Vec<AlpnProtocol> = Vec::new();
    let mut index: usize = 0;
    while index < protocols.len()
        invariant
            index <= protocols@.len(),
            copy@ == protocols@.take(index as int),
        decreases protocols@.len() - index,
    {
        copy.push(protocols[index]);
        index = index + 1;
        assert(copy@ =~= protocols@.take(index as int));
    }
    assert(copy@ =~= protocols@);
    copy
}

/// Client-side TLS and ordered ALPN protocols.
pub struct TlsClientConfig {
    context: SslContext,
    protocols: Vec<AlpnProtocol>,
}

impl TlsClientConfig {
    /// The protocols in the order in which they are offered.
    pub closed spec fn offered(&self) -> Seq<AlpnProtocol> {
        self.protocols@
    }

    /// The TLS context.
    pub closed spec fn ssl_context(&self) -> SslContext {
        self.context
    }

    /// Has `builder` offer `protocols` in the given order, and builds it. The
    /// list must fit the length that OpenSSL takes.
    pub fn new(builder: SslContextBuilder, protocols: &[AlpnProtocol]) -> (config: Result<
        TlsClientConfig,
        TlsConfigError,
    >)
        requires
            alpn_wire(protocols@).len() <= u32::MAX,
        ensures
            protocols@.len() == 0 <==> (config matches Err(error) && error is EmptyProtocols),
            config matches Ok(config) ==> {
                &&& config.offered() == protocols@
                &&& context_offer(config.ssl_context()) == alpn_wire(protocols@)
            },
    {
        let mut builder = builder;
        let wire = match encode_protocols(protocols) {
            Ok(wire) => wire,
            Err(error) => return Err(error),
        };
        match offer_protocols(&mut builder, wire.as_slice()) {
            Ok(()) => {},
            Err(error) => return Err(TlsConfigError::OpenSsl(error)),
        }
        Ok(TlsClientConfig { context: build_context(builder), protocols: copy_protocols(protocols) })
    }

    /// Wraps a context whose ALPN offer was installed elsewhere, so that its
    /// protocols are not known here.
    pub fn from_context(context: SslContext) -> (config: TlsClientConfig)
        ensures
            config.offered().len() == 0,
            config.ssl_context() == context,
    {
        TlsClientConfig { context, protocols: Vec::new() }
    }

    /// Returns the configured offer order, which is empty for a context that
    /// was configured elsewhere.
    pub fn protocols(&self) -> (protocols: &[AlpnProtocol])
        ensures
            protocols@ == self.offered(),
    {
        self.protocols.as_slice()
    }

    /// Returns the TLS context.
    pub fn context(&self) -> (context: &SslContext)
        ensures
            *context == self.ssl_context(),
    {
        &self.context
    }
}

/// Server-side TLS and ALPN protocols in the order of preference.
pub struct TlsServerConfig {
    context: SslContext,
    protocols: Vec<AlpnProtocol>,
    require_alpn: bool,
}

impl TlsServerConfig {
    /// The protocols in the order of preference.
    pub closed spec fn preferred(&self) -> Seq<AlpnProtocol> {
        self.protocols@
    }

    /// Whether a handshake without a common protocol fails.
    pub closed spec fn requires_alpn(&self) -> bool {
        self.require_alpn
    }

    /// The TLS context.
    pub closed spec fn ssl_context(&self) -> SslContext {
        self.context
    }

    /// Has `builder` choose among `protocols`, and fail a handshake with a
    /// client that offers none of them.
    pub fn new(builder: SslContextBuilder, protocols: &[AlpnProtocol]) -> (config: Result<
        TlsServerConfig,
        TlsConfigError,
    >)
        ensures
            config is Ok == (protocols@.len() > 0),
            config matches Ok(config) ==> {
                &&& config.preferred() == protocols@
                &&& config.requires_alpn()
                &&& context_choice(config.ssl_context()) == Some((alpn_wire(protocols@), true))
            },
            config matches Err(error) ==> error is EmptyProtocols,
    {
        Self::new_with_alpn_requirement(builder, protocols, true)
    }

    /// Has `builder` choose among `protocols`. With `require_alpn`, a handshake
    /// without a common protocol fails; otherwise it goes on without ALPN.
    pub fn new_with_alpn_requirement(
        builder: SslContextBuilder,
        protocols: &[AlpnProtocol],
        require_alpn: bool,
    ) -> (config: Result<TlsServerConfig, TlsConfigError>)
        ensures
            config is Ok == (protocols@.len() > 0),
            config matches Ok(config) ==> {
                &&& config.preferred() == protocols@
                &&& config.requires_alpn() == require_alpn
                &&& context_choice(config.ssl_context()) == Some(
                    (alpn_wire(protocols@), require_alpn),
                )
            },
            config matches Err(error) ==> error is EmptyProtocols,
    {
        let mut builder = builder;
        let wire = match encode_protocols(protocols) {
            Ok(wire) => wire,
            Err(error) => return Err(error),
        };
        choose_protocols(&mut builder, wire, require_alpn);
        Ok(
            TlsServerConfig {
                context: build_context(builder),
                protocols: copy_protocols(protocols),
                require_alpn,
            },
        )
    }

    /// Wraps a context whose ALPN callback was installed elsewhere, so that
    /// its preferences are not known here.
    pub fn from_context(context: SslContext) -> (config: TlsServerConfig)
        ensures
            config.preferred().len() == 0,
            !config.requires_alpn(),
            config.ssl_context() == context,
    {
        TlsServerConfig { context, protocols: Vec::new(), require_alpn: false }
    }

    /// Returns the preference order, which is empty for a context that was
    /// configured elsewhere.
    pub fn protocols(&self) -> (protocols: &[AlpnProtocol])
        ensures
            protocols@ == self.preferred(),
    {
        self.protocols.as_slice()
    }

    /// Returns whether a handshake without a common protocol fails.
    pub fn require_alpn(&self) -> (require_alpn: bool)
        ensures
            require_alpn == self.requires_alpn(),
    {
        self.require_alpn
    }

    /// Returns the TLS context.
    pub fn context(&self) -> (context: &SslContext)
        ensures
            *context == self.ssl_context(),
    {
        &self.context
    }
}

proof fn alpn_names_of_prefixed(name: Seq<u8>, rest: Seq<u8>)
    requires
        0 < name.len() < 256,
    ensures
        alpn_names(seq![name.len() as u8] + name + rest) == seq![name] + alpn_names(rest),
{
    let wire = seq![name.len() as u8] + name + rest;
    assert(wire.subrange(1, 1 + name.len() as int) =~= name);
    assert(wire.skip(1 + name.len() as int) =~= rest);
}

/// The names of a list of protocols.
pub open spec fn protocol_names(protocols: Seq<AlpnProtocol>) -> Seq<Seq<u8>> {
    protocols.map_values(|protocol: AlpnProtocol| protocol.name())
}

proof fn alpn_wire_from_the_front(protocols: Seq<AlpnProtocol>)
    requires
        protocols.len() > 0,
    ensures
        alpn_wire(protocols) == seq![protocols[0].name().len() as u8] + protocols[0].name()
            + alpn_wire(protocols.drop_first()),
    decreases protocols.len(),
{
    let front = protocols[0].name();
    if protocols.len() == 1 {
        assert(protocols.drop_last() =~= Seq::empty());
        assert(protocols.drop_first() =~= Seq::empty());
        assert(alpn_wire(protocols) =~= seq![front.len() as u8] + front + alpn_wire(
            protocols.drop_first(),
        ));
    } else {
        let head = protocols.drop_last();
        alpn_wire_from_the_front(head);
        assert(protocols.drop_first().drop_last() =~= head.drop_first());
        assert(alpn_wire(protocols) =~= seq![front.len() as u8] + front + alpn_wire(
            protocols.drop_first(),
        ));
    }
}

/// Reading a list of protocols gives back the names that were written, in
/// their order.
pub proof fn alpn_reads_back(protocols: Seq<AlpnProtocol>)
    ensures
        alpn_names(alpn_wire(protocols)) == protocol_names(protocols),
    decreases protocols.len(),
{
    if protocols.len() == 0 {
        assert(protocol_names(protocols) =~= Seq::empty());
    } else {
        alpn_wire_from_the_front(protocols);
        alpn_names_of_prefixed(protocols[0].name(), alpn_wire(protocols.drop_first()));
        alpn_reads_back(protocols.drop_first());
        assert(protocol_names(protocols) =~= seq![protocols[0].name()] + protocol_names(
            protocols.drop_first(),
        ));
    }
}

/// The choice is a name that both sides list, and no name that the server
/// lists earlier is on the client's list.
pub proof fn alpn_choice_prefers_the_server(server: Seq<Seq<u8>>, client: Seq<Seq<u8>>)
    ensures
        match alpn_choice(server, client) {
            Some(name) => client.contains(name) && exists|i: int|
                0 <= i < server.len() && #[trigger] server[i] == name && forall|j: int|
                    0 <= j < i ==> !client.contains(#[trigger] server[j]),
            None => forall|i: int| 0 <= i < server.len() ==> !client.contains(#[trigger] server[i]),
        },
    decreases server.len(),
{
    if server.len() > 0 && !client.contains(server[0]) {
        let rest = server.drop_first();
        alpn_choice_prefers_the_server(rest, client);
        match alpn_choice(server, client) {
            Some(name) => {
                let k = choose|k: int|
                    0 <= k < rest.len() && #[trigger] rest[k] == name && forall|j: int|
                        0 <= j < k ==> !client.contains(#[trigger] rest[j]);
                assert(server[k + 1] == name);
                assert forall|j: int| 0 <= j < k + 1 implies !client.contains(
                    #[trigger] server[j],
                ) by {
                    if j > 0 {
                        assert(server[j] == rest[j - 1]);
                    }
                }
            },
            None => {
                assert forall|i: int| 0 <= i < server.len() implies !client.contains(
                    #[trigger] server[i],
                ) by {
                    if i > 0 {
                        assert(server[i] == rest[i - 1]);
                    }
                }
            },
        }
    } else if server.len() > 0 {
        assert(server[0] == server[0]);
    }
}

/// A name of HTTP on the wire is `http/1.1` or `h2`, and each is read back as the
/// protocol that it names.
pub proof fn protocol_names_are_read_back(
    protocol: AlpnProtocol,
    name: &'static [u8],
    negotiated: Result<AlpnProtocol, Error>,
    unnamed: Result<AlpnProtocol, Error>,
)
    requires
        call_ensures(AlpnProtocol::wire_name, (protocol,), name),
        call_ensures(negotiated_protocol, (Some(name),), negotiated),
        call_ensures(negotiated_protocol, (None,), unnamed),
    ensures
        negotiated == Ok::<AlpnProtocol, Error>(protocol),
        unnamed == Ok::<AlpnProtocol, Error>(AlpnProtocol::Http11),
        protocol is H2 ==> name@ == seq![104u8, 50u8],
        protocol is Http11 ==> name@ == seq![104u8, 116u8, 116u8, 112u8, 47u8, 49u8, 46u8, 49u8],
{
    assert(http11_name().len() == 8 && h2_name().len() == 2);
}

/// Any other name is refused, with the name.
pub proof fn unknown_protocols_are_refused(
    selected: &[u8],
    negotiated: Result<AlpnProtocol, Error>,
)
    requires
        selected@ != seq![104u8, 50u8],
        selected@ != seq![104u8, 116u8, 116u8, 112u8, 47u8, 49u8, 46u8, 49u8],
        call_ensures(negotiated_protocol, (Some(selected),), negotiated),
    ensures
        negotiated matches Err(error) && error@ == ErrorView::UnsupportedAlpnProtocol(selected@),
{
}

/// A list of protocols goes out as each name behind its length, in the order of
/// the list, and walking it gives the names back.
pub proof fn lists_are_walked_as_written(
    first: AlpnProtocol,
    rest: Seq<AlpnProtocol>,
    protocols: &[AlpnProtocol],
    encoded: Result<Vec<u8>, TlsConfigError>,
)
    requires
        protocols@ == seq![first] + rest,
        call_ensures(encode_protocols, (protocols,), encoded),
    ensures
        encoded matches Ok(wire) && {
            &&& wire@.len() >= 1 + first.name().len()
            &&& wire@[0] == first.name().len()
            &&& wire@.subrange(1, 1 + first.name().len() as int) == first.name()
            &&& wire@.skip(1 + first.name().len() as int) == alpn_wire(rest)
            &&& alpn_names(wire@) == protocol_names(protocols@)
        },
{
    alpn_reads_back(protocols@);
    alpn_wire_from_the_front(protocols@);
    assert(protocols@.drop_first() =~= rest);
    assert(protocols@[0] == first);
    let name = first.name();
    let wire = seq![name.len() as u8] + name + alpn_wire(rest);
    assert(wire.subrange(1, 1 + name.len() as int) =~= name);
    assert(wire.skip(1 + name.len() as int) =~= alpn_wire(rest));
}

/// A server answers with the first protocol on its list that the client offers.
/// Where there is none it refuses or goes on without, as it was told.
pub proof fn servers_answer_with_their_first_choice(
    server: &[u8],
    client: &[u8],
    selected: Option<&[u8]>,
)
    requires
        call_ensures(select_server_protocol, (server, client), selected),
    ensures
        ({
            let offers = alpn_names(client@);
            let wants = alpn_names(server@);
            match selected {
                Some(name) => offers.contains(name@) && exists|i: int|
                    0 <= i < wants.len() && #[trigger] wants[i] == name@ && forall|j: int|
                        0 <= j < i ==> !offers.contains(#[trigger] wants[j]),
                None => forall|i: int|
                    0 <= i < wants.len() ==> !offers.contains(#[trigger] wants[i]),
            }
        }),
{
    alpn_choice_prefers_the_server(alpn_names(server@), alpn_names(client@));
}

/// What a server answers is what it would select, and without a common protocol
/// a refusal exactly when one is required.
pub proof fn answers_are_selections(
    server: &[u8],
    client: &'static [u8],
    required: bool,
    answer: AlpnAnswer<'static>,
    selected: Option<&'static [u8]>,
)
    requires
        call_ensures(select_server_protocol, (server, client), selected),
        call_ensures(answer_client, (server, client, required), answer),
    ensures
        selected matches Some(name) ==> (answer matches AlpnAnswer::Selected(chosen) && chosen@
            == name@),
        selected is None && required ==> answer is Refused,
        selected is None && !required ==> answer is Ignored,
{
}

/// A client offers and a server prefers the protocols that it was configured
/// with, in their order, and a server insists on one unless told otherwise.
pub proof fn configurations_keep_their_protocols(
    builder: SslContextBuilder,
    protocols: &[AlpnProtocol],
    required: bool,
    client: TlsClientConfig,
    servers: (TlsServerConfig, TlsServerConfig),
    listed: (&[AlpnProtocol], &[AlpnProtocol]),
    requires_alpn: (bool, bool),
)
    requires
        call_ensures(TlsClientConfig::new, (builder, protocols), Ok(client)),
        call_ensures(TlsServerConfig::new, (builder, protocols), Ok(servers.0)),
        call_ensures(
            TlsServerConfig::new_with_alpn_requirement,
            (builder, protocols, required),
            Ok(servers.1),
        ),
        call_ensures(TlsClientConfig::protocols, (&client,), listed.0),
        call_ensures(TlsServerConfig::protocols, (&servers.0,), listed.1),
        call_ensures(TlsServerConfig::require_alpn, (&servers.0,), requires_alpn.0),
        call_ensures(TlsServerConfig::require_alpn, (&servers.1,), requires_alpn.1),
    ensures
        listed.0@ == protocols@ && listed.1@ == protocols@,
        requires_alpn.0,
        requires_alpn.1 == required,
        alpn_names(context_offer(client.ssl_context())) == protocol_names(protocols@),
        context_choice(servers.1.ssl_context()) matches Some((wire, insists)) && alpn_names(wire)
            == protocol_names(protocols@) && insists == required,
{
    alpn_reads_back(protocols@);
}

/// A list of protocols is read name by name: each has the length that stands in
/// front of it, and the next follows at once.
pub proof fn protocol_lists_are_read_name_by_name<'a>(
    wire: &'a [u8],
    made: ProtocolIter<'a>,
    first: &mut ProtocolIter<'a>,
    second: &mut ProtocolIter<'a>,
    names: (Option<&'a [u8]>, Option<&'a [u8]>),
)
    requires
        call_ensures(ProtocolIter::new, (wire,), made),
        *old(first) == made,
        call_ensures(ProtocolIter::next, (first,), names.0),
        *old(second) == *final(first),
        call_ensures(ProtocolIter::next, (second,), names.1),
    ensures
        names.0 is Some <==> wire@.len() > 0 && wire@[0] != 0 && wire@.len() > wire@[0],
        names.0 matches Some(name) ==> name@ == wire@.subrange(1, 1 + wire@[0]),
        names.0 matches Some(name) ==> (names.1 matches Some(next) ==> {
            let rest = wire@.skip(1 + wire@[0]);
            rest.len() > 0 && next@ == rest.subrange(1, 1 + rest[0])
        }),
        names.0 is None ==> names.1 is None,
{
    reveal_with_fuel(alpn_names, 3);
    if names.0 is Some {
        let rest = wire@.skip(1 + wire@[0]);
        assert(alpn_names(wire@).drop_first() =~= alpn_names(rest));
    }
}

/// Bytes are equal when they are the same, and texts of errors say what went
/// wrong.
pub proof fn protocol_errors_have_their_words(
    left: &[u8],
    right: &[u8],
    equal: bool,
    errors: ErrorStack,
    texts: (String, String),
    sources: (Option<&ErrorStack>, Option<&ErrorStack>),
)
    requires
        call_ensures(bytes_equal, (left, right), equal),
        call_ensures(TlsConfigError::to_text, (&TlsConfigError::EmptyProtocols,), texts.0),
        call_ensures(TlsConfigError::to_text, (&TlsConfigError::OpenSsl(errors),), texts.1),
        call_ensures(TlsConfigError::source, (&TlsConfigError::EmptyProtocols,), sources.0),
        call_ensures(TlsConfigError::source, (&TlsConfigError::OpenSsl(errors),), sources.1),
    ensures
        equal <==> left@.len() == right@.len() && forall|i: int|
            0 <= i < left@.len() ==> #[trigger] left@[i] == right@[i],
        texts.0@ == "at least one HTTP ALPN protocol is required"@,
        "failed to configure HTTP ALPN: "@.is_prefix_of(texts.1@),
        sources.0 is None && (sources.1 matches Some(told) && *told == errors),
{
    if forall|i: int| 0 <= i < left@.len() ==> #[trigger] left@[i] == right@[i] {
        if left@.len() == right@.len() {
            assert(left@ =~= right@);
        }
    }
    let prefix = "failed to configure HTTP ALPN: "@;
    let words = choose|words: Seq<char>| texts.1@ == #[trigger] (prefix + words + Seq::empty());
    assert(texts.1@.subrange(0, prefix.len() as int) =~= prefix);
}

/// Settings that are made of a context use it and choose no protocols of their
/// own.
pub proof fn contexts_are_used_as_given(
    contexts: (SslContext, SslContext),
    configs: (TlsClientConfig, TlsServerConfig),
    read: (&SslContext, &SslContext),
)
    requires
        call_ensures(TlsClientConfig::from_context, (contexts.0,), configs.0),
        call_ensures(TlsServerConfig::from_context, (contexts.1,), configs.1),
        call_ensures(TlsClientConfig::context, (&configs.0,), read.0),
        call_ensures(TlsServerConfig::context, (&configs.1,), read.1),
    ensures
        *read.0 == contexts.0 && *read.1 == contexts.1,
        configs.0.offered().len() == 0 && configs.1.preferred().len() == 0,
        !configs.1.requires_alpn(),
{
}

} // verus!
