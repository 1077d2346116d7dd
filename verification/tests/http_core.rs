//! HTTP messages, configuration, errors and bodies.

use kimojio::errno::is_transient_accept_error;
use kimojio::errno::Errno;
use kimojio::errno::ECANCELED;
use kimojio::errno::ETIMEDOUT;
use kimojio::time::Duration;
use kimojio::time::Instant;
use kimojio::web::body::body_from_bytes;
use kimojio::web::body::body_from_str;
use kimojio::web::body::next_source_chunk;
use kimojio::web::body::Body;
use kimojio::web::body::BodyPoll;
use kimojio::web::body::BodyStreamCursor;
use kimojio::web::body::RequestBodyState;
use kimojio::web::body::ResponseBody;
use kimojio::web::body::SourcePoll;
use kimojio::web::body::SourceStep;
use kimojio::web::body::StreamItem;
use kimojio::web::client::plan_connection;
use kimojio::web::client::settle_protocol;
use kimojio::web::client::Client;
use kimojio::web::client::ConnectionPlan;
use kimojio::web::config::ClientConfig;
use kimojio::web::config::Limits;
use kimojio::web::config::Protocol;
use kimojio::web::config::ServerConfig;
use kimojio::web::config::DEFAULT_CONNECTION_IO_SECS;
use kimojio::web::config::DEFAULT_EXPECT_CONTINUE_SECS;
use kimojio::web::config::DEFAULT_MAX_REQUESTS_PER_CONNECTION;
use kimojio::web::config::DEFAULT_POOL_IDLE_SECS;
use kimojio::web::config::DEFAULT_POOL_MAX_IDLE_PER_KEY;
use kimojio::web::config::DEFAULT_POOL_MAX_IDLE_TOTAL;
use kimojio::web::error::Error;
use kimojio::web::error::HttpErrorInfo;
use kimojio::web::error::HttpErrorKind;
use kimojio::web::error::LimitViolation;
use kimojio::web::error::MessagePart;
use kimojio::web::error::ProtocolError;
use kimojio::web::error::ProtocolErrorKind;
use kimojio::web::error::ResolutionErrorKind;
use kimojio::web::error::Version;
use kimojio::web::headers::checked_status;
use kimojio::web::headers::convert_headers;
use kimojio::web::headers::is_idempotent;
use kimojio::web::headers::HeaderField;
use kimojio::web::headers::Headers;
use kimojio::web::headers::Method;
use kimojio::web::message::prepare_request_for_wire;
use kimojio::web::message::request_allows_reuse;
use kimojio::web::message::request_header_refs;
use kimojio::web::message::request_parts;
use kimojio::web::message::value_has_token;
use kimojio::web::message::HttpVersion;
use kimojio::web::message::PreparedRequest;
use kimojio::web::message::ReceivedRequestHead;
use kimojio::web::read_buffer::ReadBuffer;
use kimojio::web::server::Server;
use kimojio::web::tls::answer_client;
use kimojio::web::tls::encode_protocols;
use kimojio::web::tls::negotiated_protocol;
use kimojio::web::tls::select_server_protocol;
use kimojio::web::tls::AlpnAnswer;
use kimojio::web::tls::AlpnProtocol;
use kimojio::web::tls::TlsClientConfig;
use kimojio::web::tls::TlsConfigError;
use kimojio::web::tls::TlsServerConfig;
use kimojio::web::trailers::TrailerTable;
use kimojio::web::uri::Connect;
use kimojio::web::uri::Uri;
use kimojio::web::uri::UriTarget;

fn now() -> Instant {
    Instant::from_parts(1_000_000, 0).unwrap()
}

fn target(uri: &str) -> UriTarget {
    UriTarget::parse(&Uri::parse(uri).unwrap()).unwrap()
}

fn field(name: &str, value: &str) -> HeaderField {
    HeaderField {
        name: name.as_bytes().to_vec(),
        value: value.as_bytes().to_vec(),
    }
}

#[test]
fn protocol_error_exposes_stable_kind_and_sanitized_source() {
    let error = ProtocolError::with_source(
        ProtocolErrorKind::InvalidFraming,
        "HTTP/2 frame length is invalid".to_string(),
        "HTTP protocol state-machine processing failed".to_string(),
    );

    assert_eq!(error.kind(), ProtocolErrorKind::InvalidFraming);
    assert_eq!(
        error.to_text(),
        "invalid HTTP framing: HTTP/2 frame length is invalid"
    );
    assert_eq!(
        error.source().unwrap(),
        "HTTP protocol state-machine processing failed"
    );
    assert!(!format!("{error:?}").contains("kimojio_fsm_http"));

    let top = Error::Protocol(error);
    assert!(top.has_source());
}

#[test]
fn body_conversions_preserve_bytes() {
    let body = body_from_str("hello");
    assert_eq!(body.as_bytes(), b"hello");
    assert_eq!(body.into_bytes(), b"hello");
    assert_eq!(body_from_bytes(b"raw").as_bytes(), b"raw");
}

#[test]
fn buffered_body_yields_one_owned_chunk() {
    let mut table = TrailerTable::new();
    let mut body = body_from_str("buffered");
    assert_eq!(
        body.next_chunk(Ok(None), &mut table).unwrap(),
        Some(b"buffered".to_vec())
    );
    assert_eq!(body.next_chunk(Ok(None), &mut table).unwrap(), None);
    assert!(body.as_bytes().is_empty());
}

#[test]
fn uri_target_parses_http_and_https_absolute_uris() {
    let parsed = target("http://example.com:8080/a?b=c");
    assert_eq!(parsed.authority, "example.com:8080");
    assert_eq!(parsed.request_target, "/a?b=c");
    assert_eq!(parsed.host, "example.com");
    assert_eq!(parsed.port, 8080);
    assert!(!parsed.tls);

    let parsed = target("http://example.com/");
    assert_eq!(parsed.port, 80);
    assert!(!parsed.tls);

    let parsed = target("https://example.com/path");
    assert_eq!(parsed.port, 443);
    assert!(parsed.tls);

    let parsed = target("https://example.com:8443/");
    assert_eq!(parsed.port, 8443);
    assert!(parsed.tls);

    assert!(matches!(
        UriTarget::parse(&Uri::parse("/relative").unwrap()),
        Err(Error::UnsupportedScheme(None))
    ));
}

#[test]
fn malformed_uris_are_reported() {
    assert!(matches!(
        Uri::parse("http://exa mple/"),
        Err(Error::InvalidUri(_))
    ));
    assert!(matches!(
        UriTarget::parse(&Uri::parse("ftp://example.com/").unwrap()),
        Err(Error::UnsupportedScheme(Some(scheme))) if scheme == "ftp"
    ));
    assert_eq!(target("http://[::1]:81/").host, "[::1]");
    assert_eq!(target("http://example.com").request_target, "/");
    assert_eq!(target("https://example.com/").scheme(), "https");
}

#[test]
fn protocol_versions_are_explicit() {
    assert_eq!(
        Protocol::from_version(Version::Http11).unwrap(),
        Protocol::Http1
    );
    assert_eq!(
        Protocol::from_version(Version::Http2).unwrap(),
        Protocol::Http2PriorKnowledge
    );
    assert!(matches!(
        Protocol::from_version(Version::Http10),
        Err(Error::UnsupportedVersion(Version::Http10))
    ));
}

#[test]
fn client_configuration_has_finite_tunable_timeouts_and_pool_bounds() {
    let config = ClientConfig::new();
    assert_eq!(
        config.expect_continue_timeout(),
        Duration::from_secs(DEFAULT_EXPECT_CONTINUE_SECS)
    );
    assert_eq!(
        config.connection_io_timeout(),
        Duration::from_secs(DEFAULT_CONNECTION_IO_SECS)
    );
    assert_eq!(
        config.pool_idle_timeout(),
        Duration::from_secs(DEFAULT_POOL_IDLE_SECS)
    );
    assert_eq!(
        config.pool_max_idle_per_key(),
        DEFAULT_POOL_MAX_IDLE_PER_KEY
    );
    assert_eq!(config.pool_max_idle_total(), DEFAULT_POOL_MAX_IDLE_TOTAL);
    assert_eq!(
        ClientConfig::default().pool_idle_timeout(),
        Duration::from_secs(DEFAULT_POOL_IDLE_SECS)
    );

    let configured = config
        .set_expect_continue_timeout(Duration::from_millis(250))
        .set_connection_io_timeout(Duration::from_secs(3))
        .set_pool_idle_timeout(Duration::from_secs(7))
        .set_pool_max_idle_per_key(3)
        .set_pool_max_idle_total(11);
    assert_eq!(
        configured.expect_continue_timeout(),
        Duration::from_millis(250)
    );
    assert_eq!(configured.connection_io_timeout(), Duration::from_secs(3));
    assert_eq!(configured.pool_idle_timeout(), Duration::from_secs(7));
    assert_eq!(configured.pool_max_idle_per_key(), 3);
    assert_eq!(configured.pool_max_idle_total(), 11);
    assert!(ClientConfig::new()
        .set_expect_continue_timeout(Duration::longest())
        .validate(now())
        .is_err());
    assert!(ClientConfig::new()
        .set_connection_io_timeout(Duration::zero())
        .validate(now())
        .is_err());
    assert!(ClientConfig::new()
        .set_connection_io_timeout(Duration::longest())
        .validate(now())
        .is_err());
}

#[test]
fn server_configuration_rejects_unbounded_or_zero_lifecycle_values() {
    let config = ServerConfig::new();
    assert!(!config.connection_io_timeout().is_zero());
    assert!(!config.graceful_shutdown_timeout().is_zero());
    assert!(config.max_connections() > 0);
    assert_eq!(
        config.max_requests_per_connection(),
        DEFAULT_MAX_REQUESTS_PER_CONNECTION
    );

    assert!(ServerConfig::new()
        .set_connection_io_timeout(Duration::zero())
        .validate(now())
        .is_err());
    assert!(ServerConfig::new()
        .set_graceful_shutdown_timeout(Duration::zero())
        .validate(now())
        .is_err());
    assert!(ServerConfig::new()
        .set_max_connections(0)
        .validate(now())
        .is_err());
    assert!(ServerConfig::new()
        .set_max_requests_per_connection(0)
        .validate(now())
        .is_err());
    assert!(ServerConfig::new()
        .set_connection_io_timeout(Duration::longest())
        .validate(now())
        .is_err());
}

#[test]
fn configuration_rejects_headers_larger_than_the_read_buffer() {
    let limits = Limits::new()
        .set_read_buffer_bytes(1024)
        .set_max_header_bytes(1025);

    assert!(ClientConfig::new()
        .set_limits(limits)
        .validate(now())
        .is_err());
    assert!(ServerConfig::new()
        .set_limits(limits)
        .validate(now())
        .is_err());
}

#[test]
fn request_limit_is_forwarded_to_the_protocol_driver() {
    let limits = Limits::new().set_max_requests_per_connection(17);
    assert_eq!(limits.max_requests_per_connection(), 17);
    assert_eq!(limits.protocol().max_requests_per_connection, 17);
    assert_eq!(
        ServerConfig::new()
            .set_max_requests_per_connection(23)
            .max_requests_per_connection(),
        23
    );
}

#[test]
fn alpn_wire_encoding_is_length_prefixed() {
    assert_eq!(
        encode_protocols(&[AlpnProtocol::H2, AlpnProtocol::Http11]).unwrap(),
        b"\x02h2\x08http/1.1"
    );
    assert!(matches!(
        encode_protocols(&[]),
        Err(TlsConfigError::EmptyProtocols)
    ));
}

#[test]
fn alpn_selection_uses_server_preference_and_reports_no_overlap() {
    let server = encode_protocols(&[AlpnProtocol::H2, AlpnProtocol::Http11]).unwrap();
    let client = b"\x08http/1.1\x02h2";
    assert_eq!(
        select_server_protocol(&server, client),
        Some(AlpnProtocol::H2.wire_name())
    );
    assert_eq!(
        select_server_protocol(&server, b"\x08http/1.1"),
        Some(AlpnProtocol::Http11.wire_name())
    );
    assert_eq!(select_server_protocol(&server, b"\x06spdy/3"), None);
}

#[test]
fn servers_answer_clients_without_a_common_protocol() {
    let server = encode_protocols(&[AlpnProtocol::H2]).unwrap();
    assert!(matches!(
        answer_client(&server, b"\x08http/1.1", true),
        AlpnAnswer::Refused
    ));
    assert!(matches!(
        answer_client(&server, b"\x08http/1.1", false),
        AlpnAnswer::Ignored
    ));
    assert!(matches!(
        answer_client(&server, b"\x02h2", true),
        AlpnAnswer::Selected(b"h2")
    ));
    assert_eq!(
        negotiated_protocol(Some(b"h2")).unwrap(),
        AlpnProtocol::H2
    );
    assert!(matches!(
        negotiated_protocol(Some(b"h3")),
        Err(Error::UnsupportedAlpnProtocol(name)) if name == b"h3"
    ));
    assert_eq!(Protocol::from(AlpnProtocol::Http11), Protocol::Http1);
}

#[test]
fn tls_configurations_keep_their_protocols() {
    let builder = || openssl::ssl::SslContext::builder(openssl::ssl::SslMethod::tls()).unwrap();
    let client = TlsClientConfig::new(builder(), &[AlpnProtocol::H2]).unwrap();
    assert_eq!(client.protocols(), &[AlpnProtocol::H2]);
    let server =
        TlsServerConfig::new(builder(), &[AlpnProtocol::H2, AlpnProtocol::Http11]).unwrap();
    assert_eq!(
        server.protocols(),
        &[AlpnProtocol::H2, AlpnProtocol::Http11]
    );
    assert!(server.require_alpn());
    let lenient = TlsServerConfig::new_with_alpn_requirement(
        builder(),
        &[AlpnProtocol::Http11],
        false,
    )
    .unwrap();
    assert!(!lenient.require_alpn());
    assert!(matches!(
        TlsClientConfig::new(builder(), &[]),
        Err(TlsConfigError::EmptyProtocols)
    ));
    let config = ClientConfig::new().set_tls(TlsClientConfig::from_context(builder().build()));
    assert!(config.tls().is_some());
}

#[test]
fn accept_error_classification_is_bounded_to_recoverable_errors() {
    for raw in [
        libc::EINTR,
        libc::ECONNABORTED,
        libc::EMFILE,
        libc::ENFILE,
        libc::ENOBUFS,
        libc::ENOMEM,
        libc::EAGAIN,
    ] {
        assert!(is_transient_accept_error(Errno::from_raw_os_error(raw)));
    }
    for raw in [libc::EBADF, libc::EINVAL, libc::ENOTSOCK] {
        assert!(!is_transient_accept_error(Errno::from_raw_os_error(raw)));
    }
}

#[test]
fn reported_numbers_are_those_of_the_system() {
    assert_eq!(Errno::pipe().raw_os_error(), libc::EPIPE);
    assert_eq!(Errno::time().raw_os_error(), libc::ETIME);
    assert_eq!(Errno::timed_out().raw_os_error(), ETIMEDOUT);
    assert_eq!(Errno::timed_out().raw_os_error(), libc::ETIMEDOUT);
    assert_eq!(Errno::canceled().raw_os_error(), ECANCELED);
    assert_eq!(Errno::canceled().raw_os_error(), libc::ECANCELED);
    assert!(Errno::timed_out().is_timeout());
    assert!(!Errno::pipe().is_timeout());
}

#[test]
fn builder_keeps_explicit_address_and_configuration() {
    let address = "127.0.0.1:0";
    let limits = Limits::new().set_max_body_bytes(123);
    let builder = Server::<(), &str>::builder(address)
        .limits(limits)
        .listen_backlog(7)
        .connection_io_timeout(Duration::from_secs(4))
        .graceful_shutdown_timeout(Duration::from_secs(5))
        .max_connections(6);
    assert_eq!(*builder.address(), address);
    let (_, config) = builder.build(now()).unwrap();
    assert_eq!(config.limits(), limits);
    assert_eq!(config.listen_backlog(), 7);
    assert_eq!(config.connection_io_timeout(), Duration::from_secs(4));
    assert_eq!(config.graceful_shutdown_timeout(), Duration::from_secs(5));
    assert_eq!(config.max_connections(), 6);
}

#[test]
fn builder_supports_general_methods_headers_body_and_versions() {
    let client = Client::new();
    let request = client
        .request(
            Method::from_bytes(b"PATCH").unwrap(),
            "http://example.test/resource?q=1",
        )
        .header(b"x-request-id", b"42")
        .version(Version::Http2)
        .body(body_from_str("updated"))
        .build(client.config(), now(), |_| Ok(()))
        .unwrap()
        .request;

    assert_eq!(request.method.as_str(), "PATCH");
    assert_eq!(request.version, Version::Http2);
    assert_eq!(request.headers.values(b"x-request-id"), vec![b"42".to_vec()]);
    assert_eq!(
        request.headers.values(b"content-length"),
        vec![b"7".to_vec()]
    );
    assert_eq!(request.body.as_bytes(), b"updated");
}

#[test]
fn builder_defaults_to_persistent_http11() {
    let client = Client::new();
    let request = client
        .get("http://example.test/path")
        .build(client.config(), now(), |_| Ok(()))
        .unwrap()
        .request;

    assert_eq!(request.version, Version::Http11);
    assert_eq!(
        request.headers.values(b"host"),
        vec![b"example.test".to_vec()]
    );
    assert!(!request.headers.contains(b"connection"));
}

/// What a protocol driver says of a request, as far as the limits and the
/// fields that HTTP/2 forbids go.
fn judge(client: &Client, prepared: &PreparedRequest) -> Result<(), HttpErrorInfo> {
    let limits = client.config().limits();
    let request = &prepared.request;
    let http2 = request.version == Version::Http2;
    let fields = request.headers.list();
    let mut bytes: usize = fields
        .iter()
        .map(|field| field.name.len() + field.value.len())
        .sum();
    let mut count = fields.len();
    if http2 {
        let pseudo = [
            (":method", request.method.as_str()),
            (":scheme", prepared.target.scheme()),
            (":authority", prepared.target.authority.as_str()),
            (":path", prepared.target.request_target.as_str()),
        ];
        count += pseudo.len();
        for (name, value) in pseudo {
            bytes += name.len() + value.len();
        }
    } else {
        bytes += prepared.target.request_target.len();
    }
    let body = request.body.known_len();
    let (kind, limit) = if http2 && request.headers.contains(b"connection") {
        (HttpErrorKind::InvalidHeader, None)
    } else if count > limits.max_headers() {
        (
            HttpErrorKind::TooManyHeaders,
            Some(LimitViolation {
                limit: limits.max_headers(),
                actual: Some(count),
            }),
        )
    } else if bytes > limits.max_header_bytes() {
        (
            HttpErrorKind::HeadersTooLarge,
            Some(LimitViolation {
                limit: limits.max_header_bytes(),
                actual: Some(bytes),
            }),
        )
    } else if body.is_some_and(|body| body > limits.max_body_bytes()) {
        (
            HttpErrorKind::BodyTooLarge,
            Some(LimitViolation {
                limit: limits.max_body_bytes(),
                actual: body,
            }),
        )
    } else {
        return Ok(());
    };
    Err(HttpErrorInfo {
        kind,
        limit,
        detail: "the driver refused the request".to_string(),
    })
}

#[test]
fn builder_rejects_unsupported_versions_and_oversized_bodies() {
    let client = Client::new();
    assert!(matches!(
        client
            .get("http://example.test")
            .version(Version::Http10)
            .build(client.config(), now(), |prepared| judge(&client, prepared)),
        Err(Error::UnsupportedVersion(Version::Http10))
    ));

    let client = Client::with_config(
        ClientConfig::new().set_limits(Limits::new().set_max_body_bytes(3)),
        now(),
    )
    .unwrap();
    assert!(matches!(
        client
            .post("http://example.test")
            .body(body_from_str("four"))
            .build(client.config(), now(), |prepared| judge(&client, prepared)),
        Err(Error::BodyTooLarge {
            limit: 3,
            actual: Some(4)
        })
    ));
}

#[test]
fn builder_enforces_header_count_and_http2_rules() {
    let client = Client::with_config(
        ClientConfig::new().set_limits(Limits::new().set_max_headers(1)),
        now(),
    )
    .unwrap();
    assert!(matches!(
        client
            .get("http://example.test")
            .build(client.config(), now(), |prepared| judge(&client, prepared)),
        Err(Error::TooManyHeaders { limit: 1, .. })
    ));

    let client = Client::new();
    assert!(matches!(
        client
            .get("http://example.test")
            .version(Version::Http2)
            .header(b"connection", b"close")
            .build(client.config(), now(), |prepared| judge(&client, prepared)),
        Err(Error::Protocol(error)) if error.kind() == ProtocolErrorKind::InvalidHeader
    ));
}

#[test]
fn request_target_and_pseudo_headers_count_toward_header_limit() {
    let client = Client::with_config(
        ClientConfig::new().set_limits(Limits::new().set_max_header_bytes(40)),
        now(),
    )
    .unwrap();
    assert!(matches!(
        client
            .get("http://example.test/a/very/long/request/target")
            .version(Version::Http2)
            .build(client.config(), now(), |prepared| judge(&client, prepared)),
        Err(Error::HeadersTooLarge {
            limit: 40,
            actual: Some(_)
        })
    ));
}

#[test]
fn verdicts_follow_what_the_parts_tell() {
    let client = Client::new();
    let refused = |_: &PreparedRequest| {
        Err(HttpErrorInfo {
            kind: HttpErrorKind::BodyTooLarge,
            limit: Some(LimitViolation {
                limit: 1,
                actual: None,
            }),
            detail: "too large".to_string(),
        })
    };
    assert!(matches!(
        client.get("not a uri").build(client.config(), now(), refused),
        Err(Error::InvalidUri(_))
    ));
    assert!(matches!(
        client
            .get("http://example.test")
            .build(client.config(), now(), refused),
        Err(Error::BodyTooLarge {
            limit: 1,
            actual: None
        })
    ));
    let prepared = client
        .get("http://example.test/a")
        .prepare(client.config(), now())
        .unwrap();
    let judged = prepared.judged(Ok(())).unwrap();
    assert_eq!(judged.target.request_target, "/a");
    assert!(matches!(
        judged.judged(Err(HttpErrorInfo {
            kind: HttpErrorKind::TooManyHeaders,
            limit: Some(LimitViolation {
                limit: 2,
                actual: Some(3),
            }),
            detail: "too many".to_string(),
        })),
        Err(Error::TooManyHeaders {
            limit: 2,
            actual: Some(3)
        })
    ));
}

#[test]
fn builder_reports_the_first_fault() {
    let client = Client::new();
    assert!(matches!(
        client
            .get("http://example.test")
            .version(Version::Http10)
            .build(client.config(), now(), |_| Ok(())),
        Err(Error::UnsupportedVersion(Version::Http10))
    ));
    assert!(matches!(
        client
            .get("http://example.test")
            .header(b"bad name", b"1")
            .build(client.config(), now(), |_| Ok(())),
        Err(Error::InvalidMessage(MessagePart::HeaderName))
    ));
    assert!(matches!(
        client.get("not a uri").build(client.config(), now(), |_| Ok(())),
        Err(Error::InvalidUri(_))
    ));
    assert!(matches!(
        client
            .post("http://example.test")
            .body(Body::empty().with_trailers(1))
            .build(client.config(), now(), |_| Ok(())),
        Err(Error::Protocol(error)) if error.kind() == ProtocolErrorKind::UnsupportedFeature
    ));
    assert!(Client::with_config(
        ClientConfig::new().set_connection_io_timeout(Duration::zero()),
        now()
    )
    .is_err());
}

#[test]
fn fsm_error_mapping_has_stable_kind_and_private_diagnostic_source() {
    let info = HttpErrorInfo {
        kind: HttpErrorKind::MalformedMessage,
        limit: None,
        detail: "the message could not be read".to_string(),
    };
    let Error::Protocol(error) = info.into_http_error() else {
        panic!("parse failures must remain protocol errors");
    };

    assert_eq!(error.kind(), ProtocolErrorKind::MalformedMessage);
    assert!(error.source().is_some());
    assert!(!error.to_text().contains("Parse"));
    assert!(!format!("{error:?}").contains("kimojio_fsm_http"));
}

#[test]
fn limit_violations_keep_their_numbers() {
    let violation = |kind: HttpErrorKind| HttpErrorInfo {
        kind,
        limit: Some(LimitViolation {
            limit: 3,
            actual: Some(4),
        }),
        detail: "too much".to_string(),
    };
    assert!(matches!(
        violation(HttpErrorKind::BodyTooLarge).into_http_error(),
        Error::BodyTooLarge {
            limit: 3,
            actual: Some(4)
        }
    ));
    assert!(matches!(
        violation(HttpErrorKind::TooManyHeaders).into_http_error(),
        Error::TooManyHeaders {
            limit: 3,
            actual: Some(4)
        }
    ));
    assert!(matches!(
        violation(HttpErrorKind::HeadersTooLarge).into_http_error(),
        Error::HeadersTooLarge {
            limit: 3,
            actual: Some(4)
        }
    ));
}

#[test]
fn declared_content_length_does_not_reserve_request_body_capacity() {
    let declared = Limits::new().max_body_bytes();
    let parts = request_parts(ReceivedRequestHead {
        method: b"POST".to_vec(),
        target: b"/held".to_vec(),
        authority: Some(b"example.test".to_vec()),
        version: HttpVersion::Http2,
        fields: vec![field("content-length", &declared.to_string())],
        content_length: Some(declared),
    })
    .unwrap();
    let capacity = parts.body.capacity();
    assert!(
        capacity <= 16 * 1024,
        "declaring {declared} bytes eagerly reserved {capacity} bytes"
    );
}

#[test]
fn https_without_tls_configuration_returns_a_clear_error() {
    let error = plan_connection(true, false, Protocol::Http1).unwrap_err();
    assert!(matches!(error, Error::TlsNotConfigured));
    assert!(matches!(
        plan_connection(false, false, Protocol::Http2PriorKnowledge),
        Ok(ConnectionPlan::Plain(Protocol::Http2PriorKnowledge))
    ));
    assert!(matches!(
        plan_connection(true, true, Protocol::Http1),
        Ok(ConnectionPlan::Tls)
    ));
}

#[test]
fn negotiation_settles_the_protocol() {
    assert_eq!(
        settle_protocol(Protocol::Http1, Some(b"h2")).unwrap(),
        Protocol::Http2PriorKnowledge
    );
    assert_eq!(
        settle_protocol(Protocol::Http1, None).unwrap(),
        Protocol::Http1
    );
    assert!(matches!(
        settle_protocol(Protocol::Http2PriorKnowledge, Some(b"http/1.1")),
        Err(Error::AlpnProtocolMismatch {
            requested: Version::Http2,
            negotiated: Version::Http11
        })
    ));
}

#[test]
fn headers_are_found_whatever_their_case() {
    let headers = Headers::new()
        .append(b"X-Name", b"1")
        .append(b"x-name", b"2");
    assert_eq!(
        headers.values(b"X-NAME"),
        vec![b"1".to_vec(), b"2".to_vec()]
    );
    let headers = headers.insert(b"x-name", b"3");
    assert_eq!(headers.values(b"x-name"), vec![b"3".to_vec()]);
    let copy = headers.duplicate();
    let headers = headers.remove(b"x-name");
    assert!(!headers.contains(b"x-name"));
    assert!(copy.contains(b"x-name"));
    let merged = copy.merge(Headers::new().append(b"x-name", b"4").append(b"y", b"5"));
    assert_eq!(merged.values(b"x-name"), vec![b"4".to_vec()]);
    assert_eq!(merged.list().len(), 2);
    assert_eq!(merged.into_inner().len(), 2);
}

#[test]
fn received_headers_are_checked() {
    let headers = convert_headers(&vec![field("a", "1"), field("A", "2")]).unwrap();
    assert_eq!(headers.values(b"a"), vec![b"1".to_vec(), b"2".to_vec()]);
    assert!(convert_headers(&vec![field("a b", "1")]).is_err());
    assert!(convert_headers(&vec![field("a", "1\n2")]).is_err());
}

#[test]
fn methods_and_statuses_are_checked() {
    assert!(Method::from_bytes(b"GE T").is_err());
    assert_eq!(Method::get().as_str(), "GET");
    assert!(is_idempotent(&Method::from_bytes(b"PUT").unwrap()));
    assert!(!is_idempotent(&Method::post()));
    assert_eq!(checked_status(204).unwrap(), 204);
    assert!(checked_status(99).is_err());
    assert!(checked_status(1000).is_err());
}

#[test]
fn requests_are_prepared_for_the_negotiated_version() {
    let client = Client::new();
    let request = client
        .get("http://example.test/")
        .header(b"connection", b"keep-alive")
        .build(client.config(), now(), |_| Ok(()))
        .unwrap()
        .request;
    let original = request.headers.duplicate();
    assert!(request_allows_reuse(&original, Protocol::Http1));
    let wire = prepare_request_for_wire(request, &original, Protocol::Http2PriorKnowledge)
        .unwrap()
        .request;
    assert_eq!(wire.version, Version::Http2);
    assert!(!wire.headers.contains(b"connection"));
}

#[test]
fn connections_are_closed_when_asked() {
    let headers = Headers::new().append(b"connection", b"upgrade, Close");
    assert!(!request_allows_reuse(&headers, Protocol::Http1));
    assert!(request_allows_reuse(
        &headers,
        Protocol::Http2PriorKnowledge
    ));
    assert!(value_has_token(b"upgrade ,\tCLOSE ", b"close"));
    assert!(!value_has_token(b"closed", b"close"));
}

#[test]
fn credentials_are_marked() {
    let headers = Headers::new()
        .append(b"authorization", b"SECRET-REDACTED")
        .append(b"accept", b"*/*");
    for reference in request_header_refs(&headers) {
        assert_eq!(reference.sensitive, reference.name == b"authorization");
    }
}

#[test]
fn received_requests_are_read() {
    let head = |method: &[u8], target: &[u8], version: HttpVersion| ReceivedRequestHead {
        method: method.to_vec(),
        target: target.to_vec(),
        authority: None,
        version,
        fields: vec![field("host", "example.test")],
        content_length: None,
    };
    let parts = request_parts(head(b"GET", b"/a?b", HttpVersion::Http11)).unwrap();
    assert_eq!(parts.method.as_str(), "GET");
    assert_eq!(parts.version, Version::Http11);
    assert!(parts.body.is_empty());
    let request = parts.request_with_body(body_from_str("x"));
    assert_eq!(request.body.as_bytes(), b"x");
    assert_eq!(parts.head_request().method.as_str(), "GET");
    assert!(parts.into_request().body.as_bytes().is_empty());
    assert!(request_parts(head(b"G T", b"/", HttpVersion::Http11)).is_err());
    assert!(request_parts(head(b"GET", b"\xff", HttpVersion::Http11)).is_err());
    assert!(request_parts(head(b"GET", b"/", HttpVersion::Unknown)).is_err());
}

#[test]
fn streamed_bodies_end_once() {
    let mut cursor = BodyStreamCursor::new(9);
    assert_eq!(cursor.source(), 9);
    assert!(cursor.needs_chunk());
    assert!(matches!(
        cursor.poll_chunk(SourcePoll::Pending),
        BodyPoll::Pending
    ));
    assert!(matches!(
        cursor.poll_chunk(SourcePoll::Chunk(b"abc".to_vec())),
        BodyPoll::Ready
    ));
    assert_eq!(cursor.available(), Some(&b"abc"[..]));
    cursor.commit(2);
    assert_eq!(cursor.available(), Some(&b"c"[..]));
    cursor.commit(1);
    assert!(matches!(
        cursor.poll_chunk(SourcePoll::End),
        BodyPoll::Ready
    ));
    assert_eq!(cursor.available(), Some(&b""[..]));
    cursor.commit(0);
    assert!(cursor.is_complete());
    assert_eq!(cursor.available(), None);
    assert_eq!(cursor.source(), 9);
    assert!(matches!(
        BodyStreamCursor::new(9).poll_chunk(SourcePoll::Failed("no".to_string())),
        BodyPoll::Failed(message) if message == "no"
    ));
}

#[test]
fn empty_chunks_are_skipped() {
    assert!(matches!(
        next_source_chunk(StreamItem::Chunk(Vec::new())),
        SourceStep::Again
    ));
    assert!(matches!(
        next_source_chunk(StreamItem::Chunk(vec![1])),
        SourceStep::Chunk(chunk) if chunk == vec![1]
    ));
    assert!(matches!(
        next_source_chunk(StreamItem::End),
        SourceStep::End
    ));
}

#[test]
fn buffered_request_bodies_are_sent_in_parts() {
    let state = RequestBodyState::new(body_from_str("body"));
    assert!(!state.needs_chunk());
    assert_eq!(state.available(), Some(&b"body"[..]));
    let state = state.commit(3);
    assert_eq!(state.available(), Some(&b"y"[..]));
    let state = state.commit(1);
    assert_eq!(state.available(), Some(&b""[..]));
}

#[test]
fn response_bodies_keep_their_trailers_for_the_end() {
    let mut table = TrailerTable::new();
    table.attach();
    let callback = table.attach();
    let body = Body::new(b"ab".to_vec()).with_trailers(callback);
    assert!(body.has_outbound_trailers());
    let clone = body.duplicate();
    let response = ResponseBody::new(body, true, &mut table).unwrap();
    assert!(matches!(
        ResponseBody::new(clone, true, &mut table),
        Err(Error::Protocol(error)) if error.kind() == ProtocolErrorKind::InvalidState
    ));
    assert_eq!(response.available(), Some(&b"ab"[..]));
    let mut response = response.commit(2);
    assert_eq!(response.take_trailers(), Some(callback));
    assert_eq!(response.take_trailers(), None);
}

#[test]
fn read_buffers_are_bounded() {
    assert!(ReadBuffer::new(0).is_err());
    let mut buffer = ReadBuffer::new(8).unwrap();
    assert!(buffer.available().is_empty());
    let spare = buffer.spare_mut().unwrap();
    let room = spare.len();
    assert!(room <= 8 && room > 0);
    spare[0] = b'x';
    buffer.commit_read(1);
    assert_eq!(buffer.available(), b"x");
    assert_eq!(buffer.read_from_with_deadline(Ok(0)).unwrap(), 0);
    assert!(matches!(
        buffer.read_from_with_deadline(Err(Errno::pipe())),
        Err(Error::Io(_))
    ));
    buffer.consume(1);
    assert!(buffer.available().is_empty());
}

#[test]
fn addresses_are_tried_in_turn() {
    let answer: Result<Vec<u8>, String> = Ok(Vec::new());
    assert!(matches!(
        target("http://example.test/").resolve(answer),
        Err(Error::AddressResolution {
            kind: ResolutionErrorKind::NotFound,
            ..
        })
    ));
    let mut connect = Connect::<u8>::new(2);
    assert_eq!(connect.next_address(), Some(0));
    connect.attempted(Err(Errno::pipe()));
    assert_eq!(connect.next_address(), Some(1));
    connect.attempted(Ok(5));
    assert_eq!(connect.next_address(), None);
    assert_eq!(connect.finish().unwrap(), 5);
    let mut connect = Connect::<u8>::new(1);
    connect.attempted(Err(Errno::pipe()));
    assert!(matches!(connect.finish(), Err(Error::Io(_))));
}

#[test]
fn errors_have_texts() {
    assert!(Error::Io(Errno::pipe()).to_text().len() > 0);
    assert_eq!(Version::Http2.as_str(), "HTTP/2.0");
    assert!(Error::UnsupportedAlpnProtocol(b"h\xff3".to_vec())
        .to_text()
        .contains("h\u{fffd}3"));
    assert!(!Error::UnexpectedEof.has_source());
    assert!(matches!(
        Error::protocol(ProtocolErrorKind::PeerReset, "gone"),
        Error::Protocol(error) if error.kind() == ProtocolErrorKind::PeerReset
    ));
}

#[test]
fn clones_share_the_trailers_that_arrive() {
    let mut table = TrailerTable::new();
    let number = table.open();
    let mut body = Body::from_inbound_stream(3, number);
    let clone = body.duplicate();
    assert_eq!(clone.arriving_trailers(), Some(number));
    assert!(table
        .keep(number, Headers::new().append(b"a", b"1"))
        .is_ok());
    assert!(table.keep(number, Headers::new()).is_err());
    assert!(body
        .next_chunk(Ok(Some(vec![1])), &mut table)
        .unwrap()
        .is_some());
    assert!(body.trailers(&table).is_none());
    assert!(clone.trailers(&table).is_none());
    assert!(body.next_chunk(Ok(None), &mut table).unwrap().is_none());
    assert_eq!(
        body.trailers(&table).unwrap().values(b"a"),
        vec![b"1".to_vec()]
    );
    assert_eq!(
        clone.trailers(&table).unwrap().values(b"a"),
        vec![b"1".to_vec()]
    );
    table.close(number);
    assert!(!table.is_open(number));
    assert!(clone.trailers(&table).is_none());
    assert!(table.has_numbers());
}
