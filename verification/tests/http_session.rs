//! HTTP exchanges: the client, its pool and its sessions, and the server.

use kimojio::errno::Errno;
use kimojio::errno::EMFILE;
use kimojio::errno::EPIPE;
use kimojio::errors::ChannelError;
use kimojio::errors::PanicPayload;
use kimojio::errors::TaskHandleError;
use kimojio::errors::TimeoutError;
use kimojio::time::Duration;
use kimojio::time::Instant;
use kimojio::web::body::body_from_str;
use kimojio::web::body::Body;
use kimojio::web::body::SourcePoll;
use kimojio::web::client::AttemptNext;
use kimojio::web::client::Client;
use kimojio::web::client::ClientEvent;
use kimojio::web::client::ExecutePhase;
use kimojio::web::client::Execution;
use kimojio::web::client::H2AttemptResult;
use kimojio::web::client::Http2Attempts;
use kimojio::web::client::ResponseMode;
use kimojio::web::client::SessionSource;
use kimojio::web::config::Limits;
use kimojio::web::config::Protocol;
use kimojio::web::connection_pool::finish_response_connection;
use kimojio::web::connection_pool::reuse_after_process;
use kimojio::web::connection_pool::reuse_after_read;
use kimojio::web::connection_pool::start_reuse_check;
use kimojio::web::connection_pool::ClientIdleStatus;
use kimojio::web::connection_pool::ConnectionFate;
use kimojio::web::connection_pool::ConnectionPool;
use kimojio::web::connection_pool::ReuseAction;
use kimojio::web::driver::receive_head;
use kimojio::web::driver::ClientStep;
use kimojio::web::driver::DriverClientEvent;
use kimojio::web::error::Error;
use kimojio::web::error::HttpErrorInfo;
use kimojio::web::error::HttpErrorKind;
use kimojio::web::error::ProtocolErrorKind;
use kimojio::web::error::Version;
use kimojio::web::exchange::begin_exchange;
use kimojio::web::exchange::keep_trailers;
use kimojio::web::exchange::pull_step;
use kimojio::web::exchange::pull_turn;
use kimojio::web::exchange::send_turn;
use kimojio::web::exchange::AfterWait;
use kimojio::web::exchange::PullAction;
use kimojio::web::exchange::PullTurn;
use kimojio::web::exchange::PumpAction;
use kimojio::web::exchange::SendPhase;
use kimojio::web::exchange::SendState;
use kimojio::web::exchange::SendTurn;
use kimojio::web::exchange::WaitAction;
use kimojio::web::failure::DriverError;
use kimojio::web::failure::H2PumpStopReason;
use kimojio::web::failure::H2PumpTermination;
use kimojio::web::failure::H2SharedFailure;
use kimojio::web::failure::SendFailure;
use kimojio::web::failure::REFUSED_STREAM;
use kimojio::web::headers::HeaderField;
use kimojio::web::headers::Headers;
use kimojio::web::headers::Method;
use kimojio::web::http2::next_offer;
use kimojio::web::http2::queued_reply;
use kimojio::web::http2::Admission;
use kimojio::web::http2::BodyOffer;
use kimojio::web::http2::Delivery;
use kimojio::web::http2::H2Exchanges;
use kimojio::web::http2::H2Reply;
use kimojio::web::http2::HeadAction;
use kimojio::web::http2::QueuedReply;
use kimojio::web::message::HttpVersion;
use kimojio::web::message::PreparedRequest;
use kimojio::web::message::ReceivedRequestHead;
use kimojio::web::message::ReceivedResponseHead;
use kimojio::web::pool::H2Session;
use kimojio::web::pool::PoolKey;
use kimojio::web::pump::streamed_chunk;
use kimojio::web::pump::submission_replied;
use kimojio::web::pump::CommandPoll;
use kimojio::web::pump::H2CancellationLease;
use kimojio::web::pump::H2Pump;
use kimojio::web::pump::PumpPhase;
use kimojio::web::pump::SubmissionReply;
use kimojio::web::serve::decode_headers_stream;
use kimojio::web::serve::describe_response;
use kimojio::web::serve::internal_server_error;
use kimojio::web::serve::reason_phrase;
use kimojio::web::serve::resets_exchange;
use kimojio::web::serve::BodyAction;
use kimojio::web::serve::HandlerCompletion;
use kimojio::web::serve::HandlerNext;
use kimojio::web::serve::RequestAction;
use kimojio::web::serve::RequestBodyAction;
use kimojio::web::serve::ServeAction;
use kimojio::web::serve::ServePhase;
use kimojio::web::serve::ServePump;
use kimojio::web::serve::ServerEvent;
use kimojio::web::serve::ServerExchanges;
use kimojio::web::serve::ServerStep;
use kimojio::web::serve::WireProtocol;
use kimojio::web::server::connection_outcome;
use kimojio::web::server::drain_step;
use kimojio::web::server::linger_deadline;
use kimojio::web::server::report_connection_result;
use kimojio::web::server::AcceptLoop;
use kimojio::web::server::AcceptPhase;
use kimojio::web::server::DrainPhase;
use kimojio::web::server::RequestMode;
use kimojio::web::server::ServeError;
use kimojio::web::trailers::TrailerTable;
use kimojio::web::uri::Uri;
use kimojio::web::uri::UriTarget;

fn now() -> Instant {
    Instant::from_parts(1_000_000, 0).unwrap()
}

fn later(secs: u64) -> Instant {
    now().checked_add(Duration::from_secs(secs)).unwrap()
}

fn target(uri: &str) -> UriTarget {
    UriTarget::parse(&Uri::parse(uri).unwrap()).unwrap()
}

fn field(name: &str, value: &str) -> HeaderField {
    HeaderField {
        name: name.as_bytes().to_vec(),
        value: value.as_bytes().to_vec(),
    }
}

fn head(status: u16) -> ReceivedResponseHead {
    ReceivedResponseHead {
        status,
        version: HttpVersion::Http2,
        headers: Headers::new(),
    }
}

fn prepared(method: &str, uri: &str) -> PreparedRequest {
    let client = Client::new();
    client
        .request(Method::from_bytes(method.as_bytes()).unwrap(), uri)
        .build(client.config(), now(), |_| Ok(()))
        .unwrap()
}

fn info(kind: HttpErrorKind) -> HttpErrorInfo {
    HttpErrorInfo {
        kind,
        limit: None,
        detail: "detail".to_string(),
    }
}

fn session(uri: &str) -> H2Session {
    H2Session::new(
        1,
        PoolKey::new(
            &target(uri),
            Protocol::Http2PriorKnowledge,
            Protocol::Http2PriorKnowledge,
        ),
        Limits::new(),
        true,
        0,
    )
}

#[test]
fn a_written_request_blocks_non_idempotent_retry() {
    let failure = SendFailure::connection(
        Error::Io(Errno::from_raw_os_error(libc::ECONNRESET)),
        false,
        true,
    );

    assert!(!failure.can_retry_on_fresh_connection(&Method::post()));
    assert!(failure.can_retry_on_fresh_connection(&Method::from_bytes(b"PUT").unwrap()));
}

#[test]
fn answered_requests_are_not_repeated() {
    let failure = SendFailure::connection(Error::UnexpectedEof, true, true);
    assert!(!failure.can_retry_on_fresh_connection(&Method::get()));
    let failure = SendFailure::other(Error::UnexpectedEof, false, false);
    assert!(!failure.can_retry_on_fresh_connection(&Method::get()));
}

#[test]
fn dropping_unstarted_http2_slot_releases_reservation() {
    let mut session = session("http://example.test/");
    let slot = session.try_reserve().unwrap();
    assert_eq!(session.state.active, 1);
    slot.leave(&mut session);
    assert_eq!(session.state.active, 0);
}

#[test]
fn buffered_http2_body_avoids_owned_pump_action() {
    let mut session = session("http://example.test/");
    session.try_reserve().unwrap();
    let mut exchanges = H2Exchanges::new();
    let exchange_id = 5;
    exchanges
        .submit(
            1,
            ResponseMode::Buffered,
            Body::new(Vec::new()),
            Ok(exchange_id),
            &mut session.state,
        )
        .unwrap();
    exchanges.note_written(exchange_id, true);
    assert!(matches!(
        exchanges.response_head(exchange_id, head(200)),
        Ok(HeadAction::Nothing)
    ));

    let owned = exchanges
        .prepare_response_body(exchange_id, b"borrowed")
        .unwrap();

    assert!(
        owned.is_none(),
        "buffered DATA must not become an owned pump action"
    );
    assert!(!exchanges.response_complete(exchange_id, true).unwrap());
    let retired = exchanges
        .retire(exchange_id, &mut session.state, 10, now())
        .unwrap();
    let response = retired.response.unwrap();
    assert_eq!(response.body.as_bytes(), b"borrowed");
    assert_eq!(response.status, 200);
    assert!(retired.became_idle);
    assert_eq!(session.state.completed, 1);
}

#[test]
fn pooled_connections_are_reused_until_they_expire() {
    let place = target("http://example.test/");
    let key = PoolKey::new(&place, Protocol::Http1, Protocol::Http1);
    let idle = Duration::from_secs(90);
    let mut pool = ConnectionPool::<u8>::new();
    let evicted = pool.insert_http1(key.duplicate(), 1, now(), idle, 2, 3);
    assert!(evicted.connections.is_empty());
    pool.insert_http1(key.duplicate(), 2, later(1), idle, 2, 3);
    let evicted = pool.insert_http1(key.duplicate(), 3, later(2), idle, 2, 3);
    assert_eq!(evicted.connections, vec![1]);
    let checkout = pool.checkout_http1(&place, Protocol::Http1, later(3), idle);
    assert_eq!(checkout.connection.map(|(_, connection)| connection), Some(3));
    let checkout = pool.checkout_http1(&place, Protocol::Http1, later(500), idle);
    assert!(checkout.connection.is_none());
    assert_eq!(checkout.expired.connections, vec![2]);
    let elsewhere = target("http://other.test/");
    pool.insert_http1(key, 4, now(), idle, 2, 3);
    assert!(pool
        .checkout_http1(&elsewhere, Protocol::Http1, now(), idle)
        .connection
        .is_none());
}

#[test]
fn sessions_are_shared_up_to_their_limit() {
    let place = target("http://example.test/");
    let key = PoolKey::new(
        &place,
        Protocol::Http2PriorKnowledge,
        Protocol::Http2PriorKnowledge,
    );
    let mut pool = ConnectionPool::<u8>::new();
    let slot = pool.create_http2(key, Limits::new().set_max_active_streams(2), Some(0));
    assert!(!slot.reused);
    let idle = Duration::from_secs(90);
    let second = pool.reserve_http2(&place, Protocol::Http2PriorKnowledge, now(), idle);
    assert_eq!(second.slot.as_ref().map(|slot| slot.session_id), Some(slot.session_id));
    let third = pool.reserve_http2(&place, Protocol::Http2PriorKnowledge, now(), idle);
    assert!(third.slot.is_none());
    pool.remove_http2_session(slot.session_id);
    let gone = pool.reserve_http2(&place, Protocol::Http2PriorKnowledge, now(), idle);
    assert!(gone.slot.is_none());
}

#[test]
fn idle_connections_are_looked_at_before_reuse() {
    assert!(matches!(
        start_reuse_check(true, Protocol::Http1, true),
        ReuseAction::Done(false)
    ));
    assert!(matches!(
        start_reuse_check(false, Protocol::Http1, true),
        ReuseAction::Read
    ));
    assert!(matches!(
        reuse_after_read(Protocol::Http1, Ok(None), true),
        ReuseAction::Done(true)
    ));
    assert!(matches!(
        reuse_after_read(Protocol::Http1, Ok(Some(0)), true),
        ReuseAction::Done(false)
    ));
    assert!(matches!(
        reuse_after_process(Some(ClientIdleStatus::NotReusable), true, true, false),
        ReuseAction::Done(false)
    ));
}

#[test]
fn connections_are_kept_while_they_may_be() {
    let mut completed = 8;
    assert!(matches!(
        finish_response_connection(&mut completed, 10, true, Ok(true), true),
        ConnectionFate::Pool
    ));
    assert_eq!(completed, 9);
    assert!(matches!(
        finish_response_connection(&mut completed, 10, true, Ok(true), true),
        ConnectionFate::Close
    ));
    let mut completed = 1;
    assert!(matches!(
        finish_response_connection(&mut completed, 10, true, Ok(true), false),
        ConnectionFate::Close
    ));
    assert!(matches!(
        finish_response_connection(&mut completed, 10, false, Ok(true), true),
        ConnectionFate::Fail(_)
    ));
}

#[test]
fn requests_are_repeated_once_on_a_fresh_connection() {
    let client = Client::new();
    let PreparedRequest { request, .. } = prepared("GET", "http://example.test/");
    let execution = Execution::start(client.config(), request, now()).unwrap();
    assert_eq!(execution.phase, ExecutePhase::Validate);
    let execution = execution.validated(Ok(())).ok().unwrap();
    assert_eq!(execution.phase, ExecutePhase::Reserve);
    let execution = execution.reserved(false).ok().unwrap();
    assert_eq!(execution.phase, ExecutePhase::Checkout);
    let execution = execution.checked_out(true);
    assert_eq!(execution.phase, ExecutePhase::Inspect);
    let execution = execution.inspected(true).ok().unwrap();
    let execution = match execution.phase {
        ExecutePhase::ValidateWire => execution.validated_wire(Ok(())).ok().unwrap(),
        _ => execution,
    };
    assert_eq!(execution.phase, ExecutePhase::Send);
    let failure = SendFailure::connection(Error::UnexpectedEof, false, true);
    let execution = execution.sent(Err(failure)).ok().unwrap();
    assert_eq!(
        execution.phase,
        ExecutePhase::Open(Some(ClientEvent::RequestRetried))
    );
    let execution = execution.opened(Ok(Protocol::Http1)).ok().unwrap();
    let execution = match execution.phase {
        ExecutePhase::ValidateWire => execution.validated_wire(Ok(())).ok().unwrap(),
        _ => execution,
    };
    let failure = SendFailure::connection(Error::UnexpectedEof, false, true);
    assert!(matches!(
        execution.sent(Err(failure)).err().unwrap().error,
        Error::UnexpectedEof
    ));
}

#[test]
fn rejected_submissions_go_to_another_session() {
    let PreparedRequest { request, .. } = prepared("POST", "http://example.test/");
    let attempts = Http2Attempts::new(&request);
    assert!(attempts.keeps_copy());
    assert!(matches!(attempts.source(true), SessionSource::Given));
    let attempts = match attempts.after(true, H2AttemptResult::Rejected) {
        AttemptNext::Resubmit(attempts) => attempts,
        _ => panic!("nothing was sent"),
    };
    let failure = SendFailure::connection(Error::UnexpectedEof, false, true);
    assert!(matches!(
        attempts.after(true, H2AttemptResult::Failure(failure)),
        AttemptNext::Fail(_)
    ));
}

fn sending(body: Body, mode: ResponseMode) -> SendState {
    SendState::new(Ok(3), body, mode, Duration::from_secs(1), false)
        .ok()
        .unwrap()
}

fn event(event: DriverClientEvent) -> Result<ClientStep, HttpErrorInfo> {
    Ok(ClientStep::Event(event))
}

#[test]
fn http1_content_length_response_preserves_http10_version() {
    let state = sending(Body::empty(), ResponseMode::Buffered);
    let (state, action) = state
        .stepped(event(DriverClientEvent::ResponseHead {
            exchange_id: 3,
            status: 200,
            version: HttpVersion::Http10,
            headers: vec![field("content-length", "4")],
        }))
        .ok()
        .unwrap();
    assert_eq!(action, PumpAction::Progress);
    let (state, _) = state
        .stepped(event(DriverClientEvent::ResponseBody {
            exchange_id: 3,
            chunk: b"body".to_vec(),
        }))
        .ok()
        .unwrap();
    let (state, action) = state
        .stepped(event(DriverClientEvent::ResponseComplete { exchange_id: 3 }))
        .ok()
        .unwrap();
    assert_eq!(action, PumpAction::Complete);
    let response = state.finish().ok().unwrap();
    assert_eq!(response.version, Version::Http10);
    assert_eq!(response.body.as_bytes(), b"body");
}

#[test]
fn responses_to_other_exchanges_are_refused() {
    let state = sending(Body::empty(), ResponseMode::Buffered);
    let failure = state
        .stepped(event(DriverClientEvent::ResponseComplete { exchange_id: 4 }))
        .err()
        .unwrap();
    assert!(matches!(failure.error, Error::Protocol(_)));
    assert!(begin_exchange(true, false).is_err());
    assert!(begin_exchange(false, false).is_ok());
}

#[test]
fn streaming_responses_stop_at_their_head() {
    let state = sending(Body::empty(), ResponseMode::Streaming);
    let (state, action) = state
        .stepped(event(DriverClientEvent::ResponseHead {
            exchange_id: 3,
            status: 204,
            version: HttpVersion::Http11,
            headers: vec![],
        }))
        .ok()
        .unwrap();
    assert_eq!(action, PumpAction::ResponseHead);
    assert_eq!(state.take_head().ok().unwrap().status, 204);
    assert!(matches!(
        pull_step(
            3,
            event(DriverClientEvent::ResponseBody {
                exchange_id: 3,
                chunk: b"ab".to_vec()
            })
        ),
        Ok(PullAction::Body(chunk)) if chunk == b"ab"
    ));
    let mut table = TrailerTable::new();
    let number = table.open();
    keep_trailers(&mut table, number, Headers::new().append(b"a", b"1")).unwrap();
    assert!(keep_trailers(&mut table, number, Headers::new()).is_err());
}

#[test]
fn expectations_are_waited_for_once() {
    let state = sending(body_from_str("body"), ResponseMode::Buffered);
    let (state, wait) = state.wait(true, now()).ok().unwrap();
    assert_eq!(wait.deadline, Some(later(1)));
    let (state, wait) = state.wait(true, later(9)).ok().unwrap();
    assert_eq!(wait.deadline, Some(later(1)));
    let (_, after) = state
        .waited(
            WaitAction::Input(Err(Error::Io(Errno::timed_out()))),
            true,
        )
        .ok()
        .unwrap();
    assert_eq!(after, AfterWait::ProceedWithBody);
}

#[test]
fn failed_writes_are_connection_failures() {
    let state = sending(Body::empty(), ResponseMode::Buffered);
    let failure = state
        .written(true, Err(Errno::from_raw_os_error(EPIPE)))
        .err()
        .unwrap();
    assert!(failure.connection_failure);
    assert!(failure.request_bytes_written);
    let state = sending(Body::from_stream(1), ResponseMode::Buffered);
    assert_eq!(state.body_source(), Some(1));
    assert!(state.needs_chunk());
    let failure = state
        .polled(SourcePoll::Failed("lost".to_string()))
        .err()
        .unwrap();
    assert!(matches!(failure.error, Error::BodyStream { .. }));
}

#[test]
fn response_heads_are_checked() {
    let head = receive_head(200, HttpVersion::Http11, &vec![field("a", "1")]).unwrap();
    assert_eq!(head.headers.values(b"a"), vec![b"1".to_vec()]);
    assert!(receive_head(99, HttpVersion::Http11, &vec![]).is_err());
}

#[test]
fn streams_after_the_last_processed_one_may_be_repeated() {
    let refused = H2SharedFailure::Driver(DriverError::PeerReset {
        stream_id: 5,
        error_code: REFUSED_STREAM,
        info: info(HttpErrorKind::PeerReset),
    });
    assert!(!refused.guarantees_unprocessed(5));
    let goaway = H2SharedFailure::Driver(DriverError::PeerGoaway {
        last_stream_id: 5,
        error_code: 0,
        info: info(HttpErrorKind::PeerGoaway),
    });
    assert!(!goaway.guarantees_unprocessed(5));
    assert!(goaway.guarantees_unprocessed(7));
    assert!(H2SharedFailure::UnexpectedEof.is_connection_failure());
    assert!(matches!(
        H2SharedFailure::from_error(Error::UnexpectedEof).error(),
        Error::UnexpectedEof
    ));
}

#[test]
fn ended_sessions_tell_every_exchange() {
    let mut session = session("http://example.test/");
    session.try_reserve().unwrap();
    session.try_reserve().unwrap();
    let mut exchanges = H2Exchanges::new();
    for (request, exchange) in [(1, 5), (2, 7)] {
        exchanges
            .submit(
                request,
                ResponseMode::Buffered,
                Body::empty(),
                Ok(exchange),
                &mut session.state,
            )
            .unwrap();
    }
    assert!(exchanges.admits(3));
    assert!(!exchanges.admits(2));
    assert_eq!(exchanges.cancel(9), None);
    let termination = H2PumpTermination::Failed(H2SharedFailure::UnexpectedEof);
    let farewells = exchanges.finish(&termination, &mut session.state);
    assert_eq!(farewells.len(), 2);
    for farewell in farewells {
        assert!(matches!(farewell.reply, H2Reply::Failure(_)));
    }
    assert!(!session.state.usable);
    session.state.active = 2;
    assert!(matches!(
        queued_reply(
            &H2PumpTermination::Stopped(H2PumpStopReason::IdleTimeout),
            &mut session.state
        ),
        QueuedReply::Rejected
    ));
    assert_eq!(session.state.active, 1);
    assert!(matches!(
        queued_reply(
            &H2PumpTermination::BeforeStart(H2SharedFailure::Canceled),
            &mut session.state
        ),
        QueuedReply::Failure(_)
    ));
    assert_eq!(session.state.active, 0);
}

#[test]
fn streamed_chunks_are_delivered_or_abandoned() {
    let mut session = session("http://example.test/");
    let mut exchanges = H2Exchanges::new();
    exchanges
        .submit(
            1,
            ResponseMode::Streaming,
            Body::empty(),
            Ok(5),
            &mut session.state,
        )
        .unwrap();
    assert!(matches!(
        exchanges.response_head(5, head(200)),
        Ok(HeadAction::Offer(_))
    ));
    exchanges.stream_offered(5, true);
    assert_eq!(
        exchanges.prepare_response_body(5, b"ab").unwrap(),
        Some(b"ab".to_vec())
    );
    assert!(exchanges.deliverable(5).unwrap());
    assert!(!exchanges.delivered(5, Delivery::Taken).abandon);
    assert!(exchanges.delivered(5, Delivery::Closed).abandon);
}

#[test]
fn streamed_bodies_keep_their_source() {
    let mut session = session("http://example.test/");
    let mut exchanges = H2Exchanges::new();
    exchanges
        .submit(
            1,
            ResponseMode::Buffered,
            Body::from_stream(8),
            Ok(5),
            &mut session.state,
        )
        .unwrap();
    exchanges
        .submit(
            2,
            ResponseMode::Buffered,
            Body::empty(),
            Ok(7),
            &mut session.state,
        )
        .unwrap();
    assert_eq!(exchanges.body_source(5), Some(8));
    assert_eq!(exchanges.body_source(7), None);
    assert_eq!(exchanges.body_source(9), None);
    exchanges
        .poll_body(5, SourcePoll::Chunk(b"ab".to_vec()))
        .unwrap();
    exchanges.commit_body(5, 2);
    assert_eq!(exchanges.body_source(5), Some(8));

    let mut table = TrailerTable::new();
    let mut exchanges = ServerExchanges::new();
    exchanges
        .respond(1, Body::from_stream(3), true, WireProtocol::Http2, &mut table)
        .unwrap();
    exchanges
        .respond(2, body_from_str("whole"), true, WireProtocol::Http2, &mut table)
        .unwrap();
    assert_eq!(exchanges.response_source(1), Some(3));
    assert_eq!(exchanges.response_source(2), None);
    assert_eq!(exchanges.response_source(4), None);
}

#[test]
fn bodies_are_offered_in_turn() {
    let offers = vec![
        BodyOffer {
            exchange_id: 5,
            available: None,
        },
        BodyOffer {
            exchange_id: 7,
            available: Some(3),
        },
    ];
    assert_eq!(next_offer(&offers, 0), Some(1));
    assert_eq!(next_offer(&offers, 2), None);
}

#[test]
fn a_pump_stops_when_its_session_is_shut_down() {
    let pump = H2Pump::new();
    assert_eq!(pump.phase, PumpPhase::Turn);
    let stopped = pump.turn(true, false);
    assert_eq!(
        stopped.phase,
        PumpPhase::Stopped(H2PumpStopReason::SessionShutdown)
    );
    let going = pump.turn(false, true);
    assert_eq!(going.phase, PumpPhase::Drain);
    assert_eq!(going.drained(CommandPoll::Empty).phase, PumpPhase::Retire);
}

#[test]
fn submissions_are_canceled_unless_answered() {
    let lease = H2CancellationLease::new(1, 2);
    assert_eq!(lease.leave(), Some(2));
    let mut lease = H2CancellationLease::new(1, 2);
    lease.disarm();
    assert_eq!(lease.leave(), None);
    assert!(matches!(
        submission_replied(SubmissionReply::Buffered).0,
        H2AttemptResult::Response
    ));
    assert!(matches!(
        submission_replied(SubmissionReply::Rejected).0,
        H2AttemptResult::Rejected
    ));
}

#[test]
fn streamed_responses_report_their_end() {
    assert_eq!(
        streamed_chunk(Ok(Ok(b"ab".to_vec())), None).unwrap(),
        Some(b"ab".to_vec())
    );
    assert_eq!(
        streamed_chunk(Ok(Err(ChannelError::Closed)), None).unwrap(),
        None
    );
    assert!(matches!(
        streamed_chunk(Ok(Err(ChannelError::Closed)), Some(Error::UnexpectedEof)),
        Err(Error::UnexpectedEof)
    ));
    assert!(matches!(
        streamed_chunk(Err(TimeoutError::Timeout), None),
        Err(Error::Io(_))
    ));
}

#[test]
fn accepts_back_off_under_pressure() {
    let accept = AcceptLoop::new(1);
    assert!(accept.wait(0).accepts);
    assert!(!accept.wait(1).accepts);
    assert!(accept.wait(1).completes);
    let (accept, told) = accept
        .accepted(Err(Errno::from_raw_os_error(EMFILE)))
        .unwrap();
    assert!(matches!(told, Some(ServeError::TransientAccept(_))));
    assert_eq!(accept.phase, AcceptPhase::Backoff(Duration::from_millis(10)));
    let accept = accept.backed_off(false);
    assert_eq!(accept.phase, AcceptPhase::Wait);
    let (accept, _) = accept
        .accepted(Err(Errno::from_raw_os_error(EMFILE)))
        .unwrap();
    assert_eq!(accept.phase, AcceptPhase::Backoff(Duration::from_millis(20)));
    let (accept, _) = accept.backed_off(false).accepted(Ok(())).unwrap();
    let (accept, _) = accept.configured(Ok(()));
    assert_eq!(accept.served().phase, AcceptPhase::Wait);
    assert!(AcceptLoop::new(1)
        .accepted(Err(Errno::from_raw_os_error(libc::EBADF)))
        .is_err());
    assert_eq!(AcceptLoop::new(1).canceled().phase, AcceptPhase::Drain);
}

#[test]
fn connection_results_are_reported() {
    assert!(report_connection_result(Ok(Ok(())), false).is_none());
    assert!(matches!(
        report_connection_result(Ok(Err(Error::UnexpectedEof)), false),
        Some(ServeError::Connection(_))
    ));
    assert!(report_connection_result(Ok(Err(Error::Canceled)), true).is_none());
    assert!(matches!(
        report_connection_result(Err(TaskHandleError::Canceled), true),
        Some(ServeError::ConnectionTaskCanceled)
    ));
    let payload = PanicPayload {
        message: Some("boom".to_string()),
    };
    let panicked =
        report_connection_result(Err(TaskHandleError::Panic(payload)), true).unwrap();
    assert!(panicked.panic_payload().is_some());
    assert!(panicked.to_text().contains("boom"));
    assert_eq!(drain_step(DrainPhase::Graceful, 0, false), DrainPhase::Done);
    assert_eq!(
        drain_step(DrainPhase::Graceful, 1, true),
        DrainPhase::Forced
    );
    assert_eq!(
        linger_deadline(now()),
        now().checked_add(Duration::from_millis(250))
    );
    assert!(matches!(
        connection_outcome(Err(Error::UnexpectedEof), Err(Error::Canceled)),
        Err(Error::UnexpectedEof)
    ));
}

fn request_head(id: u64) -> ServerStep {
    ServerStep::Event(ServerEvent::RequestHead {
        exchange_id: id,
        head: ReceivedRequestHead {
            method: b"POST".to_vec(),
            target: b"/".to_vec(),
            authority: None,
            version: HttpVersion::Http11,
            fields: vec![field("host", "example.test")],
            content_length: None,
        },
        expects_continue: false,
    })
}

#[test]
fn requests_are_gathered_and_answered() {
    let mut table = TrailerTable::new();
    let mut exchanges = ServerExchanges::new();
    assert!(matches!(
        exchanges.classify_step(request_head(1), WireProtocol::Http1),
        Ok(ServeAction::RequestHead { exchange_id: 1, .. })
    ));
    assert_eq!(exchanges.request(1).unwrap().method.as_str(), "POST");
    assert!(matches!(
        exchanges.classify_step(
            ServerStep::Event(ServerEvent::RequestBody {
                exchange_id: 1,
                chunk: b"data".to_vec()
            }),
            WireProtocol::Http1
        ),
        Ok(ServeAction::Progress)
    ));
    let request = exchanges
        .request_complete(1, RequestMode::Buffered)
        .unwrap()
        .unwrap();
    assert_eq!(request.body.as_bytes(), b"data");
    exchanges.begin(1);
    let end = exchanges.handler_done(HandlerCompletion::Response(1, Ok(internal_server_error())));
    let response = match end.next.unwrap() {
        HandlerNext::Respond(response) => response,
        HandlerNext::Nothing => panic!("the handler answered"),
    };
    assert_eq!(response.status, 500);
    exchanges
        .respond(1, body_from_str("sorry"), true, WireProtocol::Http1, &mut table)
        .unwrap();
    assert!(exchanges.has_responses());
    assert_eq!(exchanges.response_bytes(1), Some(&b"sorry"[..]));
    assert_eq!(exchanges.commit_response(1, 5), BodyAction::Complete);
    exchanges.retire(1);
    assert!(!exchanges.has_responses());
}

#[test]
fn streamed_requests_follow_demand() {
    let mut exchanges = ServerExchanges::new();
    exchanges
        .classify_step(request_head(1), WireProtocol::Http2)
        .unwrap();
    let request = exchanges
        .start_streaming(1, RequestMode::Streaming, Body::from_stream(4))
        .unwrap();
    assert!(request.body.is_streaming());
    assert!(matches!(
        exchanges.request_body(1, b"ab", WireProtocol::Http2),
        Ok(RequestBodyAction::Deliver(chunk)) if chunk == b"ab"
    ));
    assert_eq!(
        exchanges.delivered(1, Delivery::Taken),
        RequestAction::Streamed
    );
    assert_eq!(
        exchanges.delivered(1, Delivery::Closed),
        RequestAction::Abandoned
    );
    assert_eq!(exchanges.stream_ids(), Vec::<u64>::new());
}

#[test]
fn header_frames_name_their_stream() {
    assert_eq!(
        decode_headers_stream(&[0, 0, 0, 1, 4, 0, 0, 0, 5]),
        Some(5)
    );
    assert_eq!(decode_headers_stream(&[0, 0, 0, 0, 0, 0, 0, 0, 5]), None);
    assert_eq!(decode_headers_stream(&[0, 0, 1]), None);
}

#[test]
fn a_connection_is_served_in_phases() {
    let pump = ServePump::new();
    assert_eq!(pump.phase, ServePhase::Retire);
    let pump = pump.retired(true);
    assert_eq!(pump.phase, ServePhase::Poll);
    let pump = pump.polled(false);
    assert_eq!(pump.phase, ServePhase::Demand);
    let pump = pump.demanded();
    assert_eq!(pump.phase, ServePhase::Handlers);
    assert_eq!(ServePump::new().retired(false).phase, ServePhase::Stopped);
}

#[test]
fn errors_of_a_kind_stay_of_that_kind() {
    assert!(matches!(
        DriverError::Other(info(HttpErrorKind::Compression)).error(),
        Error::Protocol(error) if error.kind() == ProtocolErrorKind::Compression
    ));
}

#[test]
fn responses_are_described_with_the_usual_words() {
    let mut response = internal_server_error();
    let description = describe_response(&response);
    assert_eq!(description.status, 500);
    assert_eq!(description.reason, "Internal Server Error");
    assert_eq!(description.body_len, Some(0));
    response.status = 799;
    assert_eq!(describe_response(&response).reason, "");
    response.body = Body::from_stream(1);
    assert_eq!(describe_response(&response).body_len, None);
    assert_eq!(reason_phrase(Some("OK".to_string())), "OK");
}

#[test]
fn hosts_are_told_apart_whatever_their_case() {
    let first = PoolKey::new(
        &target("http://EXAMPLE.test/"),
        Protocol::Http1,
        Protocol::Http1,
    );
    assert_eq!(first.host, "example.test");
    let second = PoolKey::new(
        &target("http://example.TEST/"),
        Protocol::Http1,
        Protocol::Http1,
    );
    assert!(first.same_as(&second));
    assert!(first.matches(&target("http://Example.Test/"), Protocol::Http1));
}

#[test]
fn unstarted_slots_go_back_to_their_session() {
    let place = target("http://example.com/");
    let key = PoolKey::new(
        &place,
        Protocol::Http2PriorKnowledge,
        Protocol::Http2PriorKnowledge,
    );
    let mut pool = ConnectionPool::<u8>::new();
    let slot = pool.create_http2(key, Limits::new(), None);
    let id = slot.session_id;
    assert_eq!(pool.session_state(id).map(|state| state.active), Some(1));
    let idle = Duration::from_secs(90);
    let second = pool.reserve_http2(&place, Protocol::Http2PriorKnowledge, now(), idle);
    let mut started = second.slot.unwrap();
    assert_eq!(pool.session_state(id).map(|state| state.active), Some(2));
    started.disarm();
    assert!(pool.release_slot(started));
    assert_eq!(pool.session_state(id).map(|state| state.active), Some(2));
    assert!(pool.release_slot(slot));
    assert_eq!(pool.session_state(id).map(|state| state.active), Some(1));
    pool.remove_http2_session(id);
    assert!(pool.session_state(id).is_none());
}

#[test]
fn pulled_steps_lead_to_the_next_turn() {
    let mut table = TrailerTable::new();
    let number = table.open();
    assert!(matches!(
        pull_turn(PullAction::Body(vec![1, 2]), 2, &mut table, number),
        Ok(PullTurn::Chunk(chunk)) if chunk == vec![1, 2]
    ));
    assert!(matches!(
        pull_turn(PullAction::NeedInput, 3, &mut table, number),
        Ok(PullTurn::Again)
    ));
    assert!(matches!(
        pull_turn(PullAction::NeedInput, 0, &mut table, number),
        Ok(PullTurn::Read)
    ));
    assert!(matches!(
        pull_turn(PullAction::Write, 0, &mut table, number),
        Ok(PullTurn::Write)
    ));
    assert!(pull_turn(PullAction::Trailers(Headers::new()), 1, &mut table, number).is_ok());
    assert!(pull_turn(PullAction::Trailers(Headers::new()), 1, &mut table, number).is_err());
    assert!(matches!(
        pull_turn(PullAction::Complete, 0, &mut table, number),
        Ok(PullTurn::End)
    ));
}

#[test]
fn request_bodies_go_before_steps() {
    let state = sending(body_from_str("body"), ResponseMode::Buffered);
    assert_eq!(state.round(), SendPhase::Body);
    assert_eq!(state.past_body(false), SendPhase::Step);
    assert_eq!(state.past_body(true), SendPhase::Body);
    let state = sending(Body::from_stream(1), ResponseMode::Buffered);
    assert_eq!(state.round(), SendPhase::Source);
    assert_eq!(state.past_source(), SendPhase::Step);
    let state = state
        .polled(SourcePoll::Chunk(b"ab".to_vec()))
        .ok()
        .unwrap();
    assert_eq!(state.past_source(), SendPhase::Body);

    assert_eq!(send_turn(PumpAction::Progress, 0), SendTurn::Again);
    assert_eq!(send_turn(PumpAction::Write, 0), SendTurn::Write);
    assert_eq!(send_turn(PumpAction::NeedInput, 3), SendTurn::Again);
    assert_eq!(send_turn(PumpAction::NeedInput, 0), SendTurn::Wait);
    assert_eq!(send_turn(PumpAction::ResponseHead, 1), SendTurn::Head);
    assert_eq!(send_turn(PumpAction::Complete, 1), SendTurn::Response);
}

#[test]
fn only_one_clone_sends_the_trailers() {
    let mut table = TrailerTable::new();
    let callback = table.attach();
    let body = body_from_str("a").with_trailers_fn(callback);
    let clone = body.duplicate();
    let mut exchanges = ServerExchanges::new();
    exchanges
        .respond(1, body, true, WireProtocol::Http2, &mut table)
        .unwrap();
    assert!(matches!(
        exchanges.respond(2, clone, true, WireProtocol::Http2, &mut table),
        Err(Error::Protocol(error)) if error.kind() == ProtocolErrorKind::InvalidState
    ));
    assert_eq!(exchanges.commit_response(1, 1), BodyAction::Sent);
    assert_eq!(exchanges.due_trailers(1), Some(callback));
    assert_eq!(exchanges.due_trailers(1), None);
}

#[test]
fn buffered_http2_trailers_are_readable_at_once() {
    let table = TrailerTable::new();
    let mut session = session("http://example.test/");
    session.try_reserve().unwrap();
    let mut exchanges = H2Exchanges::new();
    exchanges
        .submit(
            1,
            ResponseMode::Buffered,
            Body::empty(),
            Ok(5),
            &mut session.state,
        )
        .unwrap();
    assert!(exchanges.response_head(5, head(200)).is_ok());
    let fields = Headers::new().append(b"a", b"1");
    assert!(exchanges.response_trailers(5, fields).unwrap().is_none());
    assert!(!exchanges.response_complete(5, true).unwrap());
    let retired = exchanges
        .retire(5, &mut session.state, 10, now())
        .unwrap();
    let body = retired.response.unwrap().body;
    assert!(!body.has_outbound_trailers());
    assert_eq!(
        body.trailers(&table).unwrap().values(b"a"),
        vec![b"1".to_vec()]
    );
}

#[test]
fn reservations_count_at_the_next_look_for_idleness() {
    let mut session = session("http://example.test/");
    let pump = H2Pump::new().turn(false, false).retired();
    let pump = pump.polled(false, false);
    let pump = pump.idle(&mut session.state, now());
    assert_eq!(pump.phase, PumpPhase::Caps);
    let pump = pump.capped(false).input_drained();
    session.try_reserve().unwrap();
    let stopped = pump.settle(session.state.idle_since, Duration::zero());
    assert_eq!(
        stopped.phase,
        PumpPhase::Stopped(H2PumpStopReason::IdleTimeout)
    );
    let waiting = pump.settle(Some(now()), Duration::from_secs(1));
    match waiting.phase {
        PumpPhase::IdleWait(wait) => {
            assert_eq!(wait.deadline, Some(later(1)));
            assert!(!wait.reserved);
        }
        other => panic!("{other:?}"),
    }
}

#[test]
fn refused_requests_give_their_reservation_back() {
    let mut session = session("http://example.test/");
    session.try_reserve().unwrap();
    session.try_reserve().unwrap();
    let mut exchanges = H2Exchanges::new();
    let first = prepared("GET", "http://example.test/a").request;
    let Admission::Admitted(first) = exchanges.decide_on(first, &mut session.state, 1) else {
        panic!("nothing is open yet");
    };
    assert_eq!(session.state.active, 2);
    exchanges
        .submit(
            1,
            ResponseMode::Buffered,
            first.body,
            Ok(5),
            &mut session.state,
        )
        .unwrap();
    assert_eq!(session.state.active, 2);

    let second = prepared("PUT", "http://example.test/b").request;
    let Admission::Rejected(second) = exchanges.decide_on(second, &mut session.state, 1) else {
        panic!("the peer takes one exchange at a time");
    };
    assert_eq!(second.method.as_str(), "PUT");
    assert_eq!(session.state.active, 1);
    assert!(!exchanges.refuse(&mut session.state, 2));
    assert_eq!(session.state.active, 1);
    assert!(exchanges.refuse(&mut session.state, 1));
    assert_eq!(session.state.active, 0);
    session.release_unstarted();
    assert_eq!(session.state.active, 0);
}

#[test]
fn requests_that_the_driver_refuses_are_not_started() {
    let mut session = session("http://example.test/");
    session.try_reserve().unwrap();
    let mut exchanges = H2Exchanges::new();
    let submitted = exchanges.submit(
        1,
        ResponseMode::Buffered,
        Body::empty(),
        Err(DriverError::Other(info(HttpErrorKind::InvalidHeader))),
        &mut session.state,
    );
    let Err((reply, failure)) = submitted else {
        panic!("the driver refused the request");
    };
    assert!(matches!(reply, H2Reply::Failure(_)));
    assert!(matches!(
        failure.error(),
        Error::Protocol(error) if error.kind() == ProtocolErrorKind::InvalidHeader
    ));
    assert_eq!(session.state.active, 0);
    assert!(exchanges.admits(1));
}

#[test]
fn resets_end_one_exchange() {
    let reset = |kind: HttpErrorKind| DriverError::PeerReset {
        stream_id: 1,
        error_code: 8,
        info: info(kind),
    };
    assert!(resets_exchange(&reset(HttpErrorKind::PeerReset)));
    assert!(!resets_exchange(&DriverError::Other(info(
        HttpErrorKind::MalformedMessage
    ))));

    let mut table = TrailerTable::new();
    let mut exchanges = ServerExchanges::new();
    exchanges
        .classify_step(request_head(1), WireProtocol::Http2)
        .unwrap();
    exchanges.begin(1);
    exchanges
        .start_streaming(1, RequestMode::Streaming, Body::from_stream(4))
        .unwrap();
    exchanges
        .respond(3, body_from_str("kept"), true, WireProtocol::Http2, &mut table)
        .unwrap();
    let ended = exchanges
        .step_failed(reset(HttpErrorKind::PeerReset), Some(1))
        .unwrap();
    assert_eq!((ended.id, ended.cancel), (1, true));
    assert!(exchanges.request(1).is_none());
    assert_eq!(exchanges.response_bytes(3), Some(&b"kept"[..]));

    assert!(matches!(
        exchanges.step_failed(reset(HttpErrorKind::PeerReset), None),
        Err(Error::Protocol(error)) if error.kind() == ProtocolErrorKind::PeerReset
    ));
    assert!(matches!(
        exchanges.step_failed(
            DriverError::Other(info(HttpErrorKind::MalformedMessage)),
            Some(3)
        ),
        Err(Error::Protocol(error)) if error.kind() == ProtocolErrorKind::MalformedMessage
    ));
    assert_eq!(exchanges.response_bytes(3), Some(&b"kept"[..]));

    let stepping = ServePump {
        phase: ServePhase::Step,
        ..ServePump::new()
    };
    assert_eq!(stepping.reset(true).phase, ServePhase::Retire);
    let stepping = ServePump {
        phase: ServePhase::Step,
        ..ServePump::new()
    };
    assert_eq!(stepping.reset(false).phase, ServePhase::Stopped);
}
