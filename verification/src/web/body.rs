//! Message bodies and how they are sent piece by piece.

use vstd::prelude::*;
use vstd::slice::slice_subrange;
use vstd::string::*;

use crate::web::error::Error;
use crate::web::error::ErrorView;
use crate::web::error::ProtocolErrorKind;
use crate::web::error::ProtocolErrorView;
use crate::web::headers::Headers;
use crate::web::trailers::ReceivedTrailers;
use crate::web::trailers::ReceivedView;
use crate::web::trailers::TrailerTable;

verus! {

/// What a body stream yields when it is asked for its next item.
pub enum StreamItem {
    /// Bytes, possibly none.
    Chunk(Vec<u8>),
    /// The end of the body.
    End,
    /// A failure, with what the stream said.
    Failed(String),
}

/// What follows from an item of a body stream.
pub enum SourceStep {
    /// The item was empty. The stream is asked again.
    Again,
    /// A chunk, which is never empty.
    Chunk(Vec<u8>),
    /// The end of the body.
    End,
    /// A failure.
    Failed(String),
}

/// Skips empty chunks.
pub fn next_source_chunk(item: StreamItem) -> (step: SourceStep)
    ensures
        match item {
            StreamItem::Chunk(chunk) => if chunk@.len() == 0 {
                step is Again
            } else {
                step == SourceStep::Chunk(chunk)
            },
            StreamItem::End => step is End,
            StreamItem::Failed(message) => step == SourceStep::Failed(message),
        },
{
    match item {
        StreamItem::Chunk(chunk) => {
            if chunk.len() == 0 {
                SourceStep::Again
            } else {
                SourceStep::Chunk(chunk)
            }
        },
        StreamItem::End => SourceStep::End,
        StreamItem::Failed(message) => SourceStep::Failed(message),
    }
}

/// What a body source answered to a poll.
pub enum SourcePoll {
    /// A chunk, which is never empty.
    Chunk(Vec<u8>),
    /// The end of the body.
    End,
    /// A failure.
    Failed(String),
    /// Nothing yet.
    Pending,
}

impl SourcePoll {
    /// A source yields no empty chunk.
    pub open spec fn is_fair(&self) -> bool {
        self matches SourcePoll::Chunk(chunk) ==> chunk@.len() > 0
    }
}

/// What a poll for the next chunk of a body came to.
pub enum BodyPoll {
    /// The body can go on.
    Ready,
    /// The body failed.
    Failed(String),
    /// The body waits for its source.
    Pending,
}

/// How far a streamed body has come.
#[verifier::ext_equal]
pub struct CursorView {
    /// The source that is asked for chunks, known by a number.
    pub source: u64,
    /// The bytes of the current chunk that were not sent yet.
    pub unsent: Seq<u8>,
    /// Whether the source has ended.
    pub ended: bool,
    /// Whether the end was sent.
    pub terminated: bool,
}

impl CursorView {
    /// The start of the body that a source yields.
    pub open spec fn start(source: u64) -> CursorView {
        CursorView { source, unsent: Seq::empty(), ended: false, terminated: false }
    }

    /// Whether the source has to be asked for more.
    pub open spec fn wants_chunk(self) -> bool {
        self.unsent.len() == 0 && !self.ended
    }

    /// What can be sent: bytes, or an empty piece that stands for the end.
    pub open spec fn offer(self) -> Option<Seq<u8>> {
        if self.unsent.len() > 0 {
            Some(self.unsent)
        } else if self.ended && !self.terminated {
            Some(Seq::empty())
        } else {
            None
        }
    }

    /// The cursor after the source was asked.
    pub open spec fn polled(self, answer: SourcePoll) -> CursorView {
        if !self.wants_chunk() {
            self
        } else {
            match answer {
                SourcePoll::Chunk(chunk) => CursorView { unsent: chunk@, ..self },
                SourcePoll::End => CursorView { ended: true, ..self },
                _ => self,
            }
        }
    }

    /// The cursor after `count` bytes, or the end, were sent.
    pub open spec fn committed(self, count: int) -> CursorView {
        if count == 0 {
            CursorView { terminated: true, ..self }
        } else {
            CursorView { unsent: self.unsent.skip(count), ..self }
        }
    }

    /// Whether `count` bytes, or the end, may be committed.
    pub open spec fn may_commit(self, count: int) -> bool {
        &&& self.offer() is Some
        &&& 0 <= count <= self.offer()->0.len()
        &&& count == 0 ==> self.ended
    }

    /// The end is sent after the source has ended, and nothing is left then.
    pub open spec fn valid(self) -> bool {
        &&& self.terminated ==> self.ended
        &&& self.ended ==> self.unsent.len() == 0
    }
}

/// How far a streamed body has come.
pub struct BodyStreamCursor {
    source: u64,
    chunk: Vec<u8>,
    offset: usize,
    ended: bool,
    termination_sent: bool,
}

impl View for BodyStreamCursor {
    type V = CursorView;

    closed spec fn view(&self) -> CursorView {
        CursorView {
            source: self.source,
            unsent: self.chunk@.skip(self.offset as int),
            ended: self.ended,
            terminated: self.termination_sent,
        }
    }
}

impl BodyStreamCursor {
    /// The position lies inside the chunk, and the view is valid.
    pub closed spec fn valid(&self) -> bool {
        self.offset <= self.chunk@.len() && self@.valid()
    }

    /// A cursor at the start of the body that the source with the given number
    /// yields.
    pub fn new(source: u64) -> (cursor: BodyStreamCursor)
        ensures
            cursor.valid(),
            cursor@ == CursorView::start(source),
    {
        let cursor = BodyStreamCursor {
            source,
            chunk: Vec::new(),
            offset: 0,
            ended: false,
            termination_sent: false,
        };
        assert(cursor@.unsent =~= Seq::empty());
        cursor
    }

    /// The source that is asked for chunks.
    pub fn source(&self) -> (source: u64)
        ensures
            source == self@.source,
    {
        self.source
    }

    /// What can be sent: bytes, or an empty piece that stands for the end.
    pub fn available(&self) -> (available: Option<&[u8]>)
        requires
            self.valid(),
        ensures
            match available {
                Some(bytes) => self@.offer() == Some(bytes@),
                None => self@.offer() is None,
            },
    {
        if self.offset < self.chunk.len() {
            let bytes = slice_subrange(self.chunk.as_slice(), self.offset, self.chunk.len());
            assert(bytes@ =~= self@.unsent);
            Some(bytes)
        } else if self.ended && !self.termination_sent {
            let bytes = slice_subrange(self.chunk.as_slice(), 0, 0);
            assert(bytes@ =~= Seq::empty());
            Some(bytes)
        } else {
            None
        }
    }

    /// Whether the source has to be asked for more.
    pub fn needs_chunk(&self) -> (needs: bool)
        requires
            self.valid(),
        ensures
            needs == self@.wants_chunk(),
    {
        self.offset == self.chunk.len() && !self.ended
    }

    /// Takes the source's answer, which counts only when it was wanted.
    pub fn poll_chunk(&mut self, answer: SourcePoll) -> (poll: BodyPoll)
        requires
            old(self).valid(),
        ensures
            final(self).valid(),
            final(self)@ == old(self)@.polled(answer),
            poll == if !old(self)@.wants_chunk() {
                BodyPoll::Ready
            } else {
                match answer {
                    SourcePoll::Chunk(_) | SourcePoll::End => BodyPoll::Ready,
                    SourcePoll::Failed(message) => BodyPoll::Failed(message),
                    SourcePoll::Pending => BodyPoll::Pending,
                }
            },
    {
        if !self.needs_chunk() {
            return BodyPoll::Ready;
        }
        match answer {
            SourcePoll::Chunk(chunk) => {
                self.chunk = chunk;
                self.offset = 0;
                assert(self@.unsent =~= chunk@);
                BodyPoll::Ready
            },
            SourcePoll::End => {
                self.ended = true;
                BodyPoll::Ready
            },
            SourcePoll::Failed(message) => BodyPoll::Failed(message),
            SourcePoll::Pending => BodyPoll::Pending,
        }
    }

    /// Records that `payload_len` bytes were sent, or the end when it is zero.
    pub fn commit(&mut self, payload_len: usize)
        requires
            old(self).valid(),
            old(self)@.may_commit(payload_len as int),
        ensures
            final(self).valid(),
            final(self)@ == old(self)@.committed(payload_len as int),
    {
        if payload_len == 0 {
            self.termination_sent = true;
        } else {
            let total: usize = self.chunk.len();
            assert(self.offset + payload_len <= total);
            self.offset = self.offset + payload_len;
            if self.offset == self.chunk.len() {
                self.chunk.clear();
                self.offset = 0;
            }
            assert(self@.unsent =~= old(self)@.unsent.skip(payload_len as int));
        }
    }

    /// Whether the end was sent.
    pub fn is_complete(&self) -> (complete: bool)
        ensures
            complete == self@.terminated,
    {
        self.termination_sent
    }
}

/// Where the bytes of a body come from.
pub enum BodyInner {
    /// They are all there.
    Buffered(Vec<u8>),
    /// A source yields them, known by a number.
    Streaming(u64),
}

/// What a body holds.
#[verifier::ext_equal]
pub enum BodyView {
    /// All bytes.
    Buffered(Seq<u8>),
    /// A source.
    Streaming(u64),
}

/// An owned HTTP message body.
pub struct Body {
    inner: BodyInner,
    inbound_trailers: Option<ReceivedTrailers>,
    outbound_trailers: Option<u64>,
}

impl View for Body {
    type V = BodyView;

    closed spec fn view(&self) -> BodyView {
        match self.inner {
            BodyInner::Buffered(bytes) => BodyView::Buffered(bytes@),
            BodyInner::Streaming(source) => BodyView::Streaming(source),
        }
    }
}

impl Body {
    /// The trailers behind a received body.
    pub closed spec fn inbound(&self) -> Option<ReceivedView> {
        match self.inbound_trailers {
            Some(trailers) => Some(trailers@),
            None => None,
        }
    }

    /// The callback that produces the trailers which are sent behind the body.
    pub closed spec fn outbound(&self) -> Option<u64> {
        self.outbound_trailers
    }

    /// Creates an empty body.
    pub fn empty() -> (body: Body)
        ensures
            body@ == BodyView::Buffered(Seq::empty()),
            body.inbound() is None,
            body.outbound() is None,
    {
        Body { inner: BodyInner::Buffered(Vec::new()), inbound_trailers: None, outbound_trailers: None }
    }

    /// Creates a body from owned bytes.
    pub fn new(bytes: Vec<u8>) -> (body: Body)
        ensures
            body@ == BodyView::Buffered(bytes@),
            body.inbound() is None,
            body.outbound() is None,
    {
        Body { inner: BodyInner::Buffered(bytes), inbound_trailers: None, outbound_trailers: None }
    }

    /// Creates a body that a source of fallible chunks yields.
    pub fn from_stream(source: u64) -> (body: Body)
        ensures
            body@ == BodyView::Streaming(source),
            body.inbound() is None,
            body.outbound() is None,
    {
        Body { inner: BodyInner::Streaming(source), inbound_trailers: None, outbound_trailers: None }
    }

    /// Creates a body that a source of chunks yields.
    pub fn from_chunks(source: u64) -> (body: Body)
        ensures
            body@ == BodyView::Streaming(source),
            body.inbound() is None,
            body.outbound() is None,
    {
        Self::from_stream(source)
    }

    /// Pulls the next chunk. A buffered body is one chunk. What a streaming
    /// body yields is what its source `pulled`. The end of the body makes the
    /// trailers readable behind it and behind all its clones.
    pub fn next_chunk(
        &mut self,
        pulled: Result<Option<Vec<u8>>, Error>,
        table: &mut TrailerTable,
    ) -> (chunk: Result<Option<Vec<u8>>, Error>)
        ensures
            match old(self)@ {
                BodyView::Buffered(bytes) => {
                    &&& final(self)@ == BodyView::Buffered(Seq::empty())
                    &&& if bytes.len() == 0 {
                        chunk == Ok::<Option<Vec<u8>>, Error>(None)
                    } else {
                        chunk matches Ok(Some(chunk)) && chunk@ == bytes
                    }
                },
                BodyView::Streaming(_) => chunk == pulled && final(self)@ == old(self)@,
            },
            final(self).outbound() == old(self).outbound(),
            final(self).inbound() == old(self).inbound(),
            old(table)@.valid() ==> final(table)@.valid(),
            final(table)@ == match old(self).inbound() {
                Some(ReceivedView::Arriving(number)) => if chunk == Ok::<Option<Vec<u8>>, Error>(
                    None,
                ) {
                    old(table)@.drained(number)
                } else {
                    old(table)@
                },
                _ => old(table)@,
            },
    {
        let mut drained = false;
        let chunk = match &mut self.inner {
            BodyInner::Buffered(bytes) => {
                if bytes.len() == 0 {
                    drained = true;
                    assert(bytes@ =~= Seq::empty());
                    Ok(None)
                } else {
                    let mut taken: Vec<u8> = Vec::new();
                    core::mem::swap(bytes, &mut taken);
                    Ok(Some(taken))
                }
            },
            BodyInner::Streaming(_) => {
                match &pulled {
                    Ok(None) => {
                        drained = true;
                    },
                    _ => {},
                }
                pulled
            },
        };
        if drained {
            match &self.inbound_trailers {
                Some(ReceivedTrailers::Arriving(number)) => table.drain(*number),
                _ => {},
            }
        }
        chunk
    }

    /// A received body that is still to be read. Its trailers arrive under a
    /// number.
    pub fn from_inbound_stream(source: u64, trailers: u64) -> (body: Body)
        ensures
            body@ == BodyView::Streaming(source),
            body.inbound() == Some(ReceivedView::Arriving(trailers)),
            body.outbound() is None,
    {
        Body {
            inner: BodyInner::Streaming(source),
            inbound_trailers: Some(ReceivedTrailers::Arriving(trailers)),
            outbound_trailers: None,
        }
    }

    /// A received body with its trailers.
    pub fn from_inbound(bytes: Vec<u8>, trailers: Option<Headers>) -> (body: Body)
        ensures
            body@ == BodyView::Buffered(bytes@),
            body.outbound() is None,
            body.inbound() == match trailers {
                Some(headers) => Some(ReceivedView::Complete(headers@)),
                None => None,
            },
    {
        let inbound_trailers = match trailers {
            Some(headers) => Some(ReceivedTrailers::Complete(headers)),
            None => None,
        };
        Body { inner: BodyInner::Buffered(bytes), inbound_trailers, outbound_trailers: None }
    }

    /// Returns trailers received after the body. Those of a buffered body can
    /// be read at once. For a streaming body there are none until it, or a clone
    /// of it, was read to its end.
    pub fn trailers<'a>(&'a self, table: &'a TrailerTable) -> (headers: Option<&'a Headers>)
        ensures
            match headers {
                Some(headers) => table@.readable(self.inbound()) == Some(headers@),
                None => table@.readable(self.inbound()) is None,
            },
    {
        match &self.inbound_trailers {
            Some(ReceivedTrailers::Complete(headers)) => Some(headers),
            Some(ReceivedTrailers::Arriving(number)) => table.get(*number),
            None => None,
        }
    }

    /// The number under which trailers arrive behind a received body.
    pub fn arriving_trailers(&self) -> (number: Option<u64>)
        ensures
            match number {
                Some(number) => self.inbound() == Some(ReceivedView::Arriving(number)),
                None => !(self.inbound() matches Some(ReceivedView::Arriving(_))),
            },
    {
        match &self.inbound_trailers {
            Some(ReceivedTrailers::Arriving(number)) => Some(*number),
            _ => None,
        }
    }

    /// Attaches trailers that the callback with the given number knows before
    /// the body is produced.
    pub fn with_trailers(self, callback: u64) -> (body: Body)
        ensures
            body@ == self@,
            body.inbound() == self.inbound(),
            body.outbound() == Some(callback),
    {
        self.with_trailers_fn(callback)
    }

    /// Attaches trailers that the callback with the given number computes when
    /// the body ends. Cloned bodies share this one-shot callback, so only one
    /// clone can send it successfully.
    pub fn with_trailers_fn(self, callback: u64) -> (body: Body)
        ensures
            body@ == self@,
            body.inbound() == self.inbound(),
            body.outbound() == Some(callback),
    {
        Body { outbound_trailers: Some(callback), ..self }
    }

    /// Whether trailers are sent behind the body.
    pub fn has_outbound_trailers(&self) -> (has: bool)
        ensures
            has == self.outbound() is Some,
    {
        self.outbound_trailers.is_some()
    }

    /// Takes the callback of the trailers, if there are any. It fails when
    /// it was taken before, from this body or from a clone of it.
    pub fn take_outbound_trailers(&self, table: &mut TrailerTable) -> (callback: Result<
        Option<u64>,
        (),
    >)
        ensures
            old(table)@.valid() ==> final(table)@.valid(),
            final(table)@ == old(table)@.sent(self.outbound()),
            callback == if old(table)@.sendable(self.outbound()) {
                Ok::<Option<u64>, ()>(self.outbound())
            } else {
                Err(())
            },
    {
        match self.outbound_trailers {
            None => Ok(None),
            Some(callback) => {
                if table.take(callback) {
                    Ok(Some(callback))
                } else {
                    Err(())
                }
            },
        }
    }

    /// Returns the body bytes. A streaming body has none to borrow.
    pub fn as_bytes(&self) -> (bytes: &[u8])
        requires
            self@ is Buffered,
        ensures
            self@ == BodyView::Buffered(bytes@),
    {
        match &self.inner {
            BodyInner::Buffered(bytes) => bytes.as_slice(),
            BodyInner::Streaming(_) => {
                assert(false);
                &[]
            },
        }
    }

    /// Consumes the body and returns its bytes. A streaming body has none.
    pub fn into_bytes(self) -> (bytes: Vec<u8>)
        requires
            self@ is Buffered,
        ensures
            self@ == BodyView::Buffered(bytes@),
    {
        match self.inner {
            BodyInner::Buffered(bytes) => bytes,
            BodyInner::Streaming(_) => {
                assert(false);
                Vec::new()
            },
        }
    }

    /// Takes the bytes or the source out of the body.
    pub fn into_inner(self) -> (inner: BodyInner)
        ensures
            self@ == match inner {
                BodyInner::Buffered(bytes) => BodyView::Buffered(bytes@),
                BodyInner::Streaming(source) => BodyView::Streaming(source),
            },
    {
        self.inner
    }

    /// Returns the payload length when it is known before transmission.
    pub fn known_len(&self) -> (len: Option<usize>)
        ensures
            match self@ {
                BodyView::Buffered(bytes) => len == Some(bytes.len() as usize) && bytes.len()
                    <= usize::MAX,
                BodyView::Streaming(_) => len is None,
            },
    {
        match &self.inner {
            BodyInner::Buffered(bytes) => Some(bytes.len()),
            BodyInner::Streaming(_) => None,
        }
    }

    /// Returns whether a source yields the body.
    pub fn is_streaming(&self) -> (streaming: bool)
        ensures
            streaming == self@ is Streaming,
    {
        match &self.inner {
            BodyInner::Buffered(_) => false,
            BodyInner::Streaming(_) => true,
        }
    }

    /// Returns the body length in bytes. That of a streaming body is not
    /// known.
    pub fn len(&self) -> (len: usize)
        requires
            self@ is Buffered,
        ensures
            self@ matches BodyView::Buffered(bytes) && len == bytes.len(),
    {
        self.as_bytes().len()
    }

    /// Returns whether the body is empty. That of a streaming body is not
    /// known.
    pub fn is_empty(&self) -> (empty: bool)
        requires
            self@ is Buffered,
        ensures
            self@ matches BodyView::Buffered(bytes) && empty == (bytes.len() == 0),
    {
        self.as_bytes().len() == 0
    }

    /// The same body again. A source is shared, not copied, and so are the
    /// trailers that are still to come and the callback that produces them.
    pub fn duplicate(&self) -> (copy: Body)
        ensures
            copy@ == self@,
            copy.outbound() == self.outbound(),
            copy.inbound() == self.inbound(),
    {
        let inner = match &self.inner {
            BodyInner::Buffered(bytes) => {
                let copy = bytes.clone();
                assert(copy@ =~= bytes@);
                BodyInner::Buffered(copy)
            },
            BodyInner::Streaming(source) => BodyInner::Streaming(*source),
        };
        let inbound_trailers = match &self.inbound_trailers {
            Some(trailers) => Some(trailers.duplicate()),
            None => None,
        };
        Body { inner, inbound_trailers, outbound_trailers: self.outbound_trailers }
    }

    /// Whether two bodies are the same: the same bytes, or the same source.
    pub fn same_as(&self, other: &Body) -> (same: bool)
        ensures
            same == (self@ == other@),
    {
        match (&self.inner, &other.inner) {
            (BodyInner::Buffered(left), BodyInner::Buffered(right)) => {
                crate::web::tls::bytes_equal(left.as_slice(), right.as_slice())
            },
            (BodyInner::Streaming(left), BodyInner::Streaming(right)) => *left == *right,
            _ => false,
        }
    }
}

impl Default for Body {
    fn default() -> (body: Body)
        ensures
            body@ == BodyView::Buffered(Seq::empty()),
            body.inbound() is None,
            body.outbound() is None,
    {
        Body::empty()
    }
}

/// A body with the bytes of a slice.
pub fn body_from_bytes(bytes: &[u8]) -> (body: Body)
    ensures
        body@ == BodyView::Buffered(bytes@),
        body.inbound() is None,
        body.outbound() is None,
{
    let mut copy: Vec<u8> = Vec::new();
    copy.extend_from_slice(bytes);
    assert(copy@ =~= bytes@);
    Body::new(copy)
}

/// A body with the bytes of a text.
pub fn body_from_str(text: &str) -> (body: Body)
    ensures
        body@ == BodyView::Buffered(text.spec_bytes()),
        body.inbound() is None,
        body.outbound() is None,
{
    body_from_bytes(text.as_bytes())
}

/// How far a request body has come.
#[verifier::ext_equal]
pub enum RequestBodyView {
    /// The bytes that were not sent yet.
    Buffered(Seq<u8>),
    /// A streamed body.
    Streaming(CursorView),
}

/// A request body that is being sent.
pub enum RequestBodyState {
    /// All bytes, and how many of them were sent.
    Buffered {
        /// The bytes.
        bytes: Vec<u8>,
        /// How many were sent.
        sent: usize,
    },
    /// A streamed body.
    Streaming(BodyStreamCursor),
}

impl View for RequestBodyState {
    type V = RequestBodyView;

    open spec fn view(&self) -> RequestBodyView {
        match self {
            RequestBodyState::Buffered { bytes, sent } => RequestBodyView::Buffered(
                bytes@.skip(*sent as int),
            ),
            RequestBodyState::Streaming(cursor) => RequestBodyView::Streaming(cursor@),
        }
    }
}

impl RequestBodyView {
    /// What can be sent. A buffered body always offers what is left.
    pub open spec fn offer(self) -> Option<Seq<u8>> {
        match self {
            RequestBodyView::Buffered(rest) => Some(rest),
            RequestBodyView::Streaming(cursor) => cursor.offer(),
        }
    }

    /// The source that a streamed body asks for chunks.
    pub open spec fn source(self) -> Option<u64> {
        match self {
            RequestBodyView::Streaming(cursor) => Some(cursor.source),
            _ => None,
        }
    }

    /// Whether the source has to be asked for more.
    pub open spec fn wants_chunk(self) -> bool {
        self matches RequestBodyView::Streaming(cursor) && cursor.wants_chunk()
    }

    /// Whether `count` bytes may be committed.
    pub open spec fn may_commit(self, count: int) -> bool {
        match self {
            RequestBodyView::Buffered(rest) => 0 <= count <= rest.len(),
            RequestBodyView::Streaming(cursor) => cursor.may_commit(count),
        }
    }

    /// The body after `count` bytes were sent.
    pub open spec fn committed(self, count: int) -> RequestBodyView {
        match self {
            RequestBodyView::Buffered(rest) => RequestBodyView::Buffered(rest.skip(count)),
            RequestBodyView::Streaming(cursor) => RequestBodyView::Streaming(
                cursor.committed(count),
            ),
        }
    }

    /// The body after its source was asked.
    pub open spec fn polled(self, answer: SourcePoll) -> RequestBodyView {
        match self {
            RequestBodyView::Buffered(_) => self,
            RequestBodyView::Streaming(cursor) => RequestBodyView::Streaming(cursor.polled(answer)),
        }
    }
}

impl RequestBodyState {
    /// The position lies inside the body.
    pub open spec fn valid(&self) -> bool {
        match self {
            RequestBodyState::Buffered { bytes, sent } => *sent <= bytes@.len(),
            RequestBodyState::Streaming(cursor) => cursor.valid(),
        }
    }

    /// Nothing of the body was sent yet.
    pub fn new(body: Body) -> (state: RequestBodyState)
        ensures
            state.valid(),
            state@ == match body@ {
                BodyView::Buffered(bytes) => RequestBodyView::Buffered(bytes),
                BodyView::Streaming(source) => RequestBodyView::Streaming(
                    CursorView::start(source),
                ),
            },
    {
        match body.into_inner() {
            BodyInner::Buffered(bytes) => {
                assert(bytes@.skip(0) =~= bytes@);
                RequestBodyState::Buffered { bytes, sent: 0 }
            },
            BodyInner::Streaming(source) => RequestBodyState::Streaming(
                BodyStreamCursor::new(source),
            ),
        }
    }

    /// What can be sent.
    pub fn available(&self) -> (available: Option<&[u8]>)
        requires
            self.valid(),
        ensures
            match available {
                Some(bytes) => self@.offer() == Some(bytes@),
                None => self@.offer() is None,
            },
    {
        match self {
            RequestBodyState::Buffered { bytes, sent } => {
                let rest = slice_subrange(bytes.as_slice(), *sent, bytes.len());
                assert(rest@ =~= bytes@.skip(*sent as int));
                Some(rest)
            },
            RequestBodyState::Streaming(cursor) => cursor.available(),
        }
    }

    /// The source that a streamed body asks for chunks.
    pub fn source(&self) -> (source: Option<u64>)
        ensures
            source == self@.source(),
    {
        match self {
            RequestBodyState::Buffered { .. } => None,
            RequestBodyState::Streaming(cursor) => Some(cursor.source()),
        }
    }

    /// Whether the source has to be asked for more.
    pub fn needs_chunk(&self) -> (needs: bool)
        requires
            self.valid(),
        ensures
            needs == self@.wants_chunk(),
    {
        match self {
            RequestBodyState::Buffered { .. } => false,
            RequestBodyState::Streaming(cursor) => cursor.needs_chunk(),
        }
    }

    /// Takes the source's answer, which counts only when it was wanted.
    pub fn poll_chunk(self, answer: SourcePoll) -> (polled: (RequestBodyState, BodyPoll))
        requires
            self.valid(),
        ensures
            polled.0.valid(),
            polled.0@ == self@.polled(answer),
            polled.1 == if !self@.wants_chunk() {
                BodyPoll::Ready
            } else {
                match answer {
                    SourcePoll::Chunk(_) | SourcePoll::End => BodyPoll::Ready,
                    SourcePoll::Failed(message) => BodyPoll::Failed(message),
                    SourcePoll::Pending => BodyPoll::Pending,
                }
            },
    {
        match self {
            RequestBodyState::Buffered { bytes, sent } => {
                (RequestBodyState::Buffered { bytes, sent }, BodyPoll::Ready)
            },
            RequestBodyState::Streaming(cursor) => {
                let mut cursor = cursor;
                let poll = cursor.poll_chunk(answer);
                (RequestBodyState::Streaming(cursor), poll)
            },
        }
    }

    /// Records that `payload_len` bytes were sent.
    pub fn commit(self, payload_len: usize) -> (state: RequestBodyState)
        requires
            self.valid(),
            self@.may_commit(payload_len as int),
        ensures
            state.valid(),
            state@ == self@.committed(payload_len as int),
    {
        match self {
            RequestBodyState::Buffered { bytes, sent } => {
                let total: usize = bytes.len();
                assert(sent + payload_len <= total);
                assert(bytes@.skip(sent as int).skip(payload_len as int) =~= bytes@.skip(
                    sent + payload_len,
                ));
                RequestBodyState::Buffered { bytes, sent: sent + payload_len }
            },
            RequestBodyState::Streaming(cursor) => {
                let mut cursor = cursor;
                cursor.commit(payload_len);
                RequestBodyState::Streaming(cursor)
            },
        }
    }
}

/// How far a response body has come.
#[verifier::ext_equal]
pub enum ResponseBodyView {
    /// The bytes that were not sent yet, whether the framing needs an explicit
    /// end, and whether the end was sent.
    Buffered {
        /// The bytes that were not sent yet.
        rest: Seq<u8>,
        /// Whether the framing needs an explicit end.
        streaming_framing: bool,
        /// Whether the end was sent.
        terminated: bool,
    },
    /// A streamed body.
    Streaming(CursorView),
}

impl ResponseBodyView {
    /// What can be sent: bytes, or an empty piece that stands for the end.
    pub open spec fn offer(self) -> Option<Seq<u8>> {
        match self {
            ResponseBodyView::Buffered { rest, streaming_framing, terminated } => if rest.len()
                > 0 {
                Some(rest)
            } else if streaming_framing && !terminated {
                Some(Seq::empty())
            } else {
                None
            },
            ResponseBodyView::Streaming(cursor) => cursor.offer(),
        }
    }

    /// The source that a streamed body asks for chunks.
    pub open spec fn source(self) -> Option<u64> {
        match self {
            ResponseBodyView::Streaming(cursor) => Some(cursor.source),
            _ => None,
        }
    }

    /// Whether the source has to be asked for more.
    pub open spec fn wants_chunk(self) -> bool {
        self matches ResponseBodyView::Streaming(cursor) && cursor.wants_chunk()
    }

    /// Whether `count` bytes, or the end, may be committed.
    pub open spec fn may_commit(self, count: int) -> bool {
        match self {
            ResponseBodyView::Buffered { rest, .. } => 0 <= count <= rest.len(),
            ResponseBodyView::Streaming(cursor) => cursor.may_commit(count),
        }
    }

    /// The body after `count` bytes, or the end, were sent.
    pub open spec fn committed(self, count: int) -> ResponseBodyView {
        match self {
            ResponseBodyView::Buffered { rest, streaming_framing, terminated } => if count == 0
                && streaming_framing && rest.len() == 0 {
                ResponseBodyView::Buffered { rest, streaming_framing, terminated: true }
            } else {
                ResponseBodyView::Buffered {
                    rest: rest.skip(count),
                    streaming_framing,
                    terminated,
                }
            },
            ResponseBodyView::Streaming(cursor) => ResponseBodyView::Streaming(
                cursor.committed(count),
            ),
        }
    }

    /// The body after its source was asked.
    pub open spec fn polled(self, answer: SourcePoll) -> ResponseBodyView {
        match self {
            ResponseBodyView::Streaming(cursor) => ResponseBodyView::Streaming(
                cursor.polled(answer),
            ),
            _ => self,
        }
    }

    /// Whether everything was sent.
    pub open spec fn done(self) -> bool {
        match self {
            ResponseBodyView::Buffered { rest, streaming_framing, terminated } => if streaming_framing {
                terminated
            } else {
                rest.len() == 0
            },
            ResponseBodyView::Streaming(cursor) => cursor.terminated,
        }
    }
}

enum ResponseBodyInner {
    Buffered { bytes: Vec<u8>, sent: usize, streaming_framing: bool, termination_sent: bool },
    Streaming(BodyStreamCursor),
}

/// A response body that is being sent.
pub struct ResponseBody {
    inner: ResponseBodyInner,
    trailers: Option<u64>,
}

impl View for ResponseBody {
    type V = ResponseBodyView;

    closed spec fn view(&self) -> ResponseBodyView {
        match self.inner {
            ResponseBodyInner::Buffered { bytes, sent, streaming_framing, termination_sent } => {
                ResponseBodyView::Buffered {
                    rest: bytes@.skip(sent as int),
                    streaming_framing,
                    terminated: termination_sent,
                }
            },
            ResponseBodyInner::Streaming(cursor) => ResponseBodyView::Streaming(cursor@),
        }
    }
}

impl ResponseBody {
    /// The position lies inside the body.
    pub closed spec fn valid(&self) -> bool {
        match self.inner {
            ResponseBodyInner::Buffered { bytes, sent, .. } => sent <= bytes@.len(),
            ResponseBodyInner::Streaming(cursor) => cursor.valid(),
        }
    }

    /// The callback that produces the trailers, until it was taken.
    pub closed spec fn callback(&self) -> Option<u64> {
        self.trailers
    }

    /// Nothing of the body was sent yet. A body whose trailers were sent with
    /// a clone of it is refused.
    pub fn new(body: Body, streaming_framing: bool, table: &mut TrailerTable) -> (response: Result<
        ResponseBody,
        Error,
    >)
        ensures
            old(table)@.valid() ==> final(table)@.valid(),
            final(table)@ == old(table)@.sent(body.outbound()),
            response is Ok == old(table)@.sendable(body.outbound()),
            match response {
                Ok(response) => {
                    &&& response.valid()
                    &&& response.callback() == body.outbound()
                    &&& response@ == match body@ {
                        BodyView::Buffered(bytes) => ResponseBodyView::Buffered {
                            rest: bytes,
                            streaming_framing,
                            terminated: false,
                        },
                        BodyView::Streaming(source) => ResponseBodyView::Streaming(
                            CursorView::start(source),
                        ),
                    }
                },
                Err(error) => {
                    error@ == ErrorView::Protocol(
                        ProtocolErrorView {
                            kind: ProtocolErrorKind::InvalidState,
                            detail:
                                "the response trailer callback was already consumed by a cloned body"@,
                            source: None,
                        },
                    )
                },
            },
    {
        let trailers = match body.take_outbound_trailers(table) {
            Ok(trailers) => trailers,
            Err(()) => {
                return Err(
                    Error::protocol(
                        ProtocolErrorKind::InvalidState,
                        "the response trailer callback was already consumed by a cloned body",
                    ),
                );
            },
        };
        let inner = match body.into_inner() {
            BodyInner::Buffered(bytes) => {
                assert(bytes@.skip(0) =~= bytes@);
                ResponseBodyInner::Buffered {
                    bytes,
                    sent: 0,
                    streaming_framing,
                    termination_sent: false,
                }
            },
            BodyInner::Streaming(source) => ResponseBodyInner::Streaming(
                BodyStreamCursor::new(source),
            ),
        };
        Ok(ResponseBody { inner, trailers })
    }

    /// What can be sent: bytes, or an empty piece that stands for the end.
    pub fn available(&self) -> (available: Option<&[u8]>)
        requires
            self.valid(),
        ensures
            match available {
                Some(bytes) => self@.offer() == Some(bytes@),
                None => self@.offer() is None,
            },
    {
        match &self.inner {
            ResponseBodyInner::Buffered { bytes, sent, streaming_framing, termination_sent } => {
                if *sent < bytes.len() {
                    let rest = slice_subrange(bytes.as_slice(), *sent, bytes.len());
                    assert(rest@ =~= bytes@.skip(*sent as int));
                    Some(rest)
                } else if *streaming_framing && !*termination_sent {
                    let rest = slice_subrange(bytes.as_slice(), 0, 0);
                    assert(rest@ =~= Seq::empty());
                    Some(rest)
                } else {
                    None
                }
            },
            ResponseBodyInner::Streaming(cursor) => cursor.available(),
        }
    }

    /// The source that a streamed body asks for chunks.
    pub fn source(&self) -> (source: Option<u64>)
        ensures
            source == self@.source(),
    {
        match &self.inner {
            ResponseBodyInner::Buffered { .. } => None,
            ResponseBodyInner::Streaming(cursor) => Some(cursor.source()),
        }
    }

    /// Whether the source has to be asked for more.
    pub fn needs_chunk(&self) -> (needs: bool)
        requires
            self.valid(),
        ensures
            needs == self@.wants_chunk(),
    {
        match &self.inner {
            ResponseBodyInner::Buffered { .. } => false,
            ResponseBodyInner::Streaming(cursor) => cursor.needs_chunk(),
        }
    }

    /// Takes the source's answer, which counts only when it was wanted.
    pub fn poll_chunk(self, answer: SourcePoll) -> (polled: (ResponseBody, BodyPoll))
        requires
            self.valid(),
        ensures
            polled.0.valid(),
            polled.0@ == self@.polled(answer),
            polled.0.callback() == self.callback(),
            polled.1 == if !self@.wants_chunk() {
                BodyPoll::Ready
            } else {
                match answer {
                    SourcePoll::Chunk(_) | SourcePoll::End => BodyPoll::Ready,
                    SourcePoll::Failed(message) => BodyPoll::Failed(message),
                    SourcePoll::Pending => BodyPoll::Pending,
                }
            },
    {
        match self.inner {
            ResponseBodyInner::Buffered { bytes, sent, streaming_framing, termination_sent } => (
                ResponseBody {
                    inner: ResponseBodyInner::Buffered {
                        bytes,
                        sent,
                        streaming_framing,
                        termination_sent,
                    },
                    trailers: self.trailers,
                },
                BodyPoll::Ready,
            ),
            ResponseBodyInner::Streaming(cursor) => {
                let mut cursor = cursor;
                let poll = cursor.poll_chunk(answer);
                (
                    ResponseBody {
                        inner: ResponseBodyInner::Streaming(cursor),
                        trailers: self.trailers,
                    },
                    poll,
                )
            },
        }
    }

    /// Records that `payload_len` bytes were sent, or the end when it is zero
    /// and nothing is left.
    pub fn commit(self, payload_len: usize) -> (response: ResponseBody)
        requires
            self.valid(),
            self@.may_commit(payload_len as int),
        ensures
            response.valid(),
            response@ == self@.committed(payload_len as int),
            response.callback() == self.callback(),
    {
        match self.inner {
            ResponseBodyInner::Buffered { bytes, sent, streaming_framing, termination_sent } => {
                let total: usize = bytes.len();
                if payload_len == 0 && streaming_framing && sent == total {
                    ResponseBody {
                        inner: ResponseBodyInner::Buffered {
                            bytes,
                            sent,
                            streaming_framing,
                            termination_sent: true,
                        },
                        trailers: self.trailers,
                    }
                } else {
                    assert(sent + payload_len <= total);
                    assert(bytes@.skip(sent as int).skip(payload_len as int) =~= bytes@.skip(
                        sent + payload_len,
                    ));
                    ResponseBody {
                        inner: ResponseBodyInner::Buffered {
                            bytes,
                            sent: sent + payload_len,
                            streaming_framing,
                            termination_sent,
                        },
                        trailers: self.trailers,
                    }
                }
            },
            ResponseBodyInner::Streaming(cursor) => {
                let mut cursor = cursor;
                cursor.commit(payload_len);
                ResponseBody {
                    inner: ResponseBodyInner::Streaming(cursor),
                    trailers: self.trailers,
                }
            },
        }
    }

    /// Takes the callback that produces the trailers.
    pub fn take_trailers(&mut self) -> (callback: Option<u64>)
        ensures
            callback == old(self).callback(),
            final(self).callback() is None,
            final(self)@ == old(self)@,
            final(self).valid() == old(self).valid(),
    {
        self.trailers.take()
    }

    /// Whether everything was sent.
    pub fn is_complete(&self) -> (complete: bool)
        requires
            self.valid(),
        ensures
            complete == self@.done(),
    {
        match &self.inner {
            ResponseBodyInner::Buffered { bytes, sent, streaming_framing, termination_sent } => {
                if *streaming_framing {
                    *termination_sent
                } else {
                    *sent == bytes.len()
                }
            },
            ResponseBodyInner::Streaming(cursor) => cursor.is_complete(),
        }
    }
}

/// A streamed body is sent in order: committing part of what is offered leaves
/// the rest on offer.
pub proof fn cursor_sends_in_order(cursor: CursorView, count: int)
    requires
        cursor.may_commit(count),
        0 < count < cursor.unsent.len(),
    ensures
        cursor.committed(count).offer() == Some(cursor.unsent.skip(count)),
        cursor.unsent == cursor.unsent.take(count) + cursor.unsent.skip(count),
{
    assert(cursor.unsent =~= cursor.unsent.take(count) + cursor.unsent.skip(count));
}

/// Committing and polling keep a cursor valid and its source the same, and a
/// valid cursor that is complete offers nothing more.
pub proof fn cursor_stays_valid(cursor: CursorView, count: int, answer: SourcePoll)
    requires
        cursor.valid(),
    ensures
        cursor.polled(answer).valid(),
        cursor.may_commit(count) ==> cursor.committed(count).valid(),
        cursor.polled(answer).source == cursor.source,
        cursor.committed(count).source == cursor.source,
        cursor.terminated ==> cursor.offer() is None && !cursor.wants_chunk(),
{
}

/// A response body that is complete offers nothing more.
pub proof fn complete_response_offers_nothing(response: ResponseBodyView)
    requires
        response.done(),
        response matches ResponseBodyView::Buffered { rest, .. } ==> rest.len() == 0,
        response matches ResponseBodyView::Streaming(cursor) ==> cursor.valid(),
    ensures
        response.offer() is None,
{
}

/// A stream is asked again after an empty item; anything else that it yields
/// goes on as it is.
pub proof fn streams_yield_their_items(
    chunk: Vec<u8>,
    message: String,
    steps: (SourceStep, SourceStep, SourceStep),
)
    requires
        call_ensures(next_source_chunk, (StreamItem::Chunk(chunk),), steps.0),
        call_ensures(next_source_chunk, (StreamItem::End,), steps.1),
        call_ensures(next_source_chunk, (StreamItem::Failed(message),), steps.2),
    ensures
        chunk@.len() == 0 ==> steps.0 is Again,
        chunk@.len() > 0 ==> (steps.0 matches SourceStep::Chunk(passed) && passed@ == chunk@),
        steps.1 is End,
        steps.2 matches SourceStep::Failed(told) && told@ == message@,
{
}

/// A streamed body sends the chunks that its source yields, each whole and in
/// its order, asks for the next one only when the last is sent, and ends once,
/// after the source did.
pub proof fn streams_send_what_their_source_yields(
    source: u64,
    filling: &mut BodyStreamCursor,
    sending: &mut BodyStreamCursor,
    chunk: Vec<u8>,
    count: usize,
    poll: BodyPoll,
    offered: Option<&[u8]>,
    left: Option<&[u8]>,
    needs: (bool, bool, bool),
)
    requires
        0 < count <= chunk@.len(),
        call_ensures(BodyStreamCursor::new, (source,), *old(filling)),
        call_ensures(BodyStreamCursor::needs_chunk, (&*old(filling),), needs.0),
        call_ensures(BodyStreamCursor::poll_chunk, (filling, SourcePoll::Chunk(chunk)), poll),
        call_ensures(BodyStreamCursor::available, (final(filling),), offered),
        call_ensures(BodyStreamCursor::needs_chunk, (final(filling),), needs.1),
        *old(sending) == *final(filling),
        call_ensures(BodyStreamCursor::commit, (sending, count), ()),
        call_ensures(BodyStreamCursor::available, (final(sending),), left),
        call_ensures(BodyStreamCursor::needs_chunk, (final(sending),), needs.2),
    ensures
        needs.0,
        poll is Ready,
        offered matches Some(bytes) && bytes@ == chunk@,
        !needs.1,
        count < chunk@.len() ==> !needs.2 && (left matches Some(bytes) && bytes@ == chunk@.skip(
            count as int,
        )),
        count == chunk@.len() ==> needs.2 && left is None,
        final(sending)@.source == source,
{
}

/// The end of a source is sent once, as an empty piece, and then the body is
/// complete. Until the source answers the body waits, and a failure is told.
pub proof fn streams_end_after_their_source(
    waiting: &mut BodyStreamCursor,
    failing: &mut BodyStreamCursor,
    ending: &mut BodyStreamCursor,
    terminating: &mut BodyStreamCursor,
    message: String,
    polls: (BodyPoll, BodyPoll, BodyPoll),
    offered: Option<&[u8]>,
    left: Option<&[u8]>,
    complete: (bool, bool),
)
    requires
        old(waiting)@.unsent.len() == 0,
        !old(waiting)@.ended && !old(waiting)@.terminated,
        call_ensures(BodyStreamCursor::poll_chunk, (waiting, SourcePoll::Pending), polls.0),
        *old(failing) == *final(waiting),
        call_ensures(
            BodyStreamCursor::poll_chunk,
            (failing, SourcePoll::Failed(message)),
            polls.1,
        ),
        *old(ending) == *final(failing),
        call_ensures(BodyStreamCursor::poll_chunk, (ending, SourcePoll::End), polls.2),
        call_ensures(BodyStreamCursor::available, (final(ending),), offered),
        call_ensures(BodyStreamCursor::is_complete, (final(ending),), complete.0),
        *old(terminating) == *final(ending),
        call_ensures(BodyStreamCursor::commit, (terminating, 0usize), ()),
        call_ensures(BodyStreamCursor::available, (final(terminating),), left),
        call_ensures(BodyStreamCursor::is_complete, (final(terminating),), complete.1),
    ensures
        polls.0 is Pending,
        polls.1 matches BodyPoll::Failed(told) && told == message,
        polls.2 is Ready,
        offered matches Some(bytes) && bytes@.len() == 0,
        !complete.0,
        complete.1,
        left is None,
{
}

/// A body gives back the bytes or the source that it was made of.
pub proof fn bodies_hold_what_they_were_made_of(
    bytes: Vec<u8>,
    source: u64,
    buffered: Body,
    streamed: Body,
    out: Vec<u8>,
    known: (Option<usize>, Option<usize>),
    streaming: (bool, bool),
    length: usize,
    empty: bool,
    inner: (BodyInner, BodyInner),
)
    requires
        call_ensures(Body::new, (bytes,), buffered),
        call_ensures(Body::from_stream, (source,), streamed),
        call_ensures(Body::into_bytes, (buffered,), out),
        call_ensures(Body::known_len, (&buffered,), known.0),
        call_ensures(Body::known_len, (&streamed,), known.1),
        call_ensures(Body::is_streaming, (&buffered,), streaming.0),
        call_ensures(Body::is_streaming, (&streamed,), streaming.1),
        call_ensures(Body::len, (&buffered,), length),
        call_ensures(Body::is_empty, (&buffered,), empty),
        call_ensures(Body::into_inner, (buffered,), inner.0),
        call_ensures(Body::into_inner, (streamed,), inner.1),
    ensures
        out@ == bytes@,
        known.0 == Some(length) && length == bytes@.len(),
        known.1 is None,
        !streaming.0 && streaming.1,
        empty == (bytes@.len() == 0),
        inner.0 matches BodyInner::Buffered(held) && held@ == bytes@,
        inner.1 matches BodyInner::Streaming(held) && held == source,
        buffered.inbound() is None && buffered.outbound() is None,
        streamed.inbound() is None && streamed.outbound() is None,
{
}

/// A body from a slice or a text has their bytes, an empty one has none, and two
/// bodies are the same when they have the same bytes or the same source.
pub proof fn bodies_are_told_apart(
    slice: &[u8],
    text: &str,
    made: (Body, Body, Body),
    other: &Body,
    same: bool,
    copy: Body,
)
    requires
        call_ensures(body_from_bytes, (slice,), made.0),
        call_ensures(body_from_str, (text,), made.1),
        call_ensures(Body::empty, (), made.2),
        call_ensures(Body::same_as, (&made.0, other), same),
        call_ensures(Body::duplicate, (&made.0,), copy),
    ensures
        made.0@ == BodyView::Buffered(slice@),
        made.1@ == BodyView::Buffered(text.spec_bytes()),
        made.2@ == BodyView::Buffered(Seq::<u8>::empty()),
        same <==> (other@ matches BodyView::Buffered(bytes) && bytes == slice@),
        copy@ == made.0@,
{
}

/// A buffered body is read as one chunk, and then it is at its end; a streamed
/// one yields what its source does.
pub proof fn buffered_bodies_are_read_once(
    first: &mut Body,
    second: &mut Body,
    pulled: Result<Option<Vec<u8>>, Error>,
    table: &mut TrailerTable,
    table_after: &mut TrailerTable,
    chunks: (Result<Option<Vec<u8>>, Error>, Result<Option<Vec<u8>>, Error>),
)
    requires
        call_ensures(Body::next_chunk, (first, pulled, table), chunks.0),
        *old(second) == *final(first),
        call_ensures(Body::next_chunk, (second, pulled, table_after), chunks.1),
    ensures
        old(first)@ matches BodyView::Buffered(bytes) ==> {
            &&& bytes.len() > 0 ==> (chunks.0 matches Ok(Some(chunk)) && chunk@ == bytes)
            &&& bytes.len() == 0 ==> chunks.0 == Ok::<Option<Vec<u8>>, Error>(None)
            &&& chunks.1 == Ok::<Option<Vec<u8>>, Error>(None)
        },
        old(first)@ is Streaming ==> chunks.0 == pulled && chunks.1 == pulled && final(second)@
            == old(first)@,
{
}

/// Trailers are attached to a body without changing it, and taken with it.
pub proof fn trailers_go_with_their_body(
    body: Body,
    callback: u64,
    made: (Body, Body),
    has: (bool, bool),
    bytes: Vec<u8>,
    headers: Headers,
    received: (Body, Body),
    arriving: Option<u64>,
    numbers: (u64, u64),
)
    requires
        call_ensures(Body::with_trailers, (body, callback), made.0),
        call_ensures(Body::with_trailers_fn, (body, callback), made.1),
        call_ensures(Body::has_outbound_trailers, (&body,), has.0),
        call_ensures(Body::has_outbound_trailers, (&made.0,), has.1),
        call_ensures(Body::from_inbound, (bytes, Some(headers)), received.0),
        call_ensures(Body::from_inbound_stream, (numbers.0, numbers.1), received.1),
        call_ensures(Body::arriving_trailers, (&received.1,), arriving),
    ensures
        made.0@ == body@ && made.1@ == body@,
        made.0.outbound() == Some(callback) && made.1.outbound() == Some(callback),
        made.0.inbound() == body.inbound() && made.1.inbound() == body.inbound(),
        has.0 == (body.outbound() is Some),
        has.1,
        received.0@ == BodyView::Buffered(bytes@),
        received.0.inbound() == Some(ReceivedView::Complete(headers@)),
        received.1@ == BodyView::Streaming(numbers.0),
        arriving == Some(numbers.1),
{
}

/// A buffered request body offers what was not sent of it, and a streamed one
/// goes through its source.
pub proof fn request_bodies_offer_what_is_left(
    body: Body,
    state: RequestBodyState,
    offered: Option<&[u8]>,
    count: usize,
    after: RequestBodyState,
    left: Option<&[u8]>,
    needs: bool,
    source: Option<u64>,
)
    requires
        call_ensures(RequestBodyState::new, (body,), state),
        call_ensures(RequestBodyState::available, (&state,), offered),
        call_ensures(RequestBodyState::needs_chunk, (&state,), needs),
        call_ensures(RequestBodyState::source, (&state,), source),
        call_ensures(RequestBodyState::commit, (state, count), after),
        call_ensures(RequestBodyState::available, (&after,), left),
    ensures
        body@ matches BodyView::Buffered(bytes) ==> {
            &&& offered matches Some(all) && all@ == bytes
            &&& !needs
            &&& source is None
            &&& count <= bytes.len() ==> (left matches Some(rest) && rest@ == bytes.skip(
                count as int,
            ))
        },
        body@ matches BodyView::Streaming(number) ==> {
            &&& offered is None
            &&& needs
            &&& source == Some(number)
        },
{
}

/// A streamed request or response body takes from its source what the source
/// yields, and offers that.
pub proof fn streamed_bodies_offer_what_their_source_yields(
    source: u64,
    request: RequestBodyState,
    response: ResponseBody,
    chunk: Vec<u8>,
    polled: ((RequestBodyState, BodyPoll), (ResponseBody, BodyPoll)),
    offered: (Option<&[u8]>, Option<&[u8]>),
)
    requires
        chunk@.len() > 0,
        request@ == RequestBodyView::Streaming(CursorView::start(source)),
        response@ == ResponseBodyView::Streaming(CursorView::start(source)),
        call_ensures(
            RequestBodyState::poll_chunk,
            (request, SourcePoll::Chunk(chunk)),
            polled.0,
        ),
        call_ensures(ResponseBody::poll_chunk, (response, SourcePoll::Chunk(chunk)), polled.1),
        call_ensures(RequestBodyState::available, (&polled.0.0,), offered.0),
        call_ensures(ResponseBody::available, (&polled.1.0,), offered.1),
    ensures
        polled.0.1 is Ready && polled.1.1 is Ready,
        offered.0 matches Some(bytes) && bytes@ == chunk@,
        offered.1 matches Some(bytes) && bytes@ == chunk@,
        polled.1.0.callback() == response.callback(),
{
}

/// A buffered response body offers what was not sent of it. It is complete when
/// nothing is left, or, where the framing needs an end, once that was sent.
pub proof fn response_bodies_offer_what_is_left(
    body: Body,
    framed: bool,
    table: &mut TrailerTable,
    response: ResponseBody,
    offered: Option<&[u8]>,
    count: usize,
    after: ResponseBody,
    left: Option<&[u8]>,
    complete: bool,
    ended: ResponseBody,
    finished: bool,
)
    requires
        body@ is Buffered,
        0 < count <= body@->Buffered_0.len(),
        call_ensures(ResponseBody::new, (body, framed, table), Ok(response)),
        call_ensures(ResponseBody::available, (&response,), offered),
        call_ensures(ResponseBody::commit, (response, count), after),
        call_ensures(ResponseBody::available, (&after,), left),
        call_ensures(ResponseBody::is_complete, (&after,), complete),
        call_ensures(ResponseBody::commit, (after, 0usize), ended),
        call_ensures(ResponseBody::is_complete, (&ended,), finished),
    ensures
        offered matches Some(bytes) && bytes@ == body@->Buffered_0,
        count < body@->Buffered_0.len() ==> !complete && (left matches Some(bytes) && bytes@
            == body@->Buffered_0.skip(count as int)),
        count == body@->Buffered_0.len() ==> complete == !framed && (framed ==> (left matches Some(
            bytes,
        ) && bytes@.len() == 0)) && (!framed ==> left is None) && finished,
        response.callback() == body.outbound(),
{
}

/// A body that is streamed has its source and no bytes of its own; one that is
/// buffered gives the bytes that it holds.
pub proof fn bodies_have_their_source_or_bytes(
    source: u64,
    made: Body,
    body: &Body,
    bytes: &[u8],
    cursor: &BodyStreamCursor,
    read: u64,
    response: &ResponseBody,
    asked: (Option<u64>, bool),
)
    requires
        call_ensures(Body::from_chunks, (source,), made),
        body@ is Buffered,
        call_ensures(Body::as_bytes, (body,), bytes),
        call_ensures(BodyStreamCursor::source, (cursor,), read),
        call_ensures(ResponseBody::source, (response,), asked.0),
        call_ensures(ResponseBody::needs_chunk, (response,), asked.1),
    ensures
        made@ == BodyView::Streaming(source) && made.inbound() is None && made.outbound() is None,
        body@ == BodyView::Buffered(bytes@),
        read == cursor@.source,
        asked.0 is Some <==> response@ is Streaming,
        asked.0 matches Some(source) ==> (response@ matches ResponseBodyView::Streaming(cursor)
            && cursor.source == source),
        asked.1 <==> (response@ matches ResponseBodyView::Streaming(cursor) && cursor.unsent.len()
            == 0 && !cursor.ended),
{
}

/// Trailers of a body are read only once they are there and the body was read to
/// its end, and the callback that produces outbound trailers is handed out once.
pub proof fn trailers_are_read_at_the_end(
    body: &Body,
    table: &TrailerTable,
    fields: Option<&Headers>,
    first: &mut TrailerTable,
    second: &mut TrailerTable,
    callbacks: (Result<Option<u64>, ()>, Result<Option<u64>, ()>),
    response: &mut ResponseBody,
    again: &mut ResponseBody,
    taken: (Option<u64>, Option<u64>),
)
    requires
        call_ensures(Body::trailers, (body, table), fields),
        call_ensures(Body::take_outbound_trailers, (body, first), callbacks.0),
        *old(second) == *final(first),
        call_ensures(Body::take_outbound_trailers, (body, second), callbacks.1),
        call_ensures(ResponseBody::take_trailers, (response,), taken.0),
        *old(again) == *final(response),
        call_ensures(ResponseBody::take_trailers, (again,), taken.1),
    ensures
        body.inbound() is None ==> fields is None,
        body.inbound() matches Some(ReceivedView::Complete(kept)) ==> (fields matches Some(told)
            && told@ == kept),
        body.inbound() matches Some(ReceivedView::Arriving(number)) ==> {
            &&& fields matches Some(told) ==> table@.inbound.contains_key(number)
                && table@.inbound[number].drained && table@.inbound[number].fields == Some(told@)
            &&& table@.inbound.contains_key(number) && table@.inbound[number].drained
                && table@.inbound[number].fields is Some ==> fields is Some
        },
        body.outbound() is None ==> callbacks.0 == Ok::<Option<u64>, ()>(None) && callbacks.1
            == callbacks.0 && final(first)@ == old(first)@,
        body.outbound() matches Some(callback) ==> {
            &&& callbacks.0 is Ok <==> old(first)@.unused.contains(callback)
            &&& callbacks.0 is Ok ==> callbacks.0 == Ok::<Option<u64>, ()>(Some(callback))
            &&& callbacks.1 is Err
        },
        taken.0 == old(response).callback() && taken.1 is None,
        final(again)@ == old(response)@,
{
}

} // verus!
