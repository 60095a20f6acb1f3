//! Waiting for the reply: the bytes of the frame are gathered as they come,
//! in pieces of any size, and handed to the session one read at a time.

use vstd::prelude::*;
use crate::error::Error;
use crate::request::{outcome_view, Reply, ReplyView, Request, RequestView};
use crate::session::{Session, SessionView};
use crate::wire::REP_HEADER_LEN;

verus! {

/// Waits for the reply to one request.
///
/// The frame of a reply comes in two reads: the header, whose length is
/// known, and what follows it, whose length the header tells. The waiter
/// keeps the bytes of the read in progress until they are all there.
pub struct ReplyWaiter {
    rpc_client: Session,
    req: Request,
    recv_buf: Vec<u8>,
    pos: usize,
    read_len: usize,
    buf_len: usize,
    outcome: Option<Result<Reply, Error>>,
}

/// A waiter as contracts see it.
pub struct WaiterView {
    /// The session that the reply comes in on.
    pub session: SessionView,
    /// The request whose reply is awaited.
    pub request: RequestView,
    /// The bytes of the read in progress that have come.
    pub pending: Seq<u8>,
    /// Number of bytes of the frame that earlier reads took.
    pub pos: nat,
    /// Length of the read in progress.
    pub read_len: nat,
    /// Size of the receive buffer: a frame longer than this is refused.
    pub buf_len: nat,
    /// How the wait ended, once it has.
    pub outcome: Option<Result<ReplyView, Error>>,
}

impl WaiterView {
    /// The waiter at the start of a wait with a receive buffer of `buf_len`
    /// bytes: nothing has come and the header is the read in progress. A
    /// buffer too small for the header ends the wait at once.
    pub open spec fn started(self, buf_len: nat) -> WaiterView {
        if REP_HEADER_LEN <= buf_len {
            WaiterView {
                pending: Seq::empty(),
                pos: 0,
                read_len: REP_HEADER_LEN as nat,
                buf_len,
                outcome: None,
                ..self
            }
        } else {
            WaiterView {
                session: self.session.idle(),
                pending: Seq::empty(),
                pos: 0,
                read_len: REP_HEADER_LEN as nat,
                buf_len,
                outcome: Some(Err(Error::Decoding)),
                ..self
            }
        }
    }

    /// Number of bytes that the read in progress still lacks; none once the
    /// wait has ended.
    pub open spec fn needed(self) -> int {
        if self.outcome is Some {
            0
        } else {
            self.read_len - self.pending.len()
        }
    }

    /// Number of bytes that the waiter has taken from the transport since
    /// the wait began.
    pub open spec fn taken(self) -> nat {
        self.pos + self.pending.len()
    }

    /// The waiter once the wait has ended in `outcome`. The bytes of the read
    /// in progress count as taken.
    pub open spec fn ended(self, session: SessionView, outcome: Result<ReplyView, Error>) -> WaiterView {
        WaiterView {
            session,
            pending: Seq::empty(),
            pos: self.pos + self.pending.len(),
            outcome: Some(outcome),
            ..self
        }
    }

    /// The waiter after the read in progress, now whole, went to the
    /// session. Where the session refuses it the wait ends with that error.
    /// Where the reply is whole and the request takes it, the wait ends with
    /// the reply; where it is whole and the session has another request on
    /// record than this one, the wait ends with `ProtocolMisuse`. Otherwise
    /// the next read begins, unless the frame would then outgrow the receive
    /// buffer: that ends the wait with `Decoding`. After any error the
    /// session has nothing outstanding.
    #[verifier::opaque]
    pub open spec fn settled(self) -> WaiterView {
        let (session, parsed) = self.session.parsed(self.pending);
        match parsed {
            Err(error) => self.ended(session, Err(error)),
            Ok(next) => {
                let (after, got) = self.request.took(session);
                match got {
                    Some(outcome) => self.ended(after, outcome),
                    None => if next == 0 {
                        self.ended(session.idle(), Err(Error::ProtocolMisuse))
                    } else if self.pos + self.read_len + next <= self.buf_len {
                        WaiterView {
                            session,
                            pending: Seq::empty(),
                            pos: self.pos + self.read_len,
                            read_len: next as nat,
                            ..self
                        }
                    } else {
                        self.ended(session.idle(), Err(Error::Decoding))
                    },
                }
            },
        }
    }

    /// The waiter after `chunk` came in. Bytes fill the read in progress;
    /// each read that becomes whole is settled before the next byte is
    /// looked at; bytes that come after the wait has ended are not taken.
    #[verifier::opaque]
    pub open spec fn absorb(self, chunk: Seq<u8>) -> WaiterView
        decreases chunk.len(),
    {
        let needed = self.needed();
        if chunk.len() == 0 || needed <= 0 {
            self
        } else if chunk.len() < needed {
            WaiterView { pending: self.pending + chunk, ..self }
        } else {
            (WaiterView { pending: self.pending + chunk.take(needed), ..self }).settled().absorb(
                chunk.skip(needed),
            )
        }
    }

    /// The waiter after the transport ended. A wait that is still under way
    /// ends with `Transport`, and the session gives the request up.
    pub open spec fn cut_off(self) -> WaiterView {
        if self.outcome is Some {
            self
        } else {
            self.ended(self.session.idle(), Err(Error::Transport))
        }
    }

    /// The waiter after a whole wait on a transport that delivers `stream`
    /// and then ends.
    pub open spec fn received(self, stream: Seq<u8>, buf_len: nat) -> WaiterView {
        self.started(buf_len).absorb(stream).cut_off()
    }

    /// The waiter after every chunk of `chunks` came in, one after the
    /// other.
    pub open spec fn absorb_all(self, chunks: Seq<Seq<u8>>) -> WaiterView
        decreases chunks.len(),
    {
        if chunks.len() == 0 {
            self
        } else {
            self.absorb(chunks.first()).absorb_all(chunks.drop_first())
        }
    }
}

/// The bytes of all chunks, in order.
pub open spec fn joined(chunks: Seq<Seq<u8>>) -> Seq<u8>
    decreases chunks.len(),
{
    if chunks.len() == 0 {
        Seq::empty()
    } else {
        chunks.first() + joined(chunks.drop_first())
    }
}

/// Bytes that come in two chunks leave the waiter as the same bytes do when
/// they come in one.
pub proof fn absorb_in_two(waiter: WaiterView, first: Seq<u8>, second: Seq<u8>)
    ensures
        waiter.absorb(first).absorb(second) == waiter.absorb(first + second),
    decreases first.len(),
{
    reveal(WaiterView::absorb);
    let needed = waiter.needed();
    let whole = first + second;
    if first.len() == 0 {
        assert(whole =~= second);
    } else if needed <= 0 {
    } else if first.len() < needed {
        let partly = WaiterView { pending: waiter.pending + first, ..waiter };
        assert(waiter.absorb(first) == partly);
        if second.len() == 0 {
            assert(whole =~= first);
        } else if whole.len() < needed {
            assert(partly.pending + second =~= waiter.pending + whole);
        } else {
            let lacking = partly.needed();
            assert(lacking == needed - first.len());
            assert(partly.pending + second.take(lacking) =~= waiter.pending + whole.take(needed));
            assert(second.skip(lacking) =~= whole.skip(needed));
        }
    } else {
        let filled = WaiterView { pending: waiter.pending + first.take(needed), ..waiter };
        assert(whole.take(needed) =~= first.take(needed));
        assert(whole.skip(needed) =~= first.skip(needed) + second);
        absorb_in_two(filled.settled(), first.skip(needed), second);
    }
}

/// However the bytes of a stream are cut into chunks, the waiter ends up as
/// if the whole stream had come in one chunk: the same reply or the same
/// error, and the same session.
pub proof fn absorb_any_split(waiter: WaiterView, chunks: Seq<Seq<u8>>)
    ensures
        waiter.absorb_all(chunks) == waiter.absorb(joined(chunks)),
    decreases chunks.len(),
{
    if chunks.len() == 0 {
        reveal(WaiterView::absorb);
    } else {
        absorb_any_split(waiter.absorb(chunks.first()), chunks.drop_first());
        absorb_in_two(waiter, chunks.first(), joined(chunks.drop_first()));
    }
}

/// Appends the bytes of `from` between `start` and `end` to `to`.
fn append(to: &mut Vec<u8>, from: &[u8], start: usize, end: usize)
    requires
        start <= end <= from@.len(),
    ensures
        final(to)@ == old(to)@ + from@.subrange(start as int, end as int),
{
    let mut at: usize = start;
    while at < end
        invariant
            start <= at <= end <= from@.len(),
            to@ == old(to)@ + from@.subrange(start as int, at as int),
        decreases end - at,
    {
        to.push(from[at]);
        at = at + 1;
        assert(to@ =~= old(to)@ + from@.subrange(start as int, at as int));
    }
    assert(to@ =~= old(to)@ + from@.subrange(start as int, end as int));
}

impl View for ReplyWaiter {
    type V = WaiterView;

    closed spec fn view(&self) -> WaiterView {
        WaiterView {
            session: self.rpc_client@,
            request: self.req@,
            pending: self.recv_buf@,
            pos: self.pos as nat,
            read_len: self.read_len as nat,
            buf_len: self.buf_len as nat,
            outcome: match self.outcome {
                Some(outcome) => Some(outcome_view(outcome)),
                None => None,
            },
        }
    }
}

impl ReplyWaiter {
    /// What holds of every waiter between calls.
    pub closed spec fn wf(&self) -> bool {
        &&& self.rpc_client.wf()
        &&& (self.outcome is None) ==> self.recv_buf@.len() < self.read_len
        &&& (self.outcome is None) ==> self.pos + self.read_len <= self.buf_len
        &&& (self.outcome is Some) ==> self.recv_buf@.len() == 0
    }

    /// A waiter for the reply to `req`, which went out on `rpc_client`. Its
    /// receive buffer is as large as the largest frame that the session
    /// takes.
    pub fn new(req: Request, rpc_client: Session) -> (waiter: ReplyWaiter)
        requires
            rpc_client.wf(),
        ensures
            waiter.wf(),
            waiter@ == (WaiterView {
                session: rpc_client@,
                request: req@,
                pending: Seq::empty(),
                pos: 0,
                read_len: REP_HEADER_LEN as nat,
                buf_len: (REP_HEADER_LEN + rpc_client@.capacity) as nat,
                outcome: None,
            }),
    {
        let buf_len: usize = REP_HEADER_LEN + rpc_client.capacity() as usize;
        ReplyWaiter {
            rpc_client,
            req,
            recv_buf: Vec::new(),
            pos: 0,
            read_len: REP_HEADER_LEN,
            buf_len,
            outcome: None,
        }
    }

    /// Starts a wait with a receive buffer of `buf_len` bytes. What an
    /// earlier wait left behind is dropped.
    pub fn start(&mut self, buf_len: usize)
        requires
            old(self).wf(),
        ensures
            final(self).wf(),
            final(self)@ == old(self)@.started(buf_len as nat),
    {
        self.recv_buf.clear();
        self.pos = 0;
        self.read_len = REP_HEADER_LEN;
        self.buf_len = buf_len;
        if REP_HEADER_LEN <= buf_len {
            self.outcome = None;
        } else {
            self.rpc_client.complete();
            self.outcome = Some(Err(Error::Decoding));
        }
    }

    /// Number of bytes that the read in progress still lacks; none once the
    /// wait has ended.
    pub fn bytes_needed(&self) -> (needed: usize)
        requires
            self.wf(),
        ensures
            needed == self@.needed(),
            (self@.outcome is None) ==> needed > 0,
    {
        if self.outcome.is_some() {
            0
        } else {
            self.read_len - self.recv_buf.len()
        }
    }

    /// Number of bytes that the waiter has taken from the transport since
    /// the wait began. Bytes that were offered behind the end of the wait
    /// are not among them.
    pub fn bytes_taken(&self) -> (taken: usize)
        requires
            self.wf(),
        ensures
            taken == self@.taken(),
    {
        self.pos + self.recv_buf.len()
    }

    /// Whether the wait has ended, in a reply or in an error.
    pub fn is_complete(&self) -> (complete: bool)
        ensures
            complete == (self@.outcome is Some),
    {
        self.outcome.is_some()
    }

    /// Hands the read in progress, now whole, to the session.
    fn settle(&mut self)
        requires
            old(self).wf_but_whole(),
        ensures
            final(self).wf(),
            final(self)@ == old(self)@.settled(),
    {
        proof {
            reveal(WaiterView::settled);
        }
        let parsed = self.rpc_client.parse(self.recv_buf.as_slice());
        self.recv_buf.clear();
        match parsed {
            Err(error) => {
                self.pos = self.pos + self.read_len;
                self.outcome = Some(Err(error));
            },
            Ok(next) => {
                match self.req.take_reply(&mut self.rpc_client) {
                    Some(got) => {
                        self.pos = self.pos + self.read_len;
                        self.outcome = Some(got);
                    },
                    None => {
                        let used: usize = self.pos + self.read_len;
                        if next == 0 {
                            self.rpc_client.complete();
                            self.pos = used;
                            self.outcome = Some(Err(Error::ProtocolMisuse));
                        } else if next <= self.buf_len - used {
                            proof {
                                old(self).rpc_client.wf_coherent();
                                old(self)@.session.parsed_moves_on(old(self)@.pending);
                            }
                            self.pos = used;
                            self.read_len = next;
                        } else {
                            self.rpc_client.complete();
                            self.pos = used;
                            self.outcome = Some(Err(Error::Decoding));
                        }
                    },
                }
            },
        }
    }

    /// A waiter whose read in progress is whole and not yet settled.
    spec fn wf_but_whole(&self) -> bool {
        &&& self.rpc_client.wf()
        &&& self.outcome is None
        &&& self.recv_buf@.len() == self.read_len
        &&& self.pos + self.read_len <= self.buf_len
    }

    /// Takes in bytes that came over the transport, as many or as few as
    /// there are. Whenever the read in progress becomes whole it goes to the
    /// session, and the next read begins with the bytes that follow. Bytes
    /// that follow the end of the wait are not taken.
    pub fn feed(&mut self, chunk: &[u8])
        requires
            old(self).wf(),
        ensures
            final(self).wf(),
            final(self)@ == old(self)@.absorb(chunk@),
    {
        let mut off: usize = 0;
        proof {
            reveal(WaiterView::absorb);
        }
        assert(chunk@.skip(0) =~= chunk@);
        while off < chunk.len() && self.outcome.is_none()
            invariant
                self.wf(),
                off <= chunk@.len(),
                self@.absorb(chunk@.skip(off as int)) == old(self)@.absorb(chunk@),
            decreases chunk@.len() - off,
        {
            let needed: usize = self.read_len - self.recv_buf.len();
            let left: usize = chunk.len() - off;
            let ghost before = self@;
            let ghost rest = chunk@.skip(off as int);
            proof {
                reveal(WaiterView::absorb);
            }
            if left < needed {
                append(&mut self.recv_buf, chunk, off, chunk.len());
                proof {
                    assert(chunk@.subrange(off as int, chunk@.len() as int) =~= rest);
                    assert(self@ == before.absorb(rest));
                    assert(chunk@.skip(chunk@.len() as int).len() == 0);
                }
                off = chunk.len();
            } else {
                append(&mut self.recv_buf, chunk, off, off + needed);
                proof {
                    assert(chunk@.subrange(off as int, off + needed) =~= rest.take(needed as int));
                    assert(chunk@.skip(off + needed) =~= rest.skip(needed as int));
                }
                self.settle();
                off = off + needed;
            }
        }
        proof {
            reveal(WaiterView::absorb);
            if off == chunk@.len() {
                assert(chunk@.skip(off as int).len() == 0);
            }
        }
    }

    /// Tells the waiter that the transport has ended or failed. A wait that
    /// is still under way ends with `Transport`, and the session gives the
    /// request up.
    pub fn cut_off(&mut self)
        requires
            old(self).wf(),
        ensures
            final(self).wf(),
            final(self)@ == old(self)@.cut_off(),
    {
        if self.outcome.is_none() {
            self.rpc_client.complete();
            self.pos = self.pos + self.recv_buf.len();
            self.recv_buf.clear();
            self.outcome = Some(Err(Error::Transport));
        }
    }

    /// Waits for the reply on a transport that holds all its bytes: `r` is
    /// what the transport delivers before it ends, and `buf_len` the size of
    /// the receive buffer. The header is read first, then what the header
    /// announces.
    ///
    /// Returns the reply, or the error that ended the wait: that of the
    /// session where it refused what came, `Decoding` where the frame is
    /// longer than `buf_len`, `ProtocolMisuse` where the session has another
    /// request on record than that of the waiter, `Transport` where `r` ends
    /// before the reply is whole. After any error the session has no request
    /// outstanding. Of `r` the waiter takes the frame and no byte more.
    pub fn block_rcv_reply(&mut self, r: &[u8], buf_len: usize) -> (result: Result<Reply, Error>)
        requires
            old(self).wf(),
        ensures
            final(self).wf(),
            final(self)@ == old(self)@.received(r@, buf_len as nat),
            final(self)@.outcome == Some(outcome_view(result)),
    {
        self.start(buf_len);
        self.feed(r);
        self.cut_off();
        match self.outcome() {
            Some(outcome) => outcome,
            None => Err(Error::Transport),
        }
    }

    /// Ends the life of the waiter and gives back the request and the
    /// session.
    pub fn into_parts(self) -> (parts: (Request, Session))
        requires
            self.wf(),
        ensures
            parts.0@ == self@.request,
            parts.1@ == self@.session,
            parts.1.wf(),
    {
        (self.req, self.rpc_client)
    }

    /// How the wait ended, once it has.
    pub fn outcome(&self) -> (outcome: Option<Result<Reply, Error>>)
        ensures
            self@.outcome == match outcome {
                Some(got) => Some(outcome_view(got)),
                None => None,
            },
    {
        match &self.outcome {
            Some(Ok(reply)) => Some(Ok(reply.duplicate())),
            Some(Err(error)) => Some(Err(*error)),
            None => None,
        }
    }
}

} // verus!
