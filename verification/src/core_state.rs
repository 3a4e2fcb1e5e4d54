//! Requests, responses and control state of the agent loop.
//!
//! One [`CoreState`] holds the queues, the turn in flight with the user inputs
//! that joined it, the responses that were received out of order, and the abort
//! controls.

use std::collections::VecDeque;

use vstd::prelude::*;
use vstd::utf8::{encode_utf8, encode_utf8_valid_utf8, is_char_boundary, is_char_boundary_start_end_of_seq};

use crate::channel::BoundedQueue;
use crate::consts::{
    AbortReason, AgentLoopPhase, INFLIGHT_SESSION_ID_SIZE, INSERT_QUEUE_LEN, REQUEST_FLAG_USER_INTERRUPT,
};
use crate::errname::{EspErr, ESP_ERR_INVALID_STATE, ESP_ERR_NOT_FOUND, ESP_ERR_NO_MEM, ESP_ERR_TIMEOUT};
use crate::error::CoreError;
use crate::request::{RequestItem, ResponseItem};
use crate::text::{str_eq, views};

verus! {

/// The turn in flight. A request id of zero means that there is none.
pub struct Inflight {
    pub request_id: u32,
    pub session_id: String,
    pub phase: AgentLoopPhase,
    pub abort: bool,
    pub abort_reason: AbortReason,
    pub insert_queue: VecDeque<RequestItem>,
}

impl Default for Inflight {
    fn default() -> (r: Inflight)
        ensures
            r.request_id == 0,
            r.session_id@ == Seq::<char>::empty(),
            r.phase == AgentLoopPhase::Idle,
            !r.abort,
            r.abort_reason == AbortReason::NotAborted,
            r.insert_queue@.len() == 0,
    {
        Inflight {
            request_id: 0,
            session_id: String::new(),
            phase: AgentLoopPhase::Idle,
            abort: false,
            abort_reason: AbortReason::NotAborted,
            insert_queue: VecDeque::new(),
        }
    }
}

/// What became of a user input that asked to join the turn in flight.
pub enum InsertOutcome {
    /// It joined.
    Inserted,
    /// There is no turn it could join; it is a request like any other.
    Fallthrough(RequestItem),
    /// Too many inputs wait already.
    Reject(EspErr, RequestItem),
}

/// State of the agent loop.
pub struct CoreState {
    pub initialized: bool,
    pub started: bool,
    pub stop_requested: bool,
    pub instance_id: u32,
    pub max_tool_iterations: u32,
    pub request_queue: BoundedQueue<RequestItem>,
    pub response_queue: BoundedQueue<ResponseItem>,
    pub inflight: Inflight,
    /// Responses that were received while another one was asked for.
    pub pending: VecDeque<ResponseItem>,
    /// Mirrors `inflight.abort` for the HTTP layer.
    pub abort_flag: bool,
}

/// The greatest character boundary of `bytes` that is not above `idx`.
pub open spec fn floor_boundary(bytes: Seq<u8>, idx: int) -> int
    decreases idx,
{
    if idx >= bytes.len() {
        bytes.len() as int
    } else if idx <= 0 || is_char_boundary(bytes, idx) {
        idx
    } else {
        floor_boundary(bytes, idx - 1)
    }
}

/// The greatest character boundary of `s` that is not above `idx`.
pub fn floor_char_boundary(s: &str, idx: usize) -> (r: usize)
    ensures
        r == floor_boundary(encode_utf8(s@), idx as int),
        r <= encode_utf8(s@).len(),
        r <= idx || r == encode_utf8(s@).len(),
        is_char_boundary(encode_utf8(s@), r as int),
{
    proof {
        encode_utf8_valid_utf8(s@);
        is_char_boundary_start_end_of_seq(encode_utf8(s@));
    }
    let n: usize = s.as_bytes().len();
    if idx >= n {
        return n;
    }
    let mut i: usize = idx;
    while i > 0 && !s.is_char_boundary(i)
        invariant
            i <= idx < n,
            n == encode_utf8(s@).len(),
            floor_boundary(encode_utf8(s@), i as int) == floor_boundary(encode_utf8(s@), idx as int),
        decreases i,
    {
        i = i - 1;
    }
    i
}

/// A session id as it is kept for the turn in flight: at most 127 bytes, cut at
/// a character boundary.
pub open spec fn kept_session(kept: Seq<char>, session: Seq<char>) -> bool {
    encode_utf8(kept) == encode_utf8(session).subrange(
        0,
        floor_boundary(encode_utf8(session), INFLIGHT_SESSION_ID_SIZE - 1),
    )
}

/// How many of the first inputs, at most `max`, are for `session`.
pub open spec fn leading_inputs(q: Seq<RequestItem>, session: Seq<char>, max: nat) -> nat
    decreases max,
{
    if max == 0 || q.len() == 0 || q[0].session() != session {
        0
    } else {
        1 + leading_inputs(q.drop_first(), session, (max - 1) as nat)
    }
}

proof fn lemma_leading_inputs(q: Seq<RequestItem>, session: Seq<char>, max: nat)
    ensures
        leading_inputs(q, session, max) <= q.len(),
        leading_inputs(q, session, max) <= max,
    decreases max,
{
    if max > 0 && q.len() > 0 && q[0].session() == session {
        lemma_leading_inputs(q.drop_first(), session, (max - 1) as nat);
    }
}

/// The texts of some inputs.
pub open spec fn input_texts(q: Seq<RequestItem>) -> Seq<Seq<char>> {
    q.map_values(|r: RequestItem| r.user_text@)
}

/// Whether a response answers the request asked for; zero asks for any.
pub open spec fn answers(r: ResponseItem, request_id: u32) -> bool {
    request_id == 0 || r.request_id == request_id
}

/// The first response from `i` on that answers the request, or the end.
pub open spec fn first_answer(s: Seq<ResponseItem>, request_id: u32, i: int) -> int
    decreases s.len() - i,
{
    if i < 0 || i >= s.len() || answers(s[i], request_id) {
        i
    } else {
        first_answer(s, request_id, i + 1)
    }
}

/// The flag bit that asks to join the turn in flight.
pub open spec fn wants_insert(item: RequestItem) -> bool {
    item.flags & REQUEST_FLAG_USER_INTERRUPT != 0
}

impl CoreState {
    /// The abort flag mirrors the turn's, an abort has a reason and only then,
    /// and no more inputs wait than there is room for.
    pub open spec fn coherent(self) -> bool {
        &&& self.abort_flag == self.inflight.abort
        &&& self.inflight.abort <==> self.inflight.abort_reason != AbortReason::NotAborted
        &&& self.inflight.insert_queue@.len() <= INSERT_QUEUE_LEN
    }

    /// Whether all but the turn in flight is the same.
    pub open spec fn same_but_turn(self, other: CoreState) -> bool {
        &&& self.initialized == other.initialized
        &&& self.started == other.started
        &&& self.stop_requested == other.stop_requested
        &&& self.instance_id == other.instance_id
        &&& self.max_tool_iterations == other.max_tool_iterations
        &&& self.request_queue == other.request_queue
        &&& self.response_queue == other.response_queue
        &&& self.pending == other.pending
    }

    /// Whether all but the inputs and the abort of the turn is the same.
    pub open spec fn same_turn(self, other: CoreState) -> bool {
        &&& self.same_but_turn(other)
        &&& self.inflight.request_id == other.inflight.request_id
        &&& self.inflight.session_id == other.inflight.session_id
        &&& self.inflight.phase == other.inflight.phase
    }

    /// Whether the abort is the same.
    pub open spec fn same_abort(self, other: CoreState) -> bool {
        &&& self.inflight.abort == other.inflight.abort
        &&& self.inflight.abort_reason == other.inflight.abort_reason
        &&& self.abort_flag == other.abort_flag
    }

    /// The state with the turn in flight in a phase.
    pub open spec fn at_phase(self, phase: AgentLoopPhase) -> CoreState {
        CoreState { inflight: Inflight { phase, ..self.inflight }, ..self }
    }

    /// Whether nothing is aborted.
    pub open spec fn not_aborted(self) -> bool {
        !self.inflight.abort && self.inflight.abort_reason == AbortReason::NotAborted && !self.abort_flag
    }

    pub fn new(instance_id: u32, request_q_len: usize, response_q_len: usize, max_tool_iterations: u32) -> (r:
        CoreState)
        ensures
            r.coherent(),
            r.initialized,
            !r.started,
            !r.stop_requested,
            r.instance_id == instance_id,
            r.max_tool_iterations == max_tool_iterations,
            r.request_queue@.len() == 0,
            r.request_queue.capacity() == (if request_q_len == 0 {
                1nat
            } else {
                request_q_len as nat
            }),
            r.response_queue@.len() == 0,
            r.response_queue.capacity() == (if response_q_len == 0 {
                1nat
            } else {
                response_q_len as nat
            }),
            r.pending@.len() == 0,
            r.inflight.request_id == 0,
            r.inflight.session_id@.len() == 0,
            r.inflight.phase == AgentLoopPhase::Idle,
            r.inflight.insert_queue@.len() == 0,
            r.not_aborted(),
    {
        CoreState {
            initialized: true,
            started: false,
            stop_requested: false,
            instance_id,
            max_tool_iterations,
            request_queue: BoundedQueue::new(request_q_len),
            response_queue: BoundedQueue::new(response_q_len),
            inflight: Inflight::default(),
            pending: VecDeque::new(),
            abort_flag: false,
        }
    }

    /// Whether an input belongs to the turn in flight, and that turn still takes inputs.
    pub open spec fn can_join(self, item: RequestItem) -> bool {
        &&& item.session().len() > 0
        &&& self.inflight.request_id != 0
        &&& self.inflight.session_id@.len() > 0
        &&& self.inflight.session_id@ == item.session()
        &&& self.inflight.phase.insertable()
    }

    /// Whether all that has happened is that an input has joined the turn in flight.
    /// While the model is being asked, that call is aborted, unless the turn is
    /// cancelled anyway.
    pub open spec fn has_joined(self, after: CoreState, item: RequestItem) -> bool {
        &&& self.can_join(item)
        &&& self.inflight.insert_queue@.len() < INSERT_QUEUE_LEN
        &&& after.same_turn(self)
        &&& after.inflight.insert_queue@ == self.inflight.insert_queue@.push(item)
        &&& if self.inflight.phase == AgentLoopPhase::InLlmHttp && self.inflight.abort_reason
            != AbortReason::Cancel {
            after.inflight.abort && after.abort_flag && after.inflight.abort_reason == AbortReason::UserInterrupt
        } else {
            after.same_abort(self)
        }
    }

    /// Lets a user input join the turn in flight. While the model is being asked,
    /// that call is aborted, unless the turn is cancelled anyway.
    pub fn try_queue_insert(&mut self, item: RequestItem) -> (r: InsertOutcome)
        requires
            old(self).coherent(),
        ensures
            final(self).coherent(),
            match r {
                InsertOutcome::Inserted => old(self).has_joined(*final(self), item),
                InsertOutcome::Fallthrough(back) => {
                    &&& !old(self).can_join(item)
                    &&& back == item
                    &&& *final(self) == *old(self)
                },
                InsertOutcome::Reject(err, back) => {
                    &&& old(self).can_join(item)
                    &&& old(self).inflight.insert_queue@.len() >= INSERT_QUEUE_LEN
                    &&& err == ESP_ERR_NO_MEM
                    &&& back == item
                    &&& *final(self) == *old(self)
                },
            },
    {
        let session_ok = {
            let session = item.session_id_str();
            !session.is_empty() && self.inflight.request_id != 0 && !self.inflight.session_id.as_str().is_empty()
                && str_eq(self.inflight.session_id.as_str(), session)
        };
        if !session_ok {
            return InsertOutcome::Fallthrough(item);
        }
        if !self.inflight.phase.is_insertable() {
            return InsertOutcome::Fallthrough(item);
        }
        if self.inflight.insert_queue.len() >= INSERT_QUEUE_LEN {
            return InsertOutcome::Reject(ESP_ERR_NO_MEM, item);
        }
        self.inflight.insert_queue.push_back(item);
        if self.inflight.phase == AgentLoopPhase::InLlmHttp && self.inflight.abort_reason != AbortReason::Cancel {
            self.inflight.abort = true;
            self.inflight.abort_reason = AbortReason::UserInterrupt;
            self.abort_flag = true;
        }
        InsertOutcome::Inserted
    }

    /// Whether a request goes to the request queue: the loop runs, the request has a
    /// text, and it does not join the turn in flight.
    pub open spec fn queues(self, item: RequestItem) -> bool {
        &&& self.started
        &&& item.user_text@.len() > 0
        &&& !(wants_insert(item) && self.can_join(item))
    }

    /// What submitting a request gives, and where the request goes.
    pub open spec fn submitted(self, after: CoreState, item: RequestItem, r: Result<(), CoreError>) -> bool {
        let joins = wants_insert(item) && self.can_join(item);
        match r {
            Ok(_) => {
                &&& self.started
                &&& item.user_text@.len() > 0
                &&& if joins {
                    self.has_joined(after, item)
                } else {
                    &&& !self.request_queue.full()
                    &&& after.request_queue@ == self.request_queue@.push(item)
                    &&& after.request_queue.capacity() == self.request_queue.capacity()
                    &&& after == (CoreState { request_queue: after.request_queue, ..self })
                }
            },
            Err(e) => {
                &&& after == self
                &&& e == (if !self.started {
                    CoreError::InvalidState
                } else if item.user_text@.len() == 0 {
                    CoreError::InvalidArg
                } else if joins {
                    CoreError::Esp(ESP_ERR_NO_MEM)
                } else {
                    CoreError::Esp(ESP_ERR_TIMEOUT)
                })
                &&& self.started && item.user_text@.len() > 0 ==> if joins {
                    self.inflight.insert_queue@.len() >= INSERT_QUEUE_LEN
                } else {
                    self.request_queue.full()
                }
            },
        }
    }

    /// Takes a request: into the turn in flight where it asks for that and can
    /// join, else into the request queue.
    pub fn ingress_submit(&mut self, item: RequestItem, timeout_ms: u32) -> (r: Result<(), CoreError>)
        requires
            old(self).coherent(),
            timeout_ms == u32::MAX && old(self).queues(item) ==> !old(self).request_queue.full(),
        ensures
            final(self).coherent(),
            old(self).submitted(*final(self), item, r),
    {
        if !self.started {
            return Err(CoreError::InvalidState);
        }
        if item.user_text.as_str().is_empty() {
            return Err(CoreError::InvalidArg);
        }
        let item = if item.flags & REQUEST_FLAG_USER_INTERRUPT != 0 {
            match self.try_queue_insert(item) {
                InsertOutcome::Inserted => {
                    return Ok(());
                },
                InsertOutcome::Reject(err, _) => {
                    return Err(CoreError::Esp(err));
                },
                InsertOutcome::Fallthrough(item) => item,
            }
        } else {
            item
        };
        let timeout = if timeout_ms == u32::MAX {
            None
        } else {
            Some(timeout_ms as u64)
        };
        match self.request_queue.send_timeout(item, timeout) {
            Ok(_) => Ok(()),
            Err(_) => Err(CoreError::Esp(ESP_ERR_TIMEOUT)),
        }
    }

    /// Takes the inputs for `session_id` from the front of those that joined the
    /// turn, at most `max`, and gives their texts in order.
    pub fn dequeue_inserted_user_inputs(&mut self, session_id: &str, max: usize) -> (r: Vec<String>)
        requires
            old(self).coherent(),
        ensures
            final(self).coherent(),
            final(self).same_turn(*old(self)),
            final(self).same_abort(*old(self)),
            ({
                let q = old(self).inflight.insert_queue@;
                let k = if session_id@.len() == 0 {
                    0nat
                } else {
                    leading_inputs(q, session_id@, max as nat)
                };
                &&& k <= q.len()
                &&& views(r@) == input_texts(q.take(k as int))
                &&& final(self).inflight.insert_queue@ == q.skip(k as int)
                &&& k == 0 ==> *final(self) == *old(self)
            }),
    {
        let mut out: Vec<String> = Vec::new();
        let ghost q = self.inflight.insert_queue@;
        assert(views(out@) =~= input_texts(q.take(0)));
        assert(q.skip(0) =~= q);
        if session_id.is_empty() || max == 0 {
            return out;
        }
        proof {
            lemma_leading_inputs(q, session_id@, max as nat);
        }
        while out.len() < max
            invariant_except_break
                leading_inputs(q, session_id@, max as nat) == out@.len() + leading_inputs(
                    self.inflight.insert_queue@,
                    session_id@,
                    (max - out@.len()) as nat,
                ),
            invariant
                out@.len() <= max,
                out@.len() <= q.len(),
                self.coherent(),
                self.same_turn(*old(self)),
                self.same_abort(*old(self)),
                out@.len() == 0 ==> *self == *old(self),
                q == old(self).inflight.insert_queue@,
                self.inflight.insert_queue@ == q.skip(out@.len() as int),
                views(out@) == input_texts(q.take(out@.len() as int)),
            ensures
                out@.len() == leading_inputs(q, session_id@, max as nat),
            decreases max - out@.len(),
        {
            let n: usize = self.inflight.insert_queue.len();
            if n == 0 || !str_eq(self.inflight.insert_queue[0].session_id_str(), session_id) {
                break ;
            }
            let ghost before = out@;
            let ghost rest = self.inflight.insert_queue@;
            match self.inflight.insert_queue.pop_front() {
                Some(item) => {
                    let text = item.user_text;
                    out.push(text);
                    proof {
                        let k = before.len() as int;
                        assert(rest[0] == q[k]);
                        assert(self.inflight.insert_queue@ =~= rest.drop_first());
                        assert(rest.drop_first() =~= q.skip(k + 1));
                        assert(views(out@) =~= views(before).push(text@));
                        assert(input_texts(q.take(k + 1)) =~= input_texts(q.take(k)).push(q[k].user_text@));
                    }
                },
                None => {
                    break ;
                },
            }
        }
        out
    }

    /// Drops the inputs that joined the turn.
    pub fn clear_insert_queue(&mut self)
        requires
            old(self).coherent(),
        ensures
            final(self).coherent(),
            final(self).same_turn(*old(self)),
            final(self).same_abort(*old(self)),
            final(self).inflight.insert_queue@.len() == 0,
    {
        self.inflight.insert_queue.clear();
    }

    /// Puts a response into the response queue, which must have room for it.
    pub fn response_push(&mut self, item: ResponseItem)
        requires
            old(self).coherent(),
            !old(self).response_queue.full(),
        ensures
            final(self).coherent(),
            final(self).response_queue@ == old(self).response_queue@.push(item),
            final(self).response_queue.capacity() == old(self).response_queue.capacity(),
            *final(self) == (CoreState { response_queue: final(self).response_queue, ..*old(self) }),
    {
        let _ = self.response_queue.send_timeout(item, None);
    }

    /// What asking for a response gives, and what becomes of the responses.
    pub open spec fn received(
        self,
        after: CoreState,
        request_id: u32,
        timeout_ms: u32,
        r: Result<ResponseItem, EspErr>,
    ) -> bool {
        let p = self.pending@;
        let q = self.response_queue@;
        let i = first_answer(p, request_id, 0);
        let j = first_answer(q, request_id, 0);
        &&& after == (CoreState { pending: after.pending, response_queue: after.response_queue, ..self })
        &&& after.response_queue.capacity() == self.response_queue.capacity()
        &&& if !self.started {
            &&& r == Err::<ResponseItem, EspErr>(ESP_ERR_INVALID_STATE)
            &&& after.pending@ == p
            &&& after.response_queue@ == q
        } else if i < p.len() {
            &&& r == Ok::<ResponseItem, EspErr>(p[i])
            &&& after.pending@ == p.remove(i)
            &&& after.response_queue@ == q
        } else if timeout_ms == 0 {
            &&& r == Err::<ResponseItem, EspErr>(ESP_ERR_TIMEOUT)
            &&& after.pending@ == p
            &&& after.response_queue@ == q
        } else if j < q.len() {
            &&& r == Ok::<ResponseItem, EspErr>(q[j])
            &&& after.pending@ == p + q.take(j)
            &&& after.response_queue@ == q.skip(j + 1)
        } else {
            &&& r == Err::<ResponseItem, EspErr>(ESP_ERR_TIMEOUT)
            &&& after.pending@ == p + q
            &&& after.response_queue@.len() == 0
        }
    }

    /// The responses that are there, those put aside first.
    pub open spec fn responses(self) -> Seq<ResponseItem> {
        self.pending@ + self.response_queue@
    }

    /// Takes the response to a request, or any response for the request id zero.
    /// Those received earlier and put aside come first. Responses to other
    /// requests that the search meets in the queue are put aside. A wait of no
    /// time looks at none of the queue.
    pub fn response_receive_for(&mut self, request_id: u32, timeout_ms: u32) -> (r: Result<ResponseItem, EspErr>)
        requires
            old(self).coherent(),
            timeout_ms == u32::MAX && old(self).started ==> first_answer(
                old(self).pending@ + old(self).response_queue@,
                request_id,
                0,
            ) < old(self).pending@.len() + old(self).response_queue@.len(),
        ensures
            final(self).coherent(),
            old(self).received(*final(self), request_id, timeout_ms, r),
    {
        if !self.started {
            return Err(ESP_ERR_INVALID_STATE);
        }
        let ghost p = self.pending@;
        let ghost q = self.response_queue@;
        let n: usize = self.pending.len();
        let mut i: usize = 0;
        while i < n && !(request_id == 0 || self.pending[i].request_id == request_id)
            invariant
                *self == *old(self),
                p == self.pending@,
                n == p.len(),
                i <= n,
                first_answer(p, request_id, 0) == first_answer(p, request_id, i as int),
            decreases n - i,
        {
            i = i + 1;
        }
        if i < n {
            match self.pending.remove(i) {
                Some(item) => {
                    return Ok(item);
                },
                None => {
                    return Err(ESP_ERR_TIMEOUT);
                },
            }
        }
        proof {
            lemma_first_answer_concat(p, q, request_id);
        }
        if timeout_ms == 0 {
            return Err(ESP_ERR_TIMEOUT);
        }
        let ghost mut taken: int = 0;
        assert(q.skip(0) =~= q);
        assert(p + q.take(0) =~= p);
        loop
            invariant
                0 <= taken <= q.len(),
                p == old(self).pending@,
                q == old(self).response_queue@,
                old(self).started,
                timeout_ms != 0,
                first_answer(p, request_id, 0) >= p.len(),
                self.coherent(),
                *self == (CoreState { pending: self.pending, response_queue: self.response_queue, ..*old(self) }),
                self.response_queue.capacity() == old(self).response_queue.capacity(),
                self.pending@ == p + q.take(taken),
                self.response_queue@ == q.skip(taken),
                first_answer(q, request_id, 0) == first_answer(q, request_id, taken),
            decreases q.len() - taken,
        {
            if self.response_queue.is_empty() {
                assert(q.take(taken) =~= q);
                return Err(ESP_ERR_TIMEOUT);
            }
            match self.response_queue.recv_timeout(Some(timeout_ms as u64)) {
                Some(item) => {
                    assert(item == q[taken]);
                    assert(self.response_queue@ =~= q.skip(taken + 1));
                    if request_id == 0 || item.request_id == request_id {
                        return Ok(item);
                    }
                    self.pending.push_back(item);
                    proof {
                        assert(self.pending@ =~= p + q.take(taken + 1));
                        taken = taken + 1;
                    }
                },
                None => {
                    return Err(ESP_ERR_TIMEOUT);
                },
            }
        }
    }

    /// Moves the turn in flight to a phase.
    pub fn set_phase(&mut self, phase: AgentLoopPhase)
        requires
            old(self).coherent(),
        ensures
            final(self).coherent(),
            *final(self) == old(self).at_phase(phase),
    {
        self.inflight.phase = phase;
    }

    /// The phase of the turn in flight.
    pub fn get_phase(&self) -> (r: AgentLoopPhase)
        ensures
            r == (if self.initialized {
                self.inflight.phase
            } else {
                AgentLoopPhase::Idle
            }),
    {
        if !self.initialized {
            return AgentLoopPhase::Idle;
        }
        self.inflight.phase
    }

    /// Whether a cancellation of `request_id`, or of any turn for zero, meets the turn in flight.
    pub open spec fn cancels(self, request_id: u32) -> bool {
        self.inflight.request_id != 0 && (request_id == 0 || self.inflight.request_id == request_id)
    }

    /// What cancelling gives, and what becomes of the turn.
    pub open spec fn cancelled(self, after: CoreState, request_id: u32, r: Result<(), CoreError>) -> bool {
        &&& match r {
            Ok(_) => {
                &&& self.initialized
                &&& self.cancels(request_id)
                &&& after.same_turn(self)
                &&& after.inflight.insert_queue == self.inflight.insert_queue
                &&& after.inflight.abort
                &&& after.abort_flag
                &&& after.inflight.abort_reason == AbortReason::Cancel
            },
            Err(e) => {
                &&& after == self
                &&& if !self.initialized {
                    e == CoreError::InvalidState
                } else {
                    e == CoreError::Esp(ESP_ERR_NOT_FOUND) && !self.cancels(request_id)
                }
            },
        }
    }

    /// Cancels the turn in flight.
    pub fn cancel_request(&mut self, request_id: u32) -> (r: Result<(), CoreError>)
        requires
            old(self).coherent(),
        ensures
            final(self).coherent(),
            old(self).cancelled(*final(self), request_id, r),
    {
        if !self.initialized {
            return Err(CoreError::InvalidState);
        }
        if self.inflight.request_id != 0 && (request_id == 0 || self.inflight.request_id == request_id) {
            self.inflight.abort = true;
            self.inflight.abort_reason = AbortReason::Cancel;
            self.abort_flag = true;
            Ok(())
        } else {
            Err(CoreError::Esp(ESP_ERR_NOT_FOUND))
        }
    }

    /// Whether the turn `request_id` is being aborted for a user input.
    pub open spec fn interrupted(self, request_id: u32) -> bool {
        self.inflight.request_id == request_id && self.inflight.abort_reason == AbortReason::UserInterrupt
    }

    /// Takes back an abort of the turn that was made for a user input; tells whether there was one.
    pub fn take_user_interrupt_http_abort(&mut self, request_id: u32) -> (r: bool)
        requires
            old(self).coherent(),
        ensures
            final(self).coherent(),
            final(self).same_turn(*old(self)),
            final(self).inflight.insert_queue == old(self).inflight.insert_queue,
            r == old(self).interrupted(request_id),
            r ==> final(self).not_aborted(),
            !r ==> *final(self) == *old(self),
    {
        if self.inflight.request_id == request_id && self.inflight.abort && self.inflight.abort_reason
            == AbortReason::UserInterrupt {
            self.inflight.abort = false;
            self.inflight.abort_reason = AbortReason::NotAborted;
            self.abort_flag = false;
            true
        } else {
            false
        }
    }

    /// Takes back an abort of the turn that was made for a user input.
    pub fn clear_user_interrupt_abort(&mut self, request_id: u32)
        requires
            old(self).coherent(),
        ensures
            final(self).coherent(),
            final(self).same_turn(*old(self)),
            final(self).inflight.insert_queue == old(self).inflight.insert_queue,
            old(self).interrupted(request_id) ==> final(self).not_aborted(),
            !old(self).interrupted(request_id) ==> *final(self) == *old(self),
    {
        if self.inflight.request_id == request_id && self.inflight.abort_reason == AbortReason::UserInterrupt {
            self.inflight.abort = false;
            self.inflight.abort_reason = AbortReason::NotAborted;
            self.abort_flag = false;
        }
    }

    /// Begins a turn: nothing aborted, no inputs joined.
    pub fn begin_turn(&mut self, request_id: u32, session_id: &str)
        requires
            old(self).coherent(),
        ensures
            final(self).coherent(),
            final(self).same_but_turn(*old(self)),
            final(self).inflight.request_id == request_id,
            kept_session(final(self).inflight.session_id@, session_id@),
            final(self).inflight.phase == AgentLoopPhase::BeforeBuildIterationContext,
            final(self).inflight.insert_queue@.len() == 0,
            final(self).not_aborted(),
    {
        let end: usize = floor_char_boundary(session_id, INFLIGHT_SESSION_ID_SIZE - 1);
        let (kept, _) = session_id.split_at(end);
        self.inflight.request_id = request_id;
        self.inflight.session_id = kept.to_owned();
        self.inflight.phase = AgentLoopPhase::BeforeBuildIterationContext;
        self.inflight.abort = false;
        self.inflight.abort_reason = AbortReason::NotAborted;
        self.inflight.insert_queue.clear();
        self.abort_flag = false;
    }

    /// Ends the turn; tells whether it was cancelled.
    pub fn end_turn(&mut self) -> (r: bool)
        requires
            old(self).coherent(),
        ensures
            final(self).coherent(),
            final(self).same_but_turn(*old(self)),
            r == (old(self).inflight.abort_reason == AbortReason::Cancel),
            final(self).inflight.request_id == 0,
            final(self).inflight.session_id@ == Seq::<char>::empty(),
            final(self).inflight.phase == AgentLoopPhase::Idle,
            final(self).inflight.insert_queue@.len() == 0,
            final(self).not_aborted(),
    {
        let was_cancelled = self.inflight.abort && self.inflight.abort_reason == AbortReason::Cancel;
        self.inflight.request_id = 0;
        self.inflight.session_id = String::new();
        self.inflight.phase = AgentLoopPhase::Idle;
        self.inflight.abort = false;
        self.inflight.abort_reason = AbortReason::NotAborted;
        self.inflight.insert_queue.clear();
        self.abort_flag = false;
        was_cancelled
    }
}

proof fn lemma_first_answer_bounds(s: Seq<ResponseItem>, request_id: u32, i: int)
    requires
        0 <= i <= s.len(),
    ensures
        i <= first_answer(s, request_id, i) <= s.len(),
        forall|k: int| i <= k < first_answer(s, request_id, i) ==> !answers(#[trigger] s[k], request_id),
        first_answer(s, request_id, i) < s.len() ==> answers(s[first_answer(s, request_id, i)], request_id),
    decreases s.len() - i,
{
    if i < s.len() && !answers(s[i], request_id) {
        lemma_first_answer_bounds(s, request_id, i + 1);
    }
}

proof fn lemma_first_answer_is(s: Seq<ResponseItem>, request_id: u32, i: int, k: int)
    requires
        0 <= i <= k <= s.len(),
        forall|j: int| i <= j < k ==> !answers(#[trigger] s[j], request_id),
        k < s.len() ==> answers(s[k], request_id),
    ensures
        first_answer(s, request_id, i) == k,
    decreases k - i,
{
    if i < k {
        lemma_first_answer_is(s, request_id, i + 1, k);
    }
}

proof fn lemma_first_answer_concat(p: Seq<ResponseItem>, q: Seq<ResponseItem>, request_id: u32)
    ensures
        first_answer(p, request_id, 0) >= p.len() ==> first_answer(p + q, request_id, 0) == p.len() + first_answer(
            q,
            request_id,
            0,
        ),
{
    lemma_first_answer_bounds(p, request_id, 0);
    lemma_first_answer_bounds(q, request_id, 0);
    if first_answer(p, request_id, 0) >= p.len() {
        let k = p.len() + first_answer(q, request_id, 0);
        let s = p + q;
        assert forall|j: int| 0 <= j < k implies !answers(#[trigger] s[j], request_id) by {
            if j < p.len() {
                assert(s[j] == p[j]);
            } else {
                assert(s[j] == q[j - p.len()]);
            }
        }
        lemma_first_answer_is(s, request_id, 0, k);
    }
}

/// Asking for a response loses none: the first that answers the request is taken
/// out, the others stay in their order, and a call that gives none takes none.
pub proof fn law_no_response_is_lost(
    before: CoreState,
    after: CoreState,
    request_id: u32,
    timeout_ms: u32,
    r: Result<ResponseItem, EspErr>,
)
    requires
        before.received(after, request_id, timeout_ms, r),
    ensures
        match r {
            Ok(item) => {
                let k = first_answer(before.responses(), request_id, 0);
                &&& 0 <= k < before.responses().len()
                &&& item == before.responses()[k]
                &&& answers(item, request_id)
                &&& after.responses() == before.responses().remove(k)
            },
            Err(_) => after.responses() == before.responses(),
        },
{
    let p = before.pending@;
    let q = before.response_queue@;
    let all = p + q;
    lemma_first_answer_bounds(p, request_id, 0);
    lemma_first_answer_bounds(q, request_id, 0);
    let i = first_answer(p, request_id, 0);
    let j = first_answer(q, request_id, 0);
    if before.started {
        if i < p.len() {
            assert forall|k: int| 0 <= k < i implies !answers(#[trigger] all[k], request_id) by {
                assert(all[k] == p[k]);
            }
            assert(all[i] == p[i]);
            lemma_first_answer_is(all, request_id, 0, i);
            assert(after.responses() =~= all.remove(i));
        } else if timeout_ms != 0 {
            lemma_first_answer_concat(p, q, request_id);
            if j < q.len() {
                assert(after.responses() =~= all.remove(p.len() + j));
            } else {
                assert(after.responses() =~= all);
            }
        }
    }
}

/// The inputs that join a turn are the first that wait, all of its session.
pub proof fn law_leading_inputs_are_of_the_session(q: Seq<RequestItem>, session: Seq<char>, max: nat, i: int)
    requires
        0 <= i < leading_inputs(q, session, max),
    ensures
        leading_inputs(q, session, max) <= max,
        leading_inputs(q, session, max) <= q.len(),
        q[i].session() == session,
    decreases max,
{
    lemma_leading_inputs(q, session, max);
    if i > 0 {
        law_leading_inputs_are_of_the_session(q.drop_first(), session, (max - 1) as nat, i - 1);
    }
}

/// Inputs of the session join until another session's input comes, none is left, or as
/// many joined as may.
pub proof fn law_leading_inputs_stop(q: Seq<RequestItem>, session: Seq<char>, max: nat)
    ensures
        leading_inputs(q, session, max) <= q.len(),
        leading_inputs(q, session, max) == max || leading_inputs(q, session, max) == q.len()
            || q[leading_inputs(q, session, max) as int].session() != session,
    decreases max,
{
    lemma_leading_inputs(q, session, max);
    if max > 0 && q.len() > 0 && q[0].session() == session {
        law_leading_inputs_stop(q.drop_first(), session, (max - 1) as nat);
    }
}

/// A request that does not ask to join a turn waits behind those that wait already, and
/// nothing else changes.
pub proof fn law_new_request_waits_last(before: CoreState, after: CoreState, item: RequestItem)
    requires
        before.submitted(after, item, Ok(())),
        item.flags & REQUEST_FLAG_USER_INTERRUPT == 0,
    ensures
        before.started,
        after.request_queue@.len() == before.request_queue@.len() + 1,
        after.request_queue@.last() == item,
        before.request_queue@.is_prefix_of(after.request_queue@),
        after.request_queue.capacity() == before.request_queue.capacity(),
        before.request_queue@.len() < before.request_queue.capacity(),
        after.inflight == before.inflight,
        after.abort_flag == before.abort_flag,
        after.response_queue == before.response_queue,
        after.pending == before.pending,
{
}

/// A request that asks to join the turn of its own session does, behind the others that
/// joined it, unless the turn has ended or is being finished. A model that is at work on
/// the turn is interrupted for it, unless the turn is being cancelled; no other turn is.
pub proof fn law_interrupting_request_joins_the_turn(before: CoreState, after: CoreState, item: RequestItem)
    requires
        before.submitted(after, item, Ok(())),
        item.flags & REQUEST_FLAG_USER_INTERRUPT != 0,
        item.session_id is Some,
        item.session_id->Some_0@.len() > 0,
        before.inflight.request_id != 0,
        before.inflight.session_id@ == item.session_id->Some_0@,
    ensures
        before.inflight.phase == AgentLoopPhase::Idle || before.inflight.phase == AgentLoopPhase::Finalizing ==> {
            &&& after.request_queue@.last() == item
            &&& after.request_queue@.len() == before.request_queue@.len() + 1
            &&& after.inflight == before.inflight
        },
        before.inflight.phase != AgentLoopPhase::Idle && before.inflight.phase != AgentLoopPhase::Finalizing ==> {
            &&& after.inflight.insert_queue@.len() == before.inflight.insert_queue@.len() + 1
            &&& after.inflight.insert_queue@.last() == item
            &&& before.inflight.insert_queue@.is_prefix_of(after.inflight.insert_queue@)
            &&& after.request_queue == before.request_queue
            &&& after.inflight.request_id == before.inflight.request_id
            &&& after.inflight.phase == before.inflight.phase
        },
        before.inflight.phase == AgentLoopPhase::InLlmHttp && before.inflight.abort_reason != AbortReason::Cancel
            ==> after.abort_flag && after.inflight.abort_reason == AbortReason::UserInterrupt,
        before.inflight.phase != AgentLoopPhase::InLlmHttp || before.inflight.abort_reason == AbortReason::Cancel
            ==> after.abort_flag == before.abort_flag && after.inflight.abort_reason == before.inflight.abort_reason,
{
}

/// A request of another session, or of none, never joins the turn: it waits with the
/// others, and the turn goes on as it was.
pub proof fn law_other_sessions_do_not_join(before: CoreState, after: CoreState, item: RequestItem)
    requires
        before.submitted(after, item, Ok(())),
        item.session_id is None || item.session_id->Some_0@ != before.inflight.session_id@
            || before.inflight.request_id == 0,
    ensures
        after.inflight == before.inflight,
        after.abort_flag == before.abort_flag,
        after.request_queue@.len() == before.request_queue@.len() + 1,
        after.request_queue@.last() == item,
{
}

/// A request that is refused changes nothing and is told why: the loop does not run, it
/// says nothing, the turn that it would join has no room, or no place became free in time.
pub proof fn law_refused_request_says_why(before: CoreState, after: CoreState, item: RequestItem, e: CoreError)
    requires
        before.submitted(after, item, Err(e)),
    ensures
        after == before,
        e == CoreError::InvalidState <==> !before.started,
        e == CoreError::InvalidArg <==> before.started && item.user_text@.len() == 0,
        e == CoreError::Esp(ESP_ERR_TIMEOUT) ==> before.request_queue@.len() >= before.request_queue.capacity(),
        e == CoreError::Esp(ESP_ERR_NO_MEM) ==> before.inflight.insert_queue@.len() >= INSERT_QUEUE_LEN,
        e == CoreError::InvalidState || e == CoreError::InvalidArg || e == CoreError::Esp(ESP_ERR_TIMEOUT) || e
            == CoreError::Esp(ESP_ERR_NO_MEM),
{
}

/// A response that is given answers the request that was asked for, or any where none was
/// named, and is the first that does.
pub proof fn law_response_is_the_first_that_answers(
    before: CoreState,
    after: CoreState,
    request_id: u32,
    timeout_ms: u32,
    item: ResponseItem,
    k: int,
)
    requires
        before.received(after, request_id, timeout_ms, Ok(item)),
        0 <= k < before.responses().len(),
        before.responses()[k] == item,
        forall|j: int| 0 <= j < k ==> before.responses()[j] != item,
    ensures
        before.started,
        request_id == 0 || item.request_id == request_id,
        request_id == 0 ==> k == 0,
        forall|j: int| 0 <= j < k ==> (#[trigger] before.responses()[j]).request_id != request_id,
        after.responses().len() == before.responses().len() - 1,
{
    law_no_response_is_lost(before, after, request_id, timeout_ms, Ok(item));
    let s = before.responses();
    let first = first_answer(s, request_id, 0);
    lemma_first_answer_bounds(s, request_id, 0);
    assert(k <= first);
    assert forall|j: int| 0 <= j < k implies (#[trigger] s[j]).request_id != request_id by {
        lemma_before_first_answer(s, request_id, 0, j);
    }
    if request_id == 0 && k > 0 {
        lemma_before_first_answer(s, request_id, 0, 0);
    }
}

proof fn lemma_before_first_answer(s: Seq<ResponseItem>, request_id: u32, i: int, j: int)
    requires
        0 <= i <= j < first_answer(s, request_id, i),
        i <= s.len(),
    ensures
        request_id != 0,
        j < s.len() ==> s[j].request_id != request_id,
    decreases s.len() - i,
{
    if i < j {
        lemma_before_first_answer(s, request_id, i + 1, j);
    }
}

/// Where no response is given, the loop does not run, or none that was waited for answers
/// the request; one that was kept from earlier is given even without waiting.
pub proof fn law_no_response_means_none_answers(
    before: CoreState,
    after: CoreState,
    request_id: u32,
    timeout_ms: u32,
    e: EspErr,
    k: int,
)
    requires
        before.received(after, request_id, timeout_ms, Err(e)),
    ensures
        e == (if before.started {
            ESP_ERR_TIMEOUT
        } else {
            ESP_ERR_INVALID_STATE
        }),
        before.started && 0 <= k < before.pending@.len() ==> request_id != 0 && before.pending@[k].request_id
            != request_id,
        before.started && timeout_ms != 0 && 0 <= k < before.response_queue@.len() ==> request_id != 0
            && before.response_queue@[k].request_id != request_id,
        after.responses() == before.responses(),
{
    law_no_response_is_lost(before, after, request_id, timeout_ms, Err(e));
    if before.started && 0 <= k < before.pending@.len() {
        lemma_first_answer_bounds(before.pending@, request_id, 0);
        lemma_before_first_answer(before.pending@, request_id, 0, k);
    }
    if before.started && timeout_ms != 0 && 0 <= k < before.response_queue@.len() {
        lemma_first_answer_bounds(before.response_queue@, request_id, 0);
        lemma_before_first_answer(before.response_queue@, request_id, 0, k);
    }
}

/// Cancelling aborts the turn in flight where it is the one that was named, or any where
/// none was; the turn is otherwise left as it is. Where there is no such turn nothing
/// changes, and that is said.
pub proof fn law_cancel_hits_the_named_turn(before: CoreState, after: CoreState, request_id: u32, r: Result<(), CoreError>)
    requires
        before.cancelled(after, request_id, r),
    ensures
        r is Ok <==> before.initialized && before.inflight.request_id != 0 && (request_id == 0
            || before.inflight.request_id == request_id),
        r is Ok ==> {
            &&& after.abort_flag
            &&& after.inflight.abort
            &&& after.inflight.abort_reason == AbortReason::Cancel
            &&& after.inflight.request_id == before.inflight.request_id
            &&& after.inflight.phase == before.inflight.phase
            &&& after.inflight.insert_queue == before.inflight.insert_queue
            &&& after.request_queue == before.request_queue
        },
        r matches Err(e) ==> after == before && e == (if before.initialized {
            CoreError::Esp(ESP_ERR_NOT_FOUND)
        } else {
            CoreError::InvalidState
        }),
{
}

/// Only an input that joined interrupts a turn; a cancelled turn is not one that was
/// interrupted, nor is any turn but the one in flight.
pub proof fn law_cancelled_turn_is_not_interrupted(state: CoreState, request_id: u32)
    ensures
        state.interrupted(request_id) ==> state.inflight.abort_reason == AbortReason::UserInterrupt
            && state.inflight.request_id == request_id,
        state.inflight.abort_reason == AbortReason::Cancel || state.inflight.abort_reason == AbortReason::NotAborted
            ==> !state.interrupted(request_id),
        state.inflight.abort_reason == AbortReason::UserInterrupt && state.inflight.request_id == request_id
            ==> state.interrupted(request_id),
{
}

/// A session's name is kept whole where it fits, and else cut at the end of a character:
/// what is kept is the start of it, as long as fits.
pub proof fn law_session_name_is_cut_at_a_character(kept: Seq<char>, session: Seq<char>, k: int)
    requires
        kept_session(kept, session),
    ensures
        encode_utf8(kept).is_prefix_of(encode_utf8(session)),
        encode_utf8(kept).len() <= INFLIGHT_SESSION_ID_SIZE - 1,
        encode_utf8(session).len() <= INFLIGHT_SESSION_ID_SIZE - 1 ==> encode_utf8(kept) == encode_utf8(session),
        encode_utf8(kept).len() < k <= INFLIGHT_SESSION_ID_SIZE - 1 && k < encode_utf8(session).len()
            ==> !is_char_boundary(encode_utf8(session), k),
{
    let bytes = encode_utf8(session);
    let max = INFLIGHT_SESSION_ID_SIZE - 1;
    lemma_floor_boundary(bytes, max, k);
    if bytes.len() <= max {
        assert(bytes.subrange(0, bytes.len() as int) =~= bytes);
    }
}

proof fn lemma_floor_boundary(bytes: Seq<u8>, idx: int, k: int)
    requires
        0 <= idx,
    ensures
        0 <= floor_boundary(bytes, idx) <= idx,
        floor_boundary(bytes, idx) <= bytes.len(),
        bytes.len() <= idx ==> floor_boundary(bytes, idx) == bytes.len(),
        floor_boundary(bytes, idx) < k <= idx && k < bytes.len() ==> !is_char_boundary(bytes, k),
    decreases idx,
{
    if idx < bytes.len() && idx > 0 && !is_char_boundary(bytes, idx) {
        lemma_floor_boundary(bytes, idx - 1, k);
    }
}

/// A state at another phase differs in the phase alone.
pub proof fn law_phase_changes_alone(state: CoreState, phase: AgentLoopPhase)
    ensures
        state.at_phase(phase).inflight.phase == phase,
        state.at_phase(phase).inflight.request_id == state.inflight.request_id,
        state.at_phase(phase).inflight.session_id == state.inflight.session_id,
        state.at_phase(phase).inflight.insert_queue == state.inflight.insert_queue,
        state.at_phase(phase).same_abort(state),
        state.at_phase(phase).same_but_turn(state),
{
}

/// A request waits for a turn of its own exactly where the loop runs, it says something,
/// and it does not join the turn in flight.
pub proof fn law_request_waits_unless_it_joins(state: CoreState, item: RequestItem)
    ensures
        state.queues(item) ==> state.started && item.user_text@.len() > 0,
        item.flags & REQUEST_FLAG_USER_INTERRUPT == 0 && state.started && item.user_text@.len() > 0 ==> state.queues(
            item,
        ),
        state.inflight.request_id == 0 && state.started && item.user_text@.len() > 0 ==> state.queues(item),
{
}

/// The same turn is the same request of the same session in the same phase; what else a
/// loop holds, and its settings, are the same as well.
pub proof fn law_same_turn_is_the_same_request(a: CoreState, b: CoreState)
    requires
        a.same_turn(b),
    ensures
        a.inflight.request_id == b.inflight.request_id,
        a.inflight.session_id == b.inflight.session_id,
        a.inflight.phase == b.inflight.phase,
        a.initialized == b.initialized,
        a.started == b.started,
        a.stop_requested == b.stop_requested,
        a.instance_id == b.instance_id,
        a.max_tool_iterations == b.max_tool_iterations,
        a.request_queue == b.request_queue,
        a.response_queue == b.response_queue,
        a.pending == b.pending,
{
}

/// A turn that is not aborted has no mark and no reason of it.
pub proof fn law_unaborted_turn_has_no_mark(a: CoreState, b: CoreState)
    ensures
        a.not_aborted() <==> !a.abort_flag && !a.inflight.abort && a.inflight.abort_reason
            == AbortReason::NotAborted,
        a.same_abort(b) <==> a.abort_flag == b.abort_flag && a.inflight.abort == b.inflight.abort
            && a.inflight.abort_reason == b.inflight.abort_reason,
{
}

} // verus!
