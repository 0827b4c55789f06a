//! The single global FIFO of messages to ChatGPT: which message goes next,
//! how each message's delivery state moves, and why an uncertain delivery
//! blocks everything until the user decides.

use crate::text::{decimal, decimal_string, str_equals};
use vstd::prelude::*;

verus! {

/// Where a message to ChatGPT stands.
#[derive(Debug, Clone, Copy, PartialEq, Eq, Structural)]
pub enum DeliveryState {
    Queued,
    /// Handed to the browser; ChatGPT's reply has not come yet.
    Sent,
    Delivered,
    /// It may or may not have reached ChatGPT; only the user can decide.
    Unknown,
    Failed,
}

impl DeliveryState {
    pub open spec fn db_name(self) -> Seq<char> {
        match self {
            DeliveryState::Queued => "QUEUED"@,
            DeliveryState::Sent => "SENT"@,
            DeliveryState::Delivered => "DELIVERED"@,
            DeliveryState::Unknown => "UNKNOWN"@,
            DeliveryState::Failed => "FAILED"@,
        }
    }

    pub fn as_db(self) -> (s: &'static str)
        ensures
            s@ == self.db_name(),
    {
        match self {
            DeliveryState::Queued => "QUEUED",
            DeliveryState::Sent => "SENT",
            DeliveryState::Delivered => "DELIVERED",
            DeliveryState::Unknown => "UNKNOWN",
            DeliveryState::Failed => "FAILED",
        }
    }
}

/// Reads a stored delivery state back.
pub fn delivery_state_from_db(name: &str) -> (r: Option<DeliveryState>)
    ensures
        match r {
            Some(s) => s.db_name() == name@,
            None => forall|s: DeliveryState| s.db_name() != name@,
        },
{
    proof {
        reveal_strlit("QUEUED");
        reveal_strlit("SENT");
        reveal_strlit("DELIVERED");
        reveal_strlit("UNKNOWN");
        reveal_strlit("FAILED");
    }
    if str_equals(name, "QUEUED") {
        Some(DeliveryState::Queued)
    } else if str_equals(name, "SENT") {
        Some(DeliveryState::Sent)
    } else if str_equals(name, "DELIVERED") {
        Some(DeliveryState::Delivered)
    } else if str_equals(name, "UNKNOWN") {
        Some(DeliveryState::Unknown)
    } else if str_equals(name, "FAILED") {
        Some(DeliveryState::Failed)
    } else {
        None
    }
}

/// One message to ChatGPT in the global queue, in the queue's order (oldest
/// first), with whether its module is finished.
#[derive(Debug, Clone)]
pub struct RelayQueueEntry {
    pub message_id: String,
    pub module_id: String,
    pub delivery_state: DeliveryState,
    pub module_finished: bool,
}

/// How many messages of the queue are in state `s`.
pub open spec fn count_state(q: Seq<RelayQueueEntry>, s: DeliveryState) -> nat
    decreases q.len(),
{
    if q.len() == 0 {
        0
    } else {
        count_state(q.drop_last(), s) + if q.last().delivery_state == s {
            1nat
        } else {
            0nat
        }
    }
}

/// A message that may be sent: queued, for a module that is not finished.
pub open spec fn dispatchable(e: RelayQueueEntry) -> bool {
    e.delivery_state == DeliveryState::Queued && !e.module_finished
}

/// The first message at or after `i` that may be sent.
pub open spec fn first_dispatchable_from(q: Seq<RelayQueueEntry>, i: int) -> Option<int>
    decreases q.len() - i,
{
    if i < 0 || i >= q.len() {
        None
    } else if dispatchable(q[i]) {
        Some(i)
    } else {
        first_dispatchable_from(q, i + 1)
    }
}

/// What a dispatch attempt finds.
#[derive(Debug, Clone, Copy, PartialEq, Eq, Structural)]
pub enum RelayDispatchClaim {
    /// This many deliveries are uncertain; nothing is sent until the user resolves them.
    RecoveryBlocked(usize),
    /// A message is with ChatGPT already.
    InFlight,
    /// Nothing may be sent.
    Empty,
    /// The message at this position is sent now.
    Message(usize),
}

/// The dispatch rule: uncertain deliveries block the queue; one message at a
/// time is with ChatGPT; otherwise the oldest queued message of an unfinished
/// module goes.
pub open spec fn dispatch_outcome(q: Seq<RelayQueueEntry>) -> RelayDispatchClaim {
    if count_state(q, DeliveryState::Unknown) > 0 {
        RelayDispatchClaim::RecoveryBlocked(count_state(q, DeliveryState::Unknown) as usize)
    } else if count_state(q, DeliveryState::Sent) > 0 {
        RelayDispatchClaim::InFlight
    } else {
        match first_dispatchable_from(q, 0) {
            Some(i) => RelayDispatchClaim::Message(i as usize),
            None => RelayDispatchClaim::Empty,
        }
    }
}

pub open spec fn with_state(e: RelayQueueEntry, s: DeliveryState) -> RelayQueueEntry {
    RelayQueueEntry { delivery_state: s, ..e }
}

/// The queue after a dispatch attempt: the chosen message, if any, is sent.
pub open spec fn queue_after_dispatch(q: Seq<RelayQueueEntry>) -> Seq<RelayQueueEntry> {
    match dispatch_outcome(q) {
        RelayDispatchClaim::Message(i) => q.update(i as int, with_state(q[i as int], DeliveryState::Sent)),
        _ => q,
    }
}

proof fn lemma_count_take_step(q: Seq<RelayQueueEntry>, i: int, s: DeliveryState)
    requires
        0 <= i < q.len(),
    ensures
        count_state(q.take(i + 1), s) == count_state(q.take(i), s) + if q[i].delivery_state == s {
            1nat
        } else {
            0nat
        },
{
    assert(q.take(i + 1).drop_last() =~= q.take(i));
}

/// Changing one message's state changes the count of a state by at most the
/// one message.
pub proof fn lemma_count_update(q: Seq<RelayQueueEntry>, i: int, e: RelayQueueEntry, s: DeliveryState)
    requires
        0 <= i < q.len(),
    ensures
        count_state(q.update(i, e), s) + (if q[i].delivery_state == s {
            1nat
        } else {
            0nat
        }) == count_state(q, s) + (if e.delivery_state == s {
            1nat
        } else {
            0nat
        }),
    decreases q.len(),
{
    if i == q.len() - 1 {
        assert(q.update(i, e).drop_last() =~= q.drop_last());
    } else {
        lemma_count_update(q.drop_last(), i, e, s);
        assert(q.update(i, e).drop_last() =~= q.drop_last().update(i, e));
    }
}

proof fn lemma_first_dispatchable(q: Seq<RelayQueueEntry>, i: int)
    requires
        0 <= i <= q.len(),
        forall|j: int| 0 <= j < i ==> !dispatchable(#[trigger] q[j]),
    ensures
        match first_dispatchable_from(q, i) {
            Some(k) => i <= k < q.len() && dispatchable(q[k]) && forall|j: int|
                0 <= j < k ==> !dispatchable(#[trigger] q[j]),
            None => forall|j: int| 0 <= j < q.len() ==> !dispatchable(#[trigger] q[j]),
        },
    decreases q.len() - i,
{
    if i < q.len() && !dispatchable(q[i]) {
        lemma_first_dispatchable(q, i + 1);
    }
}

/// Counts the uncertain and the in-flight messages of the queue.
fn count_blockers(queue: &Vec<RelayQueueEntry>) -> (r: (usize, usize))
    ensures
        r.0 == count_state(queue@, DeliveryState::Unknown),
        r.1 == count_state(queue@, DeliveryState::Sent),
{
    let mut unknown: usize = 0;
    let mut sent: usize = 0;
    let mut i: usize = 0;
    while i < queue.len()
        invariant
            i <= queue.len(),
            unknown == count_state(queue@.take(i as int), DeliveryState::Unknown),
            sent == count_state(queue@.take(i as int), DeliveryState::Sent),
            unknown <= i && sent <= i,
        decreases queue.len() - i,
    {
        proof {
            lemma_count_take_step(queue@, i as int, DeliveryState::Unknown);
            lemma_count_take_step(queue@, i as int, DeliveryState::Sent);
        }
        match queue[i].delivery_state {
            DeliveryState::Unknown => {
                unknown = unknown + 1;
            },
            DeliveryState::Sent => {
                sent = sent + 1;
            },
            _ => {},
        }
        i = i + 1;
    }
    assert(queue@.take(queue.len() as int) =~= queue@);
    (unknown, sent)
}

/// One dispatch attempt on the global queue (oldest first): finds what
/// `dispatch_outcome` says and, when a message is chosen, marks it SENT.
pub fn claim_next_relay_message(queue: &mut Vec<RelayQueueEntry>) -> (r: RelayDispatchClaim)
    ensures
        r == dispatch_outcome(old(queue)@),
        final(queue)@ == queue_after_dispatch(old(queue)@),
{
    let (unknown, sent) = count_blockers(queue);
    if unknown > 0 {
        return RelayDispatchClaim::RecoveryBlocked(unknown);
    }
    if sent > 0 {
        return RelayDispatchClaim::InFlight;
    }
    let mut i: usize = 0;
    while i < queue.len()
        invariant
            i <= queue.len(),
            queue@ == old(queue)@,
            count_state(queue@, DeliveryState::Unknown) == 0,
            count_state(queue@, DeliveryState::Sent) == 0,
            forall|j: int| 0 <= j < i ==> !dispatchable(#[trigger] queue@[j]),
            first_dispatchable_from(queue@, 0) == first_dispatchable_from(queue@, i as int),
        decreases queue.len() - i,
    {
        if queue[i].delivery_state == DeliveryState::Queued && !queue[i].module_finished {
            let entry = RelayQueueEntry {
                message_id: queue[i].message_id.clone(),
                module_id: queue[i].module_id.clone(),
                delivery_state: DeliveryState::Sent,
                module_finished: queue[i].module_finished,
            };
            queue.set(i, entry);
            proof {
                lemma_first_dispatchable(old(queue)@, i as int);
            }
            return RelayDispatchClaim::Message(i);
        }
        i = i + 1;
    }
    RelayDispatchClaim::Empty
}

pub open spec fn delivery_result(r: Result<DeliveryState, String>) -> Result<DeliveryState, Seq<char>> {
    match r {
        Ok(s) => Ok(s),
        Err(e) => Err(e@),
    }
}

/// A message with ChatGPT whose fate became unclear (the adapter or the
/// connection failed): it becomes UNKNOWN and is not sent again by itself.
pub open spec fn uncertain_step(s: DeliveryState) -> Result<DeliveryState, Seq<char>> {
    if s == DeliveryState::Sent {
        Ok(DeliveryState::Unknown)
    } else {
        Err("没有待确认的 ChatGPT 消息可标记为不确定。"@)
    }
}

pub fn mark_delivery_uncertain(s: DeliveryState) -> (r: Result<DeliveryState, String>)
    ensures
        delivery_result(r) == uncertain_step(s),
{
    if s == DeliveryState::Sent {
        Ok(DeliveryState::Unknown)
    } else {
        Err(String::from_str("没有待确认的 ChatGPT 消息可标记为不确定。"))
    }
}

/// The user's explicit resend of an uncertain message: it joins the queue again.
pub open spec fn resend_step(s: DeliveryState) -> Result<DeliveryState, Seq<char>> {
    if s == DeliveryState::Unknown {
        Ok(DeliveryState::Queued)
    } else {
        Err("该消息不是可明确重发的不确定传话消息。"@)
    }
}

pub fn resend_uncertain_delivery(s: DeliveryState) -> (r: Result<DeliveryState, String>)
    ensures
        delivery_result(r) == resend_step(s),
{
    if s == DeliveryState::Unknown {
        Ok(DeliveryState::Queued)
    } else {
        Err(String::from_str("该消息不是可明确重发的不确定传话消息。"))
    }
}

/// The user's decision not to resend an uncertain message: it fails, and stops blocking.
pub open spec fn abandon_step(s: DeliveryState) -> Result<DeliveryState, Seq<char>> {
    if s == DeliveryState::Unknown {
        Ok(DeliveryState::Failed)
    } else {
        Err("该消息不是可解除阻塞的不确定传话消息。"@)
    }
}

pub fn abandon_uncertain_delivery(s: DeliveryState) -> (r: Result<DeliveryState, String>)
    ensures
        delivery_result(r) == abandon_step(s),
{
    if s == DeliveryState::Unknown {
        Ok(DeliveryState::Failed)
    } else {
        Err(String::from_str("该消息不是可解除阻塞的不确定传话消息。"))
    }
}

/// ChatGPT's reply confirms the message it answers, which must be with ChatGPT.
pub open spec fn reply_step(s: DeliveryState) -> Result<DeliveryState, Seq<char>> {
    if s == DeliveryState::Sent {
        Ok(DeliveryState::Delivered)
    } else {
        Err("收到没有对应待发送消息的 ChatGPT 回复。"@)
    }
}

pub fn confirm_reply_delivery(s: DeliveryState) -> (r: Result<DeliveryState, String>)
    ensures
        delivery_result(r) == reply_step(s),
{
    if s == DeliveryState::Sent {
        Ok(DeliveryState::Delivered)
    } else {
        Err(String::from_str("收到没有对应待发送消息的 ChatGPT 回复。"))
    }
}

/// Accepting or terminating a module cancels its queued messages; others stay.
pub open spec fn cancel_step(s: DeliveryState) -> DeliveryState {
    if s == DeliveryState::Queued {
        DeliveryState::Failed
    } else {
        s
    }
}

pub fn cancel_queued_delivery(s: DeliveryState) -> (r: DeliveryState)
    ensures
        r == cancel_step(s),
{
    if s == DeliveryState::Queued {
        DeliveryState::Failed
    } else {
        s
    }
}

/// After a restart nobody knows whether a message with ChatGPT arrived: it
/// becomes UNKNOWN; nothing is queued again.
pub open spec fn restart_step(s: DeliveryState) -> DeliveryState {
    if s == DeliveryState::Sent {
        DeliveryState::Unknown
    } else {
        s
    }
}

/// Marks every message with ChatGPT as UNKNOWN after a restart; returns how many.
pub fn mark_in_flight_uncertain_after_restart(queue: &mut Vec<RelayQueueEntry>) -> (n: usize)
    ensures
        n == count_state(old(queue)@, DeliveryState::Sent),
        final(queue)@.len() == old(queue)@.len(),
        forall|i: int|
            0 <= i < old(queue)@.len() ==> #[trigger] final(queue)@[i] == with_state(
                old(queue)@[i],
                restart_step(old(queue)@[i].delivery_state),
            ),
{
    let mut n: usize = 0;
    let mut i: usize = 0;
    while i < queue.len()
        invariant
            i <= queue.len(),
            queue@.len() == old(queue)@.len(),
            n == count_state(old(queue)@.take(i as int), DeliveryState::Sent),
            n <= i,
            forall|k: int|
                0 <= k < i ==> #[trigger] queue@[k] == with_state(
                    old(queue)@[k],
                    restart_step(old(queue)@[k].delivery_state),
                ),
            forall|k: int| i <= k < queue@.len() ==> #[trigger] queue@[k] == old(queue)@[k],
        decreases queue.len() - i,
    {
        proof {
            lemma_count_take_step(old(queue)@, i as int, DeliveryState::Sent);
        }
        if queue[i].delivery_state == DeliveryState::Sent {
            let entry = RelayQueueEntry {
                message_id: queue[i].message_id.clone(),
                module_id: queue[i].module_id.clone(),
                delivery_state: DeliveryState::Unknown,
                module_finished: queue[i].module_finished,
            };
            queue.set(i, entry);
            n = n + 1;
        }
        i = i + 1;
    }
    assert(old(queue)@.take(old(queue)@.len() as int) =~= old(queue)@);
    n
}

/// The message with ChatGPT that a reply or an adapter failure concerns: the
/// one named by `request_id`, or else the oldest one with ChatGPT.
pub open spec fn in_flight_match(q: Seq<RelayQueueEntry>, request_id: Option<Seq<char>>, i: int) -> bool {
    &&& 0 <= i < q.len()
    &&& q[i].delivery_state == DeliveryState::Sent
    &&& match request_id {
        Some(id) => q[i].message_id@ == id,
        None => forall|j: int|
            0 <= j < i ==> (#[trigger] q[j]).delivery_state != DeliveryState::Sent,
    }
}

pub fn find_in_flight_message(queue: &Vec<RelayQueueEntry>, request_id: Option<&str>) -> (r: Option<usize>)
    ensures
        match r {
            Some(i) => in_flight_match(queue@, crate::middleware::str_option_view(request_id), i as int),
            None => forall|i: int| !in_flight_match(queue@, crate::middleware::str_option_view(request_id), i),
        },
{
    let mut i: usize = 0;
    while i < queue.len()
        invariant
            i <= queue.len(),
            forall|k: int|
                0 <= k < i ==> !in_flight_match(queue@, crate::middleware::str_option_view(request_id), k),
            request_id is None ==> forall|k: int|
                0 <= k < i ==> (#[trigger] queue@[k]).delivery_state != DeliveryState::Sent,
        decreases queue.len() - i,
    {
        if queue[i].delivery_state == DeliveryState::Sent {
            match request_id {
                Some(id) => {
                    if str_equals(queue[i].message_id.as_str(), id) {
                        return Some(i);
                    }
                },
                None => {
                    return Some(i);
                },
            }
        }
        i = i + 1;
    }
    None
}

/// With at most one message with ChatGPT before a dispatch, there is at most
/// one after it.
pub proof fn lemma_dispatch_keeps_one_in_flight(q: Seq<RelayQueueEntry>)
    requires
        count_state(q, DeliveryState::Sent) <= 1,
    ensures
        count_state(queue_after_dispatch(q), DeliveryState::Sent) <= 1,
{
    if let RelayDispatchClaim::Message(i) = dispatch_outcome(q) {
        lemma_first_dispatchable(q, 0);
        lemma_count_update(q, i as int, with_state(q[i as int], DeliveryState::Sent), DeliveryState::Sent);
    }
}

/// While any delivery is uncertain, a dispatch sends nothing and reports how
/// many deliveries wait for the user.
pub proof fn lemma_uncertain_delivery_blocks_dispatch(q: Seq<RelayQueueEntry>)
    requires
        count_state(q, DeliveryState::Unknown) > 0,
    ensures
        dispatch_outcome(q) == RelayDispatchClaim::RecoveryBlocked(
            count_state(q, DeliveryState::Unknown) as usize,
        ),
        queue_after_dispatch(q) == q,
{
}

/// A dispatch sends the oldest queued message of an unfinished module, never
/// a message of a finished module, and nothing while a message is with ChatGPT.
pub proof fn lemma_dispatch_is_fifo(q: Seq<RelayQueueEntry>)
    requires
        q.len() <= usize::MAX,
    ensures
        dispatch_outcome(q) matches RelayDispatchClaim::Message(i) ==> {
            &&& count_state(q, DeliveryState::Sent) == 0
            &&& count_state(q, DeliveryState::Unknown) == 0
            &&& (i as int) < q.len()
            &&& q[i as int].delivery_state == DeliveryState::Queued
            &&& !q[i as int].module_finished
            &&& forall|j: int| 0 <= j < i ==> !dispatchable(#[trigger] q[j])
        },
{
    lemma_first_dispatchable(q, 0);
}

/// An uncertain delivery leaves UNKNOWN only by the user's explicit resend or
/// abandonment: a dispatch, a reply, another failure, a cancellation or a
/// restart leaves it as it is.
pub proof fn lemma_only_the_user_resolves_uncertain_delivery(s: DeliveryState)
    requires
        s == DeliveryState::Unknown,
    ensures
        forall|e: RelayQueueEntry| e.delivery_state == s ==> !dispatchable(e),
        uncertain_step(s) is Err,
        reply_step(s) is Err,
        cancel_step(s) == s,
        restart_step(s) == s,
        resend_step(s) == Ok::<DeliveryState, Seq<char>>(DeliveryState::Queued),
        abandon_step(s) == Ok::<DeliveryState, Seq<char>>(DeliveryState::Failed),
{
}

/// A restart queues nothing again: no message becomes QUEUED.
pub proof fn lemma_restart_requeues_nothing(s: DeliveryState)
    ensures
        restart_step(s) == DeliveryState::Queued ==> s == DeliveryState::Queued,
        s == DeliveryState::Sent ==> restart_step(s) == DeliveryState::Unknown,
{
}

/// What the user is told while uncertain deliveries block the queue.
pub open spec fn recovery_blocked_text(count: usize) -> Seq<char> {
    "存在待人工处理的不确定送达消息（"@ + decimal(count as nat)
        + " 条）。请明确重发，或选择不重发并继续；系统不会自动重发。"@
}

pub fn recovery_blocked_reason(count: usize) -> (s: String)
    ensures
        s@ == recovery_blocked_text(count),
{
    String::from_str("存在待人工处理的不确定送达消息（").concat(decimal_string(count as u64).as_str()).concat(
        " 条）。请明确重发，或选择不重发并继续；系统不会自动重发。",
    )
}

} // verus!
