//! The decisions of a device connection: which outstanding requests a response or a timeout
//! settles, when to reconnect, how long a response takes on the wire, when to resend, and how an
//! IAM v2 read answer becomes register bytes.
use crate::modbus::{be_bytes, exception_of, Response, SERVER_BUSY};
use crate::text::{chars_of, parse_u16, parsed_u16};
use vstd::prelude::*;
use vstd::relations::{sorted_by, total_ordering};
use vstd::seq_lib::lemma_sorted_unique;
use std::collections::BTreeMap;

verus! {

/// The transaction ids of outstanding requests.
pub open spec fn ids_of(requests: Seq<(u16, u64)>) -> Seq<u16> {
    requests.map_values(|p: (u16, u64)| p.0)
}

/// The position of the first request with transaction id `id`, or -1 when there is none.
pub open spec fn first_position(requests: Seq<(u16, u64)>, id: u16) -> int
    decreases requests.len(),
{
    if requests.len() == 0 {
        -1
    } else if requests[0].0 == id {
        0
    } else {
        let p = first_position(requests.drop_first(), id);
        if p < 0 {
            -1
        } else {
            p + 1
        }
    }
}

proof fn lemma_first_position(requests: Seq<(u16, u64)>, id: u16, i: int)
    requires
        0 <= i <= requests.len(),
        forall|j: int| 0 <= j < i ==> requests[j].0 != id,
    ensures
        i < requests.len() && requests[i].0 == id ==> first_position(requests, id) == i,
        i == requests.len() ==> first_position(requests, id) == -1,
    decreases i,
{
    if i > 0 {
        lemma_first_position(requests.drop_first(), id, i - 1);
    }
}

/// What a run of timeouts does to the reconnect countdown: each timeout takes one from it, and
/// the timeout that finds it at one or less asks for a reconnect and leaves it as it was.
pub open spec fn timeout_step(countdown: nat) -> (nat, bool) {
    if countdown <= 1 {
        (countdown, true)
    } else {
        ((countdown - 1) as nat, false)
    }
}

/// Whether `k` consecutive timeouts, starting from `countdown`, ask for a reconnect.
pub open spec fn reconnects_within(countdown: nat, k: nat) -> bool
    decreases k,
{
    if k == 0 {
        false
    } else {
        let (next, reconnect) = timeout_step(countdown);
        reconnect || reconnects_within(next, (k - 1) as nat)
    }
}

/// The outstanding requests of a Modbus TCP connection, in the order they were sent, each with
/// its response deadline, and how many more timeouts it takes before the connection is re-made.
pub struct InflightRequests {
    requests: Vec<(u16, u64)>,
    reconnect_countdown: usize,
    reconnect_after_timeouts: usize,
}

/// What a timeout of the oldest outstanding request settles.
pub struct TimeoutOutcome {
    /// The request that timed out.
    pub transaction_id: u16,
    /// Whether the connection must be re-made.
    pub reconnect: bool,
    /// The deadline of the request that is now the oldest, when the connection stays.
    pub next_deadline: Option<u64>,
}

impl InflightRequests {
    /// The outstanding requests, oldest first: transaction id and response deadline.
    pub closed spec fn requests(&self) -> Seq<(u16, u64)> {
        self.requests@
    }

    /// How many more timeouts are borne before a reconnect.
    pub closed spec fn countdown(&self) -> nat {
        self.reconnect_countdown as nat
    }

    /// The number of timeouts after which the connection is re-made.
    pub closed spec fn limit(&self) -> nat {
        self.reconnect_after_timeouts as nat
    }

    /// No request outstanding, and the full number of timeouts to bear.
    pub fn new(reconnect_after_timeouts: usize) -> (r: Self)
        ensures
            r.requests() == Seq::<(u16, u64)>::empty(),
            r.countdown() == reconnect_after_timeouts,
            r.limit() == reconnect_after_timeouts,
    {
        InflightRequests {
            requests: Vec::new(),
            reconnect_countdown: reconnect_after_timeouts,
            reconnect_after_timeouts,
        }
    }

    /// Whether no request is outstanding.
    pub fn is_empty(&self) -> (r: bool)
        ensures
            r == (self.requests().len() == 0),
    {
        self.requests.len() == 0
    }

    /// A fresh connection bears the full number of timeouts again.
    pub fn connected(&mut self)
        ensures
            final(self).requests() == old(self).requests(),
            final(self).countdown() == old(self).limit(),
            final(self).limit() == old(self).limit(),
    {
        self.reconnect_countdown = self.reconnect_after_timeouts;
    }

    /// Records a request that went out; returns the deadline of the oldest outstanding request,
    /// which the response timer waits for.
    pub fn sent(&mut self, transaction_id: u16, deadline: u64) -> (r: u64)
        ensures
            final(self).requests() == old(self).requests().push((transaction_id, deadline)),
            final(self).countdown() == old(self).countdown(),
            final(self).limit() == old(self).limit(),
            r == final(self).requests()[0].1,
    {
        self.requests.push((transaction_id, deadline));
        self.requests[0].1
    }

    /// Settles a response. `None` when no outstanding request has its transaction id: the
    /// response is unexpected and nothing changes. A busy answer settles just its request. Any
    /// other answer also shows that every request sent before it was dropped: their ids come
    /// back, oldest first, to be reported as timed out, and the countdown is full again.
    pub fn handle_response(&mut self, transaction_id: u16, server_busy: bool) -> (r: Option<
        Vec<u16>,
    >)
        ensures
            final(self).limit() == old(self).limit(),
            ({
                let p = first_position(old(self).requests(), transaction_id);
                match r {
                    None => p == -1 && final(self).requests() == old(self).requests()
                        && final(self).countdown() == old(self).countdown(),
                    Some(timed_out) => 0 <= p < old(self).requests().len() && if server_busy {
                        &&& timed_out@.len() == 0
                        &&& final(self).requests() == old(self).requests().remove(p)
                        &&& final(self).countdown() == old(self).countdown()
                    } else {
                        &&& timed_out@ == ids_of(old(self).requests().take(p))
                        &&& final(self).requests() == old(self).requests().skip(p + 1)
                        &&& final(self).countdown() == old(self).limit()
                    },
                }
            }),
    {
        let ghost before = self.requests@;
        let n = self.requests.len();
        let mut i: usize = 0;
        while i < n
            invariant
                n == before.len(),
                self.requests@ == before,
                i <= n,
                forall|j: int| 0 <= j < i ==> before[j].0 != transaction_id,
            ensures
                i <= n,
                self.requests@ == before,
                forall|j: int| 0 <= j < i ==> before[j].0 != transaction_id,
                i < n ==> before[i as int].0 == transaction_id,
            decreases n - i,
        {
            if self.requests[i].0 == transaction_id {
                break;
            }
            i = i + 1;
        }
        proof {
            lemma_first_position(before, transaction_id, i as int);
        }
        if i == n {
            return None;
        }
        if server_busy {
            self.requests.remove(i);
            return Some(Vec::new());
        }
        let mut timed_out: Vec<u16> = Vec::new();
        let mut rest: Vec<(u16, u64)> = Vec::new();
        let mut j: usize = 0;
        while j < n
            invariant
                n == before.len(),
                self.requests@ == before,
                i < n,
                j <= n,
                timed_out@ == ids_of(before.take(if j < i { j as int } else { i as int })),
                rest@ == (if j <= i {
                    Seq::<(u16, u64)>::empty()
                } else {
                    before.subrange(i + 1, j as int)
                }),
            decreases n - j,
        {
            let entry = self.requests[j];
            if j < i {
                timed_out.push(entry.0);
                assert(ids_of(before.take(j + 1)) =~= ids_of(before.take(j as int)).push(
                    entry.0,
                ));
            } else if j > i {
                rest.push(entry);
                assert(before.subrange(i + 1, j + 1) =~= before.subrange(i + 1, j as int).push(
                    entry,
                ));
            }
            j = j + 1;
        }
        assert(rest@ =~= before.skip(i + 1));
        self.requests = rest;
        self.reconnect_countdown = self.reconnect_after_timeouts;
        Some(timed_out)
    }

    /// The oldest outstanding request timed out: it is settled, and the countdown takes the
    /// step of `timeout_step`.
    pub fn handle_timeout(&mut self) -> (r: TimeoutOutcome)
        requires
            old(self).requests().len() > 0,
        ensures
            r.transaction_id == old(self).requests()[0].0,
            final(self).requests() == old(self).requests().drop_first(),
            (final(self).countdown(), r.reconnect) == timeout_step(old(self).countdown()),
            final(self).limit() == old(self).limit(),
            r.next_deadline == (if !r.reconnect && final(self).requests().len() > 0 {
                Some(final(self).requests()[0].1)
            } else {
                None
            }),
    {
        let (transaction_id, _) = self.requests.remove(0);
        if self.reconnect_countdown <= 1 {
            return TimeoutOutcome { transaction_id, reconnect: true, next_deadline: None };
        }
        self.reconnect_countdown = self.reconnect_countdown - 1;
        let next_deadline = if self.requests.len() > 0 {
            Some(self.requests[0].1)
        } else {
            None
        };
        TimeoutOutcome { transaction_id, reconnect: false, next_deadline }
    }

    /// Settles every outstanding request before a reconnect; their ids come back, oldest first,
    /// to be reported as timed out.
    pub fn take_all(&mut self) -> (r: Vec<u16>)
        ensures
            r@ == ids_of(old(self).requests()),
            final(self).requests() == Seq::<(u16, u64)>::empty(),
            final(self).countdown() == old(self).countdown(),
            final(self).limit() == old(self).limit(),
    {
        let mut r: Vec<u16> = Vec::new();
        let n = self.requests.len();
        let mut i: usize = 0;
        while i < n
            invariant
                n == self.requests@.len(),
                i <= n,
                r@ == ids_of(self.requests@.take(i as int)),
            decreases n - i,
        {
            r.push(self.requests[i].0);
            assert(ids_of(self.requests@.take(i + 1)) =~= ids_of(self.requests@.take(i as int)).push(
                self.requests@[i as int].0,
            ));
            i = i + 1;
        }
        assert(self.requests@.take(n as int) =~= self.requests@);
        self.requests = Vec::new();
        r
    }
}

/// Timeouts in a row ask for a reconnect exactly when there are at least as many of them as the
/// countdown holds (and at the first one when it holds none).
pub proof fn lemma_reconnect_after_timeouts(countdown: nat, k: nat)
    ensures
        reconnects_within(countdown, k) <==> (k >= countdown && k >= 1),
    decreases k,
{
    if k > 0 {
        let (next, reconnect) = timeout_step(countdown);
        lemma_reconnect_after_timeouts(next, (k - 1) as nat);
    }
}

/// How long, in nanoseconds, a response of `response_length` bytes takes at `baudrate` (ten
/// bits on the wire per byte).
pub fn response_nanos(response_length: u16, baudrate: u32) -> (r: u64)
    requires
        baudrate >= 10,
    ensures
        r == response_time(response_length, baudrate),
{
    let bytes_per_second = (baudrate / 10) as u64;
    let total = response_length as u64 * 1_000_000_000u64;
    total / bytes_per_second
}

/// How long, in nanoseconds, a response of `response_length` bytes takes at `baudrate`.
pub open spec fn response_time(response_length: u16, baudrate: u32) -> int {
    response_length as int * 1_000_000_000 / (baudrate / 10) as int
}

/// The pacing settings of a TCP connection: the device's baudrate, and in nanoseconds how long
/// a response may take past its transfer time, the pause between the end of a response and the
/// next request, and how long handing a request to the connection may take.
#[derive(Clone, Copy, PartialEq, Eq, Debug, Structural)]
pub struct SendTiming {
    pub baudrate: u32,
    pub read_timeout: u64,
    pub send_delay: u64,
    pub send_timeout: u64,
}

/// The events of a TCP connection's sending side.
#[derive(Clone, Copy, PartialEq, Eq, Debug, Structural)]
pub enum SendEvent {
    /// Flushing the request handed to the connection ended, successfully or not; the request's
    /// response is `response_length` bytes long.
    Flushed { ok: bool, response_length: u16 },
    /// The send timer ran out.
    SendTimer,
    /// A request came in to be sent.
    Job,
    /// No more requests will come.
    JobsClosed,
    /// A response to an in-flight request came in and was handled.
    Answered,
}

/// What the sending side does on an event.
#[derive(Clone, Copy, PartialEq, Eq, Debug, Structural)]
pub enum SendAction {
    /// Drop the connection and connect again, reporting the outstanding requests as timed out.
    Reconnect,
    /// The request is in flight: its response is due by `deadline`, and the next request may be
    /// sent from `next_slot` on.
    InFlight { deadline: u64, next_slot: u64 },
    /// Hand the request to the connection; it must be flushed by `flush_deadline`.
    Send { flush_deadline: u64 },
    /// Close the connection, and stop when `stop` (no request is in flight).
    Close { stop: bool },
    /// Open the send slot now.
    OpenSlot,
    /// Keep waiting.
    Wait,
}

/// Which events the sending loop waits for, with a request handed to the connection and not yet
/// flushed (`pending`) or not, and the send slot open or not: the flush only while a request is
/// pending; the send timer while the slot is still closed, or as the flush deadline while a
/// request is pending; new requests only once the slot is open and nothing is pending.
pub fn send_waits(pending: bool, slot_open: bool) -> (r: (bool, bool, bool))
    ensures
        r == (pending, !slot_open || pending, slot_open && !pending),
{
    (pending, !slot_open || pending, slot_open && !pending)
}

/// The sending side's next state (whether a request is pending) and action, for an event at
/// `now` (nanoseconds on the connection's clock).
pub open spec fn send_next(
    pending: bool,
    event: SendEvent,
    now: u64,
    timing: SendTiming,
    inflight_empty: bool,
) -> (bool, SendAction) {
    match event {
        SendEvent::Flushed { ok, response_length } => if ok {
            let ready = now + response_time(response_length, timing.baudrate);
            (
                false,
                SendAction::InFlight {
                    deadline: (ready + timing.read_timeout) as u64,
                    next_slot: (ready + timing.send_delay) as u64,
                },
            )
        } else {
            (pending, SendAction::Reconnect)
        },
        SendEvent::SendTimer => if pending {
            (pending, SendAction::Reconnect)
        } else {
            (pending, SendAction::Wait)
        },
        SendEvent::Job => (true, SendAction::Send { flush_deadline: (now + timing.send_timeout) as u64 }),
        SendEvent::JobsClosed => (pending, SendAction::Close { stop: inflight_empty }),
        SendEvent::Answered => if inflight_empty {
            (pending, SendAction::OpenSlot)
        } else {
            (pending, SendAction::Wait)
        },
    }
}

/// One step of a TCP connection's sending side: a flushed request goes in flight and opens the
/// next send slot after its response and the pause; a failed flush, or a pending request whose
/// flush deadline passes, drops the connection; a new request is handed over with a flush
/// deadline; when no more requests come the connection closes, and the worker stops once
/// nothing is in flight; an answer that leaves nothing in flight opens the send slot at once.
pub fn send_step(
    pending: bool,
    event: SendEvent,
    now: u64,
    timing: SendTiming,
    inflight_empty: bool,
) -> (r: (bool, SendAction))
    requires
        event matches SendEvent::Flushed { ok: true, .. } ==> timing.baudrate >= 10,
        event matches SendEvent::Flushed { ok: true, response_length } ==> now + response_time(
            response_length,
            timing.baudrate,
        ) + timing.read_timeout <= u64::MAX && now + response_time(
            response_length,
            timing.baudrate,
        ) + timing.send_delay <= u64::MAX,
        event is Job ==> now + timing.send_timeout <= u64::MAX,
    ensures
        r == send_next(pending, event, now, timing, inflight_empty),
{
    match event {
        SendEvent::Flushed { ok, response_length } => {
            if ok {
                let ready = now + response_nanos(response_length, timing.baudrate);
                (
                    false,
                    SendAction::InFlight {
                        deadline: ready + timing.read_timeout,
                        next_slot: ready + timing.send_delay,
                    },
                )
            } else {
                (pending, SendAction::Reconnect)
            }
        },
        SendEvent::SendTimer => {
            if pending {
                (pending, SendAction::Reconnect)
            } else {
                (pending, SendAction::Wait)
            }
        },
        SendEvent::Job => (true, SendAction::Send { flush_deadline: now + timing.send_timeout }),
        SendEvent::JobsClosed => (pending, SendAction::Close { stop: inflight_empty }),
        SendEvent::Answered => {
            if inflight_empty {
                (pending, SendAction::OpenSlot)
            } else {
                (pending, SendAction::Wait)
            }
        },
    }
}

/// The answers to requests, by transaction id: a response, or `None` for a request that timed
/// out, kept until the one waiting for it takes it.
pub struct ResponseTable {
    responses: BTreeMap<u16, Option<Response>>,
}

impl ResponseTable {
    /// The answers not yet taken.
    pub closed spec fn answers(&self) -> Map<u16, Option<Response>> {
        self.responses@
    }

    /// No answers.
    pub fn new() -> (r: Self)
        ensures
            r.answers() == Map::<u16, Option<Response>>::empty(),
    {
        ResponseTable { responses: BTreeMap::new() }
    }

    /// Records that the request `transaction_id` timed out.
    pub fn mark_timeout(&mut self, transaction_id: u16)
        ensures
            final(self).answers() == old(self).answers().insert(transaction_id, None),
    {
        broadcast use vstd::laws_cmp::group_laws_cmp;

        self.responses.insert(transaction_id, None);
    }

    /// Records a response under its transaction id.
    pub fn add_response(&mut self, response: Response)
        ensures
            final(self).answers() == old(self).answers().insert(
                response.transaction_id,
                Some(response),
            ),
    {
        broadcast use vstd::laws_cmp::group_laws_cmp;

        let transaction_id = response.transaction_id;
        self.responses.insert(transaction_id, Some(response));
    }

    /// Takes the answer to `transaction_id`, if it has come: the response, or `None` when the
    /// request timed out.
    pub fn take(&mut self, transaction_id: u16) -> (r: Option<Option<Response>>)
        ensures
            r == (if old(self).answers().contains_key(transaction_id) {
                Some(old(self).answers()[transaction_id])
            } else {
                None
            }),
            final(self).answers() == old(self).answers().remove(transaction_id),
    {
        broadcast use vstd::laws_cmp::group_laws_cmp, vstd::std_specs::btree::group_btree_axioms;

        self.responses.remove(&transaction_id)
    }
}

/// Whoever waits for a request gets the last answer recorded for it, once: taking it leaves no
/// answer for it behind, and answers to other requests stay.
pub proof fn lemma_take_after_answer(
    answers: Map<u16, Option<Response>>,
    transaction_id: u16,
    answer: Option<Response>,
    other: u16,
)
    requires
        other != transaction_id,
    ensures
        answers.insert(transaction_id, answer).contains_key(transaction_id),
        answers.insert(transaction_id, answer)[transaction_id] == answer,
        !answers.insert(transaction_id, answer).remove(transaction_id).contains_key(transaction_id),
        answers.insert(transaction_id, answer).remove(transaction_id).contains_key(other)
            == answers.contains_key(other),
        answers.contains_key(other) ==> answers.insert(transaction_id, answer).remove(
            transaction_id,
        )[other] == answers[other],
{
}

/// How the device is reached.
#[derive(Clone, Copy, PartialEq, Eq, Debug, Structural)]
pub enum Transport {
    /// Modbus TCP.
    Tcp,
    /// The IAM v2 HTTP interface.
    Iam2,
}

/// The transport that the connection options ask for: TCP when given, else IAM v2. Serial
/// Modbus RTU is not available, and one of the options is always given.
pub fn choose_transport(tcp: bool, iam2: bool) -> (r: Transport)
    requires
        tcp || iam2,
    ensures
        r == (if tcp {
            Transport::Tcp
        } else {
            Transport::Iam2
        }),
{
    if tcp {
        Transport::Tcp
    } else {
        Transport::Iam2
    }
}

/// What to do after sending a request and waiting for its answer.
#[derive(Clone, Copy, PartialEq, Eq, Debug, Structural)]
pub enum RetryStep {
    /// The request timed out: send it again.
    Resend,
    /// The device is busy: give it time, then send again.
    WaitThenResend,
    /// The answer is final.
    Done,
}

/// Whether an answer settles a request that is retried on timeouts and on `Server Busy`.
pub fn retry_step(outcome: &Option<Response>) -> (r: RetryStep)
    ensures
        r == match outcome {
            None => RetryStep::Resend,
            Some(response) => if exception_of(response.kind@) == Some(SERVER_BUSY) {
                RetryStep::WaitThenResend
            } else {
                RetryStep::Done
            },
        },
{
    match outcome {
        None => RetryStep::Resend,
        Some(response) => if response.is_server_busy() {
            RetryStep::WaitThenResend
        } else {
            RetryStep::Done
        },
    }
}

/// Why an IAM v2 read answer does not give the registers asked for.
#[derive(Clone, Copy, PartialEq, Eq, Debug, Structural)]
pub enum Iam2Error {
    /// Fewer register values came back (asked for, got).
    ResponseIncomplete(u16, usize),
    /// A register came back that was not asked for where it stands (its address, and the range
    /// `start..end` asked for).
    ResponseWeirdKeys(u16, u16, u16),
}

/// The registers of an IAM v2 answer, in the answer's order: each key that is a decimal address,
/// with its value when that is an integer, taken as a 16-bit word.
pub open spec fn iam2_pairs(entries: Seq<(String, Option<i64>)>) -> Seq<(u16, u16)>
    decreases entries.len(),
{
    if entries.len() == 0 {
        Seq::empty()
    } else {
        let rest = iam2_pairs(entries.drop_last());
        let entry = entries.last();
        match (parsed_u16(entry.0@), entry.1) {
            (Some(address), Some(value)) => rest.push((address, (value as i16) as u16)),
            _ => rest,
        }
    }
}

/// Address, then value, in ascending order.
pub open spec fn pair_leq(a: (u16, u16), b: (u16, u16)) -> bool {
    a.0 < b.0 || (a.0 == b.0 && a.1 <= b.1)
}

/// The registers of an IAM v2 answer in ascending order of address, then value.
pub open spec fn iam2_sorted(entries: Seq<(String, Option<i64>)>) -> Seq<(u16, u16)> {
    iam2_pairs(entries).sort_by(|a: (u16, u16), b: (u16, u16)| pair_leq(a, b))
}

/// The first of the `count` leading registers of `s` that is not at `address` plus its
/// position, or `count` when all are.
pub open spec fn first_misplaced(s: Seq<(u16, u16)>, address: u16, count: u16, from: int) -> int
    decreases count - from,
{
    if from >= count {
        count as int
    } else if s[from].0 != address + from {
        from
    } else {
        first_misplaced(s, address, count, from + 1)
    }
}

/// The big-endian bytes of the values of the first `k` registers of `s`.
pub open spec fn value_bytes(s: Seq<(u16, u16)>, k: int) -> Seq<u8>
    decreases k,
{
    if k <= 0 {
        Seq::empty()
    } else {
        value_bytes(s, k - 1) + be_bytes(s[k - 1].1)
    }
}

proof fn lemma_pair_leq_total()
    ensures
        total_ordering(|a: (u16, u16), b: (u16, u16)| pair_leq(a, b)),
{
}

/// Sorts register pairs in ascending order of address, then value.
///
/// Trusted: calls `slice::sort_unstable`, which, as its documentation says, sorts the slice in
/// ascending order; tuples compare lexicographically. Sorting keeps the elements.
#[verifier::external_body]
fn sort_pairs(v: &mut Vec<(u16, u16)>)
    ensures
        final(v)@.to_multiset() == old(v)@.to_multiset(),
        sorted_by(final(v)@, |a: (u16, u16), b: (u16, u16)| pair_leq(a, b)),
{
    v.sort_unstable()
}

/// The register bytes of an IAM v2 answer to reading `count` registers from `address`. The
/// answer's entries are its keys with their values when those are integers. The registers, in
/// ascending order, must number at least `count`, and the first `count` must be at the
/// addresses asked for; their values then give two big-endian bytes each.
pub fn iam2_register_bytes(address: u16, count: u16, entries: &Vec<(String, Option<i64>)>) -> (r:
    Result<Vec<u8>, Iam2Error>)
    requires
        address + count <= u16::MAX,
    ensures
        ({
            let s = iam2_sorted(entries@);
            let m = first_misplaced(s, address, count, 0);
            if s.len() < count {
                r == Err::<Vec<u8>, Iam2Error>(Iam2Error::ResponseIncomplete(count, s.len() as usize))
            } else if m < count {
                r == Err::<Vec<u8>, Iam2Error>(
                    Iam2Error::ResponseWeirdKeys(s[m].0, address, (address + count) as u16),
                )
            } else {
                r matches Ok(bytes) && bytes@ == value_bytes(s, count as int)
            }
        }),
{
    let mut pairs: Vec<(u16, u16)> = Vec::new();
    let n = entries.len();
    let mut i: usize = 0;
    while i < n
        invariant
            n == entries@.len(),
            i <= n,
            pairs@ == iam2_pairs(entries@.take(i as int)),
        decreases n - i,
    {
        let entry = &entries[i];
        let key = chars_of(entry.0.as_str());
        assert(entries@.take(i + 1).drop_last() =~= entries@.take(i as int));
        match (parse_u16(&key), entry.1) {
            (Some(a), Some(value)) => {
                pairs.push((a, (value as i16) as u16));
            },
            _ => {},
        }
        i = i + 1;
    }
    assert(entries@.take(n as int) =~= entries@);
    let ghost unsorted = pairs@;
    sort_pairs(&mut pairs);
    proof {
        let leq = |a: (u16, u16), b: (u16, u16)| pair_leq(a, b);
        lemma_pair_leq_total();
        unsorted.lemma_sort_by_ensures(leq);
        lemma_sorted_unique(pairs@, unsorted.sort_by(leq), leq);
    }
    let len = pairs.len();
    if len < count as usize {
        return Err(Iam2Error::ResponseIncomplete(count, len));
    }
    let mut bytes: Vec<u8> = Vec::new();
    let mut k: u16 = 0;
    while k < count
        invariant
            pairs@ == iam2_sorted(entries@),
            pairs@.len() >= count,
            address + count <= u16::MAX,
            k <= count,
            first_misplaced(pairs@, address, count, 0) == first_misplaced(
                pairs@,
                address,
                count,
                k as int,
            ),
            bytes@ == value_bytes(pairs@, k as int),
        decreases count - k,
    {
        let (a, value) = pairs[k as usize];
        if a != address + k {
            return Err(Iam2Error::ResponseWeirdKeys(a, address, address + count));
        }
        bytes.push((value / 256) as u8);
        bytes.push((value % 256) as u8);
        assert(bytes@ =~= value_bytes(pairs@, k + 1));
        k = k + 1;
    }
    Ok(bytes)
}

} // verus!
