//! The read-only individual storage service: its configuration, its answer
//! to a request, and the client that asks it for individuals.

use vstd::prelude::*;
use vstd::utf8::*;
use crate::text::utf8_decode;

verus! {

/// The address that the storage service listens on and its clients dial.
pub const RO_STORAGE_URL: &'static str = "inproc://nng/example7";

/// The login and the password of the Tarantool storage.
pub const TARANTOOL_LOGIN: &'static str = "veda6";
pub const TARANTOOL_PASSWORD: &'static str = "123456";

/// The directory of the LMDB storage.
pub const LMDB_PATH: &'static str = "./data";

/// Where individuals are read from.
#[derive(Clone, Debug)]
pub enum StorageBackend {
    /// A Tarantool server at `addr`, with a login and a password.
    Tarantool { addr: String, login: String, password: String },
    /// An LMDB database in a directory, opened read-only.
    Lmdb { path: String, read_only: bool },
}

/// How the storage service is set up.
#[derive(Clone, Debug)]
pub struct StoragePlan {
    /// Where the service listens, and where the shared client dials.
    pub listen_url: String,
    pub backend: StorageBackend,
}

/// Sets up the storage service from the `tarantool_url` setting: Tarantool
/// when it is given and not empty, else LMDB read-only.
pub fn storage_plan(tarantool_url: Option<&str>) -> (p: StoragePlan)
    ensures
        p.listen_url@ == RO_STORAGE_URL@,
        match tarantool_url {
            Some(u) if u@.len() > 0 => (p.backend matches StorageBackend::Tarantool { addr, login, password }
                && addr@ == u@ && login@ == TARANTOOL_LOGIN@ && password@ == TARANTOOL_PASSWORD@),
            _ => (p.backend matches StorageBackend::Lmdb { path, read_only } && path@ == LMDB_PATH@ && read_only),
        },
{
    let addr = match tarantool_url {
        Some(u) => u.to_owned(),
        None => String::new(),
    };
    let backend = if !addr.as_str().is_empty() {
        StorageBackend::Tarantool {
            addr,
            login: TARANTOOL_LOGIN.to_owned(),
            password: TARANTOOL_PASSWORD.to_owned(),
        }
    } else {
        StorageBackend::Lmdb { path: LMDB_PATH.to_owned(), read_only: true }
    };
    StoragePlan { listen_url: RO_STORAGE_URL.to_owned(), backend }
}

/// What the service does with a request.
#[derive(Clone, Debug)]
pub enum RequestStep {
    /// Read the raw individual with this id, and answer with
    /// `reply_for_value` of it.
    Lookup(String),
    /// Answer at once with these bytes.
    Reply(Vec<u8>),
}

/// The id that a request names: its UTF-8 text, or `None` when it is not
/// UTF-8.
pub open spec fn request_id(request: Seq<u8>) -> Option<Seq<char>> {
    if valid_utf8(request) {
        Some(decode_utf8(request))
    } else {
        None
    }
}

/// A request is the UTF-8 text of an id; anything else is answered with an
/// empty message.
pub fn req_prepare(request: &[u8]) -> (s: RequestStep)
    ensures
        match request_id(request@) {
            Some(i) => s matches RequestStep::Lookup(id) && id@ == i,
            None => s matches RequestStep::Reply(r) && r@.len() == 0,
        },
{
    match utf8_decode(request) {
        Some(id) => RequestStep::Lookup(id),
        None => RequestStep::Reply(Vec::new()),
    }
}

/// The bytes of `[]`, the answer for an individual that is not stored.
pub open spec fn empty_list_bytes() -> Seq<u8> {
    seq![91u8, 93u8]
}

/// What the service answers for the raw individual that it read: the bytes
/// as they are, or `[]` when nothing is stored.
pub open spec fn served_reply(binobj: Seq<u8>) -> Seq<u8> {
    if binobj.len() == 0 {
        empty_list_bytes()
    } else {
        binobj
    }
}

/// The answer for the raw individual read.
pub fn reply_for_value(binobj: Vec<u8>) -> (r: Vec<u8>)
    ensures
        r@ == served_reply(binobj@),
{
    if binobj.len() == 0 {
        let mut r = Vec::new();
        r.push(91u8);
        r.push(93u8);
        assert(r@ =~= empty_list_bytes());
        r
    } else {
        binobj
    }
}

/// The client's side of the connection to the storage service.
pub struct Client {
    addr: String,
    is_ready: bool,
}

impl Client {
    pub closed spec fn addr(&self) -> Seq<char> {
        self.addr@
    }

    /// The client has dialled the service successfully.
    pub closed spec fn ready(&self) -> bool {
        self.is_ready
    }

    /// A client that has no address yet and is not connected.
    pub fn new() -> (c: Client)
        ensures
            c.addr() == Seq::<char>::empty(),
            !c.ready(),
    {
        Client { addr: String::new(), is_ready: false }
    }

    /// Sets the address to dial.
    pub fn set_addr(&mut self, addr: &str)
        ensures
            final(self).addr() == addr@,
            final(self).ready() == old(self).ready(),
    {
        self.addr = addr.to_owned();
    }

    /// The address to dial.
    pub fn address(&self) -> (a: String)
        ensures
            a@ == self.addr(),
    {
        self.addr.clone()
    }

    /// Whether the client is connected.
    pub fn is_ready(&self) -> (r: bool)
        ensures
            r == self.ready(),
    {
        self.is_ready
    }

    /// Records the outcome of dialling the service.
    pub fn connect(&mut self, dial_ok: bool)
        ensures
            final(self).ready() == dial_ok,
            final(self).addr() == old(self).addr(),
    {
        self.is_ready = dial_ok;
    }
}

/// What the caller does next to fetch an individual.
#[derive(Clone, Debug)]
pub enum FetchAction {
    /// Dial the service at this address; answer with `Dialed`.
    Dial(String),
    /// Send these bytes; answer with `Sent`.
    Send(Vec<u8>),
    /// Wait for the reply; answer with `Received`.
    Receive,
    /// The fetch is over: the raw individual, or `None`.
    Done(Option<Vec<u8>>),
}

/// What the caller does next, over plain values.
pub enum FetchView {
    Dial(Seq<char>),
    Send(Seq<u8>),
    Receive,
    Done(Option<Seq<u8>>),
}

impl View for FetchAction {
    type V = FetchView;

    open spec fn view(&self) -> FetchView {
        match self {
            FetchAction::Dial(a) => FetchView::Dial(a@),
            FetchAction::Send(b) => FetchView::Send(b@),
            FetchAction::Receive => FetchView::Receive,
            FetchAction::Done(r) => FetchView::Done(
                match r {
                    Some(b) => Some(b@),
                    None => None,
                },
            ),
        }
    }
}

/// What the caller reports back.
#[derive(Clone, Debug)]
pub enum FetchEvent {
    Dialed(bool),
    Sent(bool),
    /// The reply, or `None` when receiving failed.
    Received(Option<Vec<u8>>),
}

#[derive(PartialEq, Eq, Structural, Clone, Copy, Debug)]
pub enum FetchPhase {
    Dialing,
    Sending,
    Receiving,
    Done,
}

/// Fetching one individual from the storage service through the shared client.
pub struct IndividualFetch {
    request: Vec<u8>,
    phase: FetchPhase,
}

/// Whether the event answers the phase.
pub open spec fn fetch_answers(phase: FetchPhase, e: FetchEvent) -> bool {
    match phase {
        FetchPhase::Dialing => e is Dialed,
        FetchPhase::Sending => e is Sent,
        FetchPhase::Receiving => e is Received,
        FetchPhase::Done => false,
    }
}

/// The first thing a fetch of the bytes `request` does, with a client at
/// `addr` that is connected or not: dial unless it is connected, else send.
pub open spec fn fetch_first(request: Seq<u8>, addr: Seq<char>, ready: bool) -> FetchView {
    if ready {
        FetchView::Send(request)
    } else {
        FetchView::Dial(addr)
    }
}

/// Whether the event is the answer to the action.
pub open spec fn answers_action(a: FetchView, e: FetchEvent) -> bool {
    match a {
        FetchView::Dial(_) => e is Dialed,
        FetchView::Send(_) => e is Sent,
        FetchView::Receive => e is Received,
        FetchView::Done(_) => false,
    }
}

/// What a fetch of the bytes `request` does next on the answer `e`, and
/// whether the client is connected after it, when it was (`ready`) before.
pub open spec fn fetch_next(request: Seq<u8>, ready: bool, e: FetchEvent) -> (FetchView, bool) {
    match e {
        FetchEvent::Dialed(ok) => (if ok { FetchView::Send(request) } else { FetchView::Done(None) }, ok),
        FetchEvent::Sent(ok) => (if ok { FetchView::Receive } else { FetchView::Done(None) }, ready),
        FetchEvent::Received(r) => (
            FetchView::Done(
                match r {
                    Some(b) => Some(b@),
                    None => None,
                },
            ),
            ready,
        ),
    }
}

impl IndividualFetch {
    pub closed spec fn phase(&self) -> FetchPhase {
        self.phase
    }

    /// The bytes sent: the UTF-8 encoding of the id.
    pub closed spec fn request(&self) -> Seq<u8> {
        self.request@
    }

    /// Starts fetching the individual `id`: dial first unless the client is
    /// connected.
    pub fn start(client: &Client, id: &str) -> (res: (IndividualFetch, FetchAction))
        ensures
            res.0.request() == encode_utf8(id@),
            res.1@ == fetch_first(encode_utf8(id@), client.addr(), client.ready()),
            res.0.phase() == if client.ready() { FetchPhase::Sending } else { FetchPhase::Dialing },
    {
        let request = slice_to_bytes(id.as_bytes());
        if client.is_ready {
            let b = request.clone();
            (IndividualFetch { request, phase: FetchPhase::Sending }, FetchAction::Send(b))
        } else {
            (IndividualFetch { request, phase: FetchPhase::Dialing }, FetchAction::Dial(client.addr.clone()))
        }
    }

    /// Takes the answer to the last action.
    pub fn step(&mut self, client: &mut Client, e: FetchEvent) -> (a: FetchAction)
        requires
            fetch_answers(old(self).phase(), e),
        ensures
            final(self).request() == old(self).request(),
            final(client).addr() == old(client).addr(),
            a is Done <==> final(self).phase() == FetchPhase::Done,
            (a@, final(client).ready()) == fetch_next(old(self).request(), old(client).ready(), e),
            match e {
                FetchEvent::Received(r) => a == FetchAction::Done(r),
                _ => true,
            },
    {
        match e {
            FetchEvent::Dialed(ok) => {
                client.connect(ok);
                if ok {
                    self.phase = FetchPhase::Sending;
                    FetchAction::Send(self.request.clone())
                } else {
                    self.phase = FetchPhase::Done;
                    FetchAction::Done(None)
                }
            },
            FetchEvent::Sent(ok) => {
                if ok {
                    self.phase = FetchPhase::Receiving;
                    FetchAction::Receive
                } else {
                    self.phase = FetchPhase::Done;
                    FetchAction::Done(None)
                }
            },
            FetchEvent::Received(r) => {
                self.phase = FetchPhase::Done;
                FetchAction::Done(r)
            },
        }
    }
}

/// Starts fetching the individual `id` from the storage service through
/// the shared client: dial first unless the client is connected, then send
/// the id and wait for the raw individual.
pub fn get_individual(client: &Client, id: &str) -> (res: (IndividualFetch, FetchAction))
    ensures
        res.0.request() == encode_utf8(id@),
        res.1@ == fetch_first(encode_utf8(id@), client.addr(), client.ready()),
        res.0.phase() == if client.ready() { FetchPhase::Sending } else { FetchPhase::Dialing },
{
    IndividualFetch::start(client, id)
}

/// What a whole fetch of the bytes `request` does, with a client at `addr`
/// that is connected or not before it: each action, with whether the client
/// is connected after it, as the answers `events` come in turn.
pub open spec fn fetch_trace(request: Seq<u8>, addr: Seq<char>, ready: bool, events: Seq<FetchEvent>) -> Seq<
    (FetchView, bool),
>
    decreases events.len(),
{
    if events.len() == 0 {
        seq![(fetch_first(request, addr, ready), ready)]
    } else {
        let before = fetch_trace(request, addr, ready, events.drop_last());
        before.push(fetch_next(request, before.last().1, events.last()))
    }
}

/// Each answer answers the action before it.
pub open spec fn fetch_answered(request: Seq<u8>, addr: Seq<char>, ready: bool, events: Seq<FetchEvent>) -> bool {
    forall|i: int|
        0 <= i < events.len() ==> answers_action(
            #[trigger] fetch_trace(request, addr, ready, events)[i].0,
            events[i],
        )
}

proof fn lemma_fetch_trace(request: Seq<u8>, addr: Seq<char>, ready: bool, events: Seq<FetchEvent>)
    ensures
        fetch_trace(request, addr, ready, events).len() == events.len() + 1,
        fetch_trace(request, addr, ready, events)[0] == (fetch_first(request, addr, ready), ready),
        forall|i: int|
            0 <= i < events.len() ==> #[trigger] fetch_trace(request, addr, ready, events)[i + 1] == fetch_next(
                request,
                fetch_trace(request, addr, ready, events)[i].1,
                events[i],
            ),
    decreases events.len(),
{
    if events.len() > 0 {
        let pre = events.drop_last();
        lemma_fetch_trace(request, addr, ready, pre);
        let t = fetch_trace(request, addr, ready, events);
        let tp = fetch_trace(request, addr, ready, pre);
        assert forall|i: int| 0 <= i < events.len() implies #[trigger] t[i + 1] == fetch_next(request, t[i].1, events[i]) by {
            if i < events.len() - 1 {
                assert(pre[i] == events[i]);
                assert(tp[i + 1] == fetch_next(request, tp[i].1, pre[i]));
            }
        }
    }
}

proof fn lemma_ready_client_never_dials(request: Seq<u8>, addr: Seq<char>, events: Seq<FetchEvent>)
    requires
        fetch_answered(request, addr, true, events),
    ensures
        forall|i: int|
            0 <= i < fetch_trace(request, addr, true, events).len() ==> (#[trigger] fetch_trace(
                request,
                addr,
                true,
                events,
            )[i]).1 && !(fetch_trace(request, addr, true, events)[i].0 is Dial),
{
    lemma_fetch_trace(request, addr, true, events);
    let t = fetch_trace(request, addr, true, events);
    assert forall|i: int| 0 <= i < t.len() implies (#[trigger] t[i]).1 && !(t[i].0 is Dial) by {
        lemma_ready_kept(request, addr, events, i);
    }
}

proof fn lemma_ready_kept(request: Seq<u8>, addr: Seq<char>, events: Seq<FetchEvent>, i: int)
    requires
        fetch_answered(request, addr, true, events),
        0 <= i <= events.len(),
    ensures
        fetch_trace(request, addr, true, events)[i].1,
        !(fetch_trace(request, addr, true, events)[i].0 is Dial),
    decreases i,
{
    lemma_fetch_trace(request, addr, true, events);
    let t = fetch_trace(request, addr, true, events);
    if i > 0 {
        lemma_ready_kept(request, addr, events, i - 1);
        assert(answers_action(t[i - 1].0, events[i - 1]));
        assert(t[(i - 1) + 1] == fetch_next(request, t[i - 1].1, events[i - 1]));
    }
}

proof fn lemma_dial_decides_readiness(request: Seq<u8>, addr: Seq<char>, events: Seq<FetchEvent>)
    requires
        fetch_answered(request, addr, false, events),
        events.len() > 0,
    ensures
        events[0] is Dialed,
        forall|i: int|
            1 <= i < fetch_trace(request, addr, false, events).len() ==> (#[trigger] fetch_trace(
                request,
                addr,
                false,
                events,
            )[i]).1 == events[0]->Dialed_0,
        !events[0]->Dialed_0 ==> events.len() == 1 && fetch_trace(request, addr, false, events)[1].0
            == FetchView::Done(None),
{
    lemma_fetch_trace(request, addr, false, events);
    let t = fetch_trace(request, addr, false, events);
    assert(answers_action(t[0].0, events[0]));
    assert(t[0int + 1] == fetch_next(request, t[0].1, events[0]));
    assert forall|i: int| 1 <= i < t.len() implies (#[trigger] t[i]).1 == events[0]->Dialed_0 by {
        lemma_dial_kept(request, addr, events, i);
    }
    if !events[0]->Dialed_0 && events.len() > 1 {
        assert(answers_action(t[1].0, events[1]));
    }
}

proof fn lemma_dial_kept(request: Seq<u8>, addr: Seq<char>, events: Seq<FetchEvent>, i: int)
    requires
        fetch_answered(request, addr, false, events),
        1 <= i <= events.len(),
    ensures
        fetch_trace(request, addr, false, events)[i].1 == events[0]->Dialed_0,
        !(fetch_trace(request, addr, false, events)[i].0 is Dial),
    decreases i,
{
    lemma_fetch_trace(request, addr, false, events);
    let t = fetch_trace(request, addr, false, events);
    assert(answers_action(t[0].0, events[0]));
    if i == 1 {
        assert(t[0int + 1] == fetch_next(request, t[0].1, events[0]));
    } else {
        lemma_dial_kept(request, addr, events, i - 1);
        assert(answers_action(t[i - 1].0, events[i - 1]));
        assert(t[(i - 1) + 1] == fetch_next(request, t[i - 1].1, events[i - 1]));
    }
}

/// A fetch gives back bytes only as they were received: when it ends with
/// bytes, the last answer brought exactly those bytes.
pub proof fn law_fetch_returns_received(request: Seq<u8>, addr: Seq<char>, ready: bool, events: Seq<FetchEvent>, r: Seq<u8>)
    requires
        fetch_answered(request, addr, ready, events),
        fetch_trace(request, addr, ready, events).last().0 == FetchView::Done(Some(r)),
    ensures
        events.len() > 0,
        events.last() matches FetchEvent::Received(Some(b)) && b@ == r,
{
    lemma_fetch_trace(request, addr, ready, events);
    let t = fetch_trace(request, addr, ready, events);
    if events.len() > 0 {
        let n = events.len() - 1;
        assert(t[n + 1] == fetch_next(request, t[n].1, events[n]));
    }
}

/// The service answers a fetch of `id` about that very id, and with the
/// bytes stored for it when there are any, else with `[]`: never with
/// nothing.
pub proof fn law_service_serves_stored(id: Seq<char>, stored: Seq<u8>)
    ensures
        request_id(encode_utf8(id)) == Some(id),
        stored.len() > 0 ==> served_reply(stored) == stored,
        stored.len() == 0 ==> served_reply(stored) == empty_list_bytes(),
        served_reply(stored).len() > 0,
{
    vstd::utf8::encode_utf8_valid_utf8(id);
    vstd::utf8::encode_utf8_decode_utf8(id);
}

/// The client's readiness across one fetch: a connected client is used as
/// it is, no action dials, and it stays connected whatever sending or
/// receiving gives; a client that is not connected dials first, is
/// connected from then on exactly when the dial succeeded, and a failed
/// dial ends the fetch with `None` and nothing sent. (No step changes the
/// client's address: see `IndividualFetch::step`.)
pub proof fn law_fetch_readiness(request: Seq<u8>, addr: Seq<char>, ready: bool, events: Seq<FetchEvent>)
    requires
        fetch_answered(request, addr, ready, events),
    ensures
        ready ==> forall|i: int|
            0 <= i < fetch_trace(request, addr, ready, events).len() ==> (#[trigger] fetch_trace(
                request,
                addr,
                ready,
                events,
            )[i]).1 && !(fetch_trace(request, addr, ready, events)[i].0 is Dial),
        !ready ==> fetch_trace(request, addr, ready, events)[0].0 == FetchView::Dial(addr),
        !ready && events.len() > 0 ==> {
            &&& events[0] is Dialed
            &&& forall|i: int|
                1 <= i < fetch_trace(request, addr, ready, events).len() ==> (#[trigger] fetch_trace(
                    request,
                    addr,
                    ready,
                    events,
                )[i]).1 == events[0]->Dialed_0
            &&& !events[0]->Dialed_0 ==> events.len() == 1 && fetch_trace(request, addr, ready, events)[1].0
                == FetchView::Done(None)
        },
{
    lemma_fetch_trace(request, addr, ready, events);
    if ready {
        lemma_ready_client_never_dials(request, addr, events);
    } else if events.len() > 0 {
        lemma_dial_decides_readiness(request, addr, events);
    }
}

/// The answers of a fetch in which dialling (when the client is not
/// connected), sending and receiving all succeed, the reply being `reply`.
pub open spec fn successful_fetch(ready: bool, reply: Vec<u8>) -> Seq<FetchEvent> {
    if ready {
        seq![FetchEvent::Sent(true), FetchEvent::Received(Some(reply))]
    } else {
        seq![FetchEvent::Dialed(true), FetchEvent::Sent(true), FetchEvent::Received(Some(reply))]
    }
}

/// A fetch of `id` whose dial, send and receive succeed gives the raw
/// individual that the service holds for that id, and `[]` when it holds
/// none: an id that is not stored still gives bytes, never `None`. The
/// service reads the id from the bytes sent, and answers `served_reply` of
/// what it stores under it (`req_prepare`, `reply_for_value`).
pub proof fn law_fetch_gets_stored(id: Seq<char>, addr: Seq<char>, ready: bool, stored: Seq<u8>, reply: Vec<u8>)
    requires
        reply@ == served_reply(stored),
    ensures
        request_id(encode_utf8(id)) == Some(id),
        fetch_answered(encode_utf8(id), addr, ready, successful_fetch(ready, reply)),
        fetch_trace(encode_utf8(id), addr, ready, successful_fetch(ready, reply)).last().0 == FetchView::Done(
            Some(if stored.len() > 0 { stored } else { empty_list_bytes() }),
        ),
{
    law_service_serves_stored(id, stored);
    let request = encode_utf8(id);
    let events = successful_fetch(ready, reply);
    lemma_fetch_trace(request, addr, ready, events);
    let t = fetch_trace(request, addr, ready, events);
    if ready {
        assert(t[0int + 1] == fetch_next(request, t[0].1, events[0]));
        assert(t[1int + 1] == fetch_next(request, t[1].1, events[1]));
    } else {
        assert(t[0int + 1] == fetch_next(request, t[0].1, events[0]));
        assert(t[1int + 1] == fetch_next(request, t[1].1, events[1]));
        assert(t[2int + 1] == fetch_next(request, t[2].1, events[2]));
    }
}

/// Copies bytes into a vector.
fn slice_to_bytes(b: &[u8]) -> (v: Vec<u8>)
    ensures
        v@ == b@,
{
    let mut v: Vec<u8> = Vec::new();
    let mut i: usize = 0;
    while i < b.len()
        invariant
            i <= b@.len(),
            v@ == b@.subrange(0, i as int),
        decreases b@.len() - i,
    {
        v.push(b[i]);
        i = i + 1;
    }
    assert(v@ =~= b@);
    v
}

} // verus!
