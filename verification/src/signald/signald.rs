//! The protocol client: it numbers the requests, builds them, and
//! matches replies to them. A call that expects a reply yields the line
//! to write and a `Wait`; the caller writes the line and then polls the
//! wait until it is matched or its time is up.

use crate::bus::{BusEntry, BusEntryView, BusView, Subscription, lemma_pending_after_read};
use crate::signald::signaldrequest::{RequestView, SignaldRequest, SignaldRequestBuilder};
use crate::signald::signaldresponse::{line_response, ResponseView, SignaldResponse};
use crate::signald::signaldsocket::{SignaldSocket, SocketView};
use crate::text::{decimal, decimal_digits};
use vstd::prelude::*;

verus! {

/// How many entries the client's bus retains.
pub const BUS_SIZE: usize = 100;

/// How long a call waits for its reply, in milliseconds.
pub const TIMEOUT_MS: u64 = 3000;

/// What a reply is recognised by: its correlation id, or its tag.
#[derive(Clone, Copy, Debug, PartialEq, Eq, Structural)]
pub enum FilterType {
    Id,
    Type,
}

/// Whether a response is the reply that a filter with value `val` waits
/// for.
pub open spec fn accepts(typ: FilterType, val: Seq<char>, response: ResponseView) -> bool {
    match typ {
        FilterType::Id => response.id == Some(val),
        FilterType::Type => response.typ == val,
    }
}

/// Whether a bus entry holds the reply. A heartbeat never does, and
/// neither does a line that is no response.
pub open spec fn entry_matches(typ: FilterType, val: Seq<char>, entry: BusEntryView) -> bool {
    match entry {
        BusEntryView::Heartbeat => false,
        BusEntryView::Line(line) => match line_response(line) {
            Some(response) => accepts(typ, val, response),
            None => false,
        },
    }
}

/// The position of the first entry that holds the reply, or the number
/// of entries if none does.
pub open spec fn first_match(typ: FilterType, val: Seq<char>, entries: Seq<BusEntryView>) -> int
    decreases entries.len(),
{
    if entries.len() == 0 {
        0
    } else if entry_matches(typ, val, entries[0]) {
        0
    } else {
        1 + first_match(typ, val, entries.drop_first())
    }
}

/// Whether a wait that started at `started` with `timeout` to go is
/// over at `now`.
pub open spec fn expired(started: nat, timeout: nat, now: nat) -> bool {
    now >= started + timeout
}

/// A call that waits for its reply.
#[derive(Debug)]
pub struct Wait {
    typ: FilterType,
    val: String,
    started: u64,
    timeout: u64,
    rx: Subscription,
}

/// The mathematical value of a `Wait`.
pub struct WaitView {
    pub typ: FilterType,
    pub val: Seq<char>,
    pub started: nat,
    pub timeout: nat,
    pub cursor: nat,
}

impl View for Wait {
    type V = WaitView;

    closed spec fn view(&self) -> WaitView {
        WaitView {
            typ: self.typ,
            val: self.val@,
            started: self.started as nat,
            timeout: self.timeout as nat,
            cursor: self.rx@,
        }
    }
}

impl WaitView {
    /// What the wait's subscription has not read yet.
    pub open spec fn pending(self, bus: BusView) -> Seq<BusEntryView> {
        bus.pending(self.cursor)
    }

    /// The position, among what is pending, of the reply.
    pub open spec fn match_position(self, bus: BusView) -> int {
        first_match(self.typ, self.val, self.pending(bus))
    }

    /// Whether the reply is among what is pending.
    pub open spec fn has_match(self, bus: BusView) -> bool {
        self.match_position(bus) < self.pending(bus).len()
    }

    /// Whether the wait is over at `now`.
    pub open spec fn expired(self, now: nat) -> bool {
        expired(self.started, self.timeout, now)
    }
}

impl Wait {
    /// The same wait with `timeout` milliseconds to go from its start,
    /// in place of the default.
    pub fn with_timeout(self, timeout: u64) -> (wait: Wait)
        ensures
            wait@ == (WaitView { timeout: timeout as nat, ..self@ }),
    {
        Wait { typ: self.typ, val: self.val, started: self.started, timeout, rx: self.rx }
    }
}

/// How a poll of a wait ended.
#[derive(Debug)]
pub enum WaitOutcome {
    /// The reply has arrived.
    Matched(SignaldResponse),
    /// No reply yet, and there is time left.
    Pending,
    /// The time is up.
    TimedOut,
}

/// The mathematical value of a `WaitOutcome`.
pub enum WaitOutcomeView {
    Matched(ResponseView),
    Pending,
    TimedOut,
}

impl DeepView for WaitOutcome {
    type V = WaitOutcomeView;

    open spec fn deep_view(&self) -> WaitOutcomeView {
        match self {
            WaitOutcome::Matched(response) => WaitOutcomeView::Matched(response.deep_view()),
            WaitOutcome::Pending => WaitOutcomeView::Pending,
            WaitOutcome::TimedOut => WaitOutcomeView::TimedOut,
        }
    }
}

/// The response that a bus entry holds, if it holds one.
pub open spec fn entry_response(entry: BusEntryView) -> Option<ResponseView> {
    match entry {
        BusEntryView::Heartbeat => None,
        BusEntryView::Line(line) => line_response(line),
    }
}

impl WaitView {
    /// The wait with its subscription moved to `cursor`.
    pub open spec fn at(self, cursor: nat) -> WaitView {
        WaitView { cursor, ..self }
    }

    /// One poll of the wait at time `now`: how it ends, and the wait
    /// afterwards.
    ///
    /// A wait whose time is up ends as timed out and stays as it is.
    /// Otherwise, if the reply is pending, the poll ends with it and the
    /// subscription stands behind it; if not, the poll ends as pending
    /// and the subscription has read all there is.
    pub open spec fn poll(self, bus: BusView, now: nat) -> (WaitOutcomeView, WaitView) {
        let pending = self.pending(bus);
        let k = self.match_position(bus);
        if self.expired(now) {
            (WaitOutcomeView::TimedOut, self)
        } else if self.has_match(bus) {
            (
                WaitOutcomeView::Matched(entry_response(pending[k])->0),
                self.at(bus.pending_numbers(self.cursor)[k] + 1),
            )
        } else if pending.len() > 0 {
            (WaitOutcomeView::Pending, self.at(bus.end()))
        } else {
            (WaitOutcomeView::Pending, self)
        }
    }
}

/// The line to write for a call, and the wait for its reply.
#[derive(Debug)]
pub struct Call {
    pub line: String,
    pub wait: Wait,
}

/// The protocol client.
#[derive(Debug)]
pub struct Signald {
    socket: SignaldSocket,
    request_builder: SignaldRequestBuilder,
    message_count: u64,
}

/// The mathematical value of a `Signald`: the transport's state and the
/// number of requests sent so far, which is the next correlation id.
pub struct SignaldView {
    pub socket: SocketView,
    pub message_count: nat,
}

impl View for Signald {
    type V = SignaldView;

    closed spec fn view(&self) -> SignaldView {
        SignaldView { socket: self.socket@, message_count: self.message_count as nat }
    }
}

/// Whether `response` is the reply that a filter with value `val`
/// waits for.
fn response_accepted(typ: FilterType, val: &String, response: &SignaldResponse) -> (r: bool)
    ensures
        r == accepts(typ, val@, response.deep_view()),
{
    match typ {
        FilterType::Id => match &response.id {
            Some(id) => *id == *val,
            None => false,
        },
        FilterType::Type => response.typ == *val,
    }
}

/// The response in `entry`, if it is the reply that a filter with
/// value `val` waits for.
fn matching_response(typ: FilterType, val: &String, entry: &BusEntry) -> (r: Option<
    SignaldResponse,
>)
    ensures
        r is Some == entry_matches(typ, val@, entry.deep_view()),
        r matches Some(response) ==> entry.deep_view() matches BusEntryView::Line(line)
            && line_response(line) == Some(response.deep_view()),
{
    match entry {
        BusEntry::Heartbeat => None,
        BusEntry::Line(line) => match SignaldResponse::parse(line.as_slice()) {
            Some(response) => if response_accepted(typ, val, &response) {
                Some(response)
            } else {
                None
            },
            None => None,
        },
    }
}

impl Signald {
    /// The representation invariant.
    pub closed spec fn wf(&self) -> bool {
        self.socket.wf()
    }

    /// One step of waiting for a reply, at time `now`.
    ///
    /// When the wait's time is up the outcome is `TimedOut`, whatever is
    /// on the bus. Otherwise the wait's subscription is read until the
    /// first entry that holds the reply, which is the outcome; if the
    /// bus runs empty first, the outcome is `Pending`. Heartbeats, lines
    /// that are no responses and responses to others are passed over.
    pub fn wait_for_request(&self, wait: &mut Wait, now: u64) -> (outcome: WaitOutcome)
        requires
            self.wf(),
        ensures
            (outcome.deep_view(), final(wait)@) == old(wait)@.poll(self@.socket.bus, now as nat),
    {
        if now >= wait.started && now - wait.started >= wait.timeout {
            return WaitOutcome::TimedOut;
        }
        let bus = self.socket.bus();
        let ghost view = bus@;
        let ghost start = wait.rx@;
        let ghost all = view.pending(start);
        let ghost numbers = view.pending_numbers(start);
        let ghost mut passed: int = 0;
        assert(all.skip(0) =~= all);
        assert(numbers.skip(0) =~= numbers);
        loop
            invariant
                bus.wf(),
                view == bus@,
                view == self@.socket.bus,
                wait@ == (WaitView { cursor: wait@.cursor, ..old(wait)@ }),
                start == old(wait)@.cursor,
                all == view.pending(start),
                numbers == view.pending_numbers(start),
                !old(wait)@.expired(now as nat),
                0 <= passed <= all.len(),
                view.pending(wait.rx@) == all.skip(passed),
                view.pending_numbers(wait.rx@) == numbers.skip(passed),
                first_match(wait@.typ, wait@.val, all) == passed + first_match(
                    wait@.typ,
                    wait@.val,
                    all.skip(passed),
                ),
                passed == 0 ==> wait.rx@ == start,
                passed > 0 ==> wait.rx@ == view.next(start) + passed,
                passed > 0 ==> view.next(start) < view.end(),
            decreases all.len() - passed,
        {
            let ghost cursor = wait.rx@;
            match bus.try_recv(&mut wait.rx) {
                Some(entry) => {
                    proof {
                        lemma_pending_after_read(view, cursor);
                        assert(all.skip(passed)[0] == entry.deep_view());
                        assert(all.skip(passed).drop_first() =~= all.skip(passed + 1));
                        assert(numbers.skip(passed).drop_first() =~= numbers.skip(passed + 1));
                    }
                    match matching_response(wait.typ, &wait.val, entry) {
                        Some(response) => {
                            proof {
                                assert(numbers.skip(passed)[0] == numbers[passed]);
                                assert(all.skip(passed)[0] == all[passed]);
                                assert(first_match(wait@.typ, wait@.val, all.skip(passed)) == 0);
                            }
                            return WaitOutcome::Matched(response);
                        },
                        None => {
                            proof {
                                passed = passed + 1;
                            }
                        },
                    }
                },
                None => {
                    proof {
                        assert(view.pending_numbers(cursor).len() == 0);
                        assert(all.skip(passed).len() == 0);
                        assert(first_match(wait@.typ, wait@.val, all.skip(passed)) == 0);
                        assert(all.len() == numbers.len());
                    }
                    return WaitOutcome::Pending;
                },
            }
        }
    }
}

/// The request of a call that carries a correlation id and nothing
/// else but its tag and user name.
pub open spec fn correlated(typ: Seq<char>, username: Seq<char>, id: nat) -> RequestView {
    RequestView { typ, username, id: Some(decimal_digits(id)), ..RequestView::empty() }
}

/// The request that sends `message_body` to `recipient_number`.
pub open spec fn send_request_of(
    username: Seq<char>,
    recipient_number: Seq<char>,
    message_body: Option<Seq<char>>,
) -> RequestView {
    RequestView {
        typ: "send"@,
        username,
        recipient_number: Some(recipient_number),
        message_body,
        ..RequestView::empty()
    }
}

/// The bytes to write for a request: its wire form and a line feed.
pub open spec fn framed(request: RequestView) -> Seq<char> {
    request.line().push('\n')
}

impl SignaldView {
    /// The client after one more request was sent.
    pub open spec fn sent(self) -> SignaldView {
        SignaldView { message_count: self.message_count + 1, ..self }
    }

    /// The wait of a call issued now, at time `now`: it is recognised by
    /// `val`, starts where the bus ends, and has the default time to go.
    pub open spec fn wait(self, typ: FilterType, val: Seq<char>, now: nat) -> WaitView {
        WaitView {
            typ,
            val,
            started: now,
            timeout: TIMEOUT_MS as nat,
            cursor: self.socket.bus.end(),
        }
    }
}

impl Signald {
    /// What the invariant means for the value.
    pub proof fn lemma_wf(&self)
        requires
            self.wf(),
        ensures
            self@.socket.bus.entries.len() <= self@.socket.bus.capacity,
    {
        self.socket.lemma_wf();
        self.socket.lemma_bus_wf();
    }

    /// The client for the endpoint `socket_path`: nothing sent, nothing
    /// received.
    pub fn connect(socket_path: String) -> (signald: Signald)
        ensures
            signald.wf(),
            signald@ == (SignaldView {
                socket: SocketView {
                    socket_path: socket_path@,
                    bus: BusView { capacity: BUS_SIZE as nat, first: 0, entries: Seq::empty() },
                    partial: Seq::empty(),
                },
                message_count: 0,
            }),
    {
        Signald {
            socket: SignaldSocket::connect(socket_path, BUS_SIZE),
            request_builder: SignaldRequestBuilder::new(),
            message_count: 0,
        }
    }

    /// The transport's state.
    pub fn socket(&self) -> (socket: &SignaldSocket)
        requires
            self.wf(),
        ensures
            socket.wf(),
            socket@ == self@.socket,
    {
        &self.socket
    }

    /// The number of requests sent so far.
    pub fn message_count(&self) -> (n: u64)
        ensures
            n == self@.message_count,
    {
        self.message_count
    }

    /// Counts `request` as sent and returns the bytes to write for it.
    pub fn send_request(&mut self, request: &SignaldRequest) -> (bytes: String)
        requires
            old(self).wf(),
            old(self)@.message_count < u64::MAX,
        ensures
            final(self).wf(),
            final(self)@ == old(self)@.sent(),
            bytes@ == framed(request.deep_view()),
    {
        self.message_count = self.message_count + 1;
        self.socket.send_request(request)
    }

    /// Sends the request that the builder holds, and opens the wait for
    /// its reply.
    fn call(&mut self, typ: FilterType, val: String, now: u64) -> (call: Call)
        requires
            old(self).wf(),
            old(self)@.message_count < u64::MAX,
        ensures
            final(self).wf(),
            final(self)@ == old(self)@.sent(),
            call.line@ == framed(old(self).request_builder@),
            call.wait@ == old(self)@.wait(typ, val@, now as nat),
    {
        let request = self.request_builder.build();
        let rx = self.socket.get_rx();
        let line = self.send_request(&request);
        Call { line, wait: Wait { typ, val, started: now, timeout: TIMEOUT_MS, rx } }
    }

    /// Starts the builder on a request with tag `typ` and the next
    /// correlation id, which is returned.
    fn begin(&mut self, typ: &str) -> (id: String)
        ensures
            final(self).wf() == old(self).wf(),
            final(self)@ == old(self)@,
            id@ == decimal_digits(old(self)@.message_count),
            final(self).request_builder@ == correlated(
                typ@,
                Seq::empty(),
                old(self)@.message_count,
            ),
    {
        let id = decimal(self.message_count);
        self.request_builder.flush();
        self.request_builder.set_type(String::from_str(typ));
        self.request_builder.set_id(id.clone());
        id
    }

    /// Sends `message_body` to `recipient_number`. No reply is awaited.
    pub fn send(
        &mut self,
        username: String,
        recipient_number: String,
        message_body: Option<String>,
    ) -> (bytes: String)
        requires
            old(self).wf(),
            old(self)@.message_count < u64::MAX,
        ensures
            final(self).wf(),
            final(self)@ == old(self)@.sent(),
            bytes@ == framed(
                send_request_of(username@, recipient_number@, message_body.deep_view()),
            ),
    {
        self.request_builder.flush();
        self.request_builder.set_type(String::from_str("send"));
        self.request_builder.set_username(username);
        self.request_builder.set_recipient_number(recipient_number);
        if let Some(body) = message_body {
            self.request_builder.set_message_body(body);
        }
        let request = self.request_builder.build();
        self.send_request(&request)
    }

    /// Asks the daemon to deliver the events of `username`.
    pub fn subscribe(&mut self, username: String, now: u64) -> (call: Call)
        requires
            old(self).wf(),
            old(self)@.message_count < u64::MAX,
        ensures
            final(self).wf(),
            final(self)@ == old(self)@.sent(),
            call.line@ == framed(correlated("subscribe"@, username@, old(self)@.message_count)),
            call.wait@ == old(self)@.wait(
                FilterType::Id,
                decimal_digits(old(self)@.message_count),
                now as nat,
            ),
    {
        let id = self.begin("subscribe");
        self.request_builder.set_username(username);
        self.call(FilterType::Id, id, now)
    }

    /// Asks the daemon to stop delivering the events of `username`.
    pub fn unsubscribe(&mut self, username: String, now: u64) -> (call: Call)
        requires
            old(self).wf(),
            old(self)@.message_count < u64::MAX,
        ensures
            final(self).wf(),
            final(self)@ == old(self)@.sent(),
            call.line@ == framed(correlated("unsubscribe"@, username@, old(self)@.message_count)),
            call.wait@ == old(self)@.wait(
                FilterType::Id,
                decimal_digits(old(self)@.message_count),
                now as nat,
            ),
    {
        let id = self.begin("unsubscribe");
        self.request_builder.set_username(username);
        self.call(FilterType::Id, id, now)
    }

    /// Asks the daemon to link this device to an existing account.
    pub fn link(&mut self, now: u64) -> (call: Call)
        requires
            old(self).wf(),
            old(self)@.message_count < u64::MAX,
        ensures
            final(self).wf(),
            final(self)@ == old(self)@.sent(),
            call.line@ == framed(correlated("link"@, Seq::empty(), old(self)@.message_count)),
            call.wait@ == old(self)@.wait(
                FilterType::Id,
                decimal_digits(old(self)@.message_count),
                now as nat,
            ),
    {
        let id = self.begin("link");
        self.call(FilterType::Id, id, now)
    }

    /// Asks the daemon for its version. The reply carries no id and is
    /// recognised by its tag.
    pub fn version(&mut self, now: u64) -> (call: Call)
        requires
            old(self).wf(),
            old(self)@.message_count < u64::MAX,
        ensures
            final(self).wf(),
            final(self)@ == old(self)@.sent(),
            call.line@ == framed(correlated("version"@, Seq::empty(), old(self)@.message_count)),
            call.wait@ == old(self)@.wait(FilterType::Type, "version"@, now as nat),
    {
        let _ = self.begin("version");
        self.call(FilterType::Type, String::from_str("version"), now)
    }

    /// Asks the daemon for the contacts of `username`.
    pub fn list_contacts(&mut self, username: String, now: u64) -> (call: Call)
        requires
            old(self).wf(),
            old(self)@.message_count < u64::MAX,
        ensures
            final(self).wf(),
            final(self)@ == old(self)@.sent(),
            call.line@ == framed(
                correlated("list_contacts"@, username@, old(self)@.message_count),
            ),
            call.wait@ == old(self)@.wait(
                FilterType::Id,
                decimal_digits(old(self)@.message_count),
                now as nat,
            ),
    {
        let id = self.begin("list_contacts");
        self.request_builder.set_username(username);
        self.call(FilterType::Id, id, now)
    }

    /// Asks the daemon for the accounts registered with it.
    pub fn list_accounts(&mut self, now: u64) -> (call: Call)
        requires
            old(self).wf(),
            old(self)@.message_count < u64::MAX,
        ensures
            final(self).wf(),
            final(self)@ == old(self)@.sent(),
            call.line@ == framed(
                correlated("list_accounts"@, Seq::empty(), old(self)@.message_count),
            ),
            call.wait@ == old(self)@.wait(
                FilterType::Id,
                decimal_digits(old(self)@.message_count),
                now as nat,
            ),
    {
        let id = self.begin("list_accounts");
        self.call(FilterType::Id, id, now)
    }

    /// Asks the daemon to send the contacts of `username` to the
    /// account's other devices. No reply is awaited.
    pub fn sync_contacts(&mut self, username: String) -> (bytes: String)
        requires
            old(self).wf(),
            old(self)@.message_count < u64::MAX,
        ensures
            final(self).wf(),
            final(self)@ == old(self)@.sent(),
            bytes@ == framed(correlated("sync_contacts"@, username@, old(self)@.message_count)),
    {
        let _ = self.begin("sync_contacts");
        self.request_builder.set_username(username);
        let request = self.request_builder.build();
        self.send_request(&request)
    }

    /// Opens a subscription to everything published from now on.
    pub fn get_rx(&self) -> (rx: Subscription)
        requires
            self.wf(),
        ensures
            rx@ == self@.socket.bus.end(),
    {
        self.socket.get_rx()
    }

    /// Takes in bytes read from the stream; see `SignaldSocket::receive`.
    pub fn receive(&mut self, bytes: &[u8])
        requires
            old(self).wf(),
            old(self)@.socket.bus.end() + bytes@.len() <= u64::MAX,
        ensures
            final(self).wf(),
            final(self)@.message_count == old(self)@.message_count,
            final(self)@.socket == old(self)@.socket.received(bytes@),
    {
        self.socket.receive(bytes);
    }

    /// Publishes the heartbeat.
    pub fn heartbeat(&mut self)
        requires
            old(self).wf(),
            old(self)@.socket.bus.end() < u64::MAX,
        ensures
            final(self).wf(),
            final(self)@.message_count == old(self)@.message_count,
            final(self)@.socket == (SocketView {
                bus: old(self)@.socket.bus.publish(BusEntryView::Heartbeat),
                ..old(self)@.socket
            }),
    {
        self.socket.heartbeat();
    }
}

/// Whether no entry of `entries` holds the reply.
pub open spec fn no_match(typ: FilterType, val: Seq<char>, entries: Seq<BusEntryView>) -> bool {
    forall|i: int| 0 <= i < entries.len() ==> !entry_matches(typ, val, #[trigger] entries[i])
}

/// `first_match` finds the first entry that holds the reply: nothing
/// before it does, and it is the number of entries exactly when none
/// does.
pub proof fn lemma_first_match(typ: FilterType, val: Seq<char>, entries: Seq<BusEntryView>)
    ensures
        0 <= first_match(typ, val, entries) <= entries.len(),
        first_match(typ, val, entries) < entries.len() ==> entry_matches(
            typ,
            val,
            entries[first_match(typ, val, entries)],
        ),
        forall|j: int|
            0 <= j < first_match(typ, val, entries) ==> !entry_matches(
                typ,
                val,
                #[trigger] entries[j],
            ),
        first_match(typ, val, entries) == entries.len() <==> no_match(typ, val, entries),
    decreases entries.len(),
{
    if entries.len() > 0 && !entry_matches(typ, val, entries[0]) {
        let rest = entries.drop_first();
        lemma_first_match(typ, val, rest);
        assert forall|j: int| 0 <= j < first_match(typ, val, entries) implies !entry_matches(
            typ,
            val,
            #[trigger] entries[j],
        ) by {
            if j > 0 {
                assert(rest[j - 1] == entries[j]);
            }
        }
        if no_match(typ, val, entries) {
            assert forall|i: int| 0 <= i < rest.len() implies !entry_matches(
                typ,
                val,
                #[trigger] rest[i],
            ) by {
                assert(rest[i] == entries[i + 1]);
            }
        }
        if first_match(typ, val, entries) == entries.len() {
            assert forall|i: int| 0 <= i < entries.len() implies !entry_matches(
                typ,
                val,
                #[trigger] entries[i],
            ) by {
                if i > 0 {
                    assert(rest[i - 1] == entries[i]);
                }
            }
        }
    }
}

/// A heartbeat is nobody's reply.
pub proof fn lemma_heartbeat_never_matches(typ: FilterType, val: Seq<char>)
    ensures
        !entry_matches(typ, val, BusEntryView::Heartbeat),
{
}

/// A line that is no response is nobody's reply.
pub proof fn lemma_unparseable_never_matches(typ: FilterType, val: Seq<char>, line: Seq<u8>)
    requires
        line_response(line) is None,
    ensures
        !entry_matches(typ, val, BusEntryView::Line(line)),
{
}

/// A poll that ends with a reply ends with a response that the wait
/// accepts: for a wait by id, one that carries the wait's id.
pub proof fn lemma_matched_is_accepted(wait: WaitView, bus: BusView, now: nat)
    requires
        wait.poll(bus, now).0 is Matched,
    ensures
        accepts(wait.typ, wait.val, wait.poll(bus, now).0->Matched_0),
        wait.typ == FilterType::Id ==> wait.poll(bus, now).0->Matched_0.id == Some(wait.val),
{
    lemma_first_match(wait.typ, wait.val, wait.pending(bus));
}

/// Two calls never wait for the same id: the ids of the requests sent
/// at different counts differ.
pub proof fn lemma_ids_are_unique(first: nat, second: nat)
    requires
        first != second,
    ensures
        decimal_digits(first) != decimal_digits(second),
{
    if decimal_digits(first) == decimal_digits(second) {
        crate::text::lemma_decimal_injective(first, second);
    }
}

/// A response that carries the id of one call is never the outcome of
/// a wait for another call, whatever is on the bus and whenever the
/// other wait is polled.
pub proof fn lemma_reply_goes_to_issuer(
    issued: nat,
    response: ResponseView,
    other: WaitView,
    other_issued: nat,
    bus: BusView,
    now: nat,
)
    requires
        response.id == Some(decimal_digits(issued)),
        other.typ == FilterType::Id,
        other.val == decimal_digits(other_issued),
        other_issued != issued,
    ensures
        other.poll(bus, now).0 != WaitOutcomeView::Matched(response),
        accepts(FilterType::Id, decimal_digits(issued), response),
        !accepts(other.typ, other.val, response),
{
    lemma_ids_are_unique(issued, other_issued);
    if other.poll(bus, now).0 is Matched {
        lemma_matched_is_accepted(other, bus, now);
    }
}

/// A wait that has just been opened has nothing pending.
pub proof fn lemma_fresh_wait_has_no_match(wait: WaitView, bus: BusView)
    requires
        wait.cursor >= bus.end(),
    ensures
        wait.pending(bus).len() == 0,
        !wait.has_match(bus),
{
}

/// After a poll that did not end with a reply, no reply is pending.
pub proof fn lemma_no_match_after_poll(wait: WaitView, bus: BusView, now: nat)
    requires
        !wait.has_match(bus),
    ensures
        !(wait.poll(bus, now).0 is Matched),
        !wait.poll(bus, now).1.has_match(bus),
{
    if !wait.expired(now) && wait.pending(bus).len() > 0 {
        assert(wait.at(bus.end()).pending(bus).len() == 0);
    }
}

/// An entry that is not the reply does not become one by being
/// published: if no reply was pending before, none is pending after.
pub proof fn lemma_unrelated_entry_is_no_match(wait: WaitView, bus: BusView, entry: BusEntryView)
    requires
        bus.entries.len() <= bus.capacity,
        !wait.has_match(bus),
        !entry_matches(wait.typ, wait.val, entry),
    ensures
        !wait.has_match(bus.publish(entry)),
        bus.publish(entry).entries.len() <= bus.publish(entry).capacity,
{
    let before = wait.pending(bus);
    let later = bus.publish(entry);
    let after = wait.pending(later);
    lemma_first_match(wait.typ, wait.val, before);
    assert forall|i: int| 0 <= i < after.len() implies !entry_matches(
        wait.typ,
        wait.val,
        #[trigger] after[i],
    ) by {
        let n = later.pending_numbers(wait.cursor)[i];
        assert(after[i] == later.entry_at(n));
        if n != bus.end() {
            assert(bus.holds(n));
            assert(later.entry_at(n) == bus.entry_at(n));
            let j = n - bus.next(wait.cursor);
            assert(bus.pending_numbers(wait.cursor)[j] == n);
            assert(before[j] == bus.entry_at(n));
        }
    }
    lemma_first_match(wait.typ, wait.val, after);
}

/// What happens around a wait: an entry is published, or the wait is
/// polled at some time.
pub enum Step {
    Publish(BusEntryView),
    Poll(nat),
}

/// Whether, in a run of steps, every poll of the wait ends without a
/// reply: as timed out once the wait's time is up, as pending before.
pub open spec fn run_without_reply(wait: WaitView, bus: BusView, steps: Seq<Step>) -> bool
    decreases steps.len(),
{
    if steps.len() == 0 {
        true
    } else {
        match steps[0] {
            Step::Publish(entry) => run_without_reply(wait, bus.publish(entry), steps.drop_first()),
            Step::Poll(now) => {
                &&& wait.poll(bus, now).0 == if wait.expired(now) {
                    WaitOutcomeView::TimedOut
                } else {
                    WaitOutcomeView::Pending
                }
                &&& run_without_reply(wait.poll(bus, now).1, bus, steps.drop_first())
            },
        }
    }
}

/// If nothing that is published while a call waits is its reply, then
/// the call is never matched, however many other lines and heartbeats
/// arrive and however often it is polled: every poll before the
/// deadline ends as pending, and every poll from the deadline on ends as
/// timed out.
pub proof fn lemma_timeout_without_reply(wait: WaitView, bus: BusView, steps: Seq<Step>)
    requires
        bus.entries.len() <= bus.capacity,
        !wait.has_match(bus),
        forall|i: int|
            0 <= i < steps.len() ==> (#[trigger] steps[i] matches Step::Publish(entry)
                ==> !entry_matches(wait.typ, wait.val, entry)),
    ensures
        run_without_reply(wait, bus, steps),
    decreases steps.len(),
{
    if steps.len() > 0 {
        let rest = steps.drop_first();
        assert forall|i: int| 0 <= i < rest.len() implies (#[trigger] rest[i] matches Step::Publish(
            entry,
        ) ==> !entry_matches(wait.typ, wait.val, entry)) by {
            assert(rest[i] == steps[i + 1]);
        }
        match steps[0] {
            Step::Publish(entry) => {
                lemma_unrelated_entry_is_no_match(wait, bus, entry);
                lemma_timeout_without_reply(wait, bus.publish(entry), rest);
            },
            Step::Poll(now) => {
                lemma_no_match_after_poll(wait, bus, now);
                let after = wait.poll(bus, now).1;
                assert(after.typ == wait.typ && after.val == wait.val);
                lemma_timeout_without_reply(after, bus, rest);
            },
        }
    }
}

} // verus!
