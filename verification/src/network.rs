//! The event dispatcher. It takes one intent at a time, turns it into
//! calls of the protocol client, and is the only writer of the account,
//! contacts and conversations of the application state.
//!
//! The dispatcher itself neither writes to the daemon nor waits: for an
//! intent it returns the `Action` that the caller has to carry out, and
//! for a call that was waited for it takes the reply in `handle_reply`.

use crate::app::{
    keeps_history, lemma_keeps_history_refl, lemma_keeps_history_trans, with_message, App, AppView,
    Contact, ContactView, ConversationView, Message, MessageView,
};
use crate::bus::{lemma_pending_after_read, BusEntry, BusEntryView, Subscription};
use crate::signald::signald::{
    correlated, framed, send_request_of, Call, FilterType, Signald, SignaldView,
};
use crate::signald::signaldresponse::{
    line_response, Account, AccountView, MessageData, MessageDataView, ResponseType,
    ResponseTypeView, ResponseView, SignaldResponse,
};
use crate::text::decimal_digits;
use vstd::prelude::*;

verus! {

/// What the interface asks a message to be sent with.
#[derive(Debug, PartialEq, Eq)]
pub struct SendMessageData {
    pub recipient: String,
    pub message: String,
}

/// An intent for the dispatcher.
#[derive(Debug, PartialEq, Eq)]
pub enum IoEvent {
    Subscribe,
    GetContactList,
    SendMessage(SendMessageData),
    LoadAccount,
    Tick,
}

/// The time at which an intent is handled: a monotonic clock for
/// deadlines, and the wall clock, in milliseconds since the epoch, for
/// the time stamps of messages.
#[derive(Clone, Copy, Debug)]
pub struct Clock {
    pub monotonic_ms: u64,
    pub unix_ms: i64,
}

/// The intent that a call was made for.
#[derive(Clone, Copy, Debug, PartialEq, Eq, Structural)]
pub enum Intent {
    LoadAccount,
    Subscribe,
    GetContactList,
}

/// What the caller has to do after the dispatcher has handled an
/// intent.
#[derive(Debug)]
pub enum Action {
    /// Nothing.
    Nothing,
    /// Write the line; no reply is awaited.
    Send(String),
    /// Write the call's line, poll its wait until it is matched or
    /// timed out, and hand the reply to `handle_reply` under the intent.
    Call(Call, Intent),
}

/// Why the dispatcher has to stop.
#[derive(Clone, Copy, Debug, PartialEq, Eq, Structural)]
pub enum DispatchError {
    /// The daemon did not answer the account query in time.
    Timeout,
    /// The daemon's answer to the account query names no account.
    Configuration,
}

/// The contact of a contact-array entry.
pub open spec fn contact_of(account: AccountView) -> ContactView {
    ContactView { number: account.number, name: account.name, color: account.color }
}

/// The contacts of a contact array.
pub open spec fn contacts_of_accounts(accounts: Seq<AccountView>) -> Seq<ContactView> {
    accounts.map_values(|a: AccountView| contact_of(a))
}

/// The conversations after an envelope was processed for the user
/// `username`: a message that the user sent from another device goes to
/// the conversation with its destination, and a message from someone
/// goes to the conversation with its source.
pub open spec fn after_envelope(
    conversations: Seq<ConversationView>,
    username: Seq<char>,
    envelope: MessageDataView,
) -> Seq<ConversationView> {
    let synced = match envelope.sync_message {
        Some(sync) => match sync.sent {
            Some(sent) => with_message(
                conversations,
                sent.destination,
                MessageView {
                    sender: username,
                    receiver: sent.destination,
                    timestamp: sent.timestamp,
                    message: sent.message,
                },
            ),
            None => conversations,
        },
        None => conversations,
    };
    match (envelope.data_message, envelope.source) {
        (Some(message), Some(source)) => with_message(
            synced,
            source,
            MessageView {
                sender: source,
                receiver: username,
                timestamp: message.timestamp,
                message: message.message,
            },
        ),
        _ => synced,
    }
}

/// The conversations after an unsolicited response was processed: only
/// a message envelope changes anything.
pub open spec fn after_response(
    conversations: Seq<ConversationView>,
    username: Seq<char>,
    response: ResponseView,
) -> Seq<ConversationView> {
    match response.data {
        ResponseTypeView::Message(envelope) => after_envelope(conversations, username, envelope),
        _ => conversations,
    }
}

/// The conversations after a bus entry was processed: a heartbeat and a
/// line that is no response change nothing.
pub open spec fn after_entry(
    conversations: Seq<ConversationView>,
    username: Seq<char>,
    entry: BusEntryView,
) -> Seq<ConversationView> {
    match entry {
        BusEntryView::Heartbeat => conversations,
        BusEntryView::Line(line) => match line_response(line) {
            Some(response) => after_response(conversations, username, response),
            None => conversations,
        },
    }
}

/// The conversations after `entries` were processed in order.
pub open spec fn after_entries(
    conversations: Seq<ConversationView>,
    username: Seq<char>,
    entries: Seq<BusEntryView>,
) -> Seq<ConversationView>
    decreases entries.len(),
{
    if entries.len() == 0 {
        conversations
    } else {
        after_entries(
            after_entry(conversations, username, entries[0]),
            username,
            entries.drop_first(),
        )
    }
}

/// The dispatcher.
#[derive(Debug)]
pub struct Network {
    username: String,
    pub signald: Signald,
    bus_rx: Subscription,
}

/// The mathematical value of a `Network`: the active user name, the
/// protocol client, and the cursor of the subscription from which
/// unsolicited events are read.
pub struct NetworkView {
    pub username: Seq<char>,
    pub signald: SignaldView,
    pub cursor: nat,
}

impl View for Network {
    type V = NetworkView;

    closed spec fn view(&self) -> NetworkView {
        NetworkView { username: self.username@, signald: self.signald@, cursor: self.bus_rx@ }
    }
}

impl NetworkView {
    /// The unsolicited events that have not been processed yet.
    pub open spec fn pending(self) -> Seq<BusEntryView> {
        self.signald.socket.bus.pending(self.cursor)
    }
}

/// Processes one envelope for the user `username`.
fn apply_envelope(app: &mut App, username: &String, envelope: &MessageData)
    requires
        old(app).wf(),
    ensures
        final(app).wf(),
        final(app)@ == (AppView {
            conversations: after_envelope(
                old(app)@.conversations,
                username@,
                envelope.deep_view(),
            ),
            ..old(app)@
        }),
        keeps_history(old(app)@.conversations, final(app)@.conversations),
{
    if let Some(sync) = &envelope.sync_message {
        if let Some(sent) = &sync.sent {
            let message = Message {
                message: sent.message.clone(),
                sender: username.clone(),
                receiver: sent.destination.clone(),
                timestamp: sent.timestamp,
            };
            app.push_message(sent.destination.as_str(), message);
        }
    }
    let ghost synced = app@.conversations;
    if let Some(received) = &envelope.data_message {
        if let Some(source) = &envelope.source {
            let message = Message {
                message: received.message.clone(),
                sender: source.clone(),
                receiver: username.clone(),
                timestamp: received.timestamp,
            };
            app.push_message(source.as_str(), message);
            proof {
                lemma_keeps_history_trans(old(app)@.conversations, synced, app@.conversations);
            }
        }
    }
}

/// Processes one unsolicited response for the user `username`.
fn apply_response(app: &mut App, username: &String, response: &SignaldResponse)
    requires
        old(app).wf(),
    ensures
        final(app).wf(),
        final(app)@ == (AppView {
            conversations: after_response(
                old(app)@.conversations,
                username@,
                response.deep_view(),
            ),
            ..old(app)@
        }),
        keeps_history(old(app)@.conversations, final(app)@.conversations),
{
    match &response.data {
        ResponseType::Message(envelope) => {
            apply_envelope(app, username, envelope);
        },
        _ => {},
    }
}

/// Processes one bus entry for the user `username`.
fn apply_entry(app: &mut App, username: &String, entry: &BusEntry)
    requires
        old(app).wf(),
    ensures
        final(app).wf(),
        final(app)@ == (AppView {
            conversations: after_entry(old(app)@.conversations, username@, entry.deep_view()),
            ..old(app)@
        }),
        keeps_history(old(app)@.conversations, final(app)@.conversations),
{
    match entry {
        BusEntry::Heartbeat => {},
        BusEntry::Line(line) => {
            if let Some(response) = SignaldResponse::parse(line.as_slice()) {
                apply_response(app, username, &response);
            }
        },
    }
}

/// The contacts of a contact array.
fn contacts_from(accounts: &Vec<Account>) -> (contacts: Vec<Contact>)
    ensures
        contacts.deep_view() == contacts_of_accounts(accounts.deep_view()),
{
    let mut contacts: Vec<Contact> = Vec::new();
    let mut i: usize = 0;
    while i < accounts.len()
        invariant
            i <= accounts.len(),
            contacts@.len() == i,
            forall|j: int|
                0 <= j < i ==> (#[trigger] contacts@[j]).deep_view() == contact_of(
                    accounts@[j].deep_view(),
                ),
        decreases accounts.len() - i,
    {
        let account = &accounts[i];
        let name = match &account.name {
            Some(name) => Some(name.clone()),
            None => None,
        };
        let color = match &account.color {
            Some(color) => Some(color.clone()),
            None => None,
        };
        contacts.push(Contact { name, number: account.number.clone(), color });
        i += 1;
    }
    assert(contacts.deep_view() =~= contacts_of_accounts(accounts.deep_view()));
    contacts
}

impl Network {
    /// The representation invariant.
    pub closed spec fn wf(&self) -> bool {
        self.signald.wf()
    }

    /// A dispatcher for the daemon at `socket_path`: no active user,
    /// nothing sent, and a subscription for unsolicited events that
    /// starts with the next entry published.
    pub fn new(socket_path: String) -> (network: Network)
        ensures
            network.wf(),
            network@.username == Seq::<char>::empty(),
            network@.signald.message_count == 0,
            network@.signald.socket.socket_path == socket_path@,
            network@.cursor == 0,
            network@.pending() == Seq::<BusEntryView>::empty(),
    {
        let signald = Signald::connect(socket_path);
        let bus_rx = signald.get_rx();
        let network = Network { username: String::new(), signald, bus_rx };
        assert(network@.pending() =~= Seq::<BusEntryView>::empty());
        network
    }

    /// The active user name; empty until an account is loaded.
    pub fn username(&self) -> (username: &String)
        ensures
            username@ == self@.username,
    {
        &self.username
    }

    /// Processes every unsolicited event that is waiting, in order, and
    /// stops when the bus reports empty.
    pub fn handle_responses(&mut self, app: &mut App)
        requires
            old(self).wf(),
            old(app).wf(),
        ensures
            final(self).wf(),
            final(app).wf(),
            final(self)@ == (NetworkView { cursor: final(self)@.cursor, ..old(self)@ }),
            final(self)@.pending().len() == 0,
            final(self)@.cursor >= old(self)@.cursor,
            final(app)@ == (AppView {
                conversations: after_entries(
                    old(app)@.conversations,
                    old(self)@.username,
                    old(self)@.pending(),
                ),
                ..old(app)@
            }),
            keeps_history(old(app)@.conversations, final(app)@.conversations),
    {
        let ghost bus = self@.signald.socket.bus;
        let ghost all = self@.pending();
        let ghost mut done: int = 0;
        proof {
            assert(all.skip(0) =~= all);
            lemma_keeps_history_refl(app@.conversations);
        }
        loop
            invariant
                self.wf(),
                app.wf(),
                self@ == (NetworkView { cursor: self@.cursor, ..old(self)@ }),
                bus == self@.signald.socket.bus,
                all == old(self)@.pending(),
                0 <= done <= all.len(),
                self@.pending() == all.skip(done),
                self@.cursor >= old(self)@.cursor,
                app@ == (AppView { conversations: app@.conversations, ..old(app)@ }),
                after_entries(old(app)@.conversations, old(self)@.username, all) == after_entries(
                    app@.conversations,
                    old(self)@.username,
                    all.skip(done),
                ),
                keeps_history(old(app)@.conversations, app@.conversations),
            decreases all.len() - done,
        {
            let ghost cursor = self.bus_rx@;
            let ghost before = app@.conversations;
            match self.signald.socket().bus().try_recv(&mut self.bus_rx) {
                Some(entry) => {
                    proof {
                        lemma_pending_after_read(bus, cursor);
                        assert(all.skip(done)[0] == entry.deep_view());
                        assert(all.skip(done).drop_first() =~= all.skip(done + 1));
                    }
                    apply_entry(app, &self.username, entry);
                    proof {
                        lemma_keeps_history_trans(
                            old(app)@.conversations,
                            before,
                            app@.conversations,
                        );
                        done = done + 1;
                    }
                },
                None => {
                    proof {
                        assert(bus.pending_numbers(cursor).len() == 0);
                        assert(all.skip(done).len() == 0);
                    }
                    return ;
                },
            }
        }
    }
}

/// The message that is recorded for a send: from the user to the
/// recipient, stamped with the time of sending.
pub open spec fn outgoing(
    username: Seq<char>,
    recipient: Seq<char>,
    body: Seq<char>,
    unix_ms: i64,
) -> MessageView {
    MessageView { sender: username, receiver: recipient, timestamp: unix_ms, message: body }
}

/// The accounts that a reply to the account query names, if it names
/// any.
pub open spec fn accounts_in(reply: Option<ResponseView>) -> Option<Seq<Seq<char>>> {
    match reply {
        Some(response) => match response.data {
            ResponseTypeView::AccountList(accounts) => if accounts.len() > 0 {
                Some(accounts)
            } else {
                None
            },
            _ => None,
        },
        None => None,
    }
}

/// The contacts that a reply to the contact query lists, if it lists
/// contacts.
pub open spec fn contacts_in(reply: Option<ResponseView>) -> Option<Seq<ContactView>> {
    match reply {
        Some(response) => match response.data {
            ResponseTypeView::ContactList(accounts) => Some(contacts_of_accounts(accounts)),
            _ => None,
        },
        None => None,
    }
}

impl Network {
    /// Sends a message: returns the line to write, and appends the
    /// message to the conversation with the recipient at once, without
    /// waiting for anything from the daemon.
    pub fn send_message(&mut self, app: &mut App, data: SendMessageData, unix_ms: i64) -> (line:
        String)
        requires
            old(self).wf(),
            old(app).wf(),
            old(self)@.signald.message_count < u64::MAX,
        ensures
            final(self).wf(),
            final(app).wf(),
            final(self)@ == (NetworkView { signald: old(self)@.signald.sent(), ..old(self)@ }),
            line@ == framed(
                send_request_of(old(self)@.username, data.recipient@, Some(data.message@)),
            ),
            final(app)@ == old(app)@.with_message(
                data.recipient@,
                outgoing(old(app)@.username, data.recipient@, data.message@, unix_ms),
            ),
            keeps_history(old(app)@.conversations, final(app)@.conversations),
    {
        let line = self.signald.send(
            self.username.clone(),
            data.recipient.clone(),
            Some(data.message.clone()),
        );
        let sender = app.username().clone();
        let message = Message {
            message: data.message,
            receiver: data.recipient.clone(),
            sender,
            timestamp: unix_ms,
        };
        app.push_message(data.recipient.as_str(), message);
        line
    }

    /// Takes the reply to the account query. The first account that
    /// the reply names becomes the active user and the state is marked
    /// ready. No reply in time, or a reply that names no account, is an
    /// error, and nothing changes.
    pub fn load_accounts(&mut self, app: &mut App, reply: Option<SignaldResponse>) -> (result:
        Result<(), DispatchError>)
        requires
            old(self).wf(),
            old(app).wf(),
        ensures
            final(self).wf(),
            final(app).wf(),
            match accounts_in(reply.deep_view()) {
                Some(accounts) => {
                    &&& result is Ok
                    &&& final(self)@ == (NetworkView { username: accounts[0], ..old(self)@ })
                    &&& final(app)@ == (AppView {
                        username: accounts[0],
                        loaded: true,
                        ..old(app)@
                    })
                },
                None => {
                    &&& result == Err::<(), DispatchError>(
                        if reply is None {
                            DispatchError::Timeout
                        } else {
                            DispatchError::Configuration
                        },
                    )
                    &&& final(self)@ == old(self)@
                    &&& final(app)@ == old(app)@
                },
            },
    {
        match reply {
            None => Err(DispatchError::Timeout),
            Some(response) => match response.data {
                ResponseType::AccountList(accounts) => {
                    if accounts.len() == 0 {
                        return Err(DispatchError::Configuration);
                    }
                    let username = accounts[0].clone();
                    self.username = username.clone();
                    app.set_account(username);
                    Ok(())
                },
                _ => Err(DispatchError::Configuration),
            },
        }
    }

    /// Takes the reply to the contact query. If it lists contacts, they
    /// replace the contact list, whole; otherwise nothing changes.
    pub fn get_contact_list(&mut self, app: &mut App, reply: Option<SignaldResponse>)
        requires
            old(self).wf(),
            old(app).wf(),
        ensures
            final(self).wf(),
            final(app).wf(),
            final(self)@ == old(self)@,
            final(app)@ == match contacts_in(reply.deep_view()) {
                Some(contacts) => old(app)@.with_contacts(contacts),
                None => old(app)@,
            },
            keeps_history(old(app)@.conversations, final(app)@.conversations),
    {
        proof {
            lemma_keeps_history_refl(app@.conversations);
        }
        if let Some(response) = reply {
            if let ResponseType::ContactList(accounts) = response.data {
                app.update_contacts(contacts_from(&accounts));
            }
        }
    }

    /// Handles one intent at time `now` and says what the caller has to
    /// do for it.
    ///
    /// The three queries yield a call, whose reply goes to
    /// `handle_reply`. A send yields the line to write and records the
    /// message at once. A tick processes the unsolicited events that are
    /// waiting and yields nothing to do. Every intent but the tick sends
    /// a request, so the request counter must have room for one more.
    pub fn handle_event(&mut self, app: &mut App, io_event: IoEvent, now: Clock) -> (action: Action)
        requires
            old(self).wf(),
            old(app).wf(),
            !(io_event is Tick) ==> old(self)@.signald.message_count < u64::MAX,
        ensures
            final(self).wf(),
            final(app).wf(),
            keeps_history(old(app)@.conversations, final(app)@.conversations),
            match io_event {
                IoEvent::LoadAccount => {
                    &&& action matches Action::Call(call, intent)
                    &&& intent == Intent::LoadAccount
                    &&& call.line@ == framed(
                        correlated(
                            "list_accounts"@,
                            Seq::empty(),
                            old(self)@.signald.message_count,
                        ),
                    )
                    &&& call.wait@ == old(self)@.signald.wait(
                        FilterType::Id,
                        decimal_digits(old(self)@.signald.message_count),
                        now.monotonic_ms as nat,
                    )
                    &&& final(self)@ == (NetworkView {
                        signald: old(self)@.signald.sent(),
                        ..old(self)@
                    })
                    &&& final(app)@ == old(app)@
                },
                IoEvent::Subscribe => {
                    &&& action matches Action::Call(call, intent)
                    &&& intent == Intent::Subscribe
                    &&& call.line@ == framed(
                        correlated(
                            "subscribe"@,
                            old(self)@.username,
                            old(self)@.signald.message_count,
                        ),
                    )
                    &&& call.wait@ == old(self)@.signald.wait(
                        FilterType::Id,
                        decimal_digits(old(self)@.signald.message_count),
                        now.monotonic_ms as nat,
                    )
                    &&& final(self)@ == (NetworkView {
                        signald: old(self)@.signald.sent(),
                        ..old(self)@
                    })
                    &&& final(app)@ == old(app)@
                },
                IoEvent::GetContactList => {
                    &&& action matches Action::Call(call, intent)
                    &&& intent == Intent::GetContactList
                    &&& call.line@ == framed(
                        correlated(
                            "list_contacts"@,
                            old(self)@.username,
                            old(self)@.signald.message_count,
                        ),
                    )
                    &&& call.wait@ == old(self)@.signald.wait(
                        FilterType::Id,
                        decimal_digits(old(self)@.signald.message_count),
                        now.monotonic_ms as nat,
                    )
                    &&& final(self)@ == (NetworkView {
                        signald: old(self)@.signald.sent(),
                        ..old(self)@
                    })
                    &&& final(app)@ == old(app)@
                },
                IoEvent::SendMessage(data) => {
                    &&& action matches Action::Send(line)
                    &&& line@ == framed(
                        send_request_of(old(self)@.username, data.recipient@, Some(data.message@)),
                    )
                    &&& final(self)@ == (NetworkView {
                        signald: old(self)@.signald.sent(),
                        ..old(self)@
                    })
                    &&& final(app)@ == old(app)@.with_message(
                        data.recipient@,
                        outgoing(old(app)@.username, data.recipient@, data.message@, now.unix_ms),
                    )
                },
                IoEvent::Tick => {
                    &&& action is Nothing
                    &&& final(self)@ == (NetworkView {
                        cursor: final(self)@.cursor,
                        ..old(self)@
                    })
                    &&& final(self)@.pending().len() == 0
                    &&& final(app)@ == (AppView {
                        conversations: after_entries(
                            old(app)@.conversations,
                            old(self)@.username,
                            old(self)@.pending(),
                        ),
                        ..old(app)@
                    })
                },
            },
    {
        proof {
            lemma_keeps_history_refl(app@.conversations);
        }
        match io_event {
            IoEvent::GetContactList => {
                let call = self.signald.list_contacts(self.username.clone(), now.monotonic_ms);
                Action::Call(call, Intent::GetContactList)
            },
            IoEvent::Subscribe => {
                let call = self.signald.subscribe(self.username.clone(), now.monotonic_ms);
                Action::Call(call, Intent::Subscribe)
            },
            IoEvent::SendMessage(data) => {
                let line = self.send_message(app, data, now.unix_ms);
                Action::Send(line)
            },
            IoEvent::LoadAccount => {
                let call = self.signald.list_accounts(now.monotonic_ms);
                Action::Call(call, Intent::LoadAccount)
            },
            IoEvent::Tick => {
                self.handle_responses(app);
                Action::Nothing
            },
        }
    }

    /// Takes the outcome of a call that was made for `intent`: the
    /// reply, or `None` if the call timed out.
    ///
    /// Only the account query can fail; a time-out of the other two is
    /// passed over, and the state stays as it is.
    pub fn handle_reply(&mut self, app: &mut App, intent: Intent, reply: Option<SignaldResponse>) -> (result:
        Result<(), DispatchError>)
        requires
            old(self).wf(),
            old(app).wf(),
        ensures
            final(self).wf(),
            final(app).wf(),
            keeps_history(old(app)@.conversations, final(app)@.conversations),
            match intent {
                Intent::LoadAccount => match accounts_in(reply.deep_view()) {
                    Some(accounts) => {
                        &&& result is Ok
                        &&& final(self)@ == (NetworkView { username: accounts[0], ..old(self)@ })
                        &&& final(app)@ == (AppView {
                            username: accounts[0],
                            loaded: true,
                            ..old(app)@
                        })
                    },
                    None => {
                        &&& result == Err::<(), DispatchError>(
                            if reply is None {
                                DispatchError::Timeout
                            } else {
                                DispatchError::Configuration
                            },
                        )
                        &&& final(self)@ == old(self)@
                        &&& final(app)@ == old(app)@
                    },
                },
                Intent::Subscribe => {
                    &&& result is Ok
                    &&& final(self)@ == old(self)@
                    &&& final(app)@ == old(app)@
                },
                Intent::GetContactList => {
                    &&& result is Ok
                    &&& final(self)@ == old(self)@
                    &&& final(app)@ == match contacts_in(reply.deep_view()) {
                        Some(contacts) => old(app)@.with_contacts(contacts),
                        None => old(app)@,
                    }
                },
            },
    {
        proof {
            lemma_keeps_history_refl(app@.conversations);
        }
        match intent {
            Intent::LoadAccount => self.load_accounts(app, reply),
            Intent::Subscribe => Ok(()),
            Intent::GetContactList => {
                self.get_contact_list(app, reply);
                Ok(())
            },
        }
    }
}

} // verus!
