//! The shared application state: who the user is, the contact list, one
//! conversation per contact identifier, and the fields the interface
//! keeps for itself (input line, cursor, selection).
//!
//! The dispatcher is the only writer of the account, contact and
//! conversation fields. Conversations are append-only: no operation here
//! removes a conversation, or removes or reorders its messages.

use vstd::prelude::*;

verus! {

/// A cell of the terminal, by column and row.
#[derive(Clone, Copy, Debug, PartialEq, Eq, Structural)]
pub struct Point {
    pub x: u16,
    pub y: u16,
}

/// A contact: a stable identifier, and optionally a display name and a
/// color tag.
#[derive(Debug, PartialEq, Eq)]
pub struct Contact {
    pub number: String,
    pub name: Option<String>,
    pub color: Option<String>,
}

/// The mathematical value of a `Contact`.
pub struct ContactView {
    pub number: Seq<char>,
    pub name: Option<Seq<char>>,
    pub color: Option<Seq<char>>,
}

impl DeepView for Contact {
    type V = ContactView;

    open spec fn deep_view(&self) -> ContactView {
        ContactView {
            number: self.number@,
            name: self.name.deep_view(),
            color: self.color.deep_view(),
        }
    }
}

impl Clone for Contact {
    fn clone(&self) -> (copy: Contact)
        ensures
            copy.deep_view() == self.deep_view(),
    {
        let name = match &self.name {
            Some(s) => Some(s.clone()),
            None => None,
        };
        let color = match &self.color {
            Some(s) => Some(s.clone()),
            None => None,
        };
        Contact { number: self.number.clone(), name, color }
    }
}

/// One message of a conversation.
#[derive(Debug, PartialEq, Eq)]
pub struct Message {
    pub sender: String,
    pub receiver: String,
    pub timestamp: i64,
    pub message: String,
}

/// The mathematical value of a `Message`.
pub struct MessageView {
    pub sender: Seq<char>,
    pub receiver: Seq<char>,
    pub timestamp: i64,
    pub message: Seq<char>,
}

impl DeepView for Message {
    type V = MessageView;

    open spec fn deep_view(&self) -> MessageView {
        MessageView {
            sender: self.sender@,
            receiver: self.receiver@,
            timestamp: self.timestamp,
            message: self.message@,
        }
    }
}

impl Clone for Message {
    fn clone(&self) -> (copy: Message)
        ensures
            copy.deep_view() == self.deep_view(),
    {
        Message {
            sender: self.sender.clone(),
            receiver: self.receiver.clone(),
            timestamp: self.timestamp,
            message: self.message.clone(),
        }
    }
}

/// The messages exchanged with one contact, in the order in which they
/// were processed.
#[derive(Debug, PartialEq, Eq)]
pub struct Conversation {
    pub contact: Contact,
    pub messages: Vec<Message>,
}

/// The mathematical value of a `Conversation`.
pub struct ConversationView {
    pub contact: ContactView,
    pub messages: Seq<MessageView>,
}

impl DeepView for Conversation {
    type V = ConversationView;

    open spec fn deep_view(&self) -> ConversationView {
        ConversationView {
            contact: self.contact.deep_view(),
            messages: self.messages.deep_view(),
        }
    }
}

impl Conversation {
    /// An empty conversation with `contact`.
    pub fn new(contact: Contact) -> (conversation: Conversation)
        ensures
            conversation.deep_view() == (ConversationView {
                contact: contact.deep_view(),
                messages: Seq::empty(),
            }),
    {
        let conversation = Conversation { contact, messages: Vec::new() };
        assert(conversation.messages.deep_view() =~= Seq::empty());
        conversation
    }
}

impl Clone for Conversation {
    fn clone(&self) -> (copy: Conversation)
        ensures
            copy.deep_view() == self.deep_view(),
    {
        let mut messages: Vec<Message> = Vec::new();
        let mut i: usize = 0;
        while i < self.messages.len()
            invariant
                i <= self.messages.len(),
                messages@.len() == i,
                forall|j: int|
                    0 <= j < i ==> #[trigger] messages@[j].deep_view()
                        == self.messages@[j].deep_view(),
            decreases self.messages.len() - i,
        {
            messages.push(self.messages[i].clone());
            i += 1;
        }
        assert(messages.deep_view() =~= self.messages.deep_view());
        Conversation { contact: self.contact.clone(), messages }
    }
}

/// The position of the first conversation keyed by `number`, or the
/// length of the list if there is none.
pub open spec fn index_of(conversations: Seq<ConversationView>, number: Seq<char>) -> int
    decreases conversations.len(),
{
    if conversations.len() == 0 {
        0
    } else if conversations[0].contact.number == number {
        0
    } else {
        1 + index_of(conversations.drop_first(), number)
    }
}

/// No two conversations are keyed by the same identifier.
pub open spec fn distinct_keys(conversations: Seq<ConversationView>) -> bool {
    forall|i: int, j: int|
        0 <= i < j < conversations.len() ==> (#[trigger] conversations[i]).contact.number != (
        #[trigger] conversations[j]).contact.number
}

/// The contact under which a conversation is opened when a message
/// arrives for an identifier that is in no contact list yet.
pub open spec fn bare_contact(number: Seq<char>) -> ContactView {
    ContactView { number, name: None, color: None }
}

/// The conversations after one for `contact` was added, unless one keyed
/// by the same identifier was there already.
pub open spec fn with_conversation(
    conversations: Seq<ConversationView>,
    contact: ContactView,
) -> Seq<ConversationView> {
    if index_of(conversations, contact.number) < conversations.len() {
        conversations
    } else {
        conversations.push(ConversationView { contact, messages: Seq::empty() })
    }
}

/// The conversations after `message` was appended to the one keyed by
/// `number`, which is opened first if it does not exist.
pub open spec fn with_message(
    conversations: Seq<ConversationView>,
    number: Seq<char>,
    message: MessageView,
) -> Seq<ConversationView> {
    let all = with_conversation(conversations, bare_contact(number));
    let i = index_of(all, number);
    all.update(
        i,
        ConversationView { contact: all[i].contact, messages: all[i].messages.push(message) },
    )
}

/// The display name given to the user's own contact entry when the
/// daemon sends none.
pub open spec fn own_name() -> Seq<char> {
    seq!['M', 'e']
}

/// A contact as it is stored: the user's own entry gets the default
/// name if it has no name or an empty one.
pub open spec fn named(contact: ContactView, username: Seq<char>) -> ContactView {
    if contact.number == username && (contact.name is None || contact.name == Some(
        Seq::<char>::empty(),
    )) {
        ContactView { number: contact.number, name: Some(own_name()), color: contact.color }
    } else {
        contact
    }
}

/// The contact list as it is stored.
pub open spec fn named_all(contacts: Seq<ContactView>, username: Seq<char>) -> Seq<ContactView> {
    contacts.map_values(|c: ContactView| named(c, username))
}

/// The conversations after one was opened, in list order, for every
/// contact of `contacts` that had none.
pub open spec fn with_conversations(
    conversations: Seq<ConversationView>,
    contacts: Seq<ContactView>,
) -> Seq<ConversationView>
    decreases contacts.len(),
{
    if contacts.len() == 0 {
        conversations
    } else {
        with_conversations(with_conversation(conversations, contacts[0]), contacts.drop_first())
    }
}

/// Whether `later` keeps everything that `earlier` holds: every
/// conversation is still at its place, with the same contact, and its
/// messages are a prefix of what it holds later.
pub open spec fn keeps_history(
    earlier: Seq<ConversationView>,
    later: Seq<ConversationView>,
) -> bool {
    &&& earlier.len() <= later.len()
    &&& forall|i: int|
        0 <= i < earlier.len() ==> {
            &&& (#[trigger] later[i]).contact == earlier[i].contact
            &&& earlier[i].messages.is_prefix_of(later[i].messages)
        }
}

/// `index_of` finds the first conversation with the key: everything
/// before it has another key.
pub proof fn lemma_index_of(conversations: Seq<ConversationView>, number: Seq<char>)
    ensures
        0 <= index_of(conversations, number) <= conversations.len(),
        index_of(conversations, number) < conversations.len() ==> conversations[index_of(
            conversations,
            number,
        )].contact.number == number,
        forall|j: int|
            0 <= j < index_of(conversations, number) ==> (
            #[trigger] conversations[j]).contact.number != number,
    decreases conversations.len(),
{
    if conversations.len() > 0 && conversations[0].contact.number != number {
        let rest = conversations.drop_first();
        lemma_index_of(rest, number);
        assert forall|j: int| 0 <= j < index_of(conversations, number) implies (
        #[trigger] conversations[j]).contact.number != number by {
            if j > 0 {
                assert(rest[j - 1] == conversations[j]);
            }
        }
    }
}

/// A position whose conversation has the key, with no earlier one that
/// has it, is what `index_of` finds; so is the length, if no
/// conversation has the key.
pub proof fn lemma_index_of_is(conversations: Seq<ConversationView>, number: Seq<char>, i: int)
    requires
        0 <= i <= conversations.len(),
        i < conversations.len() ==> conversations[i].contact.number == number,
        forall|j: int| 0 <= j < i ==> (#[trigger] conversations[j]).contact.number != number,
    ensures
        index_of(conversations, number) == i,
{
    lemma_index_of(conversations, number);
}

/// The application state.
#[derive(Debug)]
pub struct App {
    loaded: bool,
    username: String,
    contacts: Vec<Contact>,
    conversations: Vec<Conversation>,
    input: Vec<char>,
    input_position: usize,
    draw_cursor: bool,
    cursor_pos: Point,
    selected_contact_index: usize,
    focused_view: crate::focus::View,
}

/// The mathematical value of an `App`.
pub struct AppView {
    pub loaded: bool,
    pub username: Seq<char>,
    pub contacts: Seq<ContactView>,
    pub conversations: Seq<ConversationView>,
    pub input: Seq<char>,
    pub input_position: nat,
    pub draw_cursor: bool,
    pub cursor_pos: Point,
    pub selected_contact_index: nat,
    pub focused_view: crate::focus::View,
}

impl AppView {
    /// The state at start: no account, no contacts, no conversations, an
    /// empty input line, the contact pane focused.
    pub open spec fn initial() -> AppView {
        AppView {
            loaded: false,
            username: Seq::empty(),
            contacts: Seq::empty(),
            conversations: Seq::empty(),
            input: Seq::empty(),
            input_position: 0,
            draw_cursor: false,
            cursor_pos: Point { x: 0, y: 0 },
            selected_contact_index: 0,
            focused_view: crate::focus::View::Contacts,
        }
    }

    /// Whether a conversation keyed by `number` exists.
    pub open spec fn has_conversation(self, number: Seq<char>) -> bool {
        index_of(self.conversations, number) < self.conversations.len()
    }

    /// The conversation keyed by `number`, if there is one.
    pub open spec fn conversation(self, number: Seq<char>) -> Option<ConversationView> {
        if self.has_conversation(number) {
            Some(self.conversations[index_of(self.conversations, number)])
        } else {
            None
        }
    }

    /// The contact under the selection, if the selection points at one.
    pub open spec fn selected_contact(self) -> Option<ContactView> {
        if self.selected_contact_index < self.contacts.len() {
            Some(self.contacts[self.selected_contact_index as int])
        } else {
            None
        }
    }
}

impl View for App {
    type V = AppView;

    closed spec fn view(&self) -> AppView {
        AppView {
            loaded: self.loaded,
            username: self.username@,
            contacts: self.contacts.deep_view(),
            conversations: self.conversations.deep_view(),
            input: self.input@,
            input_position: self.input_position as nat,
            draw_cursor: self.draw_cursor,
            cursor_pos: self.cursor_pos,
            selected_contact_index: self.selected_contact_index as nat,
            focused_view: self.focused_view,
        }
    }
}

impl App {
    /// The representation invariant: no two conversations share a key,
    /// and the input position lies within the input line.
    pub closed spec fn wf(&self) -> bool {
        &&& distinct_keys(self.conversations.deep_view())
        &&& self.input_position <= self.input@.len()
    }

    /// What the invariant means for the state's value.
    pub proof fn lemma_wf(&self)
        requires
            self.wf(),
        ensures
            distinct_keys(self@.conversations),
            self@.input_position <= self@.input.len(),
    {
    }

    /// The state at start.
    pub fn new() -> (app: App)
        ensures
            app.wf(),
            app@ == AppView::initial(),
    {
        let app = App {
            loaded: false,
            username: String::new(),
            contacts: Vec::new(),
            conversations: Vec::new(),
            input: Vec::new(),
            input_position: 0,
            draw_cursor: false,
            cursor_pos: Point { x: 0, y: 0 },
            selected_contact_index: 0,
            focused_view: crate::focus::View::Contacts,
        };
        assert(app@.contacts =~= Seq::empty());
        assert(app@.conversations =~= Seq::empty());
        assert(app@.input =~= Seq::empty());
        app
    }

    /// The position of the conversation keyed by `number`, or the number
    /// of conversations if there is none.
    fn find(&self, number: &String) -> (i: usize)
        ensures
            i == index_of(self@.conversations, number@),
            i <= self.conversations@.len(),
    {
        let mut i: usize = 0;
        while i < self.conversations.len()
            invariant
                i <= self.conversations@.len(),
                forall|j: int|
                    0 <= j < i ==> (#[trigger] self@.conversations[j]).contact.number != number@,
            decreases self.conversations@.len() - i,
        {
            if self.conversations[i].contact.number == *number {
                proof {
                    lemma_index_of_is(self@.conversations, number@, i as int);
                }
                return i;
            }
            i += 1;
        }
        proof {
            lemma_index_of_is(self@.conversations, number@, i as int);
        }
        i
    }

    /// The conversation keyed by `contact`, if there is one.
    pub fn get_conversation(&self, contact: &str) -> (found: Option<&Conversation>)
        ensures
            found.deep_view() == self@.conversation(contact@),
    {
        let key = String::from_str(contact);
        let i = self.find(&key);
        if i < self.conversations.len() {
            Some(&self.conversations[i])
        } else {
            None
        }
    }

    /// The contact under the selection, if the selection points at one.
    pub fn get_selected_contact(&self) -> (found: Option<Contact>)
        ensures
            found.deep_view() == self@.selected_contact(),
    {
        if self.selected_contact_index < self.contacts.len() {
            Some(self.contacts[self.selected_contact_index].clone())
        } else {
            None
        }
    }

    /// The conversation with the selected contact, if a contact is
    /// selected and has one.
    pub fn get_current_conversation(&self) -> (found: Option<&Conversation>)
        ensures
            found.deep_view() == match self@.selected_contact() {
                Some(contact) => self@.conversation(contact.number),
                None => None,
            },
    {
        if self.selected_contact_index < self.contacts.len() {
            let i = self.find(&self.contacts[self.selected_contact_index].number);
            if i < self.conversations.len() {
                Some(&self.conversations[i])
            } else {
                None
            }
        } else {
            None
        }
    }
}

impl App {
    /// Opens an empty conversation with `contact`, unless one keyed by the
    /// same identifier exists already.
    pub fn add_conversation(&mut self, contact: Contact)
        requires
            old(self).wf(),
        ensures
            final(self).wf(),
            final(self)@ == (AppView {
                conversations: with_conversation(old(self)@.conversations, contact.deep_view()),
                ..old(self)@
            }),
            keeps_history(old(self)@.conversations, final(self)@.conversations),
    {
        let i = self.find(&contact.number);
        if i == self.conversations.len() {
            proof {
                lemma_index_of(self@.conversations, contact.number@);
            }
            let conversation = Conversation::new(contact);
            self.conversations.push(conversation);
            assert(self.conversations.deep_view() =~= old(self).conversations.deep_view().push(
                conversation.deep_view(),
            ));
        }
    }

    /// The conversation keyed by `contact`, which is opened first, under
    /// a contact that has the identifier and nothing else, if it does
    /// not exist.
    pub fn get_or_create_conversation(&mut self, contact: &str) -> (found: &Conversation)
        requires
            old(self).wf(),
        ensures
            final(self).wf(),
            final(self)@ == (AppView {
                conversations: with_conversation(
                    old(self)@.conversations,
                    bare_contact(contact@),
                ),
                ..old(self)@
            }),
            keeps_history(old(self)@.conversations, final(self)@.conversations),
            final(self)@.conversation(contact@) == Some(found.deep_view()),
    {
        let key = String::from_str(contact);
        let i = self.find(&key);
        if i == self.conversations.len() {
            self.add_conversation(Contact { number: key, name: None, color: None });
        }
        proof {
            lemma_index_of(old(self)@.conversations, contact@);
            lemma_index_of_is(self@.conversations, contact@, i as int);
        }
        &self.conversations[i]
    }

    /// Appends `message` to the conversation keyed by `contact`. If there
    /// is none yet, one is opened first, under a contact that has the
    /// identifier and nothing else.
    pub fn push_message(&mut self, contact: &str, message: Message)
        requires
            old(self).wf(),
        ensures
            final(self).wf(),
            final(self)@ == old(self)@.with_message(contact@, message.deep_view()),
            keeps_history(old(self)@.conversations, final(self)@.conversations),
    {
        let key = String::from_str(contact);
        let i = self.find(&key);
        if i == self.conversations.len() {
            self.add_conversation(Contact { number: key, name: None, color: None });
        }
        let ghost opened = self@.conversations;
        proof {
            lemma_index_of(opened, contact@);
            assert(opened == with_conversation(old(self)@.conversations, bare_contact(contact@)));
            assert(i == index_of(opened, contact@)) by {
                lemma_index_of(old(self)@.conversations, contact@);
                lemma_index_of_is(opened, contact@, i as int);
            }
        }
        self.conversations[i].messages.push(message);
        proof {
            let after = self.conversations.deep_view();
            let expect = opened.update(
                i as int,
                ConversationView {
                    contact: opened[i as int].contact,
                    messages: opened[i as int].messages.push(message.deep_view()),
                },
            );
            assert(self.conversations@[i as int].messages.deep_view() =~= opened[i as int].messages.push(
                message.deep_view(),
            ));
            assert(after =~= expect);
        }
    }

    /// Moves the selection to `contact_index`, once an account is loaded
    /// and if the index is below the number of conversations; otherwise
    /// the selection stays.
    pub fn select_conversation(&mut self, contact_index: usize)
        requires
            old(self).wf(),
        ensures
            final(self).wf(),
            final(self)@ == (AppView {
                selected_contact_index: if old(self)@.loaded && contact_index < old(
                    self,
                )@.conversations.len() {
                    contact_index as nat
                } else {
                    old(self)@.selected_contact_index
                },
                ..old(self)@
            }),
    {
        if self.loaded && contact_index < self.conversations.len() {
            self.selected_contact_index = contact_index;
        }
    }

    /// Adopts `username` as the active account and marks the state
    /// ready.
    pub fn set_account(&mut self, username: String)
        requires
            old(self).wf(),
        ensures
            final(self).wf(),
            final(self)@ == (AppView { username: username@, loaded: true, ..old(self)@ }),
    {
        self.username = username;
        self.loaded = true;
    }
}

/// Every list of conversations keeps its own history.
pub proof fn lemma_keeps_history_refl(conversations: Seq<ConversationView>)
    ensures
        keeps_history(conversations, conversations),
{
    assert forall|i: int| 0 <= i < conversations.len() implies conversations[i].messages.is_prefix_of(
        (#[trigger] conversations[i]).messages,
    ) by {
        let m = conversations[i].messages;
        assert(m =~= m.subrange(0, m.len() as int));
    }
}

/// Keeping history is transitive.
pub proof fn lemma_keeps_history_trans(
    a: Seq<ConversationView>,
    b: Seq<ConversationView>,
    c: Seq<ConversationView>,
)
    requires
        keeps_history(a, b),
        keeps_history(b, c),
    ensures
        keeps_history(a, c),
{
    assert forall|i: int| 0 <= i < a.len() implies {
        &&& (#[trigger] c[i]).contact == a[i].contact
        &&& a[i].messages.is_prefix_of(c[i].messages)
    } by {
        assert(b[i].contact == a[i].contact);
        assert(a[i].messages.is_prefix_of(b[i].messages));
        assert(b[i].messages.is_prefix_of(c[i].messages));
        assert(a[i].messages =~= c[i].messages.subrange(0, a[i].messages.len() as int)) by {
            assert(a[i].messages =~= b[i].messages.subrange(0, a[i].messages.len() as int));
            assert(b[i].messages =~= c[i].messages.subrange(0, b[i].messages.len() as int));
        }
    }
}

impl App {
    /// Replaces the contact list by `contacts`, whole. The user's own
    /// entry gets the default name if it has none, and every contact
    /// that has no conversation yet gets an empty one.
    pub fn update_contacts(&mut self, contacts: Vec<Contact>)
        requires
            old(self).wf(),
        ensures
            final(self).wf(),
            final(self)@ == old(self)@.with_contacts(contacts.deep_view()),
            keeps_history(old(self)@.conversations, final(self)@.conversations),
    {
        let ghost all = named_all(contacts.deep_view(), self@.username);
        let mut stored: Vec<Contact> = Vec::new();
        let mut i: usize = 0;
        assert(all.skip(0) =~= all);
        while i < contacts.len()
            invariant
                self.wf(),
                i <= contacts.len(),
                all == named_all(contacts.deep_view(), old(self)@.username),
                self@ == (AppView { conversations: self@.conversations, ..old(self)@ }),
                stored@.len() == i,
                forall|j: int| 0 <= j < i ==> (#[trigger] stored@[j]).deep_view() == all[j],
                with_conversations(old(self)@.conversations, all) == with_conversations(
                    self@.conversations,
                    all.skip(i as int),
                ),
                keeps_history(old(self)@.conversations, self@.conversations),
            decreases contacts.len() - i,
        {
            let mut contact = contacts[i].clone();
            let ghost given = contacts@[i as int].deep_view();
            if contact.number == self.username {
                let unnamed = match &contact.name {
                    None => true,
                    Some(name) => name.as_str().is_empty(),
                };
                assert(unnamed == (given.name is None || given.name == Some(
                    Seq::<char>::empty(),
                ))) by {
                    if given.name is Some {
                        assert(given.name->0.len() == 0 ==> given.name->0 =~= Seq::<char>::empty());
                    }
                }
                if unnamed {
                    proof {
                        reveal_strlit("Me");
                    }
                    let name = String::from_str("Me");
                    assert(name@ =~= own_name());
                    contact.name = Some(name);
                }
            }
            assert(contact.deep_view() == all[i as int]);
            let ghost before = self@.conversations;
            self.add_conversation(contact.clone());
            proof {
                assert(all.skip(i as int).drop_first() =~= all.skip(i as int + 1));
                lemma_keeps_history_trans(old(self)@.conversations, before, self@.conversations);
            }
            stored.push(contact);
            i += 1;
        }
        assert(stored.deep_view() =~= all);
        self.contacts = stored;
    }
}

impl App {
    /// Whether an account is loaded.
    pub fn loaded(&self) -> (loaded: bool)
        ensures
            loaded == self@.loaded,
    {
        self.loaded
    }

    /// The active user name; empty until an account is loaded.
    pub fn username(&self) -> (username: &String)
        ensures
            username@ == self@.username,
    {
        &self.username
    }

    /// The contact list.
    pub fn contacts(&self) -> (contacts: &Vec<Contact>)
        ensures
            contacts.deep_view() == self@.contacts,
    {
        &self.contacts
    }

    /// The conversations, in the order in which they were opened.
    pub fn conversations(&self) -> (conversations: &Vec<Conversation>)
        ensures
            conversations.deep_view() == self@.conversations,
    {
        &self.conversations
    }
}

/// A line of the contact pane: what to show for a contact, and whether
/// it is the selected one.
#[derive(Debug, PartialEq, Eq)]
pub struct ContactLabel {
    pub text: String,
    pub selected: bool,
}

/// The mathematical value of a `ContactLabel`.
pub struct ContactLabelView {
    pub text: Seq<char>,
    pub selected: bool,
}

impl DeepView for ContactLabel {
    type V = ContactLabelView;

    open spec fn deep_view(&self) -> ContactLabelView {
        ContactLabelView { text: self.text@, selected: self.selected }
    }
}

impl AppView {
    /// The line of the contact pane for `contact`: its name, or its
    /// identifier if it has no name; it is marked if it has the
    /// identifier of the selected contact.
    pub open spec fn label(self, contact: ContactView) -> ContactLabelView {
        ContactLabelView {
            text: match contact.name {
                Some(name) => name,
                None => contact.number,
            },
            selected: match self.selected_contact() {
                Some(selected) => selected.number == contact.number,
                None => false,
            },
        }
    }

    /// The lines of the contact pane.
    pub open spec fn labels(self) -> Seq<ContactLabelView> {
        self.contacts.map_values(|c: ContactView| self.label(c))
    }

    /// The cell at which the cursor stands when the input line is drawn
    /// in an area whose top left corner is at column `x` and row `y`:
    /// inside the border, behind the characters before the input
    /// position.
    pub open spec fn cursor_cell(self, x: u16, y: u16) -> (int, int) {
        (x + self.input_position + 1, y + 1)
    }
}

impl App {
    /// The input line.
    pub fn input(&self) -> (input: &Vec<char>)
        ensures
            input@ == self@.input,
    {
        &self.input
    }

    /// The input line as a string.
    pub fn input_string(&self) -> (input: String)
        ensures
            input@ == self@.input,
    {
        crate::text::string_from_chars(&self.input)
    }

    /// The position in the input line at which the next character goes.
    pub fn input_position(&self) -> (position: usize)
        ensures
            position == self@.input_position,
    {
        self.input_position
    }

    /// Whether the cursor is to be drawn.
    pub fn draw_cursor(&self) -> (draw: bool)
        ensures
            draw == self@.draw_cursor,
    {
        self.draw_cursor
    }

    /// The cell of the cursor.
    pub fn cursor_pos(&self) -> (cell: Point)
        ensures
            cell == self@.cursor_pos,
    {
        self.cursor_pos
    }

    /// The index of the selected contact.
    pub fn selected_contact_index(&self) -> (index: usize)
        ensures
            index == self@.selected_contact_index,
    {
        self.selected_contact_index
    }

    /// The pane that has the focus.
    pub fn focused_view(&self) -> (pane: crate::focus::View)
        ensures
            pane == self@.focused_view,
    {
        self.focused_view
    }

    /// Moves the focus to `pane`.
    pub fn set_focused_view(&mut self, pane: crate::focus::View)
        requires
            old(self).wf(),
        ensures
            final(self).wf(),
            final(self)@ == (AppView { focused_view: pane, ..old(self)@ }),
    {
        self.focused_view = pane;
    }

    /// Says whether the cursor is to be drawn.
    pub fn set_draw_cursor(&mut self, draw: bool)
        requires
            old(self).wf(),
        ensures
            final(self).wf(),
            final(self)@ == (AppView { draw_cursor: draw, ..old(self)@ }),
    {
        self.draw_cursor = draw;
    }

    /// Puts the cursor where the input line, drawn in an area whose top
    /// left corner is at column `x` and row `y`, takes the next
    /// character, and asks for it to be drawn.
    pub fn place_cursor(&mut self, x: u16, y: u16)
        requires
            old(self).wf(),
            old(self)@.cursor_cell(x, y).0 <= u16::MAX,
            old(self)@.cursor_cell(x, y).1 <= u16::MAX,
        ensures
            final(self).wf(),
            final(self)@ == (AppView {
                draw_cursor: true,
                cursor_pos: Point {
                    x: old(self)@.cursor_cell(x, y).0 as u16,
                    y: old(self)@.cursor_cell(x, y).1 as u16,
                },
                ..old(self)@
            }),
    {
        self.draw_cursor = true;
        self.cursor_pos = Point { x: x + self.input_position as u16 + 1, y: y + 1 };
    }

    /// The lines of the contact pane, one for each contact.
    pub fn contact_labels(&self) -> (labels: Vec<ContactLabel>)
        ensures
            labels.deep_view() == self@.labels(),
    {
        let mut labels: Vec<ContactLabel> = Vec::new();
        let mut i: usize = 0;
        while i < self.contacts.len()
            invariant
                i <= self.contacts.len(),
                labels@.len() == i,
                forall|j: int|
                    0 <= j < i ==> (#[trigger] labels@[j]).deep_view() == self@.label(
                        self@.contacts[j],
                    ),
            decreases self.contacts.len() - i,
        {
            let contact = &self.contacts[i];
            let text = match &contact.name {
                Some(name) => name.clone(),
                None => contact.number.clone(),
            };
            let selected = if self.selected_contact_index < self.contacts.len() {
                self.contacts[self.selected_contact_index].number == contact.number
            } else {
                false
            };
            labels.push(ContactLabel { text, selected });
            i += 1;
        }
        assert(labels.deep_view() =~= self@.labels());
        labels
    }

    /// Moves the input position one character to the left, if it is not
    /// at the start.
    pub fn input_left(&mut self)
        requires
            old(self).wf(),
        ensures
            final(self).wf(),
            final(self)@ == (AppView {
                input_position: if old(self)@.input_position > 0 {
                    (old(self)@.input_position - 1) as nat
                } else {
                    0
                },
                ..old(self)@
            }),
    {
        if self.input_position > 0 {
            self.input_position = self.input_position - 1;
        }
    }

    /// Moves the input position one character to the right, if it is not
    /// at the end.
    pub fn input_right(&mut self)
        requires
            old(self).wf(),
        ensures
            final(self).wf(),
            final(self)@ == (AppView {
                input_position: if old(self)@.input_position < old(self)@.input.len() {
                    old(self)@.input_position + 1
                } else {
                    old(self)@.input_position
                },
                ..old(self)@
            }),
    {
        if self.input_position < self.input.len() {
            self.input_position = self.input_position + 1;
        }
    }

    /// Removes the character before the input position, if there is one,
    /// and moves the position onto its place.
    pub fn input_backspace(&mut self)
        requires
            old(self).wf(),
        ensures
            final(self).wf(),
            final(self)@ == if old(self)@.input_position > 0 {
                AppView {
                    input: old(self)@.input.remove(old(self)@.input_position - 1),
                    input_position: (old(self)@.input_position - 1) as nat,
                    ..old(self)@
                }
            } else {
                old(self)@
            },
    {
        if self.input_position > 0 {
            let _ = self.input.remove(self.input_position - 1);
            self.input_position = self.input_position - 1;
        }
    }

    /// Removes the character at the input position, if there is one.
    pub fn input_delete(&mut self)
        requires
            old(self).wf(),
        ensures
            final(self).wf(),
            final(self)@ == if old(self)@.input_position < old(self)@.input.len() {
                AppView {
                    input: old(self)@.input.remove(old(self)@.input_position as int),
                    ..old(self)@
                }
            } else {
                old(self)@
            },
    {
        if self.input_position < self.input.len() {
            let _ = self.input.remove(self.input_position);
        }
    }

    /// Puts `c` into the input line at the input position and moves the
    /// position behind it.
    pub fn input_insert(&mut self, c: char)
        requires
            old(self).wf(),
        ensures
            final(self).wf(),
            final(self)@ == (AppView {
                input: old(self)@.input.insert(old(self)@.input_position as int, c),
                input_position: old(self)@.input_position + 1,
                ..old(self)@
            }),
    {
        self.input.insert(self.input_position, c);
        assert(self.input_position < self.input.len());
        self.input_position = self.input_position + 1;
    }

    /// Empties the input line.
    pub fn clear_input(&mut self)
        requires
            old(self).wf(),
        ensures
            final(self).wf(),
            final(self)@ == (AppView { input: Seq::empty(), input_position: 0, ..old(self)@ }),
    {
        self.input.clear();
        self.input_position = 0;
    }
}

impl AppView {
    /// The state after the contact list was replaced by `contacts`.
    pub open spec fn with_contacts(self, contacts: Seq<ContactView>) -> AppView {
        AppView {
            contacts: named_all(contacts, self.username),
            conversations: with_conversations(
                self.conversations,
                named_all(contacts, self.username),
            ),
            ..self
        }
    }

    /// The state after `message` was appended to the conversation keyed
    /// by `number`.
    pub open spec fn with_message(self, number: Seq<char>, message: MessageView) -> AppView {
        AppView { conversations: with_message(self.conversations, number, message), ..self }
    }
}

/// A contact list replaces the one before it, whole: after two lists
/// were taken in, the contacts are those of the second, and nothing of
/// the first is left among them.
pub proof fn lemma_last_contact_list_wins(
    app: AppView,
    first: Seq<ContactView>,
    second: Seq<ContactView>,
)
    ensures
        app.with_contacts(first).with_contacts(second).contacts == app.with_contacts(
            second,
        ).contacts,
        app.with_contacts(second).contacts == named_all(second, app.username),
        app.with_contacts(second).contacts.len() == second.len(),
{
}

/// Appending a message opens the conversation if need be, puts the
/// message behind those that the conversation held, and leaves every
/// other conversation as it was.
pub proof fn lemma_message_is_appended(
    conversations: Seq<ConversationView>,
    number: Seq<char>,
    message: MessageView,
)
    requires
        distinct_keys(conversations),
    ensures
        ({
            let after = with_message(conversations, number, message);
            let i = index_of(conversations, number);
            &&& distinct_keys(after)
            &&& keeps_history(conversations, after)
            &&& index_of(after, number) == i
            &&& i < after.len()
            &&& after[i].contact.number == number
            &&& after[i].messages == if i < conversations.len() {
                conversations[i].messages.push(message)
            } else {
                seq![message]
            }
            &&& after.len() == if i < conversations.len() {
                conversations.len()
            } else {
                conversations.len() + 1
            }
            &&& forall|j: int| 0 <= j < after.len() && j != i ==> after[j] == conversations[j]
        }),
{
    let opened = with_conversation(conversations, bare_contact(number));
    let after = with_message(conversations, number, message);
    let i = index_of(conversations, number);
    lemma_index_of(conversations, number);
    lemma_index_of_is(opened, number, i);
    lemma_index_of_is(after, number, i);
    assert(after[i].messages =~= if i < conversations.len() {
        conversations[i].messages.push(message)
    } else {
        seq![message]
    });
    assert forall|j: int| 0 <= j < conversations.len() implies {
        &&& (#[trigger] after[j]).contact == conversations[j].contact
        &&& conversations[j].messages.is_prefix_of(after[j].messages)
    } by {
        let m = conversations[j].messages;
        if j == i {
            assert(m =~= m.push(message).subrange(0, m.len() as int));
        } else {
            assert(m =~= m.subrange(0, m.len() as int));
        }
    }
}

/// After a message was appended for `number`, the conversation keyed by
/// `number` exists and holds what it held before, followed by the
/// message; the conversations under other keys are what they were.
pub proof fn lemma_conversation_gains_message(
    app: AppView,
    number: Seq<char>,
    message: MessageView,
    other: Seq<char>,
)
    requires
        distinct_keys(app.conversations),
        other != number,
    ensures
        app.with_message(number, message).conversation(number) == Some(
            match app.conversation(number) {
                Some(conversation) => ConversationView {
                    contact: conversation.contact,
                    messages: conversation.messages.push(message),
                },
                None => ConversationView { contact: bare_contact(number), messages: seq![message] },
            },
        ),
        app.with_message(number, message).conversation(other) == app.conversation(other),
{
    let before = app.conversations;
    let after = with_message(before, number, message);
    lemma_message_is_appended(before, number, message);
    lemma_index_of(before, number);
    lemma_index_of(before, other);
    lemma_index_of(after, other);
    let i = index_of(before, number);
    let k = index_of(before, other);
    let opened = with_conversation(before, bare_contact(number));
    lemma_index_of_is(opened, number, i);
    assert(after[i].contact == opened[i].contact);
    if k < before.len() {
        assert(after[k] == before[k]);
        lemma_index_of_is(after, other, k);
    } else {
        assert forall|j: int| 0 <= j < after.len() implies (#[trigger] after[j]).contact.number
            != other by {
            if j != i {
                assert(after[j] == before[j]);
            }
        }
        lemma_index_of_is(after, other, after.len() as int);
    }
}

/// Opening conversations for a contact list leaves the conversations
/// that were there as they were, gives every contact of the list a
/// conversation, and opens only empty ones.
pub proof fn lemma_conversations_for_contacts(
    conversations: Seq<ConversationView>,
    contacts: Seq<ContactView>,
)
    requires
        distinct_keys(conversations),
    ensures
        ({
            let after = with_conversations(conversations, contacts);
            &&& distinct_keys(after)
            &&& conversations.len() <= after.len()
            &&& forall|j: int| 0 <= j < conversations.len() ==> #[trigger] after[j] == conversations[j]
            &&& forall|j: int|
                conversations.len() <= j < after.len() ==> (#[trigger] after[j]).messages
                    == Seq::<MessageView>::empty()
            &&& forall|i: int|
                0 <= i < contacts.len() ==> index_of(after, (#[trigger] contacts[i]).number)
                    < after.len()
        }),
    decreases contacts.len(),
{
    if contacts.len() > 0 {
        let first = contacts[0];
        let rest = contacts.drop_first();
        let opened = with_conversation(conversations, first);
        lemma_index_of(conversations, first.number);
        assert(distinct_keys(opened));
        lemma_conversations_for_contacts(opened, rest);
        let after = with_conversations(conversations, contacts);
        assert forall|i: int| 0 <= i < contacts.len() implies index_of(
            after,
            (#[trigger] contacts[i]).number,
        ) < after.len() by {
            if i == 0 {
                let k = index_of(opened, first.number);
                lemma_index_of(opened, first.number);
                if index_of(conversations, first.number) >= conversations.len() {
                    lemma_index_of_is(opened, first.number, conversations.len() as int);
                } else {
                    lemma_index_of_is(opened, first.number, index_of(conversations, first.number));
                }
                assert(k < opened.len());
                assert(after[k] == opened[k]);
                lemma_index_of(after, first.number);
                if index_of(after, first.number) >= after.len() {
                    assert(after[k].contact.number != first.number);
                }
            } else {
                assert(rest[i - 1] == contacts[i]);
            }
        }
        assert forall|j: int| 0 <= j < conversations.len() implies #[trigger] after[j]
            == conversations[j] by {
            assert(opened[j] == conversations[j]);
        }
    }
}

} // verus!
