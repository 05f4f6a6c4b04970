//! Responses from the daemon: an object `{type, id?, data}` whose payload
//! is read according to the tag. A tag that is not known, or a payload
//! that does not have the shape its tag announces, is kept as it came.

use crate::json::{json_parse, Json, JsonView};
use vstd::prelude::*;

verus! {

/// The daemon's version information.
#[derive(Debug, PartialEq, Eq)]
pub struct VersionData {
    pub name: String,
    pub version: String,
    pub branch: String,
    pub commit: String,
}

/// The mathematical value of a `VersionData`.
pub struct VersionDataView {
    pub name: Seq<char>,
    pub version: Seq<char>,
    pub branch: Seq<char>,
    pub commit: Seq<char>,
}

impl DeepView for VersionData {
    type V = VersionDataView;

    open spec fn deep_view(&self) -> VersionDataView {
        VersionDataView {
            name: self.name@,
            version: self.version@,
            branch: self.branch@,
            commit: self.commit@,
        }
    }
}

/// One entry of a contact array.
#[derive(Debug, PartialEq, Eq)]
pub struct Account {
    pub name: Option<String>,
    pub number: String,
    pub color: Option<String>,
}

/// The mathematical value of an `Account`.
pub struct AccountView {
    pub name: Option<Seq<char>>,
    pub number: Seq<char>,
    pub color: Option<Seq<char>>,
}

impl DeepView for Account {
    type V = AccountView;

    open spec fn deep_view(&self) -> AccountView {
        AccountView {
            name: self.name.deep_view(),
            number: self.number@,
            color: self.color.deep_view(),
        }
    }
}

/// A message that someone sent to the user.
#[derive(Debug, PartialEq, Eq)]
pub struct Message {
    pub timestamp: i64,
    pub message: String,
}

/// The mathematical value of a `Message`.
pub struct MessageView {
    pub timestamp: i64,
    pub message: Seq<char>,
}

impl DeepView for Message {
    type V = MessageView;

    open spec fn deep_view(&self) -> MessageView {
        MessageView { timestamp: self.timestamp, message: self.message@ }
    }
}

/// A message that the user sent from another device.
#[derive(Debug, PartialEq, Eq)]
pub struct SentMessage {
    pub destination: String,
    pub timestamp: i64,
    pub message: String,
}

/// The mathematical value of a `SentMessage`.
pub struct SentMessageView {
    pub destination: Seq<char>,
    pub timestamp: i64,
    pub message: Seq<char>,
}

impl DeepView for SentMessage {
    type V = SentMessageView;

    open spec fn deep_view(&self) -> SentMessageView {
        SentMessageView {
            destination: self.destination@,
            timestamp: self.timestamp,
            message: self.message@,
        }
    }
}

/// What the user's other devices report.
#[derive(Debug, PartialEq, Eq)]
pub struct SyncMessage {
    pub sent: Option<SentMessage>,
}

/// The mathematical value of a `SyncMessage`.
pub struct SyncMessageView {
    pub sent: Option<SentMessageView>,
}

impl DeepView for SyncMessage {
    type V = SyncMessageView;

    open spec fn deep_view(&self) -> SyncMessageView {
        SyncMessageView { sent: self.sent.deep_view() }
    }
}

/// A message envelope.
#[derive(Debug, PartialEq, Eq)]
pub struct MessageData {
    pub source: Option<String>,
    pub sync_message: Option<SyncMessage>,
    pub data_message: Option<Message>,
}

/// The mathematical value of a `MessageData`.
pub struct MessageDataView {
    pub source: Option<Seq<char>>,
    pub sync_message: Option<SyncMessageView>,
    pub data_message: Option<MessageView>,
}

impl DeepView for MessageData {
    type V = MessageDataView;

    open spec fn deep_view(&self) -> MessageDataView {
        MessageDataView {
            source: self.source.deep_view(),
            sync_message: self.sync_message.deep_view(),
            data_message: self.data_message.deep_view(),
        }
    }
}

/// The payload of a response, by tag.
#[derive(Debug, PartialEq, Eq)]
pub enum ResponseType {
    Version(VersionData),
    ContactList(Vec<Account>),
    AccountList(Vec<String>),
    Message(MessageData),
    Unknown(Json),
}

/// The mathematical value of a `ResponseType`.
pub enum ResponseTypeView {
    Version(VersionDataView),
    ContactList(Seq<AccountView>),
    AccountList(Seq<Seq<char>>),
    Message(MessageDataView),
    Unknown(JsonView),
}

impl DeepView for ResponseType {
    type V = ResponseTypeView;

    open spec fn deep_view(&self) -> ResponseTypeView {
        match self {
            ResponseType::Version(v) => ResponseTypeView::Version(v.deep_view()),
            ResponseType::ContactList(v) => ResponseTypeView::ContactList(v.deep_view()),
            ResponseType::AccountList(v) => ResponseTypeView::AccountList(v.deep_view()),
            ResponseType::Message(v) => ResponseTypeView::Message(v.deep_view()),
            ResponseType::Unknown(v) => ResponseTypeView::Unknown(v.deep_view()),
        }
    }
}

/// A response: its tag, the correlation id if it has one, and the
/// payload.
#[derive(Debug, PartialEq, Eq)]
pub struct SignaldResponse {
    pub typ: String,
    pub id: Option<String>,
    pub data: ResponseType,
}

/// The mathematical value of a `SignaldResponse`.
pub struct ResponseView {
    pub typ: Seq<char>,
    pub id: Option<Seq<char>>,
    pub data: ResponseTypeView,
}

impl DeepView for SignaldResponse {
    type V = ResponseView;

    open spec fn deep_view(&self) -> ResponseView {
        ResponseView { typ: self.typ@, id: self.id.deep_view(), data: self.data.deep_view() }
    }
}

/// The response that a line of the daemon's output stands for, if it
/// is one.
pub open spec fn line_response(line: Seq<u8>) -> Option<ResponseView> {
    match json_parse(line) {
        Some(value) => response_of(value),
        None => None,
    }
}

/// The string under `key`, which must be there.
pub open spec fn text_of(object: JsonView, key: Seq<char>) -> Option<Seq<char>> {
    match object.member(key) {
        Some(value) => value.text(),
        None => None,
    }
}

/// The integer under `key`, which must be there.
pub open spec fn int_of(object: JsonView, key: Seq<char>) -> Option<i64> {
    match object.member(key) {
        Some(value) => value.integer(),
        None => None,
    }
}

/// The member under `key`, where a missing member and `null` both count
/// as absent.
pub open spec fn present(object: JsonView, key: Seq<char>) -> Option<JsonView> {
    match object.member(key) {
        Some(JsonView::Null) => None,
        other => other,
    }
}

/// The string under `key`, which may be absent: `Some(None)` when it is,
/// `None` when the member is there and is no string.
pub open spec fn optional_text_of(object: JsonView, key: Seq<char>) -> Option<Option<Seq<char>>> {
    match present(object, key) {
        None => Some(None),
        Some(JsonView::Text(text)) => Some(Some(text)),
        Some(_) => None,
    }
}

/// Version information: an object with the strings `name`, `version`,
/// `branch` and `commit`.
pub open spec fn version_of(data: JsonView) -> Option<VersionDataView> {
    match (
        text_of(data, "name"@),
        text_of(data, "version"@),
        text_of(data, "branch"@),
        text_of(data, "commit"@),
    ) {
        (Some(name), Some(version), Some(branch), Some(commit)) => Some(
            VersionDataView { name, version, branch, commit },
        ),
        _ => None,
    }
}

/// A contact entry: an object with the string `number` and, optionally,
/// the strings `name` and `color`.
pub open spec fn account_of(item: JsonView) -> Option<AccountView> {
    match (
        optional_text_of(item, "name"@),
        text_of(item, "number"@),
        optional_text_of(item, "color"@),
    ) {
        (Some(name), Some(number), Some(color)) => Some(AccountView { name, number, color }),
        _ => None,
    }
}

/// A contact array: an array whose every item is a contact entry.
pub open spec fn contacts_of(data: JsonView) -> Option<Seq<AccountView>> {
    match data.items() {
        Some(items) => if forall|i: int| 0 <= i < items.len() ==> account_of(#[trigger] items[i])
            is Some {
            Some(Seq::new(items.len(), |i: int| account_of(items[i])->0))
        } else {
            None
        },
        None => None,
    }
}

/// An account array: an object whose member `accounts` is an array of
/// objects that each have the string `username`; the result lists those.
pub open spec fn accounts_of(data: JsonView) -> Option<Seq<Seq<char>>> {
    match data.member("accounts"@) {
        Some(JsonView::List(items)) => if forall|i: int|
            0 <= i < items.len() ==> text_of(#[trigger] items[i], "username"@) is Some {
            Some(Seq::new(items.len(), |i: int| text_of(items[i], "username"@)->0))
        } else {
            None
        },
        _ => None,
    }
}

/// A received message: an object with the integer `timestamp` and the
/// string `message`.
pub open spec fn message_of(value: JsonView) -> Option<MessageView> {
    match (int_of(value, "timestamp"@), text_of(value, "message"@)) {
        (Some(timestamp), Some(message)) => Some(MessageView { timestamp, message }),
        _ => None,
    }
}

/// A sent message: an object with the string `destination`, the integer
/// `timestamp`, and an object `message` that has the string `message`.
pub open spec fn sent_of(value: JsonView) -> Option<SentMessageView> {
    match (
        text_of(value, "destination"@),
        int_of(value, "timestamp"@),
        value.member("message"@),
    ) {
        (Some(destination), Some(timestamp), Some(body)) => match text_of(body, "message"@) {
            Some(message) => Some(SentMessageView { destination, timestamp, message }),
            None => None,
        },
        _ => None,
    }
}

/// A sync message: an object whose member `sent`, if present, is a sent
/// message.
pub open spec fn sync_of(value: JsonView) -> Option<SyncMessageView> {
    if !(value is Object) {
        None
    } else {
        match present(value, "sent"@) {
            None => Some(SyncMessageView { sent: None }),
            Some(sent) => match sent_of(sent) {
                Some(sent) => Some(SyncMessageView { sent: Some(sent) }),
                None => None,
            },
        }
    }
}

/// A message envelope: an object whose members `source`, `syncMessage`
/// and `dataMessage`, as far as they are present, are a string, a sync
/// message and a received message.
pub open spec fn envelope_of(data: JsonView) -> Option<MessageDataView> {
    if !(data is Object) {
        None
    } else {
        let sync = match present(data, "syncMessage"@) {
            None => Some(None),
            Some(value) => match sync_of(value) {
                Some(sync) => Some(Some(sync)),
                None => None,
            },
        };
        let message = match present(data, "dataMessage"@) {
            None => Some(None),
            Some(value) => match message_of(value) {
                Some(message) => Some(Some(message)),
                None => None,
            },
        };
        match (optional_text_of(data, "source"@), sync, message) {
            (Some(source), Some(sync_message), Some(data_message)) => Some(
                MessageDataView { source, sync_message, data_message },
            ),
            _ => None,
        }
    }
}

/// Whether `tag` announces version information.
pub open spec fn is_version_tag(tag: Seq<char>) -> bool {
    tag == "version"@
}

/// Whether `tag` announces a contact array. The daemon either names the
/// payload or echoes the request's tag.
pub open spec fn is_contacts_tag(tag: Seq<char>) -> bool {
    tag == "contact_list"@ || tag == "list_contacts"@
}

/// Whether `tag` announces an account array.
pub open spec fn is_accounts_tag(tag: Seq<char>) -> bool {
    tag == "account_list"@ || tag == "list_accounts"@
}

/// Whether `tag` announces a message envelope.
pub open spec fn is_message_tag(tag: Seq<char>) -> bool {
    tag == "message"@
}

/// The payload of a response with tag `tag` and data `data`: read as the
/// tag announces where the data has that shape, kept as it came
/// otherwise.
pub open spec fn payload_of(tag: Seq<char>, data: JsonView) -> ResponseTypeView {
    if is_version_tag(tag) && version_of(data) is Some {
        ResponseTypeView::Version(version_of(data)->0)
    } else if is_contacts_tag(tag) && contacts_of(data) is Some {
        ResponseTypeView::ContactList(contacts_of(data)->0)
    } else if is_accounts_tag(tag) && accounts_of(data) is Some {
        ResponseTypeView::AccountList(accounts_of(data)->0)
    } else if is_message_tag(tag) && envelope_of(data) is Some {
        ResponseTypeView::Message(envelope_of(data)->0)
    } else {
        ResponseTypeView::Unknown(data)
    }
}

/// The data of a response object: its member `data`, or `null` if it has
/// none.
pub open spec fn data_of(object: JsonView) -> JsonView {
    match object.member("data"@) {
        Some(data) => data,
        None => JsonView::Null,
    }
}

/// The response that a JSON value stands for: an object with the string
/// `type` and, if present, the string `id`. Anything else is no
/// response.
pub open spec fn response_of(value: JsonView) -> Option<ResponseView> {
    match (text_of(value, "type"@), optional_text_of(value, "id"@)) {
        (Some(typ), Some(id)) => Some(ResponseView { typ, id, data: payload_of(typ, data_of(value)) }),
        _ => None,
    }
}

/// The string under `key`, which must be there.
fn text_at(object: &Json, key: &str) -> (text: Option<String>)
    ensures
        text.deep_view() == text_of(object.deep_view(), key@),
{
    match object.get(key) {
        Some(value) => match value.as_text() {
            Some(text) => Some(text.clone()),
            None => None,
        },
        None => None,
    }
}

/// The integer under `key`, which must be there.
fn int_at(object: &Json, key: &str) -> (n: Option<i64>)
    ensures
        n == int_of(object.deep_view(), key@),
{
    match object.get(key) {
        Some(value) => value.as_int(),
        None => None,
    }
}

/// The member under `key`, unless it is missing or `null`.
fn present_at<'a>(object: &'a Json, key: &str) -> (value: Option<&'a Json>)
    ensures
        value.deep_view() == present(object.deep_view(), key@),
{
    match object.get(key) {
        Some(value) => if value.is_null() {
            None
        } else {
            Some(value)
        },
        None => None,
    }
}

/// The string under `key`, which may be absent.
fn optional_text_at(object: &Json, key: &str) -> (text: Option<Option<String>>)
    ensures
        text.deep_view() == optional_text_of(object.deep_view(), key@),
{
    match present_at(object, key) {
        None => Some(None),
        Some(value) => match value.as_text() {
            Some(text) => Some(Some(text.clone())),
            None => None,
        },
    }
}

/// Reads version information.
fn decode_version(data: &Json) -> (version: Option<VersionData>)
    ensures
        version.deep_view() == version_of(data.deep_view()),
{
    let name = text_at(data, "name");
    let version = text_at(data, "version");
    let branch = text_at(data, "branch");
    let commit = text_at(data, "commit");
    match (name, version, branch, commit) {
        (Some(name), Some(version), Some(branch), Some(commit)) => Some(
            VersionData { name, version, branch, commit },
        ),
        _ => None,
    }
}

/// Reads one contact entry.
fn decode_account(item: &Json) -> (account: Option<Account>)
    ensures
        account.deep_view() == account_of(item.deep_view()),
{
    let name = optional_text_at(item, "name");
    let number = text_at(item, "number");
    let color = optional_text_at(item, "color");
    match (name, number, color) {
        (Some(name), Some(number), Some(color)) => Some(Account { name, number, color }),
        _ => None,
    }
}

/// Reads a contact array.
fn decode_contacts(data: &Json) -> (contacts: Option<Vec<Account>>)
    ensures
        contacts.deep_view() == contacts_of(data.deep_view()),
{
    match data.as_list() {
        Some(items) => {
            let ghost all = items.deep_view();
            let mut contacts: Vec<Account> = Vec::new();
            let mut i: usize = 0;
            while i < items.len()
                invariant
                    i <= items.len(),
                    all == items.deep_view(),
                    data.deep_view().items() == Some(all),
                    contacts@.len() == i,
                    forall|j: int|
                        0 <= j < i ==> account_of(#[trigger] all[j]) == Some(
                            contacts@[j].deep_view(),
                        ),
                decreases items.len() - i,
            {
                match decode_account(&items[i]) {
                    Some(account) => {
                        contacts.push(account);
                    },
                    None => {
                        assert(account_of(all[i as int]) is None);
                        return None;
                    },
                }
                i += 1;
            }
            assert(contacts.deep_view() =~= contacts_of(data.deep_view())->0);
            Some(contacts)
        },
        None => None,
    }
}

/// Reads an account array.
fn decode_accounts(data: &Json) -> (accounts: Option<Vec<String>>)
    ensures
        accounts.deep_view() == accounts_of(data.deep_view()),
{
    match data.get("accounts") {
        Some(list) => match list.as_list() {
            Some(items) => {
                let ghost all = items.deep_view();
                let mut accounts: Vec<String> = Vec::new();
                let mut i: usize = 0;
                while i < items.len()
                    invariant
                        i <= items.len(),
                        all == items.deep_view(),
                        data.deep_view().member("accounts"@) == Some(JsonView::List(all)),
                        accounts@.len() == i,
                        forall|j: int|
                            0 <= j < i ==> text_of(#[trigger] all[j], "username"@) == Some(
                                accounts@[j]@,
                            ),
                    decreases items.len() - i,
                {
                    match text_at(&items[i], "username") {
                        Some(username) => {
                            accounts.push(username);
                        },
                        None => {
                            assert(text_of(all[i as int], "username"@) is None);
                            return None;
                        },
                    }
                    i += 1;
                }
                assert(accounts.deep_view() =~= accounts_of(data.deep_view())->0);
                Some(accounts)
            },
            None => None,
        },
        None => None,
    }
}

/// Reads a received message.
fn decode_message(value: &Json) -> (message: Option<Message>)
    ensures
        message.deep_view() == message_of(value.deep_view()),
{
    match (int_at(value, "timestamp"), text_at(value, "message")) {
        (Some(timestamp), Some(message)) => Some(Message { timestamp, message }),
        _ => None,
    }
}

/// Reads a sent message.
fn decode_sent(value: &Json) -> (sent: Option<SentMessage>)
    ensures
        sent.deep_view() == sent_of(value.deep_view()),
{
    match (text_at(value, "destination"), int_at(value, "timestamp"), value.get("message")) {
        (Some(destination), Some(timestamp), Some(body)) => match text_at(body, "message") {
            Some(message) => Some(SentMessage { destination, timestamp, message }),
            None => None,
        },
        _ => None,
    }
}

/// Whether `value` is an object.
fn is_object(value: &Json) -> (r: bool)
    ensures
        r == (value.deep_view() is Object),
{
    match value {
        Json::Object(_) => true,
        _ => false,
    }
}

/// Reads a sync message.
fn decode_sync(value: &Json) -> (sync: Option<SyncMessage>)
    ensures
        sync.deep_view() == sync_of(value.deep_view()),
{
    if !is_object(value) {
        return None;
    }
    match present_at(value, "sent") {
        None => Some(SyncMessage { sent: None }),
        Some(sent) => match decode_sent(sent) {
            Some(sent) => Some(SyncMessage { sent: Some(sent) }),
            None => None,
        },
    }
}

/// Reads a message envelope.
fn decode_envelope(data: &Json) -> (envelope: Option<MessageData>)
    ensures
        envelope.deep_view() == envelope_of(data.deep_view()),
{
    if !is_object(data) {
        return None;
    }
    let sync: Option<Option<SyncMessage>> = match present_at(data, "syncMessage") {
        None => Some(None),
        Some(value) => match decode_sync(value) {
            Some(sync) => Some(Some(sync)),
            None => None,
        },
    };
    let message: Option<Option<Message>> = match present_at(data, "dataMessage") {
        None => Some(None),
        Some(value) => match decode_message(value) {
            Some(message) => Some(Some(message)),
            None => None,
        },
    };
    match (optional_text_at(data, "source"), sync, message) {
        (Some(source), Some(sync_message), Some(data_message)) => Some(
            MessageData { source, sync_message, data_message },
        ),
        _ => None,
    }
}

/// Whether `text` is the string `literal`.
fn is_literal(text: &String, literal: &str) -> (r: bool)
    ensures
        r == (text@ == literal@),
{
    let other = String::from_str(literal);
    *text == other
}

/// Reads the payload of a response with tag `tag`.
fn decode_payload(tag: &String, data: &Json) -> (payload: ResponseType)
    ensures
        payload.deep_view() == payload_of(tag@, data.deep_view()),
{
    if is_literal(tag, "version") {
        if let Some(version) = decode_version(data) {
            return ResponseType::Version(version);
        }
    }
    if is_literal(tag, "contact_list") || is_literal(tag, "list_contacts") {
        if let Some(contacts) = decode_contacts(data) {
            return ResponseType::ContactList(contacts);
        }
    }
    if is_literal(tag, "account_list") || is_literal(tag, "list_accounts") {
        if let Some(accounts) = decode_accounts(data) {
            return ResponseType::AccountList(accounts);
        }
    }
    if is_literal(tag, "message") {
        if let Some(envelope) = decode_envelope(data) {
            return ResponseType::Message(envelope);
        }
    }
    ResponseType::Unknown(data.clone())
}

impl SignaldResponse {
    /// Reads a response from a JSON value. The value is a response if
    /// it is an object whose `type` is a string and whose `id`, if it
    /// has one, is a string too.
    pub fn from_json(value: &Json) -> (response: Option<SignaldResponse>)
        ensures
            response.deep_view() == response_of(value.deep_view()),
    {
        let typ = text_at(value, "type");
        let id = optional_text_at(value, "id");
        match (typ, id) {
            (Some(typ), Some(id)) => {
                let data = match value.get("data") {
                    Some(data) => decode_payload(&typ, data),
                    None => decode_payload(&typ, &Json::Null),
                };
                Some(SignaldResponse { typ, id, data })
            },
            _ => None,
        }
    }

    /// Reads a response from a line of the daemon's output. A line that
    /// is not JSON, or whose JSON is no response, gives `None`.
    pub fn parse(line: &[u8]) -> (response: Option<SignaldResponse>)
        ensures
            response.deep_view() == line_response(line@),
    {
        match Json::parse(line) {
            Some(value) => SignaldResponse::from_json(&value),
            None => None,
        }
    }
}

} // verus!
