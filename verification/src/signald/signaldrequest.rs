//! Requests to the daemon and their wire form: one JSON object on one
//! line, with the set fields in a fixed order and the unset ones left out.

use crate::json::{json_quoted, quote_text, single_line};
use vstd::prelude::*;

verus! {

/// A request. `typ` is the tag; which of the optional fields are set
/// depends on it.
#[derive(Debug, PartialEq, Eq)]
pub struct SignaldRequest {
    pub typ: String,
    pub username: String,
    pub id: Option<String>,
    pub message_body: Option<String>,
    pub recipient_number: Option<String>,
    pub recipient_group_id: Option<String>,
    pub voice: Option<bool>,
    pub code: Option<String>,
    pub device_name: Option<String>,
    pub attachment_filenames: Option<Vec<String>>,
    pub quote: Option<String>,
    pub uri: Option<String>,
    pub group_name: Option<String>,
    pub members: Option<Vec<String>>,
    pub avatar: Option<String>,
}

/// The mathematical value of a `SignaldRequest`.
pub struct RequestView {
    pub typ: Seq<char>,
    pub username: Seq<char>,
    pub id: Option<Seq<char>>,
    pub message_body: Option<Seq<char>>,
    pub recipient_number: Option<Seq<char>>,
    pub recipient_group_id: Option<Seq<char>>,
    pub voice: Option<bool>,
    pub code: Option<Seq<char>>,
    pub device_name: Option<Seq<char>>,
    pub attachment_filenames: Option<Seq<Seq<char>>>,
    pub quote: Option<Seq<char>>,
    pub uri: Option<Seq<char>>,
    pub group_name: Option<Seq<char>>,
    pub members: Option<Seq<Seq<char>>>,
    pub avatar: Option<Seq<char>>,
}

impl DeepView for SignaldRequest {
    type V = RequestView;

    open spec fn deep_view(&self) -> RequestView {
        RequestView {
            typ: self.typ@,
            username: self.username@,
            id: self.id.deep_view(),
            message_body: self.message_body.deep_view(),
            recipient_number: self.recipient_number.deep_view(),
            recipient_group_id: self.recipient_group_id.deep_view(),
            voice: self.voice,
            code: self.code.deep_view(),
            device_name: self.device_name.deep_view(),
            attachment_filenames: self.attachment_filenames.deep_view(),
            quote: self.quote.deep_view(),
            uri: self.uri.deep_view(),
            group_name: self.group_name.deep_view(),
            members: self.members.deep_view(),
            avatar: self.avatar.deep_view(),
        }
    }
}

/// The JSON text of a boolean.
pub open spec fn bool_text(b: bool) -> Seq<char> {
    if b {
        seq!['t', 'r', 'u', 'e']
    } else {
        seq!['f', 'a', 'l', 's', 'e']
    }
}

/// The string literals of `items`, separated by commas.
pub open spec fn joined(items: Seq<Seq<char>>) -> Seq<char>
    decreases items.len(),
{
    if items.len() == 0 {
        Seq::empty()
    } else if items.len() == 1 {
        json_quoted(items[0])
    } else {
        joined(items.drop_last()) + seq![','] + json_quoted(items.last())
    }
}

/// The JSON text of an array of strings.
pub open spec fn list_text(items: Seq<Seq<char>>) -> Seq<char> {
    seq!['['] + joined(items) + seq![']']
}

/// A member of the object: the key's literal, a colon, the value's text.
pub open spec fn member(key: Seq<char>, value: Seq<char>) -> Seq<char> {
    json_quoted(key) + seq![':'] + value
}

/// What an optional field adds to the object after the two fields that
/// are always there: a comma and the member if the field is set, nothing
/// if it is not.
pub open spec fn optional(key: Seq<char>, value: Option<Seq<char>>) -> Seq<char> {
    match value {
        Some(text) => seq![','] + member(key, text),
        None => Seq::empty(),
    }
}

/// The text of an optional string field's value.
pub open spec fn quoted(value: Option<Seq<char>>) -> Option<Seq<char>> {
    match value {
        Some(text) => Some(json_quoted(text)),
        None => None,
    }
}

/// The text of an optional boolean field's value.
pub open spec fn flag(value: Option<bool>) -> Option<Seq<char>> {
    match value {
        Some(b) => Some(bool_text(b)),
        None => None,
    }
}

/// The text of an optional string-array field's value.
pub open spec fn listed(value: Option<Seq<Seq<char>>>) -> Option<Seq<char>> {
    match value {
        Some(items) => Some(list_text(items)),
        None => None,
    }
}

impl RequestView {
    /// The request that has the empty tag and user name and no other
    /// field.
    pub open spec fn empty() -> RequestView {
        RequestView {
            typ: Seq::empty(),
            username: Seq::empty(),
            id: None,
            message_body: None,
            recipient_number: None,
            recipient_group_id: None,
            voice: None,
            code: None,
            device_name: None,
            attachment_filenames: None,
            quote: None,
            uri: None,
            group_name: None,
            members: None,
            avatar: None,
        }
    }

    /// The request's wire form, without the line feed that ends it: the
    /// two fields that are always there, then what each optional field
    /// adds, in the order of the struct.
    pub open spec fn line(self) -> Seq<char> {
        seq!['{'] + member("type"@, json_quoted(self.typ)) + seq![','] + member(
            "username"@,
            json_quoted(self.username),
        ) + optional("id"@, quoted(self.id)) + optional("messageBody"@, quoted(self.message_body))
            + optional("recipientNumber"@, quoted(self.recipient_number)) + optional(
            "recipientGroupId"@,
            quoted(self.recipient_group_id),
        ) + optional("voice"@, flag(self.voice)) + optional("code"@, quoted(self.code)) + optional(
            "deviceName"@,
            quoted(self.device_name),
        ) + optional("attachment_filenames"@, listed(self.attachment_filenames)) + optional(
            "quote"@,
            quoted(self.quote),
        ) + optional("uri"@, quoted(self.uri)) + optional("group_name"@, quoted(self.group_name))
            + optional("members"@, listed(self.members)) + optional("avatar"@, quoted(self.avatar))
            + seq!['}']
    }
}

/// A copy of an optional string.
fn copy_text(value: &Option<String>) -> (copy: Option<String>)
    ensures
        copy.deep_view() == value.deep_view(),
{
    match value {
        Some(text) => Some(text.clone()),
        None => None,
    }
}

/// A copy of an optional list of strings.
fn copy_list(value: &Option<Vec<String>>) -> (copy: Option<Vec<String>>)
    ensures
        copy.deep_view() == value.deep_view(),
{
    match value {
        Some(items) => {
            let mut copy: Vec<String> = Vec::new();
            let mut i: usize = 0;
            while i < items.len()
                invariant
                    i <= items.len(),
                    copy@.len() == i,
                    forall|j: int| 0 <= j < i ==> (#[trigger] copy@[j])@ == items@[j]@,
                decreases items.len() - i,
            {
                copy.push(items[i].clone());
                i += 1;
            }
            assert(copy.deep_view() =~= items.deep_view());
            Some(copy)
        },
        None => None,
    }
}

impl Clone for SignaldRequest {
    fn clone(&self) -> (copy: SignaldRequest)
        ensures
            copy.deep_view() == self.deep_view(),
    {
        SignaldRequest {
            typ: self.typ.clone(),
            username: self.username.clone(),
            id: copy_text(&self.id),
            message_body: copy_text(&self.message_body),
            recipient_number: copy_text(&self.recipient_number),
            recipient_group_id: copy_text(&self.recipient_group_id),
            voice: self.voice,
            code: copy_text(&self.code),
            device_name: copy_text(&self.device_name),
            attachment_filenames: copy_list(&self.attachment_filenames),
            quote: copy_text(&self.quote),
            uri: copy_text(&self.uri),
            group_name: copy_text(&self.group_name),
            members: copy_list(&self.members),
            avatar: copy_text(&self.avatar),
        }
    }
}

impl Default for SignaldRequest {
    fn default() -> (request: SignaldRequest)
        ensures
            request.deep_view() == RequestView::empty(),
    {
        SignaldRequest {
            typ: String::new(),
            username: String::new(),
            id: None,
            message_body: None,
            recipient_number: None,
            recipient_group_id: None,
            voice: None,
            code: None,
            device_name: None,
            attachment_filenames: None,
            quote: None,
            uri: None,
            group_name: None,
            members: None,
            avatar: None,
        }
    }
}

/// Appends a piece of punctuation to `out`.
fn push_mark(out: &mut String, mark: &str)
    requires
        single_line(old(out)@),
        single_line(mark@),
    ensures
        final(out)@ == old(out)@ + mark@,
        single_line(final(out)@),
{
    out.append(mark);
}

/// Appends `"key":value` to `out`.
fn push_member(out: &mut String, key: &str, value: &str)
    requires
        single_line(old(out)@),
        single_line(value@),
    ensures
        final(out)@ == old(out)@ + member(key@, value@),
        single_line(final(out)@),
{
    proof {
        reveal_strlit(":");
    }
    let literal = quote_text(key);
    out.append(literal.as_str());
    out.append(":");
    out.append(value);
    assert(out@ =~= old(out)@ + member(key@, value@));
}

/// Appends what an optional field adds, given the text of its value.
fn push_optional(out: &mut String, key: &str, value: &Option<String>)
    requires
        single_line(old(out)@),
        value matches Some(text) ==> single_line(text@),
    ensures
        final(out)@ == old(out)@ + optional(key@, value.deep_view()),
        single_line(final(out)@),
{
    match value {
        Some(text) => {
            proof {
                reveal_strlit(",");
            }
            out.append(",");
            push_member(out, key, text.as_str());
            assert(out@ =~= old(out)@ + optional(key@, value.deep_view()));
        },
        None => {
            assert(out@ =~= old(out)@ + optional(key@, value.deep_view()));
        },
    }
}

/// The text of an optional string field's value.
fn quote_optional(value: &Option<String>) -> (text: Option<String>)
    ensures
        text.deep_view() == quoted(value.deep_view()),
        text matches Some(t) ==> single_line(t@),
{
    match value {
        Some(v) => Some(quote_text(v.as_str())),
        None => None,
    }
}

/// The text of an optional boolean field's value.
fn flag_optional(value: &Option<bool>) -> (text: Option<String>)
    ensures
        text.deep_view() == flag(*value),
        text matches Some(t) ==> single_line(t@),
{
    proof {
        reveal_strlit("true");
        reveal_strlit("false");
    }
    match value {
        Some(true) => {
            let t = String::from_str("true");
            assert(t@ =~= bool_text(true));
            Some(t)
        },
        Some(false) => {
            let t = String::from_str("false");
            assert(t@ =~= bool_text(false));
            Some(t)
        },
        None => None,
    }
}

/// The text of an optional string-array field's value.
fn list_optional(value: &Option<Vec<String>>) -> (text: Option<String>)
    ensures
        text.deep_view() == listed(value.deep_view()),
        text matches Some(t) ==> single_line(t@),
{
    match value {
        Some(items) => {
            proof {
                reveal_strlit("[");
                reveal_strlit("]");
                reveal_strlit(",");
            }
            let ghost all = items.deep_view();
            let mut out = String::from_str("[");
            let mut i: usize = 0;
            assert(all.take(0) =~= Seq::<Seq<char>>::empty());
            while i < items.len()
                invariant
                    i <= items.len(),
                    all == items.deep_view(),
                    out@ == seq!['['] + joined(all.take(i as int)),
                    single_line(out@),
                decreases items.len() - i,
            {
                proof {
                    reveal_strlit(",");
                }
                if i > 0 {
                    out.append(",");
                }
                let literal = quote_text(items[i].as_str());
                out.append(literal.as_str());
                proof {
                    let next = all.take(i as int + 1);
                    assert(next.drop_last() =~= all.take(i as int));
                    assert(next.last() == items@[i as int]@);
                    if i == 0 {
                        assert(joined(all.take(0)) =~= Seq::<char>::empty());
                        assert(joined(next) == json_quoted(next[0]));
                    } else {
                        assert(joined(next) == joined(next.drop_last()) + seq![','] + json_quoted(
                            next.last(),
                        ));
                    }
                    assert(out@ =~= seq!['['] + joined(next));
                }
                i += 1;
            }
            out.append("]");
            assert(all.take(i as int) =~= all);
            assert(out@ =~= list_text(all));
            Some(out)
        },
        None => None,
    }
}

impl SignaldRequest {
    /// The request's wire form: one JSON object, without line feeds,
    /// that holds `type`, `username`, and then every set field in the
    /// order of the struct; an unset field leaves no trace.
    pub fn to_json_string(&self) -> (line: String)
        ensures
            line@ == self.deep_view().line(),
            single_line(line@),
    {
        let mut out = String::from_str("{");
        proof {
            reveal_strlit("{");
            reveal_strlit(",");
            reveal_strlit("}");
            assert(out@ =~= seq!['{']);
            assert(","@ =~= seq![',']);
            assert("}"@ =~= seq!['}']);
        }
        let typ = quote_text(self.typ.as_str());
        push_member(&mut out, "type", typ.as_str());
        push_mark(&mut out, ",");
        let username = quote_text(self.username.as_str());
        push_member(&mut out, "username", username.as_str());
        push_optional(&mut out, "id", &quote_optional(&self.id));
        push_optional(&mut out, "messageBody", &quote_optional(&self.message_body));
        push_optional(&mut out, "recipientNumber", &quote_optional(&self.recipient_number));
        push_optional(&mut out, "recipientGroupId", &quote_optional(&self.recipient_group_id));
        push_optional(&mut out, "voice", &flag_optional(&self.voice));
        push_optional(&mut out, "code", &quote_optional(&self.code));
        push_optional(&mut out, "deviceName", &quote_optional(&self.device_name));
        push_optional(&mut out, "attachment_filenames", &list_optional(&self.attachment_filenames));
        push_optional(&mut out, "quote", &quote_optional(&self.quote));
        push_optional(&mut out, "uri", &quote_optional(&self.uri));
        push_optional(&mut out, "group_name", &quote_optional(&self.group_name));
        push_optional(&mut out, "members", &list_optional(&self.members));
        push_optional(&mut out, "avatar", &quote_optional(&self.avatar));
        push_mark(&mut out, "}");
        out
    }
}

/// Builds requests field by field. Its value is the request it would
/// build now.
#[derive(Debug)]
pub struct SignaldRequestBuilder {
    request: SignaldRequest,
}

impl View for SignaldRequestBuilder {
    type V = RequestView;

    closed spec fn view(&self) -> RequestView {
        self.request.deep_view()
    }
}

impl SignaldRequestBuilder {
    /// A builder with no field set.
    pub fn new() -> (builder: SignaldRequestBuilder)
        ensures
            builder@ == RequestView::empty(),
    {
        SignaldRequestBuilder { request: SignaldRequest::default() }
    }

    /// Sets the tag.
    pub fn set_type(&mut self, typ: String)
        ensures
            final(self)@ == (RequestView { typ: typ@, ..old(self)@ }),
    {
        self.request.typ = typ;
    }

    /// Sets the user name.
    pub fn set_username(&mut self, username: String)
        ensures
            final(self)@ == (RequestView { username: username@, ..old(self)@ }),
    {
        self.request.username = username;
    }

    /// Sets the recipient.
    pub fn set_recipient_number(&mut self, recipient_number: String)
        ensures
            final(self)@ == (RequestView {
                recipient_number: Some(recipient_number@),
                ..old(self)@
            }),
    {
        self.request.recipient_number = Some(recipient_number);
    }

    /// Sets the message body.
    pub fn set_message_body(&mut self, message_body: String)
        ensures
            final(self)@ == (RequestView { message_body: Some(message_body@), ..old(self)@ }),
    {
        self.request.message_body = Some(message_body);
    }

    /// Sets the correlation id.
    pub fn set_id(&mut self, id: String)
        ensures
            final(self)@ == (RequestView { id: Some(id@), ..old(self)@ }),
    {
        self.request.id = Some(id);
    }

    /// Unsets every field, so that nothing of an earlier request can
    /// leak into the next one.
    pub fn flush(&mut self)
        ensures
            final(self)@ == RequestView::empty(),
    {
        self.request = SignaldRequest::default();
    }

    /// The request as it stands; the builder keeps its fields.
    pub fn build(&self) -> (request: SignaldRequest)
        ensures
            request.deep_view() == self@,
    {
        self.request.clone()
    }
}

/// An unset optional field leaves no trace in the wire form: a request
/// with no optional field set is written as its tag and user name
/// alone.
pub proof fn lemma_unset_fields_are_omitted(request: RequestView)
    requires
        request == (RequestView {
            typ: request.typ,
            username: request.username,
            ..RequestView::empty()
        }),
    ensures
        request.line() == seq!['{'] + member("type"@, json_quoted(request.typ)) + seq![','] + member(
            "username"@,
            json_quoted(request.username),
        ) + seq!['}'],
{
    let head = seq!['{'] + member("type"@, json_quoted(request.typ)) + seq![','] + member(
        "username"@,
        json_quoted(request.username),
    );
    assert(head + Seq::<char>::empty() =~= head);
}

/// A set optional field is written as a comma and its member, right
/// behind the fields before it; here for the correlation id, the first
/// of them.
pub proof fn lemma_id_is_written(request: RequestView, id: Seq<char>)
    requires
        request == (RequestView {
            typ: request.typ,
            username: request.username,
            id: Some(id),
            ..RequestView::empty()
        }),
    ensures
        request.line() == seq!['{'] + member("type"@, json_quoted(request.typ)) + seq![','] + member(
            "username"@,
            json_quoted(request.username),
        ) + (seq![','] + member("id"@, json_quoted(id))) + seq!['}'],
{
    let head = seq!['{'] + member("type"@, json_quoted(request.typ)) + seq![','] + member(
        "username"@,
        json_quoted(request.username),
    ) + (seq![','] + member("id"@, json_quoted(id)));
    assert(head + Seq::<char>::empty() =~= head);
}

} // verus!
