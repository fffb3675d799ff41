//! Conversations: listing, reading, creating and changing them.

use crate::client::AGiXTSDK;
use crate::error::outcome;
use crate::error::Error;
use crate::error::ErrorKind;
use crate::http::Method;
use crate::http::Request;
use crate::json::lemma_array_tree;
use crate::json::member_from;
use crate::json::Json;
use crate::json::JsonTree;
use crate::json_map::map_of;
use crate::json_map::JsonMap;
use crate::lookup::find_id_by_name;
use crate::lookup::id_by_name;
use crate::reply::document;
use crate::reply::maps_reply;
use crate::reply::optional_text;
use crate::reply::optional_text_member;
use crate::reply::read_document;
use crate::reply::read_maps;
use crate::reply::read_text;
use crate::reply::read_texts;
use crate::reply::shape_error;
use crate::reply::text_reply;
use crate::reply::texts_reply;
use crate::text::signed_decimal;
use vstd::prelude::*;

verus! {

/// One entry of a conversation.
#[derive(Debug, Clone, PartialEq, Eq)]
pub struct Message {
    pub role: String,
    pub content: String,
    pub id: Option<String>,
    pub timestamp: Option<String>,
}

/// The mathematical value of a [`Message`].
pub struct MessageView {
    pub role: Seq<char>,
    pub content: Seq<char>,
    pub id: Option<Seq<char>>,
    pub timestamp: Option<Seq<char>>,
}

impl DeepView for Message {
    type V = MessageView;

    open spec fn deep_view(&self) -> MessageView {
        MessageView {
            role: self.role@,
            content: self.content@,
            id: self.id.deep_view(),
            timestamp: self.timestamp.deep_view(),
        }
    }
}

/// The entries of a conversation, in their order.
#[derive(Debug, Clone, PartialEq, Eq)]
pub struct ConversationHistory {
    pub conversation_history: Vec<Message>,
}

impl DeepView for ConversationHistory {
    type V = Seq<MessageView>;

    open spec fn deep_view(&self) -> Seq<MessageView> {
        self.conversation_history.deep_view()
    }
}

/// The message that a document holds: an object with the strings `role` and
/// `content`, and with `id` and `timestamp` as optional texts.
pub open spec fn message_of(doc: JsonTree) -> Option<MessageView> {
    if doc.str_member("role"@) is Some && doc.str_member("content"@) is Some && optional_text(
        doc,
        "id"@,
    ) is Some && optional_text(doc, "timestamp"@) is Some {
        Some(
            MessageView {
                role: doc.str_member("role"@)->Some_0,
                content: doc.str_member("content"@)->Some_0,
                id: optional_text(doc, "id"@)->Some_0,
                timestamp: optional_text(doc, "timestamp"@)->Some_0,
            },
        )
    } else {
        None
    }
}

/// Whether every item holds a message.
pub open spec fn all_messages(items: Seq<JsonTree>) -> bool {
    forall|i: int| 0 <= i < items.len() ==> message_of(#[trigger] items[i]) is Some
}

/// The messages that the items hold.
pub open spec fn messages_of(items: Seq<JsonTree>) -> Seq<MessageView> {
    Seq::new(items.len(), |i: int| message_of(items[i])->Some_0)
}

/// The history that an envelope holds under `conversation_history`.
pub open spec fn history_field(doc: JsonTree) -> Result<Seq<MessageView>, ErrorKind> {
    match doc.get("conversation_history"@) {
        Some(JsonTree::Array(items)) => if all_messages(items) {
            Ok(messages_of(items))
        } else {
            Err(ErrorKind::Json)
        },
        _ => Err(ErrorKind::Json),
    }
}

/// What a reply yields that holds a history.
pub open spec fn history_reply(status: u16, body: Seq<char>) -> Result<
    Seq<MessageView>,
    ErrorKind,
> {
    match document(status, body) {
        Ok(doc) => history_field(doc),
        Err(e) => Err(e),
    }
}

/// `tree` with the text under `name` at its end, where there is one.
pub open spec fn with_optional_text(tree: JsonTree, name: Seq<char>, text: Option<Seq<char>>)
    -> JsonTree {
    match text {
        Some(t) => tree.with_text(name, t),
        None => tree,
    }
}

/// The document of a message: `role` and `content`, then `id` and
/// `timestamp` where the message has them.
pub open spec fn message_tree(message: MessageView) -> JsonTree {
    with_optional_text(
        with_optional_text(
            JsonTree::empty_object().with_text("role"@, message.role).with_text(
                "content"@,
                message.content,
            ),
            "id"@,
            message.id,
        ),
        "timestamp"@,
        message.timestamp,
    )
}

/// The documents of the messages.
pub open spec fn message_items(messages: Seq<MessageView>) -> Seq<JsonTree> {
    Seq::new(messages.len(), |i: int| message_tree(messages[i]))
}

/// The messages, or none where none are given.
pub open spec fn messages_or_none(messages: Option<Seq<MessageView>>) -> Seq<MessageView> {
    match messages {
        Some(m) => m,
        None => Seq::empty(),
    }
}

/// The number, or `fallback` where none is given.
pub open spec fn number_or(number: Option<i32>, fallback: i32) -> i32 {
    match number {
        Some(n) => n,
        None => fallback,
    }
}

impl Message {
    /// Reads a message from a document.
    pub fn from_json(doc: &Json) -> (r: Option<Message>)
        ensures
            r.deep_view() == message_of(doc@),
    {
        let role = match doc.str_member("role") {
            None => { return None; },
            Some(text) => text.to_owned(),
        };
        let content = match doc.str_member("content") {
            None => { return None; },
            Some(text) => text.to_owned(),
        };
        let id = match optional_text_member(doc, "id") {
            None => { return None; },
            Some(id) => id,
        };
        let timestamp = match optional_text_member(doc, "timestamp") {
            None => { return None; },
            Some(timestamp) => timestamp,
        };
        Some(Message { role, content, id, timestamp })
    }

    /// The document of the message.
    pub fn to_json(&self) -> (r: Json)
        ensures
            r@ == message_tree(self.deep_view()),
    {
        let mut r = Json::empty_object().with_text("role", self.role.as_str()).with_text(
            "content",
            self.content.as_str(),
        );
        match &self.id {
            Some(id) => {
                r = r.with_text("id", id.as_str());
            },
            None => {},
        }
        match &self.timestamp {
            Some(timestamp) => {
                r = r.with_text("timestamp", timestamp.as_str());
            },
            None => {},
        }
        r
    }
}

/// The array of the documents of the messages.
pub fn messages_to_json(messages: &Vec<Message>) -> (r: Json)
    ensures
        r@ == JsonTree::Array(message_items(messages.deep_view())),
{
    let n: usize = messages.len();
    let mut items: Vec<Json> = Vec::new();
    let mut i: usize = 0;
    while i < n
        invariant
            n == messages@.len(),
            i <= n,
            items@.len() == i,
            forall|k: int| 0 <= k < i ==> items@[k]@ == message_tree(messages@[k].deep_view()),
        decreases n - i,
    {
        items.push(messages[i].to_json());
        i = i + 1;
    }
    proof {
        lemma_array_tree(items);
        assert(items.deep_view() =~= message_items(messages.deep_view()));
    }
    Json::Array(items)
}

impl ConversationHistory {
    /// Takes the history out of an envelope.
    pub fn from_json(doc: &Json) -> (r: Result<ConversationHistory, Error>)
        ensures
            outcome(r) == history_field(doc@),
    {
        let items = match doc.get("conversation_history") {
            None => { return Err(shape_error("conversation_history")); },
            Some(member) => match member.as_array() {
                None => { return Err(shape_error("conversation_history")); },
                Some(items) => items,
            },
        };
        let ghost trees = doc@.get("conversation_history"@)->Some_0->Array_0;
        let n: usize = items.len();
        let mut out: Vec<Message> = Vec::new();
        let mut i: usize = 0;
        while i < n
            invariant
                n == items@.len(),
                doc@.get("conversation_history"@) == Some(JsonTree::Array(trees)),
                trees.len() == n,
                i <= n,
                out@.len() == i,
                forall|k: int| 0 <= k < n ==> trees[k] == items@[k]@,
                forall|k: int| 0 <= k < i ==> message_of(#[trigger] trees[k]) is Some,
                forall|k: int|
                    0 <= k < i ==> (#[trigger] out@[k]).deep_view() == message_of(
                        trees[k],
                    )->Some_0,
            decreases n - i,
        {
            match Message::from_json(&items[i]) {
                None => {
                    assert(message_of(trees[i as int]) is None);
                    return Err(shape_error("conversation_history"));
                },
                Some(message) => {
                    out.push(message);
                },
            }
            i = i + 1;
        }
        assert(out.deep_view() =~= messages_of(trees));
        Ok(ConversationHistory { conversation_history: out })
    }
}

/// Reads a reply that holds a history.
pub fn read_history(status: u16, body: &str) -> (r: Result<Vec<Message>, Error>)
    ensures
        outcome(r) == history_reply(status, body@),
{
    match read_document(status, body) {
        Err(e) => Err(e),
        Ok(doc) => match ConversationHistory::from_json(&doc) {
            Ok(history) => Ok(history.conversation_history),
            Err(e) => Err(e),
        },
    }
}

/// Whether every member is a string.
pub open spec fn all_text_members(members: Seq<(Seq<char>, JsonTree)>) -> bool {
    forall|i: int| 0 <= i < members.len() ==> (#[trigger] members[i]).1 is String
}

/// The names and texts of members that are strings.
pub open spec fn text_members(members: Seq<(Seq<char>, JsonTree)>) -> Seq<
    (Seq<char>, Seq<char>),
> {
    Seq::new(members.len(), |i: int| (members[i].0, members[i].1->String_0))
}

/// Whether no name occurs twice among the pairs.
pub open spec fn distinct_keys(pairs: Seq<(Seq<char>, Seq<char>)>) -> bool {
    forall|i: int, j: int|
        0 <= i < j < pairs.len() ==> (#[trigger] pairs[i]).0 != (#[trigger] pairs[j]).0
}

/// The names and texts that a document holds: a map whose members are all
/// strings.
pub open spec fn text_map_of(doc: JsonTree) -> Option<Seq<(Seq<char>, Seq<char>)>> {
    match map_of(doc) {
        Some(members) => if all_text_members(members) {
            Some(text_members(members))
        } else {
            None
        },
        None => None,
    }
}

/// No name occurs twice among the names and texts that a document holds.
pub proof fn lemma_text_map_has_distinct_keys(doc: JsonTree)
    requires
        text_map_of(doc) is Some,
    ensures
        distinct_keys(text_map_of(doc)->Some_0),
{
    let members = map_of(doc)->Some_0;
    let pairs = text_members(members);
    assert forall|i: int, j: int| 0 <= i < j < pairs.len() implies (#[trigger] pairs[i]).0 != (
    #[trigger] pairs[j]).0 by {
        assert(pairs[i].0 == members[i].0);
        assert(pairs[j].0 == members[j].0);
    }
}

/// Whether every item is an object whose members are all strings.
pub open spec fn all_text_maps(items: Seq<JsonTree>) -> bool {
    forall|i: int| 0 <= i < items.len() ==> text_map_of(#[trigger] items[i]) is Some
}

/// The names and texts that the items hold.
pub open spec fn text_maps_of(items: Seq<JsonTree>) -> Seq<Seq<(Seq<char>, Seq<char>)>> {
    Seq::new(items.len(), |i: int| text_map_of(items[i])->Some_0)
}

/// The listing that an envelope holds under `conversations_with_ids`.
pub open spec fn conversations_with_ids_field(doc: JsonTree) -> Result<
    Seq<Seq<(Seq<char>, Seq<char>)>>,
    ErrorKind,
> {
    match doc.get("conversations_with_ids"@) {
        Some(JsonTree::Array(items)) => if all_text_maps(items) {
            Ok(text_maps_of(items))
        } else {
            Err(ErrorKind::Json)
        },
        _ => Err(ErrorKind::Json),
    }
}

/// What a reply yields that lists the conversations with their identifiers.
pub open spec fn conversations_with_ids_reply(status: u16, body: Seq<char>) -> Result<
    Seq<Seq<(Seq<char>, Seq<char>)>>,
    ErrorKind,
> {
    match document(status, body) {
        Ok(doc) => conversations_with_ids_field(doc),
        Err(e) => Err(e),
    }
}

/// Reads the names and texts of a map whose members are all strings; no
/// name occurs twice among them.
pub fn text_map_from_json(doc: &Json) -> (r: Option<Vec<(String, String)>>)
    ensures
        r.deep_view() == text_map_of(doc@),
        r matches Some(pairs) ==> distinct_keys(pairs.deep_view()),
{
    let map = match JsonMap::from_json(doc) {
        None => { return None; },
        Some(map) => map,
    };
    let members = map.entries();
    let ghost trees = members.deep_view();
    let n: usize = members.len();
    let mut out: Vec<(String, String)> = Vec::new();
    let mut i: usize = 0;
    while i < n
        invariant
            n == members@.len(),
            map_of(doc@) == Some(trees),
            trees == members.deep_view(),
            i <= n,
            out@.len() == i,
            forall|k: int| 0 <= k < i ==> (#[trigger] trees[k]).1 is String,
            forall|k: int|
                0 <= k < i ==> (#[trigger] out@[k]).deep_view() == (trees[k].0, trees[k].1->String_0),
        decreases n - i,
    {
        assert(trees[i as int] == members@[i as int].deep_view());
        match members[i].1.as_str() {
            None => {
                return None;
            },
            Some(text) => {
                out.push((members[i].0.clone(), text.to_owned()));
            },
        }
        i = i + 1;
    }
    assert(out.deep_view() =~= text_members(trees));
    proof {
        lemma_text_map_has_distinct_keys(doc@);
    }
    Some(out)
}

/// Takes the listing of the conversations with their identifiers out of an
/// envelope.
pub fn conversations_with_ids_member(doc: &Json) -> (r: Result<Vec<Vec<(String, String)>>, Error>)
    ensures
        outcome(r) == conversations_with_ids_field(doc@),
{
    let items = match doc.get("conversations_with_ids") {
        None => { return Err(shape_error("conversations_with_ids")); },
        Some(member) => match member.as_array() {
            None => { return Err(shape_error("conversations_with_ids")); },
            Some(items) => items,
        },
    };
    let ghost trees = doc@.get("conversations_with_ids"@)->Some_0->Array_0;
    let n: usize = items.len();
    let mut out: Vec<Vec<(String, String)>> = Vec::new();
    let mut i: usize = 0;
    while i < n
        invariant
            n == items@.len(),
            doc@.get("conversations_with_ids"@) == Some(JsonTree::Array(trees)),
            trees.len() == n,
            i <= n,
            out@.len() == i,
            forall|k: int| 0 <= k < n ==> trees[k] == items@[k]@,
            forall|k: int| 0 <= k < i ==> text_map_of(#[trigger] trees[k]) is Some,
            forall|k: int|
                0 <= k < i ==> (#[trigger] out@[k]).deep_view() == text_map_of(trees[k])->Some_0,
        decreases n - i,
    {
        match text_map_from_json(&items[i]) {
            None => {
                assert(text_map_of(trees[i as int]) is None);
                return Err(shape_error("conversations_with_ids"));
            },
            Some(map) => {
                out.push(map);
            },
        }
        i = i + 1;
    }
    assert(out.deep_view() =~= text_maps_of(trees));
    Ok(out)
}

fn messages_or_empty(messages: Option<Vec<Message>>) -> (r: Vec<Message>)
    ensures
        r.deep_view() == messages_or_none(messages.deep_view()),
{
    match messages {
        Some(m) => m,
        None => {
            let r: Vec<Message> = Vec::new();
            assert(r.deep_view() =~= Seq::empty());
            r
        },
    }
}

fn number_or_default(number: Option<i32>, fallback: i32) -> (r: i32)
    ensures
        r == number_or(number, fallback),
{
    match number {
        Some(n) => n,
        None => fallback,
    }
}

impl AGiXTSDK {
    /// Describes the listing of the conversations. The agent's name does not
    /// go into the request.
    pub fn get_conversations(&self, _agent_name: Option<&str>) -> (r: Request)
        ensures
            r@ == self@.authorized(Method::Get, "/api/conversations"@, None),
    {
        self.authorized(Method::Get, "/api/conversations", None)
    }

    /// Reads the listing of the conversations: their names.
    pub fn get_conversations_response(&self, status: u16, body: &str) -> (r: Result<
        Vec<String>,
        Error,
    >)
        ensures
            outcome(r) == texts_reply(status, body@, "conversations"@),
    {
        read_texts(status, body, "conversations")
    }

    /// Describes the listing of the conversations with their identifiers.
    pub fn get_conversations_with_ids(&self) -> (r: Request)
        ensures
            r@ == self@.authorized(Method::Get, "/api/conversations"@, None),
    {
        self.authorized(Method::Get, "/api/conversations", None)
    }

    /// Reads the listing of the conversations with their identifiers: for
    /// each conversation its names and texts.
    pub fn get_conversations_with_ids_response(&self, status: u16, body: &str) -> (r: Result<
        Vec<Vec<(String, String)>>,
        Error,
    >)
        ensures
            outcome(r) == conversations_with_ids_reply(status, body@),
    {
        match read_document(status, body) {
            Ok(doc) => conversations_with_ids_member(&doc),
            Err(e) => Err(e),
        }
    }

    /// Describes the reading of a conversation, a page at a time: a hundred
    /// entries and the first page, where nothing else is asked for.
    pub fn get_conversation(
        &self,
        agent_name: &str,
        conversation_name: &str,
        limit: Option<i32>,
        page: Option<i32>,
    ) -> (r: Request)
        ensures
            r@ == self@.authorized(
                Method::Get,
                "/api/conversation"@,
                Some(
                    JsonTree::empty_object().with_text(
                        "conversation_name"@,
                        conversation_name@,
                    ).with_text("agent_name"@, agent_name@).with(
                        "limit"@,
                        JsonTree::Number(signed_decimal(number_or(limit, 100) as int)),
                    ).with(
                        "page"@,
                        JsonTree::Number(signed_decimal(number_or(page, 1) as int)),
                    ),
                ),
            ),
    {
        let limit: i32 = number_or_default(limit, 100);
        let page: i32 = number_or_default(page, 1);
        let body = Json::empty_object().with_text("conversation_name", conversation_name).with_text(
            "agent_name",
            agent_name,
        ).with("limit", Json::integer(limit as i64)).with("page", Json::integer(page as i64));
        self.authorized(Method::Get, "/api/conversation", Some(body))
    }

    /// Reads a page of a conversation.
    pub fn get_conversation_response(&self, status: u16, body: &str) -> (r: Result<
        Vec<Message>,
        Error,
    >)
        ensures
            outcome(r) == history_reply(status, body@),
    {
        read_history(status, body)
    }

    /// Describes the forking of a conversation at a message.
    pub fn fork_conversation(&self, conversation_name: &str, message_id: &str) -> (r: Request)
        ensures
            r@ == self@.authorized(
                Method::Post,
                "/api/conversation/fork"@,
                Some(
                    JsonTree::empty_object().with_text(
                        "conversation_name"@,
                        conversation_name@,
                    ).with_text("message_id"@, message_id@),
                ),
            ),
    {
        let body = Json::empty_object().with_text("conversation_name", conversation_name).with_text(
            "message_id",
            message_id,
        );
        self.authorized(Method::Post, "/api/conversation/fork", Some(body))
    }

    /// Reads the reply to the forking of a conversation: the message of the
    /// service.
    pub fn fork_conversation_response(&self, status: u16, body: &str) -> (r: Result<String, Error>)
        ensures
            outcome(r) == text_reply(status, body@, "message"@),
    {
        read_text(status, body, "message")
    }

    /// Describes the creation of a conversation, with the entries it starts
    /// with.
    pub fn new_conversation(
        &self,
        agent_name: &str,
        conversation_name: &str,
        conversation_content: Option<Vec<Message>>,
    ) -> (r: Request)
        ensures
            r@ == self@.authorized(
                Method::Post,
                "/api/conversation"@,
                Some(
                    JsonTree::empty_object().with_text(
                        "conversation_name"@,
                        conversation_name@,
                    ).with_text("agent_name"@, agent_name@).with(
                        "conversation_content"@,
                        JsonTree::Array(
                            message_items(messages_or_none(conversation_content.deep_view())),
                        ),
                    ),
                ),
            ),
    {
        let content = messages_or_empty(conversation_content);
        let body = Json::empty_object().with_text("conversation_name", conversation_name).with_text(
            "agent_name",
            agent_name,
        ).with("conversation_content", messages_to_json(&content));
        self.authorized(Method::Post, "/api/conversation", Some(body))
    }

    /// Reads the reply to the creation of a conversation: its entries.
    pub fn new_conversation_response(&self, status: u16, body: &str) -> (r: Result<
        Vec<Message>,
        Error,
    >)
        ensures
            outcome(r) == history_reply(status, body@),
    {
        read_history(status, body)
    }

    /// Describes the renaming of a conversation.
    pub fn rename_conversation(&self, agent_name: &str, conversation_name: &str, new_name: &str)
        -> (r: Request)
        ensures
            r@ == self@.authorized(
                Method::Put,
                "/api/conversation"@,
                Some(
                    JsonTree::empty_object().with_text(
                        "conversation_name"@,
                        conversation_name@,
                    ).with_text("new_conversation_name"@, new_name@).with_text(
                        "agent_name"@,
                        agent_name@,
                    ),
                ),
            ),
    {
        let body = Json::empty_object().with_text("conversation_name", conversation_name).with_text(
            "new_conversation_name",
            new_name,
        ).with_text("agent_name", agent_name);
        self.authorized(Method::Put, "/api/conversation", Some(body))
    }

    /// Reads the reply to the renaming of a conversation: the name that the
    /// conversation now has.
    pub fn rename_conversation_response(&self, status: u16, body: &str) -> (r: Result<
        String,
        Error,
    >)
        ensures
            outcome(r) == text_reply(status, body@, "conversation_name"@),
    {
        read_text(status, body, "conversation_name")
    }

    /// Describes the deletion of a conversation.
    pub fn delete_conversation(&self, agent_name: &str, conversation_name: &str) -> (r: Request)
        ensures
            r@ == self@.authorized(
                Method::Delete,
                "/api/conversation"@,
                Some(
                    JsonTree::empty_object().with_text(
                        "conversation_name"@,
                        conversation_name@,
                    ).with_text("agent_name"@, agent_name@),
                ),
            ),
    {
        let body = Json::empty_object().with_text("conversation_name", conversation_name).with_text(
            "agent_name",
            agent_name,
        );
        self.authorized(Method::Delete, "/api/conversation", Some(body))
    }

    /// Reads the reply to the deletion of a conversation: the message of the
    /// service.
    pub fn delete_conversation_response(&self, status: u16, body: &str) -> (r: Result<
        String,
        Error,
    >)
        ensures
            outcome(r) == text_reply(status, body@, "message"@),
    {
        read_text(status, body, "message")
    }

    /// Describes the adding of an entry to a conversation.
    pub fn new_conversation_message(&self, role: &str, message: &str, conversation_name: &str)
        -> (r: Request)
        ensures
            r@ == self@.authorized(
                Method::Post,
                "/api/conversation/message"@,
                Some(
                    JsonTree::empty_object().with_text("role"@, role@).with_text(
                        "message"@,
                        message@,
                    ).with_text("conversation_name"@, conversation_name@),
                ),
            ),
    {
        let body = Json::empty_object().with_text("role", role).with_text(
            "message",
            message,
        ).with_text("conversation_name", conversation_name);
        self.authorized(Method::Post, "/api/conversation/message", Some(body))
    }

    /// Reads the reply to the adding of an entry: the message of the
    /// service.
    pub fn new_conversation_message_response(&self, status: u16, body: &str) -> (r: Result<
        String,
        Error,
    >)
        ensures
            outcome(r) == text_reply(status, body@, "message"@),
    {
        read_text(status, body, "message")
    }

    /// Describes the lookup of a conversation by its name: the listing of
    /// the conversations.
    pub fn get_conversation_id_by_name(&self, conversation_name: &str) -> (r: Request)
        ensures
            r@ == self@.authorized(Method::Get, "/api/conversations"@, None),
    {
        self.authorized(Method::Get, "/api/conversations", None)
    }

    /// Reads the listing of the conversations with their identifiers and
    /// looks `conversation_name` up in it: the identifier of the first
    /// conversation of that name, or nothing where no conversation has it. A
    /// conversation of that name without a text for its identifier is
    /// malformed.
    pub fn get_conversation_id_by_name_response(
        &self,
        conversation_name: &str,
        status: u16,
        body: &str,
    ) -> (r: Result<Option<String>, Error>)
        ensures
            outcome(r) == match maps_reply(status, body@, "conversations_with_ids"@) {
                Ok(items) => id_by_name(items, conversation_name@),
                Err(e) => Err(e),
            },
    {
        match read_maps(status, body, "conversations_with_ids") {
            Ok(items) => find_id_by_name(&items, conversation_name),
            Err(e) => Err(e),
        }
    }
}

/// A reply outside the success class is an error of the service that holds
/// the status and the body as they came, for a history and for a listing
/// with identifiers alike.
pub proof fn lemma_failure_is_api_error_for_conversations(status: u16, body: Seq<char>)
    requires
        status >= 400,
    ensures
        history_reply(status, body) == Err::<Seq<MessageView>, ErrorKind>(
            ErrorKind::Api { status, message: body },
        ),
        conversations_with_ids_reply(status, body) == Err::<
            Seq<Seq<(Seq<char>, Seq<char>)>>,
            ErrorKind,
        >(ErrorKind::Api { status, message: body }),
{
}

/// Reading the document of a message gives the message back.
pub proof fn lemma_message_survives_writing(message: MessageView)
    ensures
        message_of(message_tree(message)) == Some(message),
{
    reveal_strlit("role");
    reveal_strlit("content");
    reveal_strlit("id");
    reveal_strlit("timestamp");
    reveal_with_fuel(member_from, 5);
    let doc = message_tree(message);
    let members = doc->Object_0;
    assert("role"@[0] == 'r' && "content"@[0] == 'c' && "id"@[0] == 'i' && "timestamp"@[0] == 't');
    assert(members[0] == ("role"@, JsonTree::String(message.role)));
    assert(members[1] == ("content"@, JsonTree::String(message.content)));
    assert(doc.str_member("role"@) == Some(message.role));
    assert(doc.str_member("content"@) == Some(message.content));
    assert(optional_text(doc, "id"@) == Some(message.id));
    assert(optional_text(doc, "timestamp"@) == Some(message.timestamp));
}

} // verus!
