//! The shapes of a chat exchange.

use crate::json::lemma_array_tree;
use crate::json::member_from;
use crate::json::Json;
use crate::json::JsonTree;
use crate::reply::optional_text;
use crate::text::i64_of;
use crate::text::lemma_integer_of_signed_decimal;
use crate::text::parse_integer;
use crate::text::signed_decimal;
use crate::reply::optional_text_member;
use vstd::prelude::*;

verus! {

/// The address of an image.
#[derive(Debug, Clone, PartialEq, Eq)]
pub struct ImageUrl {
    pub url: String,
}

/// The address of a file.
#[derive(Debug, Clone, PartialEq, Eq)]
pub struct FileUrl {
    pub url: String,
}

/// One part of a structured content: a text, an image or a file, each
/// optional.
#[derive(Debug, Clone, PartialEq, Eq)]
pub struct ContentPart {
    pub text: Option<String>,
    pub image_url: Option<ImageUrl>,
    pub file_url: Option<FileUrl>,
}

/// The content of a message: a text, or parts.
#[derive(Debug, Clone, PartialEq, Eq)]
pub enum MessageContent {
    Text(String),
    Structured(Vec<ContentPart>),
}

/// A message of a chat.
#[derive(Debug, Clone, PartialEq, Eq)]
pub struct Message {
    pub role: String,
    pub content: MessageContent,
}

/// A tool that a model may call.
#[derive(Debug, Clone, PartialEq, Eq)]
pub struct Tool {
    pub name: String,
    pub description: String,
    pub parameters: Json,
}

/// The token counts of a completion.
#[derive(Debug, Clone, Copy, PartialEq, Eq)]
pub struct Usage {
    pub prompt_tokens: i32,
    pub completion_tokens: i32,
    pub total_tokens: i32,
}

/// One of the completions of a chat.
#[derive(Debug, Clone, PartialEq, Eq)]
pub struct Choice {
    pub index: i32,
    pub message: Message,
    pub finish_reason: String,
    pub logprobs: Option<Json>,
}

/// The reply to a chat.
#[derive(Debug, Clone, PartialEq, Eq)]
pub struct ChatResponse {
    pub id: String,
    pub object: String,
    pub created: i64,
    pub model: String,
    pub choices: Vec<Choice>,
    pub usage: Usage,
}

/// The mathematical value of a [`ContentPart`]: the text and the two
/// addresses.
pub struct ContentPartView {
    pub text: Option<Seq<char>>,
    pub image_url: Option<Seq<char>>,
    pub file_url: Option<Seq<char>>,
}

/// The mathematical value of a [`MessageContent`].
pub enum MessageContentView {
    Text(Seq<char>),
    Structured(Seq<ContentPartView>),
}

/// The mathematical value of a [`Message`].
pub struct MessageView {
    pub role: Seq<char>,
    pub content: MessageContentView,
}

impl DeepView for ImageUrl {
    type V = Seq<char>;

    open spec fn deep_view(&self) -> Seq<char> {
        self.url@
    }
}

impl DeepView for FileUrl {
    type V = Seq<char>;

    open spec fn deep_view(&self) -> Seq<char> {
        self.url@
    }
}

impl DeepView for ContentPart {
    type V = ContentPartView;

    open spec fn deep_view(&self) -> ContentPartView {
        ContentPartView {
            text: self.text.deep_view(),
            image_url: self.image_url.deep_view(),
            file_url: self.file_url.deep_view(),
        }
    }
}

impl DeepView for MessageContent {
    type V = MessageContentView;

    open spec fn deep_view(&self) -> MessageContentView {
        match self {
            MessageContent::Text(text) => MessageContentView::Text(text@),
            MessageContent::Structured(parts) => MessageContentView::Structured(parts.deep_view()),
        }
    }
}

impl DeepView for Message {
    type V = MessageView;

    open spec fn deep_view(&self) -> MessageView {
        MessageView { role: self.role@, content: self.content.deep_view() }
    }
}

/// The model that a chat asks for where none is named.
pub fn default_model() -> (r: String)
    ensures
        r@ == "gpt4free"@,
{
    "gpt4free".to_owned()
}

/// The address under `key`: nothing where the member is missing or null,
/// the text `url` of the object that it is otherwise. Anything else is
/// malformed, which the outer `None` says.
pub open spec fn optional_url(doc: JsonTree, key: Seq<char>) -> Option<Option<Seq<char>>> {
    match doc.get(key) {
        None => Some(None),
        Some(JsonTree::Null) => Some(None),
        Some(member) => match member.str_member("url"@) {
            Some(url) => Some(Some(url)),
            None => None,
        },
    }
}

/// The part that a document holds: an object whose members `text`,
/// `image_url` and `file_url` are each missing, null or of their shape.
pub open spec fn part_of(doc: JsonTree) -> Option<ContentPartView> {
    if doc is Object && optional_text(doc, "text"@) is Some && optional_url(doc, "image_url"@)
        is Some && optional_url(doc, "file_url"@) is Some {
        Some(
            ContentPartView {
                text: optional_text(doc, "text"@)->Some_0,
                image_url: optional_url(doc, "image_url"@)->Some_0,
                file_url: optional_url(doc, "file_url"@)->Some_0,
            },
        )
    } else {
        None
    }
}

/// Whether every item holds a part.
pub open spec fn all_parts(items: Seq<JsonTree>) -> bool {
    forall|i: int| 0 <= i < items.len() ==> part_of(#[trigger] items[i]) is Some
}

/// The parts that the items hold.
pub open spec fn parts_of(items: Seq<JsonTree>) -> Seq<ContentPartView> {
    Seq::new(items.len(), |i: int| part_of(items[i])->Some_0)
}

/// The content that a document holds, told by its shape: a string is a
/// text, an array of parts is structured, nothing else is a content.
pub open spec fn content_of(doc: JsonTree) -> Option<MessageContentView> {
    match doc {
        JsonTree::String(text) => Some(MessageContentView::Text(text)),
        JsonTree::Array(items) => if all_parts(items) {
            Some(MessageContentView::Structured(parts_of(items)))
        } else {
            None
        },
        _ => None,
    }
}

/// The message that a document holds: an object with the string `role` and
/// a content under `content`.
pub open spec fn message_of(doc: JsonTree) -> Option<MessageView> {
    match (doc.str_member("role"@), doc.get("content"@)) {
        (Some(role), Some(member)) => match content_of(member) {
            Some(content) => Some(MessageView { role, content }),
            None => None,
        },
        _ => None,
    }
}

/// `tree` with the object of an address under `name` at its end, where there
/// is an address.
pub open spec fn with_optional_url(tree: JsonTree, name: Seq<char>, url: Option<Seq<char>>)
    -> JsonTree {
    match url {
        Some(u) => tree.with(name, JsonTree::empty_object().with_text("url"@, u)),
        None => tree,
    }
}

/// The document of a part: of `text`, `image_url` and `file_url` those that
/// the part has, in this order.
pub open spec fn part_tree(part: ContentPartView) -> JsonTree {
    with_optional_url(
        with_optional_url(
            match part.text {
                Some(t) => JsonTree::empty_object().with_text("text"@, t),
                None => JsonTree::empty_object(),
            },
            "image_url"@,
            part.image_url,
        ),
        "file_url"@,
        part.file_url,
    )
}

/// The documents of the parts.
pub open spec fn part_items(parts: Seq<ContentPartView>) -> Seq<JsonTree> {
    Seq::new(parts.len(), |i: int| part_tree(parts[i]))
}

/// The document of a content: a string for a text, an array for parts.
pub open spec fn content_tree(content: MessageContentView) -> JsonTree {
    match content {
        MessageContentView::Text(text) => JsonTree::String(text),
        MessageContentView::Structured(parts) => JsonTree::Array(part_items(parts)),
    }
}

/// The document of a message.
pub open spec fn message_tree(message: MessageView) -> JsonTree {
    JsonTree::empty_object().with_text("role"@, message.role).with(
        "content"@,
        content_tree(message.content),
    )
}

fn optional_url_member(doc: &Json, key: &str) -> (r: Option<Option<String>>)
    ensures
        r.deep_view() == optional_url(doc@, key@),
{
    match doc.get(key) {
        None => Some(None),
        Some(member) => match member {
            Json::Null => Some(None),
            _ => match member.get("url") {
                None => None,
                Some(url) => match url.as_str() {
                    None => None,
                    Some(text) => Some(Some(text.to_owned())),
                },
            },
        },
    }
}

impl ImageUrl {
    /// The document of the address.
    pub fn to_json(&self) -> (r: Json)
        ensures
            r@ == JsonTree::empty_object().with_text("url"@, self.url@),
    {
        Json::empty_object().with_text("url", self.url.as_str())
    }

    /// Reads an address from a document: an object with the string `url`.
    pub fn from_json(doc: &Json) -> (r: Option<ImageUrl>)
        ensures
            r.deep_view() == doc@.str_member("url"@),
    {
        match doc.get("url") {
            None => None,
            Some(url) => match url.as_str() {
                None => None,
                Some(text) => Some(ImageUrl { url: text.to_owned() }),
            },
        }
    }
}

impl FileUrl {
    /// The document of the address.
    pub fn to_json(&self) -> (r: Json)
        ensures
            r@ == JsonTree::empty_object().with_text("url"@, self.url@),
    {
        Json::empty_object().with_text("url", self.url.as_str())
    }

    /// Reads an address from a document: an object with the string `url`.
    pub fn from_json(doc: &Json) -> (r: Option<FileUrl>)
        ensures
            r.deep_view() == doc@.str_member("url"@),
    {
        match doc.get("url") {
            None => None,
            Some(url) => match url.as_str() {
                None => None,
                Some(text) => Some(FileUrl { url: text.to_owned() }),
            },
        }
    }
}

impl ContentPart {
    /// The document of the part.
    pub fn to_json(&self) -> (r: Json)
        ensures
            r@ == part_tree(self.deep_view()),
    {
        let mut r = Json::empty_object();
        match &self.text {
            Some(text) => {
                r = r.with_text("text", text.as_str());
            },
            None => {},
        }
        match &self.image_url {
            Some(image) => {
                r = r.with("image_url", image.to_json());
            },
            None => {},
        }
        match &self.file_url {
            Some(file) => {
                r = r.with("file_url", file.to_json());
            },
            None => {},
        }
        r
    }

    /// Reads a part from a document.
    pub fn from_json(doc: &Json) -> (r: Option<ContentPart>)
        ensures
            r.deep_view() == part_of(doc@),
    {
        if !doc.is_object() {
            return None;
        }
        let text = match optional_text_member(doc, "text") {
            None => { return None; },
            Some(text) => text,
        };
        let image_url = match optional_url_member(doc, "image_url") {
            None => { return None; },
            Some(None) => None,
            Some(Some(url)) => Some(ImageUrl { url }),
        };
        let file_url = match optional_url_member(doc, "file_url") {
            None => { return None; },
            Some(None) => None,
            Some(Some(url)) => Some(FileUrl { url }),
        };
        Some(ContentPart { text, image_url, file_url })
    }
}

impl MessageContent {
    /// The document of the content.
    pub fn to_json(&self) -> (r: Json)
        ensures
            r@ == content_tree(self.deep_view()),
    {
        match self {
            MessageContent::Text(text) => Json::text(text.as_str()),
            MessageContent::Structured(parts) => {
                let n: usize = parts.len();
                let mut items: Vec<Json> = Vec::new();
                let mut i: usize = 0;
                while i < n
                    invariant
                        n == parts@.len(),
                        i <= n,
                        items@.len() == i,
                        forall|k: int|
                            0 <= k < i ==> items@[k]@ == part_tree(parts@[k].deep_view()),
                    decreases n - i,
                {
                    items.push(parts[i].to_json());
                    i = i + 1;
                }
                proof {
                    lemma_array_tree(items);
                    assert(items.deep_view() =~= part_items(parts.deep_view()));
                }
                Json::Array(items)
            },
        }
    }

    /// Reads a content from a document, telling the two kinds apart by the
    /// shape of the document.
    pub fn from_json(doc: &Json) -> (r: Option<MessageContent>)
        ensures
            r.deep_view() == content_of(doc@),
    {
        match doc.as_str() {
            Some(text) => { return Some(MessageContent::Text(text.to_owned())); },
            None => {},
        }
        let items = match doc.as_array() {
            None => { return None; },
            Some(items) => items,
        };
        let ghost trees = doc@->Array_0;
        let n: usize = items.len();
        let mut parts: Vec<ContentPart> = Vec::new();
        let mut i: usize = 0;
        while i < n
            invariant
                n == items@.len(),
                doc@ == JsonTree::Array(trees),
                trees.len() == n,
                i <= n,
                parts@.len() == i,
                forall|k: int| 0 <= k < n ==> trees[k] == items@[k]@,
                forall|k: int| 0 <= k < i ==> part_of(#[trigger] trees[k]) is Some,
                forall|k: int|
                    0 <= k < i ==> (#[trigger] parts@[k]).deep_view() == part_of(trees[k])->Some_0,
            decreases n - i,
        {
            match ContentPart::from_json(&items[i]) {
                None => {
                    assert(part_of(trees[i as int]) is None);
                    return None;
                },
                Some(part) => {
                    parts.push(part);
                },
            }
            i = i + 1;
        }
        assert(parts.deep_view() =~= parts_of(trees));
        Some(MessageContent::Structured(parts))
    }
}

impl Message {
    /// The document of the message.
    pub fn to_json(&self) -> (r: Json)
        ensures
            r@ == message_tree(self.deep_view()),
    {
        Json::empty_object().with_text("role", self.role.as_str()).with(
            "content",
            self.content.to_json(),
        )
    }

    /// Reads a message from a document.
    pub fn from_json(doc: &Json) -> (r: Option<Message>)
        ensures
            r.deep_view() == message_of(doc@),
    {
        let role = match doc.str_member("role") {
            None => { return None; },
            Some(text) => text.to_owned(),
        };
        let content = match doc.get("content") {
            None => { return None; },
            Some(member) => match MessageContent::from_json(member) {
                None => { return None; },
                Some(content) => content,
            },
        };
        Some(Message { role, content })
    }
}

/// The mathematical value of a [`Tool`].
pub struct ToolView {
    pub name: Seq<char>,
    pub description: Seq<char>,
    pub parameters: JsonTree,
}

/// The mathematical value of a [`Choice`].
pub struct ChoiceView {
    pub index: i32,
    pub message: MessageView,
    pub finish_reason: Seq<char>,
    pub logprobs: Option<JsonTree>,
}

/// The mathematical value of a [`ChatResponse`].
pub struct ChatResponseView {
    pub id: Seq<char>,
    pub object: Seq<char>,
    pub created: i64,
    pub model: Seq<char>,
    pub choices: Seq<ChoiceView>,
    pub usage: Usage,
}

impl DeepView for Tool {
    type V = ToolView;

    open spec fn deep_view(&self) -> ToolView {
        ToolView {
            name: self.name@,
            description: self.description@,
            parameters: self.parameters@,
        }
    }
}

impl DeepView for Usage {
    type V = Usage;

    open spec fn deep_view(&self) -> Usage {
        *self
    }
}

impl DeepView for Choice {
    type V = ChoiceView;

    open spec fn deep_view(&self) -> ChoiceView {
        ChoiceView {
            index: self.index,
            message: self.message.deep_view(),
            finish_reason: self.finish_reason@,
            logprobs: self.logprobs.deep_view(),
        }
    }
}

impl DeepView for ChatResponse {
    type V = ChatResponseView;

    open spec fn deep_view(&self) -> ChatResponseView {
        ChatResponseView {
            id: self.id@,
            object: self.object@,
            created: self.created,
            model: self.model@,
            choices: self.choices.deep_view(),
            usage: self.usage,
        }
    }
}

/// The integer under `key`, where the member is a number written as an
/// integer that 64 bits hold.
pub open spec fn i64_member(doc: JsonTree, key: Seq<char>) -> Option<i64> {
    match doc.get(key) {
        Some(JsonTree::Number(digits)) => i64_of(digits),
        _ => None,
    }
}

/// The integer under `key`, where the member is a number written as an
/// integer that 32 bits hold.
pub open spec fn i32_member(doc: JsonTree, key: Seq<char>) -> Option<i32> {
    match i64_member(doc, key) {
        Some(v) => if i32::MIN <= v <= i32::MAX {
            Some(v as i32)
        } else {
            None
        },
        None => None,
    }
}

/// The document under `key`, where the member is there and not null.
pub open spec fn optional_document(doc: JsonTree, key: Seq<char>) -> Option<JsonTree> {
    match doc.get(key) {
        None => None,
        Some(JsonTree::Null) => None,
        Some(member) => Some(member),
    }
}

/// The counts that a document holds: an object with the three integers.
pub open spec fn usage_of(doc: JsonTree) -> Option<Usage> {
    match (
        i32_member(doc, "prompt_tokens"@),
        i32_member(doc, "completion_tokens"@),
        i32_member(doc, "total_tokens"@),
    ) {
        (Some(prompt_tokens), Some(completion_tokens), Some(total_tokens)) => Some(
            Usage { prompt_tokens, completion_tokens, total_tokens },
        ),
        _ => None,
    }
}

/// The document of the counts.
pub open spec fn usage_tree(usage: Usage) -> JsonTree {
    JsonTree::empty_object().with(
        "prompt_tokens"@,
        JsonTree::Number(signed_decimal(usage.prompt_tokens as int)),
    ).with(
        "completion_tokens"@,
        JsonTree::Number(signed_decimal(usage.completion_tokens as int)),
    ).with("total_tokens"@, JsonTree::Number(signed_decimal(usage.total_tokens as int)))
}

/// The tool that a document holds: an object with the strings `name` and
/// `description` and with a member `parameters`.
pub open spec fn tool_of(doc: JsonTree) -> Option<ToolView> {
    match (doc.str_member("name"@), doc.str_member("description"@), doc.get("parameters"@)) {
        (Some(name), Some(description), Some(parameters)) => Some(
            ToolView { name, description, parameters },
        ),
        _ => None,
    }
}

/// The document of a tool.
pub open spec fn tool_tree(tool: ToolView) -> JsonTree {
    JsonTree::empty_object().with_text("name"@, tool.name).with_text(
        "description"@,
        tool.description,
    ).with("parameters"@, tool.parameters)
}

/// The completion that a document holds: an object with the integer `index`,
/// a message under `message`, the string `finish_reason`, and `logprobs`
/// where that member is there and not null.
pub open spec fn choice_of(doc: JsonTree) -> Option<ChoiceView> {
    match (i32_member(doc, "index"@), doc.get("message"@), doc.str_member("finish_reason"@)) {
        (Some(index), Some(member), Some(finish_reason)) => match message_of(member) {
            Some(message) => Some(
                ChoiceView {
                    index,
                    message,
                    finish_reason,
                    logprobs: optional_document(doc, "logprobs"@),
                },
            ),
            None => None,
        },
        _ => None,
    }
}

/// The document of a completion.
pub open spec fn choice_tree(choice: ChoiceView) -> JsonTree {
    let required = JsonTree::empty_object().with(
        "index"@,
        JsonTree::Number(signed_decimal(choice.index as int)),
    ).with("message"@, message_tree(choice.message)).with_text(
        "finish_reason"@,
        choice.finish_reason,
    );
    match choice.logprobs {
        Some(logprobs) => required.with("logprobs"@, logprobs),
        None => required,
    }
}

/// Whether every item holds a completion.
pub open spec fn all_choices(items: Seq<JsonTree>) -> bool {
    forall|i: int| 0 <= i < items.len() ==> choice_of(#[trigger] items[i]) is Some
}

/// The completions that the items hold.
pub open spec fn choices_of(items: Seq<JsonTree>) -> Seq<ChoiceView> {
    Seq::new(items.len(), |i: int| choice_of(items[i])->Some_0)
}

/// The documents of the completions.
pub open spec fn choice_items(choices: Seq<ChoiceView>) -> Seq<JsonTree> {
    Seq::new(choices.len(), |i: int| choice_tree(choices[i]))
}

/// The completions under `choices`, where the member is an array of
/// completions.
pub open spec fn choices_member(doc: JsonTree) -> Option<Seq<ChoiceView>> {
    match doc.get("choices"@) {
        Some(JsonTree::Array(items)) => if all_choices(items) {
            Some(choices_of(items))
        } else {
            None
        },
        _ => None,
    }
}

/// The usage under `usage`.
pub open spec fn usage_member(doc: JsonTree) -> Option<Usage> {
    match doc.get("usage"@) {
        Some(member) => usage_of(member),
        None => None,
    }
}

/// The reply that a document holds.
pub open spec fn chat_response_of(doc: JsonTree) -> Option<ChatResponseView> {
    if doc.str_member("id"@) is Some && doc.str_member("object"@) is Some && i64_member(
        doc,
        "created"@,
    ) is Some && doc.str_member("model"@) is Some && choices_member(doc) is Some && usage_member(
        doc,
    ) is Some {
        Some(
            ChatResponseView {
                id: doc.str_member("id"@)->Some_0,
                object: doc.str_member("object"@)->Some_0,
                created: i64_member(doc, "created"@)->Some_0,
                model: doc.str_member("model"@)->Some_0,
                choices: choices_member(doc)->Some_0,
                usage: usage_member(doc)->Some_0,
            },
        )
    } else {
        None
    }
}

/// The document of a reply.
pub open spec fn chat_response_tree(reply: ChatResponseView) -> JsonTree {
    JsonTree::empty_object().with_text("id"@, reply.id).with_text("object"@, reply.object).with(
        "created"@,
        JsonTree::Number(signed_decimal(reply.created as int)),
    ).with_text("model"@, reply.model).with(
        "choices"@,
        JsonTree::Array(choice_items(reply.choices)),
    ).with("usage"@, usage_tree(reply.usage))
}

/// Reads the integer under `key`.
pub fn read_i64_member(doc: &Json, key: &str) -> (r: Option<i64>)
    ensures
        r == i64_member(doc@, key@),
{
    match doc.get(key) {
        None => None,
        Some(member) => match member {
            Json::Number(digits) => parse_integer(digits.as_str()),
            _ => None,
        },
    }
}

/// Reads the integer under `key`, where 32 bits hold it.
pub fn read_i32_member(doc: &Json, key: &str) -> (r: Option<i32>)
    ensures
        r == i32_member(doc@, key@),
{
    match read_i64_member(doc, key) {
        None => None,
        Some(v) => if -2147483648 <= v && v <= 2147483647 {
            Some(v as i32)
        } else {
            None
        },
    }
}

impl Usage {
    /// The document of the counts.
    pub fn to_json(&self) -> (r: Json)
        ensures
            r@ == usage_tree(*self),
    {
        Json::empty_object().with("prompt_tokens", Json::integer(self.prompt_tokens as i64)).with(
            "completion_tokens",
            Json::integer(self.completion_tokens as i64),
        ).with("total_tokens", Json::integer(self.total_tokens as i64))
    }

    /// Reads the counts from a document.
    pub fn from_json(doc: &Json) -> (r: Option<Usage>)
        ensures
            r == usage_of(doc@),
    {
        let prompt_tokens: i32 = match read_i32_member(doc, "prompt_tokens") {
            None => { return None; },
            Some(v) => v,
        };
        let completion_tokens: i32 = match read_i32_member(doc, "completion_tokens") {
            None => { return None; },
            Some(v) => v,
        };
        let total_tokens: i32 = match read_i32_member(doc, "total_tokens") {
            None => { return None; },
            Some(v) => v,
        };
        Some(Usage { prompt_tokens, completion_tokens, total_tokens })
    }
}

impl Tool {
    /// The document of the tool.
    pub fn to_json(&self) -> (r: Json)
        ensures
            r@ == tool_tree(self.deep_view()),
    {
        Json::empty_object().with_text("name", self.name.as_str()).with_text(
            "description",
            self.description.as_str(),
        ).with("parameters", self.parameters.duplicate())
    }

    /// Reads a tool from a document.
    pub fn from_json(doc: &Json) -> (r: Option<Tool>)
        ensures
            r.deep_view() == tool_of(doc@),
    {
        let name = match doc.str_member("name") {
            None => { return None; },
            Some(text) => text.to_owned(),
        };
        let description = match doc.str_member("description") {
            None => { return None; },
            Some(text) => text.to_owned(),
        };
        let parameters = match doc.get("parameters") {
            None => { return None; },
            Some(member) => member.duplicate(),
        };
        Some(Tool { name, description, parameters })
    }
}

impl Choice {
    /// The document of the completion.
    pub fn to_json(&self) -> (r: Json)
        ensures
            r@ == choice_tree(self.deep_view()),
    {
        let required = Json::empty_object().with("index", Json::integer(self.index as i64)).with(
            "message",
            self.message.to_json(),
        ).with_text("finish_reason", self.finish_reason.as_str());
        match &self.logprobs {
            Some(logprobs) => required.with("logprobs", logprobs.duplicate()),
            None => required,
        }
    }

    /// Reads a completion from a document.
    pub fn from_json(doc: &Json) -> (r: Option<Choice>)
        ensures
            r.deep_view() == choice_of(doc@),
    {
        let index: i32 = match read_i32_member(doc, "index") {
            None => { return None; },
            Some(v) => v,
        };
        let message = match doc.get("message") {
            None => { return None; },
            Some(member) => match Message::from_json(member) {
                None => { return None; },
                Some(message) => message,
            },
        };
        let finish_reason = match doc.str_member("finish_reason") {
            None => { return None; },
            Some(text) => text.to_owned(),
        };
        let logprobs = match doc.get("logprobs") {
            None => None,
            Some(member) => match member {
                Json::Null => None,
                _ => Some(member.duplicate()),
            },
        };
        Some(Choice { index, message, finish_reason, logprobs })
    }
}

fn read_choices(doc: &Json) -> (r: Option<Vec<Choice>>)
    ensures
        r.deep_view() == choices_member(doc@),
{
    let items = match doc.get("choices") {
        None => { return None; },
        Some(member) => match member.as_array() {
            None => { return None; },
            Some(items) => items,
        },
    };
    let ghost trees = doc@.get("choices"@)->Some_0->Array_0;
    let n: usize = items.len();
    let mut out: Vec<Choice> = Vec::new();
    let mut i: usize = 0;
    while i < n
        invariant
            n == items@.len(),
            doc@.get("choices"@) == Some(JsonTree::Array(trees)),
            trees.len() == n,
            i <= n,
            out@.len() == i,
            forall|k: int| 0 <= k < n ==> trees[k] == items@[k]@,
            forall|k: int| 0 <= k < i ==> choice_of(#[trigger] trees[k]) is Some,
            forall|k: int|
                0 <= k < i ==> (#[trigger] out@[k]).deep_view() == choice_of(trees[k])->Some_0,
        decreases n - i,
    {
        match Choice::from_json(&items[i]) {
            None => {
                assert(choice_of(trees[i as int]) is None);
                return None;
            },
            Some(choice) => {
                out.push(choice);
            },
        }
        i = i + 1;
    }
    assert(out.deep_view() =~= choices_of(trees));
    Some(out)
}

fn choices_to_json(choices: &Vec<Choice>) -> (r: Json)
    ensures
        r@ == JsonTree::Array(choice_items(choices.deep_view())),
{
    let n: usize = choices.len();
    let mut items: Vec<Json> = Vec::new();
    let mut i: usize = 0;
    while i < n
        invariant
            n == choices@.len(),
            i <= n,
            items@.len() == i,
            forall|k: int| 0 <= k < i ==> items@[k]@ == choice_tree(choices@[k].deep_view()),
        decreases n - i,
    {
        items.push(choices[i].to_json());
        i = i + 1;
    }
    proof {
        lemma_array_tree(items);
        assert(items.deep_view() =~= choice_items(choices.deep_view()));
    }
    Json::Array(items)
}

impl ChatResponse {
    /// The document of the reply.
    pub fn to_json(&self) -> (r: Json)
        ensures
            r@ == chat_response_tree(self.deep_view()),
    {
        Json::empty_object().with_text("id", self.id.as_str()).with_text(
            "object",
            self.object.as_str(),
        ).with("created", Json::integer(self.created)).with_text("model", self.model.as_str()).with(
            "choices",
            choices_to_json(&self.choices),
        ).with("usage", self.usage.to_json())
    }

    /// Reads a reply from a document.
    pub fn from_json(doc: &Json) -> (r: Option<ChatResponse>)
        ensures
            r.deep_view() == chat_response_of(doc@),
    {
        let id = match doc.str_member("id") {
            None => { return None; },
            Some(text) => text.to_owned(),
        };
        let object = match doc.str_member("object") {
            None => { return None; },
            Some(text) => text.to_owned(),
        };
        let created: i64 = match read_i64_member(doc, "created") {
            None => { return None; },
            Some(v) => v,
        };
        let model = match doc.str_member("model") {
            None => { return None; },
            Some(text) => text.to_owned(),
        };
        let choices = match read_choices(doc) {
            None => { return None; },
            Some(choices) => choices,
        };
        let usage = match doc.get("usage") {
            None => { return None; },
            Some(member) => match Usage::from_json(member) {
                None => { return None; },
                Some(usage) => usage,
            },
        };
        Some(ChatResponse { id, object, created, model, choices, usage })
    }
}

/// Reading the document of a part gives the part back.
pub proof fn lemma_part_survives_writing(part: ContentPartView)
    ensures
        part_of(part_tree(part)) == Some(part),
{
    reveal_strlit("text");
    reveal_strlit("image_url");
    reveal_strlit("file_url");
    reveal_strlit("url");
    reveal_with_fuel(member_from, 4);
    let doc = part_tree(part);
    assert("text"@[0] == 't' && "image_url"@[0] == 'i' && "file_url"@[0] == 'f');
    assert(optional_text(doc, "text"@) == Some(part.text));
    assert(optional_url(doc, "image_url"@) == Some(part.image_url));
    assert(optional_url(doc, "file_url"@) == Some(part.file_url));
}

/// Reading the document of a content gives the content back.
pub proof fn lemma_content_survives_writing(content: MessageContentView)
    ensures
        content_of(content_tree(content)) == Some(content),
{
    match content {
        MessageContentView::Text(_) => {},
        MessageContentView::Structured(parts) => {
            let items = part_items(parts);
            assert forall|i: int| 0 <= i < items.len() implies part_of(#[trigger] items[i])
                == Some(parts[i]) by {
                lemma_part_survives_writing(parts[i]);
            }
            assert(parts_of(items) =~= parts);
        },
    }
}

/// Reading the document of a message gives the message back.
pub proof fn lemma_message_survives_writing(message: MessageView)
    ensures
        message_of(message_tree(message)) == Some(message),
{
    reveal_strlit("role");
    reveal_strlit("content");
    reveal_with_fuel(member_from, 3);
    lemma_content_survives_writing(message.content);
    let doc = message_tree(message);
    assert("role"@[0] == 'r' && "content"@[0] == 'c');
    assert(doc.str_member("role"@) == Some(message.role));
    assert(doc.get("content"@) == Some(content_tree(message.content)));
}

/// Reading the document of the counts gives the counts back.
pub proof fn lemma_usage_survives_writing(usage: Usage)
    ensures
        usage_of(usage_tree(usage)) == Some(usage),
{
    reveal_strlit("prompt_tokens");
    reveal_strlit("completion_tokens");
    reveal_strlit("total_tokens");
    reveal_with_fuel(member_from, 4);
    lemma_integer_of_signed_decimal(usage.prompt_tokens as int);
    lemma_integer_of_signed_decimal(usage.completion_tokens as int);
    lemma_integer_of_signed_decimal(usage.total_tokens as int);
    let doc = usage_tree(usage);
    assert("prompt_tokens"@[0] == 'p' && "completion_tokens"@[0] == 'c' && "total_tokens"@[0]
        == 't');
    assert(i32_member(doc, "prompt_tokens"@) == Some(usage.prompt_tokens));
    assert(i32_member(doc, "completion_tokens"@) == Some(usage.completion_tokens));
    assert(i32_member(doc, "total_tokens"@) == Some(usage.total_tokens));
}

/// Reading the document of a tool gives the tool back.
pub proof fn lemma_tool_survives_writing(tool: ToolView)
    ensures
        tool_of(tool_tree(tool)) == Some(tool),
{
    reveal_strlit("name");
    reveal_strlit("description");
    reveal_strlit("parameters");
    reveal_with_fuel(member_from, 4);
    let doc = tool_tree(tool);
    assert("name"@[0] == 'n' && "description"@[0] == 'd' && "parameters"@[0] == 'p');
    assert(doc.str_member("name"@) == Some(tool.name));
    assert(doc.str_member("description"@) == Some(tool.description));
    assert(doc.get("parameters"@) == Some(tool.parameters));
}

/// Reading the document of a completion gives the completion back, unless
/// its `logprobs` is the null document, which reads as none.
pub proof fn lemma_choice_survives_writing(choice: ChoiceView)
    requires
        choice.logprobs != Some(JsonTree::Null),
    ensures
        choice_of(choice_tree(choice)) == Some(choice),
{
    reveal_strlit("index");
    reveal_strlit("message");
    reveal_strlit("finish_reason");
    reveal_strlit("logprobs");
    reveal_with_fuel(member_from, 5);
    lemma_integer_of_signed_decimal(choice.index as int);
    lemma_message_survives_writing(choice.message);
    let doc = choice_tree(choice);
    assert("index"@[0] == 'i' && "message"@[0] == 'm' && "finish_reason"@[0] == 'f'
        && "logprobs"@[0] == 'l');
    assert(i32_member(doc, "index"@) == Some(choice.index));
    assert(doc.get("message"@) == Some(message_tree(choice.message)));
    assert(doc.str_member("finish_reason"@) == Some(choice.finish_reason));
    assert(optional_document(doc, "logprobs"@) == choice.logprobs);
}

/// Reading the document of a reply gives the reply back, unless the
/// `logprobs` of one of its completions is the null document.
pub proof fn lemma_chat_response_survives_writing(reply: ChatResponseView)
    requires
        forall|i: int|
            0 <= i < reply.choices.len() ==> (#[trigger] reply.choices[i]).logprobs != Some(
                JsonTree::Null,
            ),
    ensures
        chat_response_of(chat_response_tree(reply)) == Some(reply),
{
    reveal_strlit("id");
    reveal_strlit("object");
    reveal_strlit("created");
    reveal_strlit("model");
    reveal_strlit("choices");
    reveal_strlit("usage");
    reveal_with_fuel(member_from, 7);
    lemma_integer_of_signed_decimal(reply.created as int);
    lemma_usage_survives_writing(reply.usage);
    let doc = chat_response_tree(reply);
    let items = choice_items(reply.choices);
    assert forall|i: int| 0 <= i < items.len() implies choice_of(#[trigger] items[i]) == Some(
        reply.choices[i],
    ) by {
        lemma_choice_survives_writing(reply.choices[i]);
    }
    assert(choices_of(items) =~= reply.choices);
    assert("id"@[0] == 'i' && "object"@[0] == 'o' && "created"@[0] == 'c' && "model"@[0] == 'm'
        && "choices"@[1] == 'h' && "created"@[1] == 'r' && "usage"@[0] == 'u');
    assert(doc.str_member("id"@) == Some(reply.id));
    assert(doc.str_member("object"@) == Some(reply.object));
    assert(i64_member(doc, "created"@) == Some(reply.created));
    assert(doc.str_member("model"@) == Some(reply.model));
    assert(doc.get("choices"@) == Some(JsonTree::Array(items)));
    assert(choices_member(doc) == Some(reply.choices));
    assert(doc.get("usage"@) == Some(usage_tree(reply.usage)));
}

} // verus!
