//! Agents: creating, changing, listing and finding them.

use crate::client::AGiXTSDK;
use crate::error::outcome;
use crate::error::Error;
use crate::http::Method;
use crate::http::Request;
use crate::json::text_items;
use crate::json::Json;
use crate::json::JsonTree;
use crate::json_map::JsonMap;
use crate::lookup::find_id_by_name;
use crate::lookup::id_by_name;
use crate::reply::document;
use crate::reply::map_reply;
use crate::reply::maps_reply;
use crate::reply::read_document;
use crate::reply::read_map;
use crate::reply::read_maps;
use crate::reply::read_text;
use crate::reply::text_reply;
use vstd::prelude::*;

verus! {

/// The configuration of an agent: its settings and its commands, by name.
#[derive(Debug, Clone, PartialEq, Eq)]
pub struct Agent {
    pub settings: JsonMap,
    pub commands: JsonMap,
}

/// What is sent to create an agent.
#[derive(Debug, Clone, PartialEq, Eq)]
pub struct AgentRequest {
    pub agent_name: String,
    pub settings: JsonMap,
    pub commands: JsonMap,
    pub training_urls: Vec<String>,
}

/// `tree` with the object of `members` under `name` at its end, unless there
/// are no members.
pub open spec fn with_object_unless_empty(
    tree: JsonTree,
    name: Seq<char>,
    members: Seq<(Seq<char>, JsonTree)>,
) -> JsonTree {
    if members.len() == 0 {
        tree
    } else {
        tree.with(name, JsonTree::Object(members))
    }
}

/// `tree` with the array of `texts` under `name` at its end, unless there are
/// no texts.
pub open spec fn with_texts_unless_empty(tree: JsonTree, name: Seq<char>, texts: Seq<Seq<char>>)
    -> JsonTree {
    if texts.len() == 0 {
        tree
    } else {
        tree.with(name, JsonTree::Array(text_items(texts)))
    }
}

/// The document that creates an agent: its name, then its settings, its
/// commands and its training addresses, each only where there are any.
pub open spec fn agent_request_tree(
    agent_name: Seq<char>,
    settings: Seq<(Seq<char>, JsonTree)>,
    commands: Seq<(Seq<char>, JsonTree)>,
    training_urls: Seq<Seq<char>>,
) -> JsonTree {
    with_texts_unless_empty(
        with_object_unless_empty(
            with_object_unless_empty(
                JsonTree::empty_object().with_text("agent_name"@, agent_name),
                "settings"@,
                settings,
            ),
            "commands"@,
            commands,
        ),
        "training_urls"@,
        training_urls,
    )
}

/// The members, or none where none are given.
pub open spec fn members_or_none(members: Option<Seq<(Seq<char>, JsonTree)>>) -> Seq<
    (Seq<char>, JsonTree),
> {
    match members {
        Some(m) => m,
        None => Seq::empty(),
    }
}

/// The texts, or none where none are given.
pub open spec fn texts_or_none(texts: Option<Seq<Seq<char>>>) -> Seq<Seq<char>> {
    match texts {
        Some(t) => t,
        None => Seq::empty(),
    }
}

/// The path of an agent.
pub open spec fn agent_path(agent_name: Seq<char>) -> Seq<char> {
    "/api/agent/"@ + agent_name
}

fn members_or_empty(members: Option<JsonMap>) -> (r: JsonMap)
    ensures
        r.deep_view() == members_or_none(members.deep_view()),
{
    match members {
        Some(m) => m,
        None => JsonMap::new(),
    }
}

fn texts_or_empty(texts: Option<Vec<String>>) -> (r: Vec<String>)
    ensures
        r.deep_view() == texts_or_none(texts.deep_view()),
{
    match texts {
        Some(t) => t,
        None => {
            let r: Vec<String> = Vec::new();
            assert(r.deep_view() =~= Seq::empty());
            r
        },
    }
}

fn agent_path_of(agent_name: &str) -> (r: String)
    ensures
        r@ == agent_path(agent_name@),
{
    let mut r = "/api/agent/".to_owned();
    r.append(agent_name);
    r
}

impl AgentRequest {
    /// The document that is sent.
    pub fn into_json(self) -> (r: Json)
        ensures
            r@ == agent_request_tree(
                self.agent_name@,
                self.settings.deep_view(),
                self.commands.deep_view(),
                self.training_urls.deep_view(),
            ),
    {
        let AgentRequest { agent_name, settings, commands, training_urls } = self;
        let mut r = Json::empty_object().with_text("agent_name", agent_name.as_str());
        if settings.len() > 0 {
            r = r.with("settings", settings.into_json());
        }
        if commands.len() > 0 {
            r = r.with("commands", commands.into_json());
        }
        if training_urls.len() > 0 {
            r = r.with("training_urls", Json::texts(&training_urls));
        }
        r
    }
}

impl AGiXTSDK {
    /// Describes the creation of an agent.
    pub fn add_agent(
        &self,
        agent_name: &str,
        settings: Option<JsonMap>,
        commands: Option<JsonMap>,
        training_urls: Option<Vec<String>>,
    ) -> (r: Request)
        ensures
            r@ == self@.authorized(
                Method::Post,
                "/api/agent"@,
                Some(
                    agent_request_tree(
                        agent_name@,
                        members_or_none(settings.deep_view()),
                        members_or_none(commands.deep_view()),
                        texts_or_none(training_urls.deep_view()),
                    ),
                ),
            ),
    {
        let request = AgentRequest {
            agent_name: agent_name.to_owned(),
            settings: members_or_empty(settings),
            commands: members_or_empty(commands),
            training_urls: texts_or_empty(training_urls),
        };
        self.authorized(Method::Post, "/api/agent", Some(request.into_json()))
    }

    /// Reads the reply to the creation of an agent: the document as it came.
    pub fn add_agent_response(&self, status: u16, body: &str) -> (r: Result<Json, Error>)
        ensures
            outcome(r) == document(status, body@),
    {
        read_document(status, body)
    }

    /// Describes the import of an agent.
    pub fn import_agent(
        &self,
        agent_name: &str,
        settings: Option<JsonMap>,
        commands: Option<JsonMap>,
    ) -> (r: Request)
        ensures
            r@ == self@.authorized(
                Method::Post,
                "/api/agent/import"@,
                Some(
                    JsonTree::empty_object().with_text("agent_name"@, agent_name@).with(
                        "settings"@,
                        JsonTree::Object(members_or_none(settings.deep_view())),
                    ).with("commands"@, JsonTree::Object(members_or_none(commands.deep_view()))),
                ),
            ),
    {
        let body = Json::empty_object().with_text("agent_name", agent_name).with(
            "settings",
            members_or_empty(settings).into_json(),
        ).with("commands", members_or_empty(commands).into_json());
        self.authorized(Method::Post, "/api/agent/import", Some(body))
    }

    /// Reads the reply to the import of an agent: the document as it came.
    pub fn import_agent_response(&self, status: u16, body: &str) -> (r: Result<Json, Error>)
        ensures
            outcome(r) == document(status, body@),
    {
        read_document(status, body)
    }

    /// Describes the renaming of an agent.
    pub fn rename_agent(&self, agent_name: &str, new_name: &str) -> (r: Request)
        ensures
            r@ == self@.authorized(
                Method::Patch,
                agent_path(agent_name@),
                Some(JsonTree::empty_object().with_text("new_name"@, new_name@)),
            ),
    {
        let body = Json::empty_object().with_text("new_name", new_name);
        self.authorized(Method::Patch, agent_path_of(agent_name).as_str(), Some(body))
    }

    /// Reads the reply to the renaming of an agent: the document as it came.
    pub fn rename_agent_response(&self, status: u16, body: &str) -> (r: Result<Json, Error>)
        ensures
            outcome(r) == document(status, body@),
    {
        read_document(status, body)
    }

    /// Describes the replacement of an agent's settings.
    pub fn update_agent_settings(&self, agent_name: &str, settings: JsonMap) -> (r:
        Request)
        ensures
            r@ == self@.authorized(
                Method::Put,
                agent_path(agent_name@),
                Some(
                    JsonTree::empty_object().with(
                        "settings"@,
                        JsonTree::Object(settings.deep_view()),
                    ).with_text("agent_name"@, agent_name@),
                ),
            ),
    {
        let body = Json::empty_object().with("settings", settings.into_json()).with_text(
            "agent_name",
            agent_name,
        );
        self.authorized(Method::Put, agent_path_of(agent_name).as_str(), Some(body))
    }

    /// Reads the reply to the replacement of an agent's settings: the
    /// message of the service.
    pub fn update_agent_settings_response(&self, status: u16, body: &str) -> (r: Result<
        String,
        Error,
    >)
        ensures
            outcome(r) == text_reply(status, body@, "message"@),
    {
        read_text(status, body, "message")
    }

    /// Describes the replacement of an agent's commands.
    pub fn update_agent_commands(&self, agent_name: &str, commands: JsonMap) -> (r:
        Request)
        ensures
            r@ == self@.authorized(
                Method::Put,
                agent_path(agent_name@) + "/commands"@,
                Some(
                    JsonTree::empty_object().with(
                        "commands"@,
                        JsonTree::Object(commands.deep_view()),
                    ).with_text("agent_name"@, agent_name@),
                ),
            ),
    {
        let body = Json::empty_object().with("commands", commands.into_json()).with_text(
            "agent_name",
            agent_name,
        );
        let mut path = agent_path_of(agent_name);
        path.append("/commands");
        self.authorized(Method::Put, path.as_str(), Some(body))
    }

    /// Reads the reply to the replacement of an agent's commands: the
    /// message of the service.
    pub fn update_agent_commands_response(&self, status: u16, body: &str) -> (r: Result<
        String,
        Error,
    >)
        ensures
            outcome(r) == text_reply(status, body@, "message"@),
    {
        read_text(status, body, "message")
    }

    /// Describes the deletion of an agent.
    pub fn delete_agent(&self, agent_name: &str) -> (r: Request)
        ensures
            r@ == self@.authorized(Method::Delete, agent_path(agent_name@), None),
    {
        self.authorized(Method::Delete, agent_path_of(agent_name).as_str(), None)
    }

    /// Reads the reply to the deletion of an agent: the message of the
    /// service.
    pub fn delete_agent_response(&self, status: u16, body: &str) -> (r: Result<String, Error>)
        ensures
            outcome(r) == text_reply(status, body@, "message"@),
    {
        read_text(status, body, "message")
    }

    /// Describes the listing of the agents.
    pub fn get_agents(&self) -> (r: Request)
        ensures
            r@ == self@.authorized(Method::Get, "/api/agent"@, None),
    {
        self.authorized(Method::Get, "/api/agent", None)
    }

    /// Reads the listing of the agents: one map for each, in the order of
    /// the service.
    pub fn get_agents_response(&self, status: u16, body: &str) -> (r: Result<Vec<JsonMap>, Error>)
        ensures
            outcome(r) == maps_reply(status, body@, "agents"@),
    {
        read_maps(status, body, "agents")
    }

    /// Describes the question after an agent's configuration.
    pub fn get_agent_config(&self, agent_name: &str) -> (r: Request)
        ensures
            r@ == self@.authorized(Method::Get, agent_path(agent_name@), None),
    {
        self.authorized(Method::Get, agent_path_of(agent_name).as_str(), None)
    }

    /// Reads an agent's configuration: a map.
    pub fn get_agent_config_response(&self, status: u16, body: &str) -> (r: Result<
        JsonMap,
        Error,
    >)
        ensures
            outcome(r) == map_reply(status, body@, "agent"@),
    {
        read_map(status, body, "agent")
    }

    /// Describes the lookup of an agent by its name: the listing of the
    /// agents.
    pub fn get_agent_id_by_name(&self, agent_name: &str) -> (r: Request)
        ensures
            r@ == self@.authorized(Method::Get, "/api/agent"@, None),
    {
        self.get_agents()
    }

    /// Reads the listing of the agents and looks `agent_name` up in it: the
    /// identifier of the first agent of that name, or nothing where no agent
    /// has it. An agent of that name without a text for its identifier is
    /// malformed.
    pub fn get_agent_id_by_name_response(&self, agent_name: &str, status: u16, body: &str) -> (r:
        Result<Option<String>, Error>)
        ensures
            outcome(r) == match maps_reply(status, body@, "agents"@) {
                Ok(items) => id_by_name(items, agent_name@),
                Err(e) => Err(e),
            },
    {
        match read_maps(status, body, "agents") {
            Ok(items) => find_id_by_name(&items, agent_name),
            Err(e) => Err(e),
        }
    }
}

} // verus!
