//! Providers: listing them and reading their settings.

use crate::client::AGiXTSDK;
use crate::error::outcome;
use crate::error::Error;
use crate::http::Method;
use crate::http::Request;
use crate::json::Json;
use crate::json::JsonTree;
use crate::json_map::JsonMap;
use crate::reply::map_field;
use crate::reply::map_member;
use crate::reply::map_reply;
use crate::reply::read_document;
use crate::reply::read_map;
use crate::reply::texts_field;
use crate::reply::texts_member;
use crate::reply::texts_reply;
use vstd::prelude::*;

verus! {

/// The envelope of a listing of providers.
#[derive(Debug, Clone, PartialEq, Eq)]
pub struct ProviderResponse {
    pub providers: Vec<String>,
}

impl DeepView for ProviderResponse {
    type V = Seq<Seq<char>>;

    open spec fn deep_view(&self) -> Seq<Seq<char>> {
        self.providers.deep_view()
    }
}

/// The envelope of a provider's settings, by name.
#[derive(Debug, Clone, PartialEq, Eq)]
pub struct ProviderSettings {
    pub settings: JsonMap,
}

impl DeepView for ProviderSettings {
    type V = Seq<(Seq<char>, JsonTree)>;

    open spec fn deep_view(&self) -> Seq<(Seq<char>, JsonTree)> {
        self.settings.deep_view()
    }
}

impl ProviderResponse {
    /// Takes the listing out of an envelope.
    pub fn from_json(doc: &Json) -> (r: Result<ProviderResponse, Error>)
        ensures
            outcome(r) == texts_field(doc@, "providers"@),
    {
        match texts_member(doc, "providers") {
            Ok(providers) => Ok(ProviderResponse { providers }),
            Err(e) => Err(e),
        }
    }
}

impl ProviderSettings {
    /// Takes the settings out of an envelope.
    pub fn from_json(doc: &Json) -> (r: Result<ProviderSettings, Error>)
        ensures
            outcome(r) == map_field(doc@, "settings"@),
    {
        match map_member(doc, "settings") {
            Ok(settings) => Ok(ProviderSettings { settings }),
            Err(e) => Err(e),
        }
    }
}

/// The path of the providers of a service.
pub open spec fn service_path(service: Seq<char>) -> Seq<char> {
    "/api/providers/service/"@ + service
}

/// The path of a provider.
pub open spec fn provider_path(provider_name: Seq<char>) -> Seq<char> {
    "/api/provider/"@ + provider_name
}

impl AGiXTSDK {
    /// Describes the listing of the providers.
    pub fn get_providers(&self) -> (r: Request)
        ensures
            r@ == self@.authorized(Method::Get, "/api/provider"@, None),
    {
        self.authorized(Method::Get, "/api/provider", None)
    }

    /// Reads the listing of the providers: their names.
    pub fn get_providers_response(&self, status: u16, body: &str) -> (r: Result<Vec<String>, Error>)
        ensures
            outcome(r) == texts_reply(status, body@, "providers"@),
    {
        match read_document(status, body) {
            Err(e) => Err(e),
            Ok(doc) => match ProviderResponse::from_json(&doc) {
                Ok(listing) => Ok(listing.providers),
                Err(e) => Err(e),
            },
        }
    }

    /// Describes the listing of the providers of a service.
    pub fn get_providers_by_service(&self, service: &str) -> (r: Request)
        ensures
            r@ == self@.authorized(Method::Get, service_path(service@), None),
    {
        let mut path = "/api/providers/service/".to_owned();
        path.append(service);
        self.authorized(Method::Get, path.as_str(), None)
    }

    /// Reads the listing of the providers of a service: their names.
    pub fn get_providers_by_service_response(&self, status: u16, body: &str) -> (r: Result<
        Vec<String>,
        Error,
    >)
        ensures
            outcome(r) == texts_reply(status, body@, "providers"@),
    {
        self.get_providers_response(status, body)
    }

    /// Describes the question after a provider's settings.
    pub fn get_provider_settings(&self, provider_name: &str) -> (r: Request)
        ensures
            r@ == self@.authorized(Method::Get, provider_path(provider_name@), None),
    {
        let mut path = "/api/provider/".to_owned();
        path.append(provider_name);
        self.authorized(Method::Get, path.as_str(), None)
    }

    /// Reads a provider's settings: a map.
    pub fn get_provider_settings_response(&self, status: u16, body: &str) -> (r: Result<
        JsonMap,
        Error,
    >)
        ensures
            outcome(r) == map_reply(status, body@, "settings"@),
    {
        read_map(status, body, "settings")
    }

    /// Describes the listing of the embedding providers.
    pub fn get_embed_providers(&self) -> (r: Request)
        ensures
            r@ == self@.authorized(Method::Get, "/api/embedding_providers"@, None),
    {
        self.authorized(Method::Get, "/api/embedding_providers", None)
    }

    /// Reads the listing of the embedding providers: their names.
    pub fn get_embed_providers_response(&self, status: u16, body: &str) -> (r: Result<
        Vec<String>,
        Error,
    >)
        ensures
            outcome(r) == texts_reply(status, body@, "providers"@),
    {
        self.get_providers_response(status, body)
    }

    /// Describes the question after the embedders.
    pub fn get_embedders(&self) -> (r: Request)
        ensures
            r@ == self@.authorized(Method::Get, "/api/embedders"@, None),
    {
        self.authorized(Method::Get, "/api/embedders", None)
    }

    /// Reads the embedders: a map with a member for each.
    pub fn get_embedders_response(&self, status: u16, body: &str) -> (r: Result<JsonMap, Error>)
        ensures
            outcome(r) == map_reply(status, body@, "embedders"@),
    {
        read_map(status, body, "embedders")
    }
}

} // verus!
