use vstd::prelude::*;

use crate::api::Api;
use crate::params::{Params, Scalar};
use crate::request::{call_request, Method, Request, RequestView};

verus! {

/// User agent sent when none is configured.
pub open spec fn default_user_agent() -> Seq<char> {
    "api-podcast-rust"@
}

/// The key that a client made from `id` sends: none means the mock API.
pub open spec fn key_of(id: Option<&str>) -> Option<Seq<char>> {
    match id {
        Some(k) => Some(k@),
        None => None,
    }
}

/// Client for the Listen Notes API: holds the endpoint context and the user
/// agent, and builds the request of each operation.
#[derive(Debug)]
pub struct Client {
    /// API context.
    api: Api,
    /// User agent header for API calls.
    user_agent: String,
}

/// Context for an optional key: production with it, mock without.
fn context_for(id: Option<&str>) -> (r: Api)
    ensures
        r.key() == key_of(id),
{
    match id {
        Some(k) => Api::Production(String::from_str(k)),
        None => Api::Mock,
    }
}

/// `prefix`, `id` and `suffix`, one after the other.
fn path_with_id(prefix: &str, id: &str, suffix: &str) -> (r: String)
    ensures
        r@ == prefix@ + id@ + suffix@,
{
    let mut path = String::from_str(prefix);
    path.append(id);
    path.append(suffix);
    path
}

impl Client {
    /// The endpoint context of this client.
    pub closed spec fn context(&self) -> Api {
        self.api
    }

    /// The user agent this client sends.
    pub closed spec fn agent(&self) -> Seq<char> {
        self.user_agent@
    }

    /// The request this client builds for `method`, `path` and `params`.
    pub open spec fn call(
        &self,
        method: Method,
        path: Seq<char>,
        params: Seq<(Seq<char>, Scalar)>,
    ) -> RequestView {
        call_request(self.context(), self.agent(), method, path, params)
    }

    /// Creates a client with the default user agent: for the production API
    /// with a key, for the mock API without one.
    pub fn new(id: Option<&str>) -> (r: Client)
        ensures
            r.context().key() == key_of(id),
            r.agent() == default_user_agent(),
    {
        Client { api: context_for(id), user_agent: String::from_str("api-podcast-rust") }
    }

    /// Creates a client with an optional user agent in place of the default.
    pub fn new_custom(id: Option<&str>, user_agent: Option<&str>) -> (r: Client)
        ensures
            r.context().key() == key_of(id),
            r.agent() == match user_agent {
                Some(a) => a@,
                None => default_user_agent(),
            },
    {
        let agent = match user_agent {
            Some(a) => String::from_str(a),
            None => String::from_str("api-podcast-rust"),
        };
        Client { api: context_for(id), user_agent: agent }
    }

    /// Builds the request of a call: URL from the context's base and `path`,
    /// parameters in the query or the body by method, key and user agent headers.
    pub fn request(&self, method: Method, path: &str, params: &Params) -> (r: Request)
        ensures
            r@ == self.call(method, path@, params@),
    {
        let query = params.encode();
        let mut url = String::from_str(self.api.url());
        url.append("/");
        url.append(path);
        let mut body = String::new();
        if method == Method::Post {
            body = query;
        } else if !query.as_str().is_empty() {
            url.append("?");
            url.append(query.as_str());
        }
        let mut headers: Vec<(String, String)> = Vec::new();
        if method == Method::Post {
            headers.push(
                (String::from_str("Content-Type"), String::from_str("application/x-www-form-urlencoded")),
            );
        }
        match &self.api {
            Api::Production(key) => {
                headers.push((String::from_str("X-ListenAPI-Key"), key.clone()));
            },
            Api::Mock => {},
        }
        headers.push((String::from_str("User-Agent"), self.user_agent.clone()));
        let r = Request { method, url, headers, body };
        assert(r.headers.deep_view() =~= self.call(method, path@, params@).headers);
        r
    }

    /// Request for `GET` of `endpoint`, parameters in the query.
    fn get(&self, endpoint: &str, parameters: &Params) -> (r: Request)
        ensures
            r@ == self.call(Method::Get, endpoint@, parameters@),
    {
        self.request(Method::Get, endpoint, parameters)
    }

    /// Request for `POST` of `endpoint`, parameters in a form-encoded body.
    fn post(&self, endpoint: &str, parameters: &Params) -> (r: Request)
        ensures
            r@ == self.call(Method::Post, endpoint@, parameters@),
    {
        self.request(Method::Post, endpoint, parameters)
    }

    /// Request for `DELETE` of `endpoint`, parameters in the query.
    fn delete(&self, endpoint: &str, parameters: &Params) -> (r: Request)
        ensures
            r@ == self.call(Method::Delete, endpoint@, parameters@),
    {
        self.request(Method::Delete, endpoint, parameters)
    }

    /// Request for `GET /search` with the given parameters.
    pub fn search(&self, parameters: &Params) -> (r: Request)
        ensures
            r@ == self.call(Method::Get, "search"@, parameters@),
    {
        self.get("search", parameters)
    }

    /// Request for `GET /typeahead` with the given parameters.
    pub fn typeahead(&self, parameters: &Params) -> (r: Request)
        ensures
            r@ == self.call(Method::Get, "typeahead"@, parameters@),
    {
        self.get("typeahead", parameters)
    }

    /// Request for `GET /spellcheck` with the given parameters.
    pub fn spellcheck(&self, parameters: &Params) -> (r: Request)
        ensures
            r@ == self.call(Method::Get, "spellcheck"@, parameters@),
    {
        self.get("spellcheck", parameters)
    }

    /// Request for `GET /related_searches` with the given parameters.
    pub fn fetch_related_searches(&self, parameters: &Params) -> (r: Request)
        ensures
            r@ == self.call(Method::Get, "related_searches"@, parameters@),
    {
        self.get("related_searches", parameters)
    }

    /// Request for `GET /trending_searches` with the given parameters.
    pub fn fetch_trending_searches(&self, parameters: &Params) -> (r: Request)
        ensures
            r@ == self.call(Method::Get, "trending_searches"@, parameters@),
    {
        self.get("trending_searches", parameters)
    }

    /// Request for `GET /best_podcasts` with the given parameters.
    pub fn fetch_best_podcasts(&self, parameters: &Params) -> (r: Request)
        ensures
            r@ == self.call(Method::Get, "best_podcasts"@, parameters@),
    {
        self.get("best_podcasts", parameters)
    }

    /// Request for `GET /podcasts/{id}` with the given parameters.
    pub fn fetch_podcast_by_id(&self, id: &str, parameters: &Params) -> (r: Request)
        ensures
            r@ == self.call(Method::Get, "podcasts/"@ + id@ + ""@, parameters@),
    {
        let path = path_with_id("podcasts/", id, "");
        self.get(path.as_str(), parameters)
    }

    /// Request for `POST /podcasts` with the given parameters.
    pub fn batch_fetch_podcasts(&self, parameters: &Params) -> (r: Request)
        ensures
            r@ == self.call(Method::Post, "podcasts"@, parameters@),
    {
        self.post("podcasts", parameters)
    }

    /// Request for `GET /episodes/{id}` with the given parameters.
    pub fn fetch_episode_by_id(&self, id: &str, parameters: &Params) -> (r: Request)
        ensures
            r@ == self.call(Method::Get, "episodes/"@ + id@ + ""@, parameters@),
    {
        let path = path_with_id("episodes/", id, "");
        self.get(path.as_str(), parameters)
    }

    /// Request for `POST /episodes` with the given parameters.
    pub fn batch_fetch_episodes(&self, parameters: &Params) -> (r: Request)
        ensures
            r@ == self.call(Method::Post, "episodes"@, parameters@),
    {
        self.post("episodes", parameters)
    }

    /// Request for `GET /curated_podcasts/{id}` with the given parameters.
    pub fn fetch_curated_podcasts_list_by_id(&self, id: &str, parameters: &Params) -> (r: Request)
        ensures
            r@ == self.call(Method::Get, "curated_podcasts/"@ + id@ + ""@, parameters@),
    {
        let path = path_with_id("curated_podcasts/", id, "");
        self.get(path.as_str(), parameters)
    }

    /// Request for `GET /curated_podcasts` with the given parameters.
    pub fn fetch_curated_podcasts_lists(&self, parameters: &Params) -> (r: Request)
        ensures
            r@ == self.call(Method::Get, "curated_podcasts"@, parameters@),
    {
        self.get("curated_podcasts", parameters)
    }

    /// Request for `GET /genres` with the given parameters.
    pub fn fetch_podcast_genres(&self, parameters: &Params) -> (r: Request)
        ensures
            r@ == self.call(Method::Get, "genres"@, parameters@),
    {
        self.get("genres", parameters)
    }

    /// Request for `GET /regions` with the given parameters.
    pub fn fetch_podcast_regions(&self, parameters: &Params) -> (r: Request)
        ensures
            r@ == self.call(Method::Get, "regions"@, parameters@),
    {
        self.get("regions", parameters)
    }

    /// Request for `GET /languages` with the given parameters.
    pub fn fetch_podcast_languages(&self, parameters: &Params) -> (r: Request)
        ensures
            r@ == self.call(Method::Get, "languages"@, parameters@),
    {
        self.get("languages", parameters)
    }

    /// Request for `GET /just_listen` with the given parameters.
    pub fn just_listen(&self, parameters: &Params) -> (r: Request)
        ensures
            r@ == self.call(Method::Get, "just_listen"@, parameters@),
    {
        self.get("just_listen", parameters)
    }

    /// Request for `GET /podcasts/{id}/recommendations` with the given parameters.
    pub fn fetch_recommendations_for_podcast(&self, id: &str, parameters: &Params) -> (r: Request)
        ensures
            r@ == self.call(Method::Get, "podcasts/"@ + id@ + "/recommendations"@, parameters@),
    {
        let path = path_with_id("podcasts/", id, "/recommendations");
        self.get(path.as_str(), parameters)
    }

    /// Request for `GET /episodes/{id}/recommendations` with the given parameters.
    pub fn fetch_recommendations_for_episode(&self, id: &str, parameters: &Params) -> (r: Request)
        ensures
            r@ == self.call(Method::Get, "episodes/"@ + id@ + "/recommendations"@, parameters@),
    {
        let path = path_with_id("episodes/", id, "/recommendations");
        self.get(path.as_str(), parameters)
    }

    /// Request for `GET /playlists/{id}` with the given parameters.
    pub fn fetch_playlist_by_id(&self, id: &str, parameters: &Params) -> (r: Request)
        ensures
            r@ == self.call(Method::Get, "playlists/"@ + id@ + ""@, parameters@),
    {
        let path = path_with_id("playlists/", id, "");
        self.get(path.as_str(), parameters)
    }

    /// Request for `GET /playlists` with the given parameters.
    pub fn fetch_my_playlists(&self, parameters: &Params) -> (r: Request)
        ensures
            r@ == self.call(Method::Get, "playlists"@, parameters@),
    {
        self.get("playlists", parameters)
    }

    /// Request for `POST /podcasts/submit` with the given parameters.
    pub fn submit_podcast(&self, parameters: &Params) -> (r: Request)
        ensures
            r@ == self.call(Method::Post, "podcasts/submit"@, parameters@),
    {
        self.post("podcasts/submit", parameters)
    }

    /// Request for `DELETE /podcasts/{id}` with the given parameters.
    pub fn delete_podcast(&self, id: &str, parameters: &Params) -> (r: Request)
        ensures
            r@ == self.call(Method::Delete, "podcasts/"@ + id@ + ""@, parameters@),
    {
        let path = path_with_id("podcasts/", id, "");
        self.delete(path.as_str(), parameters)
    }

    /// Request for `GET /podcasts/{id}/audience` with the given parameters.
    pub fn fetch_audience_for_podcast(&self, id: &str, parameters: &Params) -> (r: Request)
        ensures
            r@ == self.call(Method::Get, "podcasts/"@ + id@ + "/audience"@, parameters@),
    {
        let path = path_with_id("podcasts/", id, "/audience");
        self.get(path.as_str(), parameters)
    }

    /// Request for `GET /podcasts/domains/{domain_name}` with the given parameters.
    pub fn fetch_podcasts_by_domain(&self, domain_name: &str, parameters: &Params) -> (r: Request)
        ensures
            r@ == self.call(Method::Get, "podcasts/domains/"@ + domain_name@ + ""@, parameters@),
    {
        let path = path_with_id("podcasts/domains/", domain_name, "");
        self.get(path.as_str(), parameters)
    }
}

} // verus!
