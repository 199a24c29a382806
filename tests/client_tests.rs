use podcast_api::{finish, ApiError, Client, Method, Outcome, Params, Request, Scalar};

const MOCK: &str = "https://listen-api-test.listennotes.com/api/v2";

fn client() -> Client {
    Client::new(None)
}

fn bag(entries: &[(&str, Scalar)]) -> Params {
    let mut p = Params::new();
    for (k, v) in entries {
        let v = match v {
            Scalar::Str(s) => Scalar::Str(s.clone()),
            Scalar::Int(n) => Scalar::Int(*n),
            Scalar::Bool(b) => Scalar::Bool(*b),
        };
        p.insert(k, v);
    }
    p
}

fn text(s: &str) -> Scalar {
    Scalar::Str(s.to_string())
}

fn header<'a>(request: &'a Request, name: &str) -> Option<&'a str> {
    request.headers.iter().find(|(n, _)| n == name).map(|(_, v)| v.as_str())
}

fn check_query_call(request: &Request, method: Method, url: &str) {
    assert_eq!(request.method, method);
    assert_eq!(request.url, url);
    assert_eq!(request.body, "");
    assert_eq!(header(request, "Content-Type"), None);
    assert_eq!(header(request, "X-ListenAPI-Key"), None);
    assert_eq!(header(request, "User-Agent"), Some("api-podcast-rust"));
}

fn check_form_call(request: &Request, url: &str, body: &str) {
    assert_eq!(request.method, Method::Post);
    assert_eq!(request.url, url);
    assert_eq!(request.body, body);
    assert_eq!(header(request, "Content-Type"), Some("application/x-www-form-urlencoded"));
    assert_eq!(header(request, "X-ListenAPI-Key"), None);
}

#[test]
fn search() {
    let request = client().search(&bag(&[("q", text("dummy")), ("sort_by_date", Scalar::Int(1))]));
    check_query_call(&request, Method::Get, &format!("{}/search?q=dummy&sort_by_date=1", MOCK));
}

#[test]
fn typeahead() {
    let request = client().typeahead(&bag(&[("q", text("dummy")), ("show_podcasts", Scalar::Int(1))]));
    check_query_call(&request, Method::Get, &format!("{}/typeahead?q=dummy&show_podcasts=1", MOCK));
}

#[test]
fn spellcheck() {
    let request = client().spellcheck(&bag(&[("q", text("dummy"))]));
    check_query_call(&request, Method::Get, &format!("{}/spellcheck?q=dummy", MOCK));
}

#[test]
fn related_searches() {
    let request = client().fetch_related_searches(&bag(&[("q", text("dummy"))]));
    check_query_call(&request, Method::Get, &format!("{}/related_searches?q=dummy", MOCK));
}

#[test]
fn trending_searches() {
    let request = client().fetch_trending_searches(&bag(&[]));
    check_query_call(&request, Method::Get, &format!("{}/trending_searches", MOCK));
}

#[test]
fn fetch_best_podcasts() {
    let request = client().fetch_best_podcasts(&bag(&[("genre_id", Scalar::Int(23))]));
    check_query_call(&request, Method::Get, &format!("{}/best_podcasts?genre_id=23", MOCK));
}

#[test]
fn fetch_podcast_by_id() {
    let request = client().fetch_podcast_by_id("dummy_id", &bag(&[]));
    check_query_call(&request, Method::Get, &format!("{}/podcasts/dummy_id", MOCK));
}

#[test]
fn fetch_episode_by_id() {
    let request = client().fetch_episode_by_id("dummy_id", &bag(&[]));
    check_query_call(&request, Method::Get, &format!("{}/episodes/dummy_id", MOCK));
}

#[test]
fn fetch_curated_podcasts_list_by_id() {
    let request = client().fetch_curated_podcasts_list_by_id("asdfsdaf", &bag(&[]));
    check_query_call(&request, Method::Get, &format!("{}/curated_podcasts/asdfsdaf", MOCK));
}

#[test]
fn fetch_curated_podcasts_lists() {
    let request = client().fetch_curated_podcasts_lists(&bag(&[("page", Scalar::Int(2))]));
    check_query_call(&request, Method::Get, &format!("{}/curated_podcasts?page=2", MOCK));
}

#[test]
fn fetch_podcast_genres() {
    let request = client().fetch_podcast_genres(&bag(&[("top_level_only", Scalar::Int(1))]));
    check_query_call(&request, Method::Get, &format!("{}/genres?top_level_only=1", MOCK));
}

#[test]
fn fetch_podcast_regions() {
    let request = client().fetch_podcast_regions(&bag(&[]));
    check_query_call(&request, Method::Get, &format!("{}/regions", MOCK));
}

#[test]
fn fetch_podcast_languages() {
    let request = client().fetch_podcast_languages(&bag(&[]));
    check_query_call(&request, Method::Get, &format!("{}/languages", MOCK));
}

#[test]
fn just_listen() {
    let request = client().just_listen(&bag(&[]));
    check_query_call(&request, Method::Get, &format!("{}/just_listen", MOCK));
}

#[test]
fn fetch_recommendations_for_podcast() {
    let request = client().fetch_recommendations_for_podcast("adfsddf", &bag(&[]));
    check_query_call(&request, Method::Get, &format!("{}/podcasts/adfsddf/recommendations", MOCK));
}

#[test]
fn fetch_recommendations_for_episode() {
    let request = client().fetch_recommendations_for_episode("asdfasdf", &bag(&[]));
    check_query_call(&request, Method::Get, &format!("{}/episodes/asdfasdf/recommendations", MOCK));
}

#[test]
fn fetch_playlist_by_id() {
    let request = client().fetch_playlist_by_id("fdsafdsa", &bag(&[]));
    check_query_call(&request, Method::Get, &format!("{}/playlists/fdsafdsa", MOCK));
}

#[test]
fn fetch_my_playlists() {
    let request = client().fetch_my_playlists(&bag(&[("page", Scalar::Int(2))]));
    check_query_call(&request, Method::Get, &format!("{}/playlists?page=2", MOCK));
}

#[test]
fn fetch_audience_for_podcast() {
    let request = client().fetch_audience_for_podcast("adfsddf", &bag(&[]));
    check_query_call(&request, Method::Get, &format!("{}/podcasts/adfsddf/audience", MOCK));
}

#[test]
fn fetch_podcasts_by_domain() {
    let request = client().fetch_podcasts_by_domain("nytimes.com", &bag(&[("page", text("1"))]));
    check_query_call(&request, Method::Get, &format!("{}/podcasts/domains/nytimes.com?page=1", MOCK));
}

#[test]
fn batch_fetch_podcasts() {
    let request = client().batch_fetch_podcasts(&bag(&[("ids", text("996,777,888,1000"))]));
    check_form_call(&request, &format!("{}/podcasts", MOCK), "ids=996,777,888,1000");
}

#[test]
fn batch_fetch_episodes() {
    let request = client().batch_fetch_episodes(&bag(&[("ids", text("996,777,888,1000"))]));
    check_form_call(&request, &format!("{}/episodes", MOCK), "ids=996,777,888,1000");
}

#[test]
fn submit_podcast() {
    let request = client().submit_podcast(&bag(&[("rss", text("http://myrss.com/rss"))]));
    check_form_call(&request, &format!("{}/podcasts/submit", MOCK), "rss=http://myrss.com/rss");
}

#[test]
fn delete_podcast() {
    let request = client().delete_podcast("asdfasdfdf", &bag(&[]));
    check_query_call(&request, Method::Delete, &format!("{}/podcasts/asdfasdfdf", MOCK));
}

#[test]
fn search_with_authentication_error() {
    let request = Client::new(Some("wrong_key"))
        .search(&bag(&[("q", text("dummy")), ("sort_by_date", Scalar::Int(1))]));
    assert_eq!(header(&request, "X-ListenAPI-Key"), Some("wrong_key"));
    assert_eq!(
        request.url,
        "https://listen-api.listennotes.com/api/v2/search?q=dummy&sort_by_date=1"
    );
    let result = finish(request, Outcome::Received { status: 401, headers: Vec::new(), body: Ok(Vec::new()) });
    assert!(matches!(result, Err(ApiError::AuthenticationError)));
}
