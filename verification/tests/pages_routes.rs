use graphql_gateway::pages::{graphiql_response, index_response};
use graphql_gateway::routing::{route, Method, Route};

#[test]
fn liveness_is_fixed_200() {
    let resp = index_response();
    assert_eq!(resp.status, 200);
    assert_eq!(resp.content_type, "text/plain; charset=utf-8");
    assert_eq!(resp.body, "Hello world!");
}

#[test]
fn explorer_page_carries_the_endpoint_url() {
    let url = "http://localhost:8080/graphql";
    let resp = graphiql_response(url);
    assert_eq!(resp.status, 200);
    assert_eq!(resp.content_type, "text/html; charset=utf-8");
    assert!(resp.body.contains(url));
    assert!(resp.body.len() > url.len());
    assert_ne!(resp.body, url);
}

#[test]
fn explorer_page_tracks_a_different_url() {
    let url = "https://example.test/api";
    let resp = graphiql_response(url);
    assert_eq!(resp.status, 200);
    assert!(resp.body.contains(url));
}

#[test]
fn route_table_matches_the_three_paths() {
    assert_eq!(route(Method::Post, "/graphql"), Route::QueryEndpoint);
    assert_eq!(route(Method::Get, "/graphiql"), Route::ExplorerPage);
    assert_eq!(route(Method::Get, "/"), Route::Liveness);
}

#[test]
fn other_requests_fall_through() {
    assert_eq!(route(Method::Get, "/graphql"), Route::NotFound);
    assert_eq!(route(Method::Post, "/graphiql"), Route::NotFound);
    assert_eq!(route(Method::Post, "/"), Route::NotFound);
    assert_eq!(route(Method::Get, "/health"), Route::NotFound);
    assert_eq!(route(Method::Get, ""), Route::NotFound);
}
