use anterofit::net::intercept::{
    chain, chain2, AddHeader, AppendQuery, AppendUrl, Chain, Chain2, Interceptor, NoIntercept,
    PrependUrl,
};
use anterofit::net::method::HttpMethod;
use anterofit::net::request::RequestHead;

fn head() -> RequestHead {
    RequestHead::new(HttpMethod::Get, "/users".to_string())
}

#[test]
fn no_intercept_changes_nothing() {
    let mut req = head();
    NoIntercept.intercept(&mut req);
    assert_eq!(req.display(), "GET /users");
    assert!(req.header_pairs().is_empty());
}

#[test]
fn add_header_sets_the_header() {
    let mut req = head();
    AddHeader("Authorization".to_string(), "Bearer asdf1234".to_string()).intercept(&mut req);
    assert_eq!(
        req.header_pairs(),
        vec![("Authorization".to_string(), "Bearer asdf1234".to_string())]
    );
}

#[test]
fn prepend_and_append_change_the_url() {
    let mut req = head();
    PrependUrl::new("/api").intercept(&mut req);
    AppendUrl::new("/by name").intercept(&mut req);
    assert_eq!(req.get_url(), "/api/users/by%20name");
    assert_eq!(PrependUrl("/x".to_string()).0, "/x");
    assert_eq!(AppendUrl::new("/y").0, "/y");
}

#[test]
fn append_query_appends_its_pairs_in_order() {
    let mut interceptor = AppendQuery::new().pair("a", "1").pair("b", "two words");
    interceptor.pair_mut("a", "3").pair_mut("c", "4");
    let mut req = head();
    interceptor.intercept(&mut req);
    assert_eq!(req.get_query(), "a=1&b=two+words&a=3&c=4");
    interceptor.intercept(&mut req);
    assert_eq!(req.get_query(), "a=1&b=two+words&a=3&c=4&a=1&b=two+words&a=3&c=4");
}

#[test]
fn empty_append_query_leaves_the_query() {
    let mut req = head();
    AppendQuery::new().intercept(&mut req);
    assert_eq!(req.get_query(), "");
}

#[test]
fn chains_invoke_in_declaration_order() {
    let mut req = head();
    chain(PrependUrl::new("/b"), PrependUrl::new("/a")).intercept(&mut req);
    assert_eq!(req.get_url(), "/a/b/users");

    let mut three = head();
    chain2(AppendUrl::new("/1"), AppendUrl::new("/2"), AppendUrl::new("/3")).intercept(&mut three);
    assert_eq!(three.get_url(), "/users/1/2/3");

    let mut nested = head();
    Chain(Chain(AppendUrl::new("/1"), AppendUrl::new("/2")), AppendUrl::new("/3"))
        .intercept(&mut nested);
    assert_eq!(nested.get_url(), three.get_url());

    let mut other = head();
    Chain2(AppendUrl::new("/1"), NoIntercept, Chain(AppendUrl::new("/2"), AppendUrl::new("/3")))
        .intercept(&mut other);
    assert_eq!(other.get_url(), three.get_url());
}
