use raxon::nav::{
    match_route, match_route_location, parse_deep_link, parse_query, parse_query_all,
    parse_route_location, route,
};

#[test]
fn parses_query_strings_with_decoding_and_repeated_keys() {
    let first = parse_query("?tab=reviews&filter=open&filter=closed&empty&name=Alice+Doe");

    assert_eq!(first.get("tab"), Some("reviews"));
    assert_eq!(first.get("filter"), Some("open"));
    assert_eq!(first.get("empty"), Some(""));
    assert_eq!(first.get("name"), Some("Alice Doe"));

    let all = parse_query_all("filter=open&filter=closed&encoded=a%2Fb");
    assert_eq!(
        all.get("filter"),
        Some(vec!["open".to_string(), "closed".to_string()].as_slice())
    );
    assert_eq!(all.get("encoded"), Some(vec!["a/b".to_string()].as_slice()));
}

#[test]
fn parses_web_custom_and_hash_route_locations() {
    let web = parse_route_location("https://rtylr.com/products/42?tab=reviews#notes");
    assert_eq!(web.path, "/products/42");
    assert_eq!(web.query.get("tab"), Some("reviews"));
    assert_eq!(web.fragment.as_deref(), Some("notes"));

    let custom = parse_route_location("pablo://orders/abc%20123?from=push");
    assert_eq!(custom.path, "/orders/abc%20123");
    assert_eq!(custom.query.get("from"), Some("push"));

    let hash = parse_route_location("https://rtylr.com/#/checkout?step=pay");
    assert_eq!(hash.path, "/checkout");
    assert_eq!(hash.query.get("step"), Some("pay"));
    assert_eq!(hash.fragment.as_deref(), Some("/checkout?step=pay"));
}

#[test]
fn match_route_ignores_query_hash_and_decodes_params() {
    let params = match_route(
        "/products/:id/reviews/:review_id",
        "/products/abc%20123/reviews/99?sort=new#top",
    )
    .expect("route should match");

    assert_eq!(params.get("id"), Some("abc 123"));
    assert_eq!(params.get("review_id"), Some("99"));
}

#[test]
fn match_route_location_carries_params_query_and_hash() {
    let matched = match_route_location(
        "/orders/:id?tab=items#notes",
        "/orders/abc%20123?tab=items&tag=paid&tag=pickup#notes",
    )
    .expect("route should match");

    assert_eq!(matched.pattern, "/orders/:id?tab=items#notes");
    assert_eq!(matched.path, "/orders/abc%20123");
    assert_eq!(matched.param("id"), Some("abc 123"));
    assert_eq!(matched.query_value("tab"), Some("items"));
    assert_eq!(
        matched.query_values("tag"),
        Some(["paid".to_string(), "pickup".to_string()].as_slice())
    );
    assert_eq!(matched.fragment.as_deref(), Some("notes"));
}

#[test]
fn declarative_route_patterns_can_constrain_query_and_hash() {
    assert!(match_route_location("/orders/:id?tab=items", "/orders/42?tab=items").is_some());
    assert!(match_route_location("/orders/:id?tab=items", "/orders/42?tab=history").is_none());
    assert!(match_route_location("/orders/:id#notes", "/orders/42#notes").is_some());
    assert!(match_route_location("/orders/:id#notes", "/orders/42#summary").is_none());
}

#[test]
fn url_route_matches_exposes_the_route_context() {
    let detail = route("/orders/:id", |_: &str| "detail");
    let matched = detail
        .matches("/orders/42?tab=items")
        .expect("route should match");

    assert_eq!(detail.pattern(), "/orders/:id");
    assert_eq!(matched.param("id"), Some("42"));
    assert_eq!(matched.query_value("tab"), Some("items"));
}

#[test]
fn parse_deep_link_handles_universal_links() {
    let (path, params) = parse_deep_link("https://rtylr.com/profile/42?tab=posts");

    assert_eq!(path, "/profile/42");
    assert_eq!(params.get("tab"), Some("posts"));
}

#[test]
fn popping_a_pushed_route_restores_the_stack() {
    let mut nav = raxon::nav::create_navigator("home".to_string());
    nav.push("detail".to_string());
    assert_eq!(nav.depth(), 2);
    assert_eq!(nav.top(), "detail");
    nav.pop();
    assert_eq!(nav.depth(), 1);
    assert_eq!(nav.top(), "home");
    // The root is never popped.
    nav.pop();
    assert_eq!(nav.depth(), 1);
    assert!(!nav.can_pop());
    nav.push("a".to_string());
    nav.push("b".to_string());
    nav.pop_to_root();
    assert_eq!(nav.top(), "home");
    nav.replace("start".to_string());
    assert_eq!(nav.top(), "start");
    nav.reset("other".to_string());
    assert_eq!(nav.depth(), 1);
}

#[test]
fn going_back_after_a_visit_restores_the_route() {
    let mut router = raxon::nav::Router::new();
    raxon::nav::navigate(&mut router, "/home", |_| true);
    raxon::nav::navigate(&mut router, "/orders", |_| true);
    assert_eq!(raxon::nav::current_route(&router), "/orders");
    assert!(raxon::nav::can_go_back(&router));
    assert!(raxon::nav::go_back(&mut router));
    assert_eq!(raxon::nav::current_route(&router), "/home");
    assert!(!raxon::nav::go_back(&mut router));
    assert_eq!(raxon::nav::current_route(&router), "/home");
}

#[test]
fn guards_redirect_to_the_first_failing_guard() {
    let mut router = raxon::nav::Router::new();
    let first = raxon::nav::add_route_guard(&mut router, "/login");
    let second = raxon::nav::add_route_guard(&mut router, "/upgrade");
    assert_eq!((first, second), (0, 1));
    let reached = raxon::nav::navigate(&mut router, "/settings", |i| i != 1);
    assert_eq!(reached, "/upgrade");
    assert!(!raxon::nav::try_navigate(&mut router, "/settings", |i| i != 0));
    assert_eq!(raxon::nav::current_route(&router), "/login");
    assert!(raxon::nav::try_navigate(&mut router, "/settings", |_| true));
}

#[test]
fn dismissing_a_presented_modal_restores_the_modal_stack() {
    let mut router = raxon::nav::Router::new();
    raxon::nav::present_modal(&mut router, "/filters");
    raxon::nav::present_modal(&mut router, "/sort");
    assert_eq!(raxon::nav::current_modal(&router).as_deref(), Some("/sort"));
    assert!(raxon::nav::dismiss_modal(&mut router));
    assert_eq!(raxon::nav::modal_stack(&router), vec!["/filters".to_string()]);
    assert!(raxon::nav::dismiss_modal(&mut router));
    assert!(!raxon::nav::dismiss_modal(&mut router));
    assert_eq!(raxon::nav::current_modal(&router), None);
}

#[test]
fn url_routes_pick_the_first_matching_definition() {
    let routes = vec![
        route("/orders/:id?tab=items", "items"),
        route("/orders/:id", "detail"),
        route("/", "home"),
    ];
    let (i, m) = raxon::nav::url_routes(&routes, "/orders/42?tab=history").expect("a route matches");
    assert_eq!(i, 1);
    assert_eq!(m.param("id"), Some("42"));
    assert_eq!(raxon::nav::url_routes(&routes, "/orders/42?tab=items").map(|(i, _)| i), Some(0));
    assert!(raxon::nav::url_routes(&routes, "/missing/page").is_none());
}

#[test]
fn navigation_fires_events_from_the_last_visit() {
    let mut router = raxon::nav::Router::new();
    assert_eq!(raxon::nav::on_navigate(&mut router), 0);
    assert_eq!(raxon::nav::on_navigate(&mut router), 1);
    assert_eq!(raxon::nav::navigation_listeners(&router), 2);
    raxon::nav::navigate(&mut router, "/home", |_| true);
    raxon::nav::navigate(&mut router, "/orders", |_| true);
    assert!(raxon::nav::go_back(&mut router));
    let events = raxon::nav::drain_navigate_events(&mut router);
    let pairs: Vec<(&str, &str)> = events.iter().map(|e| (e.from.as_str(), e.to.as_str())).collect();
    assert_eq!(pairs, vec![("", "/home"), ("/home", "/orders")]);
    assert!(raxon::nav::drain_navigate_events(&mut router).is_empty());
    raxon::nav::fire_navigate_event(&mut router, "/a", "/b");
    let events = raxon::nav::drain_navigate_events(&mut router);
    assert_eq!(events.len(), 1);
    assert_eq!((events[0].from.as_str(), events[0].to.as_str()), ("/a", "/b"));
}

#[test]
fn push_and_pop_route_follow_the_history() {
    let mut router = raxon::nav::Router::new();
    raxon::nav::push_route(&mut router, "/search?q=shoes&page=2", |_| true);
    let query = raxon::nav::use_query_params(&router);
    assert_eq!(query.get("q"), Some("shoes"));
    assert_eq!(query.get("page"), Some("2"));
    raxon::nav::push_route(&mut router, "/cart", |_| true);
    assert_eq!(raxon::nav::current_route(&router), "/cart");
    raxon::nav::pop_route(&mut router);
    assert_eq!(raxon::nav::current_route(&router), "/search?q=shoes&page=2");
    raxon::nav::pop_route(&mut router);
    assert_eq!(raxon::nav::current_route(&router), "/search?q=shoes&page=2");
    raxon::nav::bind_web_history();
}

#[test]
fn lifecycle_hooks_fire_for_their_route_in_order() {
    let mut lifecycle = raxon::nav::ScreenLifecycle::new();
    assert_eq!(raxon::nav::on_appear(&mut lifecycle, "/home"), 0);
    assert_eq!(raxon::nav::on_appear(&mut lifecycle, "/cart"), 1);
    assert_eq!(raxon::nav::use_focus_effect(&mut lifecycle, "/home"), vec![2]);
    assert_eq!(raxon::nav::on_disappear(&mut lifecycle, "/home"), 0);
    assert_eq!(raxon::nav::on_disappear(&mut lifecycle, "/cart"), 1);
    assert_eq!(raxon::nav::fire_appear(&lifecycle, "/home"), vec![0, 2]);
    assert_eq!(raxon::nav::fire_appear(&lifecycle, "/cart"), vec![1]);
    assert_eq!(raxon::nav::fire_disappear(&lifecycle, "/home"), vec![0]);
    assert!(raxon::nav::fire_disappear(&lifecycle, "/missing").is_empty());
}

#[test]
fn browser_moves_replace_the_current_entry() {
    let mut router = raxon::nav::Router::new();
    assert_eq!(raxon::nav::replace_route_from_browser(&mut router, "/start", |_| true), "/start");
    raxon::nav::navigate(&mut router, "/orders", |_| true);
    raxon::nav::add_route_guard(&mut router, "/login");
    assert_eq!(raxon::nav::replace_route_from_browser(&mut router, "/admin", |_| false), "/login");
    assert_eq!(raxon::nav::current_route(&router), "/login");
    assert!(raxon::nav::go_back(&mut router));
    assert_eq!(raxon::nav::current_route(&router), "/start");
    let events = raxon::nav::drain_navigate_events(&mut router);
    let pairs: Vec<(&str, &str)> = events.iter().map(|e| (e.from.as_str(), e.to.as_str())).collect();
    assert_eq!(pairs, vec![("", "/start"), ("/start", "/orders"), ("/orders", "/login")]);
}

#[test]
fn params_are_empty_without_registered_patterns() {
    let mut router = raxon::nav::Router::new();
    raxon::nav::navigate(&mut router, "/orders/42", |_| true);
    assert!(raxon::nav::use_params(&router).is_empty());
}
