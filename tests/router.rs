use std::sync::atomic::{AtomicU32, Ordering};
use std::sync::Arc;

use remindr::hooks::{init, outlet, route, router, use_location, use_navigate, use_params, NavLink};
use remindr::matcher::RouteError;
use remindr::paths::{join_path, pattern_path, trim_trailing_slashes};
use remindr::route::{Rendered, Route, Routes};
use remindr::state::{RouteParams, RouterState};

type Page = Route<&'static str, &'static str>;

fn basic_routes() -> Routes<&'static str, &'static str> {
    Routes::new()
        .basename("/")
        .child(Route::new().index().element("home"))
        .child(Route::new().path("about").element("about"))
        .child(Route::new().path("dashboard").element("dashboard"))
        .child(Route::new().path("{*not_match}").element("not_match"))
}

fn render_at(routes: Routes<&'static str, &'static str>, path: &str) -> Rendered<&'static str, &'static str> {
    let mut state = init();
    use_navigate(&mut state, path.to_string());
    routes.render(&mut state).unwrap()
}

#[test]
fn test_router() {
    let state = init();
    assert_eq!(state.location.pathname, "/");
    let routes = basic_routes();
    assert_eq!(state.location.pathname, "/");
    assert_eq!(routes.routes().len(), 4);
}

#[test]
fn test_lazy_element_evaluation() {
    let home_counter = Arc::new(AtomicU32::new(0));
    let about_counter = Arc::new(AtomicU32::new(0));

    let home_counter_clone = home_counter.clone();
    let about_counter_clone = about_counter.clone();

    type Factory = Box<dyn Fn() -> &'static str>;
    let home: Factory = Box::new(move || {
        home_counter_clone.fetch_add(1, Ordering::SeqCst);
        "home"
    });
    let about: Factory = Box::new(move || {
        about_counter_clone.fetch_add(1, Ordering::SeqCst);
        "about"
    });
    let routes: Routes<Factory, ()> = Routes::new()
        .basename("/")
        .child(Route::new().index().element(home))
        .child(Route::new().path("about").element(about));

    assert_eq!(
        home_counter.load(Ordering::SeqCst),
        0,
        "Home element should not be evaluated during route configuration"
    );
    assert_eq!(
        about_counter.load(Ordering::SeqCst),
        0,
        "About element should not be evaluated during route configuration"
    );

    // Rendering hands back the matched factory without calling it.
    let mut state = init();
    use_navigate(&mut state, "/about".to_string());
    let rendered = routes.render(&mut state).unwrap();
    assert_eq!(about_counter.load(Ordering::SeqCst), 0);
    match rendered {
        Rendered::Element(f) => assert_eq!(f(), "about"),
        _ => panic!("the about route should match"),
    }
    assert_eq!(about_counter.load(Ordering::SeqCst), 1);
    assert_eq!(home_counter.load(Ordering::SeqCst), 0);
}

#[test]
fn test_use_navigate() {
    let mut state = init();
    assert_eq!(state.location.pathname, "/");
    use_navigate(&mut state, "/about".to_string());
    assert_eq!(state.location.pathname, "/about");
    use_navigate(&mut state, "/dashboard".to_string());
    assert_eq!(state.location.pathname, "/dashboard");
    use_navigate(&mut state, "/".to_string());
    assert_eq!(state.location.pathname, "/");
    use_navigate(&mut state, "/nothing-here".to_string());
    assert_eq!(use_location(&state).pathname, "/nothing-here");
}

#[test]
fn renders_matching_element() {
    assert!(matches!(render_at(basic_routes(), "/"), Rendered::Element("home")));
    assert!(matches!(render_at(basic_routes(), "/about"), Rendered::Element("about")));
    assert!(matches!(render_at(basic_routes(), "/dashboard"), Rendered::Element("dashboard")));
    assert!(matches!(render_at(basic_routes(), "/nothing-here"), Rendered::Element("not_match")));
}

#[test]
fn catch_all_records_parameter() {
    let mut state = init();
    use_navigate(&mut state, "/a/b".to_string());
    let rendered = basic_routes().render(&mut state).unwrap();
    assert!(matches!(rendered, Rendered::Element("not_match")));
    assert_eq!(use_params(&state).get("not_match").map(|s| s.as_str()), Some("a/b"));
    assert_eq!(use_params(&state).len(), 1);
}

#[test]
fn unmatched_path_renders_empty() {
    let routes: Routes<&'static str, &'static str> = Routes::new()
        .child(Route::new().path("about").element("about"));
    assert!(matches!(render_at(routes, "/contact"), Rendered::Empty));
}

#[test]
fn dynamic_segment_parameter() {
    let routes: Routes<&'static str, &'static str> =
        Routes::new().child(Route::new().path("user/{id}").element("user"));
    let mut state = init();
    state.with_path("/user/42".to_string());
    let rendered = routes.render(&mut state).unwrap();
    assert!(matches!(rendered, Rendered::Element("user")));
    assert_eq!(state.params.get("id").map(|s| s.as_str()), Some("42"));
    assert_eq!(state.params.get("name"), None);
}

#[test]
fn layout_receives_matching_child() {
    let dashboard: Page = Route::new()
        .path("dashboard")
        .layout("shell")
        .children(vec![
            Route::new().index().element("overview"),
            Route::new().path("settings").element("settings"),
        ]);
    let routes = || Routes::new().child(Route::new().path("dashboard").layout("shell").children(vec![
        Route::new().index().element("overview"),
        Route::new().path("settings").element("settings"),
    ]));
    assert_eq!(dashboard.routes.len(), 2);
    match render_at(routes(), "/dashboard/settings") {
        Rendered::Layout("shell", Some(inner)) => assert!(matches!(*inner, Rendered::Element("settings"))),
        _ => panic!("the layout should wrap the settings element"),
    }
    match render_at(routes(), "/dashboard") {
        Rendered::Layout("shell", Some(inner)) => assert!(matches!(*inner, Rendered::Element("overview"))),
        _ => panic!("the layout should wrap the index element"),
    }
    assert!(matches!(render_at(routes(), "/elsewhere"), Rendered::Empty));
}

#[test]
fn route_without_element_or_layout_renders_empty() {
    let r: Page = route().path("x");
    assert!(matches!(r.render("/x").unwrap(), Rendered::Empty));
    let e: Page = route().path("x").element("x");
    assert!(matches!(e.render("/x").unwrap(), Rendered::Element("x")));
}

#[test]
fn conflicting_routes_are_rejected() {
    let routes: Routes<&'static str, &'static str> = Routes::new()
        .child(Route::new().path("about").element("a"))
        .child(Route::new().path("about").element("b"));
    let mut state = init();
    assert_eq!(routes.render(&mut state).err(), Some(RouteError::Rejected));
}

#[test]
fn too_many_parameters_are_refused() {
    let mut pattern = String::new();
    for i in 0..26 {
        pattern.push_str(&format!("{{p{}}}/", i));
    }
    let routes: Routes<&'static str, &'static str> =
        Routes::new().child(Route::new().path(&pattern).element("many"));
    let mut state = init();
    assert_eq!(routes.render(&mut state).err(), Some(RouteError::TooManyParameters));
}

#[test]
fn route_map_and_in_pattern() {
    let r: Page = Route::new().path("about").element("about");
    assert!(r.build_route_map("/").is_ok());
    assert_eq!(r.in_pattern("/", "/about"), Ok(true));
    assert_eq!(r.in_pattern("/", "/other"), Ok(false));
    assert_eq!(r.in_pattern("/base/", "/base/about"), Ok(true));
}

#[test]
fn path_joining() {
    assert_eq!(trim_trailing_slashes("/a///"), "/a");
    assert_eq!(trim_trailing_slashes("///"), "");
    assert_eq!(join_path("/", Some("about")), "/about");
    assert_eq!(join_path("/base/", None), "/base");
    assert_eq!(pattern_path("/", Some("")), "/");
    assert_eq!(pattern_path("/base", Some("")), "/base");
    assert_eq!(pattern_path("/base", Some("x/")), "/base/x");
}

#[test]
fn nav_link_navigates() {
    let mut state: RouterState = init();
    NavLink::new().to("/about").click(&mut state);
    assert_eq!(state.location.pathname, "/about");
}

#[test]
fn outlet_and_router_start_empty() {
    let o = outlet::<u8>();
    assert!(o.element.is_none());
    let mut r = router::<u8>();
    r.extend(vec![1, 2]);
    assert_eq!(r.elements(), &vec![1, 2]);
    let p = RouteParams::new();
    assert_eq!(p.len(), 0);
}

#[test]
fn element_route_renders_without_a_table() {
    let r: Page = Route::new().path("{").element("broken");
    assert!(matches!(r.render("/anything").unwrap(), Rendered::Element("broken")));
}

#[test]
fn malformed_pattern_is_rejected() {
    let r: Page = Route::new().path("{").element("broken");
    assert_eq!(r.in_pattern("/", "/x"), Err(RouteError::Rejected));
    assert_eq!(r.build_route_map("/").err(), Some(RouteError::Rejected));
    let layout: Page = Route::new().path("a").layout("shell").child(Route::new().path("{").element("x"));
    assert_eq!(layout.render("/a/b").err(), Some(RouteError::Rejected));
}

#[test]
fn initial_location_has_no_state() {
    let state = init();
    assert!(state.location.state.is_empty());
    assert!(state.path_match.is_none());
}
