use leptos_axum::routes::generate_route_list;

fn list(routes: &[&str]) -> Vec<String> {
    generate_route_list(routes.iter().map(|r| r.to_string()).collect())
}

#[test]
fn no_routes_give_the_root() {
    assert_eq!(list(&[]), vec!["/"]);
}

#[test]
fn empty_route_is_the_root() {
    assert_eq!(list(&[""]), vec!["/"]);
    assert_eq!(list(&["", "/about", ""]), vec!["/", "/about", "/"]);
}

#[test]
fn routes_keep_their_order_and_their_text() {
    assert_eq!(
        list(&["/todos/:id", "/about", "/*any", "/todos/:id"]),
        vec!["/todos/:id", "/about", "/*any", "/todos/:id"]
    );
    assert_eq!(list(&["/"]), vec!["/"]);
}

#[test]
fn route_list_is_never_empty() {
    for routes in [vec![], vec![""], vec!["/a"], vec!["", ""]] {
        let paths = list(&routes);
        assert!(!paths.is_empty());
        assert!(paths.iter().all(|p| !p.is_empty()));
    }
}
