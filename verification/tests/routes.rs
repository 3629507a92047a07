use rust_shop::routing::{to_ascii_uppercase, Endpoint, RouteTable};

fn table() -> RouteTable {
    let mut t = RouteTable::new();
    assert!(t.register_route("GET".to_string(), "/users/:id".to_string(), 1));
    assert!(t.register_route("GET".to_string(), "/users".to_string(), 2));
    assert!(t.register_route("GET".to_string(), "/files/*path".to_string(), 3));
    assert!(t.register_route("post".to_string(), "/login".to_string(), 4));
    t
}

#[test]
fn routes_are_found_by_method_and_path() {
    let t = table();
    assert_eq!(t.recognize("GET", "/users/5"), Some((1, vec![("id".to_string(), "5".to_string())])));
    assert_eq!(t.recognize("GET", "/users"), Some((2, vec![])));
    assert_eq!(t.recognize("GET", "/files/a/b.txt"), Some((3, vec![("path".to_string(), "a/b.txt".to_string())])));
    assert_eq!(t.recognize("GET", "/nothing"), None);
    assert_eq!(t.recognize("DELETE", "/users"), None);
}

#[test]
fn request_methods_are_upper_cased() {
    let t = table();
    match t.endpoint_for("get", "/users/7") {
        Endpoint::Handler(h, p) => {
            assert_eq!(h, 1);
            assert_eq!(p, vec![("id".to_string(), "7".to_string())]);
        }
        Endpoint::NotFound => panic!("the route is registered under GET"),
    }
    assert!(matches!(t.endpoint_for("POST", "/login"), Endpoint::NotFound));
    assert!(matches!(t.endpoint_for("GET", "/missing"), Endpoint::NotFound));
    assert_eq!(to_ascii_uppercase("patch"), "PATCH");
}

#[test]
fn registering_keeps_other_methods() {
    let mut t = table();
    assert!(t.register_route("GET".to_string(), "/about".to_string(), 9));
    assert_eq!(t.recognize("post", "/login"), Some((4, vec![])));
    assert_eq!(t.recognize("GET", "/about"), Some((9, vec![])));
    assert_eq!(t.recognize("GET", "/users"), Some((2, vec![])));
}
