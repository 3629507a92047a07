use rust_shop::route_scan::{controller_registrations, route_registrations, routes_well_formed, AttrDecl, RouteCandidate, ScanError};

const CONTROLLER: &str = r#"
use crate::RequestCtx;

pub mod user_controller {
    #[route("GET", "/user/list")]
    pub async fn list(req: RequestCtx) -> String { String::new() }

    pub fn helper() {}

    #[allow(dead_code)]
    fn other() {}
}

#[route("POST", "/outside")]
pub fn not_in_a_module() {}
"#;

#[test]
fn routes_of_a_controller_file() {
    let r = controller_registrations("user_controller", CONTROLLER).ok().unwrap();
    assert_eq!(
        r,
        "  register_route(\"GET\".to_string(),\"/user/list\".to_string(),user_controller::user_controller::list_handler_proxy);\r\n"
    );
}

#[test]
fn functions_without_route_attribute_are_not_registered() {
    let src = "mod m { #[allow(dead_code)] fn f() {} fn g() {} } mod n;";
    assert_eq!(controller_registrations("c", src).ok().unwrap(), "");
}

#[test]
fn a_route_attribute_needs_two_literals() {
    let src = "mod m { #[route(\"GET\")] fn f() {} }";
    assert!(matches!(controller_registrations("c", src), Err(ScanError::BadRouteAttribute)));
}

#[test]
fn an_unparsable_file_is_refused() {
    assert!(matches!(controller_registrations("c", "mod m { fn ( }"), Err(ScanError::Unparsable)));
}

#[test]
fn the_last_route_attribute_wins() {
    let attr = |m: &str, u: &str| AttrDecl {
        path: vec!["route".to_string()],
        tokens: format!("(\"{}\", \"{}\")", m, u),
    };
    let items = vec![RouteCandidate {
        module: "m".to_string(),
        function: "f".to_string(),
        attributes: vec![attr("GET", "/a"), attr("POST", "/b")],
    }];
    assert!(routes_well_formed(&items));
    assert_eq!(
        route_registrations("c", &items),
        "  register_route(\"POST\".to_string(),\"/b\".to_string(),c::m::f_handler_proxy);\r\n"
    );
}
