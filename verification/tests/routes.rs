use registry_auth::http::Method;
use registry_auth::routes::{
    create_router, custom_v1_router, debug_router, healthz, v1_router_with_auth, Endpoint, Group,
    Guard, Route,
};

fn route(method: Method, path: &str, endpoint: Endpoint, guards: Vec<Guard>) -> Route {
    Route { method, path: path.to_string(), endpoint, guards }
}

fn nests(debug: bool) -> Vec<(String, Group)> {
    create_router(debug).nests.into_iter().map(|n| (n.prefix, n.group)).collect()
}

#[test]
fn both_forms_of_the_distribution_root_are_there() {
    let plan = create_router(false);
    assert_eq!(
        plan.routes,
        vec![
            route(Method::Get, "/healthz", Endpoint::Healthz, vec![]),
            route(Method::Get, "/v2/", Endpoint::Probe, vec![]),
            route(Method::Get, "/auth/token", Endpoint::Auth, vec![]),
        ]
    );
    assert!(nests(false).contains(&("/v2".to_string(), Group::V2)));
    assert!(nests(false).contains(&("/api/v1".to_string(), Group::CustomV1)));
}

#[test]
fn debugging_routes_are_there_only_for_debugging() {
    assert_eq!(nests(false).len(), 2);
    assert_eq!(nests(true).len(), 3);
    assert_eq!(nests(true)[2], ("/debug".to_string(), Group::Debug));
    assert_eq!(
        debug_router(),
        vec![route(Method::Post, "/users", Endpoint::CreateUser, vec![])]
    );
}

#[test]
fn guarded_routes_have_their_guards_in_order() {
    assert_eq!(
        v1_router_with_auth(),
        vec![
            route(
                Method::Get,
                "/repo",
                Endpoint::ListVisibleRepos,
                vec![Guard::RequireAuthentication]
            ),
            route(
                Method::Put,
                "/{*tail}",
                Endpoint::ChangeVisibility,
                vec![Guard::PopulateOciClaims, Guard::AuthorizeRepositoryAccess]
            ),
        ]
    );
}

#[test]
fn the_own_interface_is_open_and_guarded_routes() {
    let routes = custom_v1_router();
    assert_eq!(routes.len(), 5);
    assert_eq!(
        routes[0],
        route(Method::Post, "/auth/{provider}/callback", Endpoint::OauthCallback, vec![])
    );
    assert_eq!(
        routes[1],
        route(Method::Get, "/auth/{provider}/client_id", Endpoint::ClientId, vec![])
    );
    assert_eq!(
        routes[2],
        route(Method::Get, "/auth/next/login_url", Endpoint::LoginUrl, vec![])
    );
    assert_eq!(routes[3..], v1_router_with_auth()[..]);
}

#[test]
fn the_health_check_answers() {
    assert_eq!(healthz(), "http ready");
}
