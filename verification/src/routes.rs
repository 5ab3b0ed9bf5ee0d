//! The routes of the registry's HTTP interface, as plain tables.
use vstd::prelude::*;

use crate::http::Method;
use crate::login::{client_id_path, github_callback_path, login_url_path};

verus! {

/// What answers a request.
#[derive(Clone, Copy, Debug, PartialEq, Eq, Structural)]
pub enum Endpoint {
    Healthz,
    Probe,
    Auth,
    OauthCallback,
    ClientId,
    LoginUrl,
    ListVisibleRepos,
    ChangeVisibility,
    CreateUser,
}

/// What a request has to pass before it reaches its endpoint.
#[derive(Clone, Copy, Debug, PartialEq, Eq, Structural)]
pub enum Guard {
    RequireAuthentication,
    PopulateOciClaims,
    AuthorizeRepositoryAccess,
}

/// One route. A segment of the path in braces stands for any segment, and one that
/// starts with a star for the rest of the path.
#[derive(Debug, PartialEq, Eq)]
pub struct Route {
    pub method: Method,
    pub path: String,
    pub endpoint: Endpoint,
    /// The guards, in the order in which a request passes them.
    pub guards: Vec<Guard>,
}

/// The model of a [`Route`].
#[verifier::ext_equal]
pub struct RouteView {
    pub method: Method,
    pub path: Seq<char>,
    pub endpoint: Endpoint,
    pub guards: Seq<Guard>,
}

impl View for Route {
    type V = RouteView;

    open spec fn view(&self) -> RouteView {
        RouteView {
            method: self.method,
            path: self.path@,
            endpoint: self.endpoint,
            guards: self.guards@,
        }
    }
}

impl DeepView for Route {
    type V = RouteView;

    open spec fn deep_view(&self) -> RouteView {
        self@
    }
}

/// A group of routes that share a prefix.
#[derive(Clone, Copy, Debug, PartialEq, Eq, Structural)]
pub enum Group {
    /// The distribution interface, version 2.
    V2,
    /// The registry's own interface; see [`custom_v1_router`].
    CustomV1,
    /// Helpers for debugging; see [`debug_router`].
    Debug,
}

/// A group of routes under a prefix.
#[derive(Debug, PartialEq, Eq)]
pub struct Nest {
    pub prefix: String,
    pub group: Group,
}

impl View for Nest {
    type V = (Seq<char>, Group);

    open spec fn view(&self) -> (Seq<char>, Group) {
        (self.prefix@, self.group)
    }
}

impl DeepView for Nest {
    type V = (Seq<char>, Group);

    open spec fn deep_view(&self) -> (Seq<char>, Group) {
        self@
    }
}

/// The whole interface: routes of its own, and groups under prefixes.
#[derive(Debug, PartialEq, Eq)]
pub struct RouterPlan {
    pub routes: Vec<Route>,
    pub nests: Vec<Nest>,
}

/// A route without guards.
pub open spec fn open_route(method: Method, path: Seq<char>, endpoint: Endpoint) -> RouteView {
    RouteView { method, path, endpoint, guards: seq![] }
}

/// The routes outside any group.
pub open spec fn top_routes() -> Seq<RouteView> {
    seq![
        open_route(Method::Get, "/healthz"@, Endpoint::Healthz),
        open_route(Method::Get, "/v2/"@, Endpoint::Probe),
        open_route(Method::Get, "/auth/token"@, Endpoint::Auth),
    ]
}

/// The groups, with their prefixes.
pub open spec fn top_nests(debug: bool) -> Seq<(Seq<char>, Group)> {
    if debug {
        seq![("/v2"@, Group::V2), ("/api/v1"@, Group::CustomV1), ("/debug"@, Group::Debug)]
    } else {
        seq![("/v2"@, Group::V2), ("/api/v1"@, Group::CustomV1)]
    }
}

/// The routes of the registry's own interface that let anyone in.
pub open spec fn v1_open_routes() -> Seq<RouteView> {
    seq![
        open_route(Method::Post, "/auth/{provider}/callback"@, Endpoint::OauthCallback),
        open_route(Method::Get, "/auth/{provider}/client_id"@, Endpoint::ClientId),
        open_route(Method::Get, "/auth/next/login_url"@, Endpoint::LoginUrl),
    ]
}

/// The routes of the registry's own interface that are guarded.
pub open spec fn v1_guarded_routes() -> Seq<RouteView> {
    seq![
        RouteView {
            method: Method::Get,
            path: "/repo"@,
            endpoint: Endpoint::ListVisibleRepos,
            guards: seq![Guard::RequireAuthentication],
        },
        RouteView {
            method: Method::Put,
            path: "/{*tail}"@,
            endpoint: Endpoint::ChangeVisibility,
            guards: seq![Guard::PopulateOciClaims, Guard::AuthorizeRepositoryAccess],
        },
    ]
}

/// The routes for debugging.
pub open spec fn debug_routes() -> Seq<RouteView> {
    seq![open_route(Method::Post, "/users"@, Endpoint::CreateUser)]
}

/// The routes of a group that this table holds; those of the distribution interface
/// are kept elsewhere.
pub open spec fn group_routes(group: Group) -> Seq<RouteView> {
    match group {
        Group::V2 => seq![],
        Group::CustomV1 => v1_open_routes() + v1_guarded_routes(),
        Group::Debug => debug_routes(),
    }
}

/// Whether the interface serves a route at this full path.
pub open spec fn serves(debug: bool, path: Seq<char>, route: RouteView) -> bool {
    ||| top_routes().contains(route) && path == route.path
    ||| exists|nest: (Seq<char>, Group)|
        top_nests(debug).contains(nest) && #[trigger] group_routes(nest.1).contains(route) && path
            == nest.0 + route.path
}

fn route(method: Method, path: &str, endpoint: Endpoint) -> (r: Route)
    ensures
        r@ == open_route(method, path@, endpoint),
{
    let route = Route { method, path: path.to_owned(), endpoint, guards: Vec::new() };
    assert(route@ =~= open_route(method, path@, endpoint));
    route
}

/// The whole interface. The distribution interface answers under `/v2` and at `/v2/`;
/// the routes for debugging are there only where `debug` says so.
pub fn create_router(debug: bool) -> (r: RouterPlan)
    ensures
        r.routes.deep_view() == top_routes(),
        r.nests.deep_view() == top_nests(debug),
{
    let mut routes: Vec<Route> = Vec::new();
    routes.push(route(Method::Get, "/healthz", Endpoint::Healthz));
    routes.push(route(Method::Get, "/v2/", Endpoint::Probe));
    routes.push(route(Method::Get, "/auth/token", Endpoint::Auth));
    assert(routes.deep_view() =~= top_routes());
    let mut nests: Vec<Nest> = Vec::new();
    nests.push(Nest { prefix: "/v2".to_owned(), group: Group::V2 });
    nests.push(Nest { prefix: "/api/v1".to_owned(), group: Group::CustomV1 });
    if debug {
        nests.push(Nest { prefix: "/debug".to_owned(), group: Group::Debug });
    }
    assert(nests.deep_view() =~= top_nests(debug));
    RouterPlan { routes, nests }
}

/// The routes of the registry's own interface.
pub fn custom_v1_router() -> (r: Vec<Route>)
    ensures
        r.deep_view() == group_routes(Group::CustomV1),
{
    let mut routes: Vec<Route> = Vec::new();
    routes.push(route(Method::Post, "/auth/{provider}/callback", Endpoint::OauthCallback));
    routes.push(route(Method::Get, "/auth/{provider}/client_id", Endpoint::ClientId));
    routes.push(route(Method::Get, "/auth/next/login_url", Endpoint::LoginUrl));
    let ghost open = routes@;
    assert(routes.deep_view() =~= v1_open_routes());
    let mut guarded = v1_router_with_auth();
    let ghost closed = guarded@;
    routes.append(&mut guarded);
    assert(routes@ == open + closed);
    assert(routes.deep_view() =~= v1_open_routes() + v1_guarded_routes());
    routes
}

/// The guarded routes of the registry's own interface.
pub fn v1_router_with_auth() -> (r: Vec<Route>)
    ensures
        r.deep_view() == v1_guarded_routes(),
{
    let mut repo_guards: Vec<Guard> = Vec::new();
    repo_guards.push(Guard::RequireAuthentication);
    let mut tail_guards: Vec<Guard> = Vec::new();
    tail_guards.push(Guard::PopulateOciClaims);
    tail_guards.push(Guard::AuthorizeRepositoryAccess);
    let mut routes: Vec<Route> = Vec::new();
    routes.push(
        Route {
            method: Method::Get,
            path: "/repo".to_owned(),
            endpoint: Endpoint::ListVisibleRepos,
            guards: repo_guards,
        },
    );
    routes.push(
        Route {
            method: Method::Put,
            path: "/{*tail}".to_owned(),
            endpoint: Endpoint::ChangeVisibility,
            guards: tail_guards,
        },
    );
    assert(routes.deep_view()[0] =~= v1_guarded_routes()[0]);
    assert(routes.deep_view()[1] =~= v1_guarded_routes()[1]);
    assert(routes.deep_view() =~= v1_guarded_routes());
    routes
}

/// The routes for debugging.
pub fn debug_router() -> (r: Vec<Route>)
    ensures
        r.deep_view() == debug_routes(),
{
    let mut routes: Vec<Route> = Vec::new();
    routes.push(route(Method::Post, "/users", Endpoint::CreateUser));
    assert(routes.deep_view() =~= debug_routes());
    routes
}

/// The answer of the health check.
pub fn healthz() -> (r: String)
    ensures
        r@ == "http ready"@,
{
    "http ready".to_owned()
}

/// The repositories are listed only for authenticated requests, and their visibility is
/// changed only by requests whose claims were read and then held against the
/// repository.
pub proof fn law_repositories_are_guarded(debug: bool, path: Seq<char>, route: RouteView)
    requires
        serves(debug, path, route),
    ensures
        route.endpoint == Endpoint::ListVisibleRepos ==> route.guards == seq![
            Guard::RequireAuthentication,
        ],
        route.endpoint == Endpoint::ChangeVisibility ==> route.guards == seq![
            Guard::PopulateOciClaims,
            Guard::AuthorizeRepositoryAccess,
        ],
{
    lemma_served_routes(debug, path, route);
}

/// Users can be created by hand only where debugging is on.
pub proof fn law_users_are_created_only_in_debug(debug: bool, path: Seq<char>, route: RouteView)
    requires
        serves(debug, path, route),
        route.endpoint == Endpoint::CreateUser,
    ensures
        debug,
        path == "/debug/users"@,
{
    lemma_served_routes(debug, path, route);
    reveal_strlit("/debug");
    reveal_strlit("/users");
    reveal_strlit("/debug/users");
    assert("/debug"@ + "/users"@ == "/debug/users"@);
}

proof fn lemma_served_routes(debug: bool, path: Seq<char>, route: RouteView)
    requires
        serves(debug, path, route),
    ensures
        ({
            let v1 = "/api/v1"@;
            ||| route == top_routes()[0] && path == route.path
            ||| route == top_routes()[1] && path == route.path
            ||| route == top_routes()[2] && path == route.path
            ||| route == v1_open_routes()[0] && path == v1 + route.path
            ||| route == v1_open_routes()[1] && path == v1 + route.path
            ||| route == v1_open_routes()[2] && path == v1 + route.path
            ||| route == v1_guarded_routes()[0] && path == v1 + route.path
            ||| route == v1_guarded_routes()[1] && path == v1 + route.path
            ||| debug && route == debug_routes()[0] && path == "/debug"@ + route.path
        }),
{
    if !(top_routes().contains(route) && path == route.path) {
        let nest = choose|nest: (Seq<char>, Group)|
            top_nests(debug).contains(nest) && #[trigger] group_routes(nest.1).contains(route)
                && path == nest.0 + route.path;
        let i = choose|i: int| 0 <= i < top_nests(debug).len() && top_nests(debug)[i] == nest;
        let j = choose|j: int|
            0 <= j < group_routes(nest.1).len() && group_routes(nest.1)[j] == route;
        assert(i == 0 || i == 1 || i == 2);
        if nest.1 == Group::CustomV1 {
            assert(group_routes(nest.1).len() == 5);
            assert(j == 0 || j == 1 || j == 2 || j == 3 || j == 4);
        }
    }
}

proof fn lemma_served_route_by_endpoint(debug: bool, path: Seq<char>, route: RouteView)
    requires
        serves(debug, path, route),
    ensures
        match route.endpoint {
            Endpoint::Healthz => route == top_routes()[0] && path.len() == 8,
            Endpoint::Probe => route == top_routes()[1] && path.len() == 4,
            Endpoint::Auth => route == top_routes()[2] && path.len() == 11,
            Endpoint::OauthCallback => route == v1_open_routes()[0] && path.len() == 32,
            Endpoint::ClientId => route == v1_open_routes()[1] && path.len() == 33,
            Endpoint::LoginUrl => route == v1_open_routes()[2] && path.len() == 27,
            Endpoint::ListVisibleRepos => route == v1_guarded_routes()[0] && path.len() == 12,
            Endpoint::ChangeVisibility => route == v1_guarded_routes()[1] && path.len() == 15,
            Endpoint::CreateUser => route == debug_routes()[0] && path.len() == 12,
        },
{
    lemma_served_routes(debug, path, route);
    reveal_strlit("/healthz");
    reveal_strlit("/v2/");
    reveal_strlit("/auth/token");
    reveal_strlit("/api/v1");
    reveal_strlit("/auth/{provider}/callback");
    reveal_strlit("/auth/{provider}/client_id");
    reveal_strlit("/auth/next/login_url");
    reveal_strlit("/repo");
    reveal_strlit("/{*tail}");
    reveal_strlit("/debug");
    reveal_strlit("/users");
}

/// No two routes share both method and path, where paths are compared as texts, with their
/// placeholders.
pub proof fn law_routes_do_not_collide(
    debug: bool,
    path: Seq<char>,
    first: RouteView,
    second: RouteView,
)
    requires
        serves(debug, path, first),
        serves(debug, path, second),
        first.method == second.method,
    ensures
        first == second,
{
    lemma_served_route_by_endpoint(debug, path, first);
    lemma_served_route_by_endpoint(debug, path, second);
}

/// The client finds what it asks the registry for: each path of the client, with the
/// provider for its placeholder, is the full path of a route of the right method.
pub proof fn law_client_paths_are_served(debug: bool)
    ensures
        serves(
            debug,
            "/"@ + login_url_path(),
            open_route(Method::Get, "/auth/next/login_url"@, Endpoint::LoginUrl),
        ),
        serves(
            debug,
            "/api/v1/auth/{provider}/client_id"@,
            open_route(Method::Get, "/auth/{provider}/client_id"@, Endpoint::ClientId),
        ),
        "/"@ + client_id_path() == "/api/v1/auth/"@ + "github"@ + "/client_id"@,
        serves(
            debug,
            "/api/v1/auth/{provider}/callback"@,
            open_route(Method::Post, "/auth/{provider}/callback"@, Endpoint::OauthCallback),
        ),
        "/"@ + github_callback_path() == "/api/v1/auth/"@ + "github"@ + "/callback"@,
{
    reveal_strlit("/");
    reveal_strlit("/api/v1");
    reveal_strlit("/api/v1/auth/");
    reveal_strlit("github");
    reveal_strlit("/client_id");
    reveal_strlit("/callback");
    reveal_strlit("api/v1/auth/next/login_url");
    reveal_strlit("api/v1/auth/github/client_id");
    reveal_strlit("api/v1/auth/github/callback");
    reveal_strlit("/api/v1/auth/{provider}/client_id");
    reveal_strlit("/api/v1/auth/{provider}/callback");
    reveal_strlit("/auth/{provider}/client_id");
    reveal_strlit("/auth/{provider}/callback");
    reveal_strlit("/auth/next/login_url");
    assert("/"@ + client_id_path() =~= "/api/v1/auth/"@ + "github"@ + "/client_id"@);
    assert("/"@ + github_callback_path() =~= "/api/v1/auth/"@ + "github"@ + "/callback"@);
    let nest = ("/api/v1"@, Group::CustomV1);
    let routes = group_routes(nest.1);
    assert(top_nests(debug)[1] == nest);
    assert(routes[0] == v1_open_routes()[0]);
    assert(routes[1] == v1_open_routes()[1]);
    assert(routes[2] == v1_open_routes()[2]);
    assert(routes.contains(routes[0]) && routes.contains(routes[1]) && routes.contains(routes[2]));
    assert("/"@ + login_url_path() =~= nest.0 + routes[2].path);
    assert("/api/v1/auth/{provider}/client_id"@ =~= nest.0 + routes[1].path);
    assert("/api/v1/auth/{provider}/callback"@ =~= nest.0 + routes[0].path);
}

/// Each endpoint answers at one address and by one method only, and none but those that
/// concern repositories has a guard.
pub proof fn law_endpoints_answer_at_their_addresses(debug: bool, path: Seq<char>, route: RouteView)
    requires
        serves(debug, path, route),
    ensures
        match route.endpoint {
            Endpoint::Healthz => path == "/healthz"@ && route.method == Method::Get,
            Endpoint::Probe => path == "/v2/"@ && route.method == Method::Get,
            Endpoint::Auth => path == "/auth/token"@ && route.method == Method::Get,
            Endpoint::OauthCallback => path == "/api/v1/auth/{provider}/callback"@ && route.method
                == Method::Post,
            Endpoint::ClientId => path == "/api/v1/auth/{provider}/client_id"@ && route.method
                == Method::Get,
            Endpoint::LoginUrl => path == "/api/v1/auth/next/login_url"@ && route.method
                == Method::Get,
            Endpoint::ListVisibleRepos => path == "/api/v1/repo"@ && route.method == Method::Get,
            Endpoint::ChangeVisibility => path == "/api/v1/{*tail}"@ && route.method == Method::Put,
            Endpoint::CreateUser => path == "/debug/users"@ && route.method == Method::Post,
        },
        route.endpoint != Endpoint::ListVisibleRepos && route.endpoint != Endpoint::ChangeVisibility
            ==> route.guards.len() == 0,
{
    lemma_served_routes(debug, path, route);
    lemma_full_paths();
}

proof fn lemma_full_paths()
    ensures
        "/api/v1"@ + "/auth/{provider}/callback"@ == "/api/v1/auth/{provider}/callback"@,
        "/api/v1"@ + "/auth/{provider}/client_id"@ == "/api/v1/auth/{provider}/client_id"@,
        "/api/v1"@ + "/auth/next/login_url"@ == "/api/v1/auth/next/login_url"@,
        "/api/v1"@ + "/repo"@ == "/api/v1/repo"@,
        "/api/v1"@ + "/{*tail}"@ == "/api/v1/{*tail}"@,
        "/debug"@ + "/users"@ == "/debug/users"@,
{
    reveal_strlit("/api/v1");
    reveal_strlit("/auth/{provider}/callback");
    reveal_strlit("/api/v1/auth/{provider}/callback");
    reveal_strlit("/auth/{provider}/client_id");
    reveal_strlit("/api/v1/auth/{provider}/client_id");
    reveal_strlit("/auth/next/login_url");
    reveal_strlit("/api/v1/auth/next/login_url");
    reveal_strlit("/repo");
    reveal_strlit("/api/v1/repo");
    reveal_strlit("/{*tail}");
    reveal_strlit("/api/v1/{*tail}");
    reveal_strlit("/debug");
    reveal_strlit("/users");
    reveal_strlit("/debug/users");
}

/// Whether the interface has this endpoint at all.
pub open spec fn is_served(debug: bool, endpoint: Endpoint) -> bool {
    exists|path: Seq<char>, route: RouteView|
        #[trigger] serves(debug, path, route) && route.endpoint == endpoint
}

/// Every endpoint is served, whether or not debugging is on, but for the creation of users
/// by hand, which is served exactly where it is on.
pub proof fn law_every_endpoint_is_served(debug: bool, endpoint: Endpoint)
    ensures
        is_served(debug, endpoint) == (debug || endpoint != Endpoint::CreateUser),
{
    let top = top_routes();
    let v1 = group_routes(Group::CustomV1);
    let made = group_routes(Group::Debug);
    let i: int = match endpoint {
        Endpoint::Healthz | Endpoint::OauthCallback | Endpoint::CreateUser => 0,
        Endpoint::Probe | Endpoint::ClientId => 1,
        Endpoint::Auth | Endpoint::LoginUrl => 2,
        Endpoint::ListVisibleRepos => 3,
        Endpoint::ChangeVisibility => 4,
    };
    match endpoint {
        Endpoint::Healthz | Endpoint::Probe | Endpoint::Auth => {
            assert(top.contains(top[i]));
            assert(serves(debug, top[i].path, top[i]));
        },
        Endpoint::CreateUser => {
            if debug {
                let nest = ("/debug"@, Group::Debug);
                assert(top_nests(debug)[2] == nest);
                assert(group_routes(nest.1).contains(made[i]));
                assert(serves(debug, nest.0 + made[i].path, made[i]));
            } else if is_served(debug, endpoint) {
                let (path, route) = choose|path: Seq<char>, route: RouteView|
                    #[trigger] serves(debug, path, route) && route.endpoint == endpoint;
                lemma_served_routes(debug, path, route);
            }
        },
        _ => {
            let nest = ("/api/v1"@, Group::CustomV1);
            assert(top_nests(debug)[1] == nest);
            assert(group_routes(nest.1).contains(v1[i]));
            assert(serves(debug, nest.0 + v1[i].path, v1[i]));
        },
    }
}

/// The models of routes and groups show each part as it is.
pub proof fn law_route_views_are_faithful(route: Route, nest: Nest)
    ensures
        route@.method == route.method,
        route@.path == route.path@,
        route@.endpoint == route.endpoint,
        route@.guards == route.guards@,
        route.deep_view() == route@,
        nest@ == (nest.prefix@, nest.group),
        nest.deep_view() == nest@,
{
}

} // verus!
