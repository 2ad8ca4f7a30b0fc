use shara::config::Config;
use shara::routes::{greeting, routes, Method, Route};

#[test]
fn hello_route() {
    match routes(Method::Get, "/hello/bob") {
        Some(Route::Hello(n)) => assert_eq!(n, "bob"),
        _ => panic!("expected a greeting"),
    }
    assert!(matches!(routes(Method::Post, "/hello/bob/"), Some(Route::Hello(_))));
    assert!(routes(Method::Get, "/hello/").is_none());
    assert!(routes(Method::Get, "/hello").is_none());
    assert!(routes(Method::Get, "/hello/bob/x").is_none());
    assert_eq!(greeting("bob"), "Hello, bob!");
}

#[test]
fn auth_routes() {
    assert!(matches!(routes(Method::Post, "/user/auth/register"), Some(Route::Register)));
    assert!(routes(Method::Get, "/user/auth/register").is_none());
    assert!(matches!(routes(Method::Post, "/user/auth/login"), Some(Route::Login)));
    assert!(matches!(routes(Method::Get, "/user/auth/logout"), Some(Route::Logout)));
    assert!(matches!(routes(Method::Other, "/user/auth/logout/more"), Some(Route::Logout)));
    assert!(matches!(routes(Method::Post, "/user/auth/refresh-session"), Some(Route::RefreshSession)));
    assert!(routes(Method::Post, "/user/auth/unknown").is_none());
    assert!(routes(Method::Post, "/user/register").is_none());
}

#[test]
fn admin_route() {
    assert!(matches!(routes(Method::Get, "/admin/queue/dates"), Some(Route::Prizes)));
    assert!(routes(Method::Post, "/admin/queue/dates").is_none());
    assert!(routes(Method::Get, "/admin/queue").is_none());
    assert!(routes(Method::Get, "/").is_none());
}

#[test]
fn default_config() {
    let c: Config = Default::default();
    assert_eq!(c.token, "");
    assert_eq!(c.database_url, "");
    assert_eq!(c.max_connections, 5);
}
