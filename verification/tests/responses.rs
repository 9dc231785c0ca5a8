use core_api::routes;

#[test]
fn root_serves_the_welcome_page() {
    let (status, body) = routes::root();
    assert_eq!(status, 200);
    assert_eq!(
        body,
        "<h1>Welcome to the Axum Core API</h1><h2>Available routes:</h2><p>/ - this route, the root</p><p>/health_check - current API status</p>"
    );
}

#[test]
fn health_check_reports_alive() {
    let (status, body) = routes::health_check();
    assert_eq!(status, 200);
    assert_eq!(
        body,
        "<h1>Welcome to the Axum Core API</h1><h2>Status:</h2><p>Alive, 200 OK</p>"
    );
}

#[test]
fn unmatched_paths_get_not_found() {
    let (status, body) = routes::not_found();
    assert_eq!(status, 404);
    assert_eq!(body, "<h1>Nothing here by that name...yet.</h1>");
}
