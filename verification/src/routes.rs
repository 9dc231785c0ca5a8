//! The fixed responses of the three static routes: root, health check, and
//! the not-found fallback. Each handler is a pure function from nothing to
//! a fixed status code and a fixed HTML body; route matching itself, and
//! falling back to the not-found handler on any unmatched path, belong to
//! the server runtime around the library.

use vstd::prelude::*;

verus! {

/// Handler for the root route: an OK status and the fixed welcome page
/// listing the available routes.
pub fn root() -> (r: (u16, &'static str))
    ensures
        r.0 == 200u16,
        r.1@
            == "<h1>Welcome to the Axum Core API</h1><h2>Available routes:</h2><p>/ - this route, the root</p><p>/health_check - current API status</p>"@,
{
    (
        200u16,
        "<h1>Welcome to the Axum Core API</h1><h2>Available routes:</h2><p>/ - this route, the root</p><p>/health_check - current API status</p>",
    )
}

/// Handler for the health-check route: an OK status and the fixed status
/// page.
pub fn health_check() -> (r: (u16, &'static str))
    ensures
        r.0 == 200u16,
        r.1@ == "<h1>Welcome to the Axum Core API</h1><h2>Status:</h2><p>Alive, 200 OK</p>"@,
{
    (200u16, "<h1>Welcome to the Axum Core API</h1><h2>Status:</h2><p>Alive, 200 OK</p>")
}

/// Handler for every path no other route matches: a not-found status and
/// the fixed apology page.
pub fn not_found() -> (r: (u16, &'static str))
    ensures
        r.0 == 404u16,
        r.1@ == "<h1>Nothing here by that name...yet.</h1>"@,
{
    (404u16, "<h1>Nothing here by that name...yet.</h1>")
}

} // verus!
