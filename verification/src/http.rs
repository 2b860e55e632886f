//! The minimal HTTP surface of the service: the fixed status lines, the
//! prefix test the router is built on, and the ordered route table — exact
//! first-match against the request line, with fallthrough to not-found.

use vstd::prelude::*;

verus! {

pub const OK_RESPONSE: &'static str = "HTTP/1.1 200 OK\r\nContent-Type: application/json\r\n\r\n";

pub const NOT_FOUND: &'static str = "HTTP/1.1 404 NOT FOUND\r\n\r\n";

pub const NO_CONTENT: &'static str = "HTTP/1.1 204 NO CONTENT\r\n\r\n";

pub const BAD_REQUEST: &'static str = "HTTP/1.1 400 BAD REQUEST\r\n\r\n";

pub const UNAUTHORIZED: &'static str = "HTTP/1.1 401 UNAUTHORIZED\r\n\r\n";

pub const INTERNAL_ERROR: &'static str = "HTTP/1.1 500 INTERNAL ERROR\r\n\r\n";

pub const SERVICE_UNAVAILABLE: &'static str = "HTTP/1.1 503 SERVICE UNAVAILABLE\r\n\r\n";

pub const TOO_MANY_REQUEST: &'static str = "HTTP/1.1 429 TOO MANY REQUESTS\r\n\r\n";

pub const CORS_ALLOW_ALL: &'static str =
    "HTTP/1.1 200 OK\r\nAccess-Control-Allow-Origin: *\r\nAccess-Control-Allow-Methods: GET, POST, PUT, DELETE, OPTIONS\r\nAccess-Control-Allow-Headers: Content-Type\r\n\r\n";

pub open spec fn spec_starts_with(s: Seq<char>, p: Seq<char>) -> bool {
    p.len() <= s.len() && s.subrange(0, p.len() as int) == p
}

/// Does `s` begin with `p`, character for character?
pub fn str_starts_with(s: &str, p: &str) -> (r: bool)
    ensures
        r == spec_starts_with(s@, p@),
{
    let n = p.unicode_len();
    if n > s.unicode_len() {
        return false;
    }
    let mut i: usize = 0;
    while i < n
        invariant
            i <= n,
            n == p@.len(),
            n <= s@.len(),
            forall|j: int| 0 <= j < i ==> s@[j] == p@[j],
        decreases n - i,
    {
        if s.get_char(i) != p.get_char(i) {
            proof {
                assert(s@.subrange(0, p@.len() as int)[i as int] == s@[i as int]);
            }
            return false;
        }
        i += 1;
    }
    proof {
        assert(s@.subrange(0, p@.len() as int) =~= p@);
    }
    true
}

/// Everything the request line can resolve to. The order of the variants
/// follows the match order of the table.
#[derive(Clone, Copy, Debug, PartialEq, Eq, Structural)]
pub enum Route {
    CorsPreflight,
    CreateUser,
    Ping,
    GetUser,
    ListUsers,
    EditUser,
    DeleteUser,
    Login,
    NotFound,
}

/// The route table: first matching method-and-path prefix wins; anything
/// else is not found. The order matters only where prefixes overlap:
/// `GET /users/<id>` must be tried before `GET /users`.
pub open spec fn spec_route_of(r: Seq<char>) -> Route {
    if spec_starts_with(r, "OPTIONS"@) {
        Route::CorsPreflight
    } else if spec_starts_with(r, "POST /users"@) {
        Route::CreateUser
    } else if spec_starts_with(r, "GET /ping"@) {
        Route::Ping
    } else if spec_starts_with(r, "GET /users/"@) {
        Route::GetUser
    } else if spec_starts_with(r, "GET /users"@) {
        Route::ListUsers
    } else if spec_starts_with(r, "PUT /users/"@) {
        Route::EditUser
    } else if spec_starts_with(r, "DELETE /users/"@) {
        Route::DeleteUser
    } else if spec_starts_with(r, "POST /login"@) {
        Route::Login
    } else {
        Route::NotFound
    }
}

/// Resolve a raw request against the route table.
pub fn route_of(request: &str) -> (r: Route)
    ensures
        r == spec_route_of(request@),
{
    if str_starts_with(request, "OPTIONS") {
        Route::CorsPreflight
    } else if str_starts_with(request, "POST /users") {
        Route::CreateUser
    } else if str_starts_with(request, "GET /ping") {
        Route::Ping
    } else if str_starts_with(request, "GET /users/") {
        Route::GetUser
    } else if str_starts_with(request, "GET /users") {
        Route::ListUsers
    } else if str_starts_with(request, "PUT /users/") {
        Route::EditUser
    } else if str_starts_with(request, "DELETE /users/") {
        Route::DeleteUser
    } else if str_starts_with(request, "POST /login") {
        Route::Login
    } else {
        Route::NotFound
    }
}

/// The bytes written back to the socket: status line, then body, verbatim.
pub fn response_bytes(status_line: &str, content: &str) -> (r: String)
    ensures
        r@ == status_line@ + content@,
{
    let mut r = status_line.to_owned();
    r.append(content);
    r
}

} // verus!
