//! Decisions of the per-connection task, as a pure machine. The task reads
//! the raw request, then alternates outside work (authentication, a rate
//! check, the route handler with its database connection) with these
//! decisions; each function here maps what came back to the next step. The
//! machine itself never blocks, never does I/O, and always ends in exactly
//! one response.

use crate::http;
use crate::http::Route;
use vstd::prelude::*;

verus! {

/// The two route-level rate tiers. The global tier is not here: it gates
/// every connection before routing and retries instead of denying.
#[derive(Clone, Copy, Debug, PartialEq, Eq, Structural)]
pub enum Tier {
    Common,
    Hard,
}

/// The external route handlers the dispatcher can invoke, one per route that
/// needs the database.
#[derive(Clone, Copy, Debug, PartialEq, Eq, Structural)]
pub enum HandlerKind {
    CreateUser,
    GetUser,
    ListUsers,
    EditUser,
    DeleteUser,
    Login,
}

/// A response the machine can produce without invoking any handler.
#[derive(Clone, Copy, Debug, PartialEq, Eq, Structural)]
pub enum ResponseKind {
    /// Fixed allow-all reply to any `OPTIONS` request.
    CorsPreflight,
    /// `GET /ping`.
    Pong,
    /// No route matched.
    NoRoute,
    /// Bearer-token validation failed on `POST /users`.
    Unauthorized,
    /// A rate tier denied admission: the terminal too-many-requests reply,
    /// the same on every tier-guarded route.
    TooManyRequests,
}

/// What the connection task must do next.
#[derive(Clone, Copy, Debug, PartialEq, Eq, Structural)]
pub enum Step {
    /// Write this fixed response and close.
    Respond(ResponseKind),
    /// Validate the bearer token, then report back with `after_auth`.
    Authenticate,
    /// Ask the named tier for admission, then report back with `after_tier`.
    CheckTier(Tier, HandlerKind),
    /// Acquire a database connection and invoke this handler; its
    /// `(status_line, body)` pair is written back verbatim.
    RunHandler(HandlerKind),
}

/// First decision, from the raw request text alone.
pub open spec fn spec_plan(r: Seq<char>) -> Step {
    match http::spec_route_of(r) {
        Route::CorsPreflight => Step::Respond(ResponseKind::CorsPreflight),
        Route::CreateUser => Step::Authenticate,
        Route::Ping => Step::Respond(ResponseKind::Pong),
        Route::GetUser => Step::RunHandler(HandlerKind::GetUser),
        Route::ListUsers => Step::RunHandler(HandlerKind::ListUsers),
        Route::EditUser => Step::CheckTier(Tier::Common, HandlerKind::EditUser),
        Route::DeleteUser => Step::CheckTier(Tier::Common, HandlerKind::DeleteUser),
        Route::Login => Step::CheckTier(Tier::Hard, HandlerKind::Login),
        Route::NotFound => Step::Respond(ResponseKind::NoRoute),
    }
}

/// Route the raw request: only `POST /users` demands authentication, edits
/// and deletes go through the common tier, creation and login through the
/// hard tier, and an unmatched request is answered not-found on the spot.
pub fn plan_request(request: &str) -> (s: Step)
    ensures
        s == spec_plan(request@),
{
    match http::route_of(request) {
        Route::CorsPreflight => Step::Respond(ResponseKind::CorsPreflight),
        Route::CreateUser => Step::Authenticate,
        Route::Ping => Step::Respond(ResponseKind::Pong),
        Route::GetUser => Step::RunHandler(HandlerKind::GetUser),
        Route::ListUsers => Step::RunHandler(HandlerKind::ListUsers),
        Route::EditUser => Step::CheckTier(Tier::Common, HandlerKind::EditUser),
        Route::DeleteUser => Step::CheckTier(Tier::Common, HandlerKind::DeleteUser),
        Route::Login => Step::CheckTier(Tier::Hard, HandlerKind::Login),
        Route::NotFound => Step::Respond(ResponseKind::NoRoute),
    }
}

/// After bearer-token validation on `POST /users`: an authenticated caller
/// still has to pass the hard tier; anyone else is turned away at once.
pub fn after_auth(authenticated: bool) -> (s: Step)
    ensures
        authenticated ==> s == Step::CheckTier(Tier::Hard, HandlerKind::CreateUser),
        !authenticated ==> s == Step::Respond(ResponseKind::Unauthorized),
{
    if authenticated {
        Step::CheckTier(Tier::Hard, HandlerKind::CreateUser)
    } else {
        Step::Respond(ResponseKind::Unauthorized)
    }
}

/// After a tier admission check: admission runs the handler; denial is
/// terminal for this connection only, with the reply the route owes.
pub fn after_tier(handler: HandlerKind, admitted: bool) -> (s: Step)
    ensures
        admitted ==> s == Step::RunHandler(handler),
        !admitted ==> s == Step::Respond(ResponseKind::TooManyRequests),
{
    if admitted {
        Step::RunHandler(handler)
    } else {
        Step::Respond(ResponseKind::TooManyRequests)
    }
}

/// The exact bytes of each fixed response.
pub fn fixed_response(kind: ResponseKind) -> (r: (String, String))
    ensures
        kind == ResponseKind::CorsPreflight ==> r.0@ == http::CORS_ALLOW_ALL@ && r.1@ == ""@,
        kind == ResponseKind::Pong ==> r.0@ == http::OK_RESPONSE@ && r.1@
            == "{\"message\": \"pong\"}"@,
        kind == ResponseKind::NoRoute ==> r.0@ == http::NOT_FOUND@ && r.1@ == "404 not found"@,
        kind == ResponseKind::Unauthorized ==> r.0@ == http::UNAUTHORIZED@ && r.1@
            == "Unauthorized"@,
        kind == ResponseKind::TooManyRequests ==> r.0@ == http::TOO_MANY_REQUEST@ && r.1@
            == "Too Many Requests"@,
{
    match kind {
        ResponseKind::CorsPreflight => (http::CORS_ALLOW_ALL.to_owned(), "".to_owned()),
        ResponseKind::Pong => (http::OK_RESPONSE.to_owned(), "{\"message\": \"pong\"}".to_owned()),
        ResponseKind::NoRoute => (http::NOT_FOUND.to_owned(), "404 not found".to_owned()),
        ResponseKind::Unauthorized => (http::UNAUTHORIZED.to_owned(), "Unauthorized".to_owned()),
        ResponseKind::TooManyRequests => (
            http::TOO_MANY_REQUEST.to_owned(),
            "Too Many Requests".to_owned(),
        ),
    }
}

} // verus!
