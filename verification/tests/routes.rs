use dispatch_core::conn::{after_auth, after_tier, fixed_response, plan_request, HandlerKind, ResponseKind, Step, Tier};
use dispatch_core::handlers::{
    create_begin, create_on_committed, create_on_email_checked, create_on_inserted,
    create_on_tx_begun, delete_on_deleted, delete_on_exists, edit_begin, edit_on_exists,
    edit_on_updated, fetched_user_response, get_on_fetched, id_begin, list_response, login_begin,
    login_on_password, login_on_token, CreateStep, EditStep, LoginStep,
};
use dispatch_core::http::{response_bytes, route_of, str_starts_with, Route};
use dispatch_core::http;
use dispatch_core::model::{LoginUserInput, User, UserCreateInput, UserUpdateInput};
use dispatch_core::parse::{bearer_token_of, body_of, get_id, parse_i32, trim_end_spaces};
use dispatch_core::validate::{is_valid_email, validate_create_local, validate_update};

#[test]
fn routes_resolve_in_table_order() {
    assert_eq!(route_of("OPTIONS * HTTP/1.0"), Route::CorsPreflight);
    assert_eq!(route_of("POST /users HTTP/1.0"), Route::CreateUser);
    assert_eq!(route_of("GET /ping HTTP/1.0"), Route::Ping);
    assert_eq!(route_of("GET /users/5 HTTP/1.0"), Route::GetUser);
    assert_eq!(route_of("GET /users HTTP/1.0"), Route::ListUsers);
    assert_eq!(route_of("PUT /users/5 HTTP/1.0"), Route::EditUser);
    assert_eq!(route_of("DELETE /users/5 HTTP/1.0"), Route::DeleteUser);
    assert_eq!(route_of("POST /login HTTP/1.0"), Route::Login);
    assert_eq!(route_of("PATCH /users/5 HTTP/1.0"), Route::NotFound);
    assert_eq!(route_of(""), Route::NotFound);
}

#[test]
fn plan_matches_route_policy() {
    assert_eq!(plan_request("OPTIONS *"), Step::Respond(ResponseKind::CorsPreflight));
    assert_eq!(plan_request("POST /users"), Step::Authenticate);
    assert_eq!(plan_request("GET /ping"), Step::Respond(ResponseKind::Pong));
    assert_eq!(plan_request("GET /users/9"), Step::RunHandler(HandlerKind::GetUser));
    assert_eq!(plan_request("GET /users"), Step::RunHandler(HandlerKind::ListUsers));
    assert_eq!(plan_request("PUT /users/9"), Step::CheckTier(Tier::Common, HandlerKind::EditUser));
    assert_eq!(
        plan_request("DELETE /users/9"),
        Step::CheckTier(Tier::Common, HandlerKind::DeleteUser)
    );
    assert_eq!(plan_request("POST /login"), Step::CheckTier(Tier::Hard, HandlerKind::Login));
    assert_eq!(plan_request("HEAD /"), Step::Respond(ResponseKind::NoRoute));
}

#[test]
fn auth_gate_only_for_create() {
    assert_eq!(after_auth(true), Step::CheckTier(Tier::Hard, HandlerKind::CreateUser));
    assert_eq!(after_auth(false), Step::Respond(ResponseKind::Unauthorized));
    let (st, body) = fixed_response(ResponseKind::Unauthorized);
    assert_eq!(st, http::UNAUTHORIZED);
    assert_eq!(body, "Unauthorized");
}

#[test]
fn denied_create_gets_too_many_requests() {
    let step = after_tier(HandlerKind::CreateUser, false);
    let (st, body) = match step {
        Step::Respond(kind) => {
            assert_eq!(kind, ResponseKind::TooManyRequests);
            fixed_response(kind)
        }
        _ => panic!("denied admission is terminal"),
    };
    assert_eq!(st, http::TOO_MANY_REQUEST);
    assert_eq!(body, "Too Many Requests");
}

#[test]
fn admitted_tier_runs_the_handler() {
    assert_eq!(after_tier(HandlerKind::Login, true), Step::RunHandler(HandlerKind::Login));
}

#[test]
fn response_bytes_concatenates() {
    assert_eq!(response_bytes(http::NOT_FOUND, "404 not found"),
        "HTTP/1.1 404 NOT FOUND\r\n\r\n404 not found");
}

#[test]
fn starts_with_is_exact() {
    assert!(str_starts_with("GET /ping", "GET /"));
    assert!(!str_starts_with("GET", "GET /"));
    assert!(str_starts_with("abc", ""));
    assert!(!str_starts_with("POST /login", "PUT"));
}

#[test]
fn get_id_takes_third_slash_piece_first_word() {
    assert_eq!(get_id("GET /users/5 HTTP/1.1"), "5");
    assert_eq!(get_id("DELETE /users/42 HTTP/1.0"), "42");
    assert_eq!(get_id("PUT /users/17"), "17");
    assert_eq!(get_id("GET /users"), "");
    assert_eq!(get_id("GET /"), "");
    assert_eq!(get_id(""), "");
    // With an empty id segment, the next word of the request line leaks in,
    // exactly as splitting on '/' makes it.
    assert_eq!(get_id("GET /users/ HTTP/1.1"), "HTTP");
}

#[test]
fn parse_i32_matches_std() {
    assert_eq!(parse_i32("5"), Some(5));
    assert_eq!(parse_i32("-17"), Some(-17));
    assert_eq!(parse_i32("+7"), Some(7));
    assert_eq!(parse_i32("0005"), Some(5));
    assert_eq!(parse_i32("2147483647"), Some(i32::MAX));
    assert_eq!(parse_i32("2147483648"), None);
    assert_eq!(parse_i32("-2147483648"), Some(i32::MIN));
    assert_eq!(parse_i32("-2147483649"), None);
    assert_eq!(parse_i32(""), None);
    assert_eq!(parse_i32("-"), None);
    assert_eq!(parse_i32("12a"), None);
    assert_eq!(parse_i32(" 5"), None);
    assert_eq!(parse_i32("99999999999999999999"), None);
}

#[test]
fn body_is_after_last_blank_line() {
    assert_eq!(
        body_of("POST /login HTTP/1.0\r\nContent-Type: application/json\r\n\r\n{\"a\":1}"),
        "{\"a\":1}"
    );
    assert_eq!(body_of("no separator here"), "no separator here");
    assert_eq!(body_of("x\r\n\r\n"), "");
}

#[test]
fn bearer_token_extraction() {
    assert_eq!(
        bearer_token_of("POST /users HTTP/1.0\r\nAuthorization: Bearer abc.def.ghi\r\n\r\n{}"),
        Some("abc.def.ghi")
    );
    assert_eq!(bearer_token_of("POST /users HTTP/1.0\r\n\r\n{}"), None);
    assert_eq!(bearer_token_of("POST /users\r\nAuthorization: Bearer \r\n\r\n"), None);
    assert_eq!(
        bearer_token_of("X: y\r\nAuthorization: Bearer  tok extra\r\n\r\n"),
        Some("tok")
    );
}

#[test]
fn trim_end_removes_trailing_whitespace() {
    assert_eq!(trim_end_spaces("abc \n"), "abc");
    assert_eq!(trim_end_spaces("abc"), "abc");
    assert_eq!(trim_end_spaces("  "), "");
}

#[test]
fn email_shape() {
    assert!(is_valid_email("a@b.com"));
    assert!(is_valid_email("first.last@sub.example.org"));
    assert!(!is_valid_email("ab.com"));
    assert!(!is_valid_email("a@b@c.com"));
    assert!(!is_valid_email("@b.com"));
    assert!(!is_valid_email("a@bcom"));
    assert!(!is_valid_email("a@.com"));
    assert!(!is_valid_email("a@b."));
    assert!(!is_valid_email(""));
}

fn create_input(name: &str, email: &str, pw: &str, confirm: &str) -> UserCreateInput {
    UserCreateInput {
        name: name.to_string(),
        email: email.to_string(),
        password: pw.to_string(),
        confirm_password: confirm.to_string(),
    }
}

#[test]
fn create_validation_rules_in_order() {
    let ok = create_input("Ann", "a@b.com", "Secret123!x", "Secret123!x");
    assert!(validate_create_local(&ok).is_ok());

    let r = validate_create_local(&create_input("", "a@b.com", "x", "x"));
    assert_eq!(r.unwrap_err(), "Missing name or email or password");

    let r = validate_create_local(&create_input("Ann", "nope", "Secret123!x", "Secret123!x"));
    assert_eq!(r.unwrap_err(), "Invalid email format");

    let r = validate_create_local(&create_input("Ann", "a@b.com", "Secret123!x", "other"));
    assert_eq!(r.unwrap_err(), "Passwords do not match");

    let r = validate_create_local(&create_input("Ann", "a@b.com", "Sh0rt!", "Sh0rt!"));
    assert_eq!(r.unwrap_err(), "Password must be at least 8 characters long");

    let r = validate_create_local(&create_input("Ann", "a@b.com", "alllowercase1!", "alllowercase1!"));
    assert_eq!(
        r.unwrap_err(),
        "Password must contain uppercase, lowercase, digit, and special character"
    );

    let r = validate_create_local(&create_input("A", "a@b.com", "Secret123!x", "Secret123!x"));
    assert_eq!(r.unwrap_err(), "Name must be at least 2 characters long");
}

#[test]
fn update_validation_rules() {
    let u = UserUpdateInput { id: 5, name: "Ann".to_string() };
    assert!(validate_update(5, &u).is_ok());
    assert_eq!(
        validate_update(6, &u).unwrap_err(),
        "User id in path does not match user id in body"
    );
    let empty = UserUpdateInput { id: 5, name: "".to_string() };
    assert_eq!(validate_update(5, &empty).unwrap_err(), "Missing name");
    let short = UserUpdateInput { id: 5, name: "A".to_string() };
    assert_eq!(
        validate_update(5, &short).unwrap_err(),
        "Name must be at least 2 characters long"
    );
}

#[test]
fn login_with_unknown_email_is_bad_request() {
    // POST /login with {"email":"a@b.com","password":"x"} against a store
    // with no matching hash: a bad-request-class reply, not a server error.
    let raw = "POST /login HTTP/1.0\r\nContent-Type: application/json\r\n\r\n{\"email\":\"a@b.com\",\"password\":\"x\"}";
    assert_eq!(plan_request(raw), Step::CheckTier(Tier::Hard, HandlerKind::Login));
    let step = after_tier(HandlerKind::Login, true);
    assert_eq!(step, Step::RunHandler(HandlerKind::Login));

    let body = body_of(raw);
    let v: serde_json::Value = serde_json::from_str(body).expect("test body parses");
    let input = LoginUserInput {
        email: v["email"].as_str().unwrap().to_string(),
        password: v["password"].as_str().unwrap().to_string(),
    };
    assert_eq!(input.email, "a@b.com");

    let input2 = LoginUserInput { email: input.email.clone(), password: input.password.clone() };
    match login_begin(&Ok(input2)) {
        LoginStep::FetchPassword => {}
        _ => panic!("non-empty credentials reach the store"),
    }
    // The store has nothing for a@b.com.
    let step = login_on_password(&input, &None);
    match step {
        LoginStep::Respond(st, b) => {
            assert_eq!(st, http::BAD_REQUEST);
            assert!(st.starts_with("HTTP/1.1 400"));
            assert_eq!(b, "Invalid email or password");
        }
        _ => panic!("missing hash must be refused"),
    }
}

#[test]
fn login_with_unparsable_stored_hash_is_bad_request() {
    let input = LoginUserInput { email: "a@b.com".to_string(), password: "x".to_string() };
    let step = login_on_password(&input, &Some("not-a-bcrypt-hash".to_string()));
    match step {
        LoginStep::Respond(st, b) => {
            assert_eq!(st, http::BAD_REQUEST);
            assert_eq!(b, "Invalid email or password");
        }
        _ => panic!("unparsable hash must be refused"),
    }
}

#[test]
fn login_with_real_hash_issues_token() {
    let hash = bcrypt::hash("x", 4).expect("test hash");
    let input = LoginUserInput { email: "a@b.com".to_string(), password: "x".to_string() };
    // Trailing whitespace from the store is cleaned before verification.
    let stored = format!("{}\n", hash);
    match login_on_password(&input, &Some(stored)) {
        LoginStep::IssueToken => {}
        _ => panic!("a matching password proceeds to the token"),
    }
}

#[test]
fn login_with_wrong_password_is_bad_request() {
    // The stored hash parses but does not verify the presented password:
    // refused, never a token.
    let hash = bcrypt::hash("the-real-password", 4).expect("test hash");
    let input = LoginUserInput { email: "a@b.com".to_string(), password: "x".to_string() };
    match login_on_password(&input, &Some(hash)) {
        LoginStep::Respond(st, b) => {
            assert_eq!(st, http::BAD_REQUEST);
            assert_eq!(b, "Invalid email or password");
        }
        _ => panic!("a non-matching password must be refused"),
    }
}

#[test]
fn login_failures_are_indistinguishable() {
    // An absent email and a present email with the wrong password answer
    // with the identical pair: the reply does not reveal which it was.
    let input = LoginUserInput { email: "a@b.com".to_string(), password: "x".to_string() };
    let absent = match login_on_password(&input, &None) {
        LoginStep::Respond(st, b) => (st, b),
        _ => panic!("absent email is refused"),
    };
    let hash = bcrypt::hash("other", 4).expect("test hash");
    let wrong = match login_on_password(&input, &Some(hash)) {
        LoginStep::Respond(st, b) => (st, b),
        _ => panic!("wrong password is refused"),
    };
    assert_eq!(absent, wrong);
}

#[test]
fn login_empty_credentials_refused_without_store() {
    let input = LoginUserInput { email: "".to_string(), password: "x".to_string() };
    match login_begin(&Ok(input)) {
        LoginStep::Respond(st, b) => {
            assert_eq!(st, http::BAD_REQUEST);
            assert_eq!(b, "Invalid email or password");
        }
        _ => panic!("empty email is refused at once"),
    }
    match login_begin(&Err("Failed to parse request body: oops".to_string())) {
        LoginStep::Respond(st, b) => {
            assert_eq!(st, http::BAD_REQUEST);
            assert_eq!(b, "Failed to parse request body: oops");
        }
        _ => panic!("parse failure is refused at once"),
    }
}

#[test]
fn login_token_responses() {
    let (st, b) = login_on_token(&Ok("abc.def".to_string()));
    assert_eq!(st, http::OK_RESPONSE);
    assert_eq!(b, "{\"token\":\"abc.def\"}");
    let (st, b) = login_on_token(&Err("no key".to_string()));
    assert_eq!(st, http::INTERNAL_ERROR);
    assert_eq!(b, "no key");
}

#[test]
fn create_flow_happy_path_hashes_password() {
    let input = create_input("Ann", "a@b.com", "Secret123!x", "Secret123!x");
    match create_begin(&Ok(create_input("Ann", "a@b.com", "Secret123!x", "Secret123!x"))) {
        CreateStep::CheckEmail => {}
        _ => panic!("valid input asks the store about the email"),
    }
    let user = match create_on_email_checked(&input, &Ok(false)) {
        CreateStep::Insert(u) => u,
        _ => panic!("free email proceeds to the insert"),
    };
    assert_eq!(user.id, 0);
    assert_eq!(user.name, "Ann");
    assert_eq!(user.email, "a@b.com");
    // The record carries a real bcrypt hash of the password, not the
    // password itself.
    assert_ne!(user.password, "Secret123!x");
    assert!(bcrypt::verify("Secret123!x", &user.password).expect("hash parses"));

    assert_eq!(create_on_tx_begun(true), None);
    let inserted = User { id: 31, name: user.name, email: user.email, password: "".to_string() };
    assert_eq!(create_on_inserted(&Ok(inserted)), None);
    match create_on_committed(true, 31) {
        CreateStep::Refetch(id) => assert_eq!(id, 31),
        _ => panic!("a committed insert is re-read"),
    }
    let (st, b) = fetched_user_response(&Some(Ok("{\"id\":31}".to_string())));
    assert_eq!(st, http::OK_RESPONSE);
    assert_eq!(b, "{\"id\":31}");
}

#[test]
fn create_flow_error_responses() {
    match create_begin(&Err("Failed to parse request body: bad".to_string())) {
        CreateStep::Respond(st, b) => {
            assert_eq!(st, http::BAD_REQUEST);
            assert_eq!(b, "Failed to parse request body: bad");
        }
        _ => panic!("parse failure is terminal"),
    }
    let input = create_input("Ann", "a@b.com", "Secret123!x", "Secret123!x");
    match create_on_email_checked(&input, &Ok(true)) {
        CreateStep::Respond(st, b) => {
            assert_eq!(st, http::BAD_REQUEST);
            assert_eq!(b, "Email already exists");
        }
        _ => panic!("taken email is refused"),
    }
    match create_on_email_checked(&input, &Err(())) {
        CreateStep::Respond(st, b) => {
            assert_eq!(st, http::BAD_REQUEST);
            assert_eq!(b, "Internal error");
        }
        _ => panic!("failed lookup is refused"),
    }
    assert_eq!(
        create_on_tx_begun(false),
        Some((http::INTERNAL_ERROR.to_string(), "Failed to start transaction".to_string()))
    );
    assert_eq!(
        create_on_inserted(&Err(())),
        Some((http::INTERNAL_ERROR.to_string(), "Failed to create new user".to_string()))
    );
    match create_on_committed(false, 31) {
        CreateStep::Respond(st, b) => {
            assert_eq!(st, http::INTERNAL_ERROR);
            assert_eq!(b, "Failed to commit transaction");
        }
        _ => panic!("failed commit is terminal"),
    }
}

#[test]
fn edit_flow_decisions() {
    let parsed = Ok(UserUpdateInput { id: 5, name: "Bob".to_string() });
    match edit_begin("PUT /users/5 HTTP/1.0\r\n\r\n{}", &parsed) {
        EditStep::Update(u) => {
            assert_eq!(u.id, 5);
            assert_eq!(u.name, "Bob");
        }
        _ => panic!("matching ids proceed"),
    }
    match edit_begin("PUT /users/6 HTTP/1.0\r\n\r\n{}", &parsed) {
        EditStep::Respond(st, b) => {
            assert_eq!(st, http::BAD_REQUEST);
            assert_eq!(b, "User id in path does not match user id in body");
        }
        _ => panic!("id mismatch is refused"),
    }
    match edit_begin("PUT /users/x HTTP/1.0\r\n\r\n{}", &parsed) {
        EditStep::Respond(st, b) => {
            assert_eq!(st, http::INTERNAL_ERROR);
            assert_eq!(b, "Internal error");
        }
        _ => panic!("unparsable id is terminal"),
    }
    let bad_body: Result<UserUpdateInput, String> =
        Err("Failed to parse request body: bad".to_string());
    match edit_begin("PUT /users/5 HTTP/1.0\r\n\r\nnot json", &bad_body) {
        EditStep::Respond(st, b) => {
            assert_eq!(st, http::BAD_REQUEST);
            assert_eq!(b, "Failed to parse request body: bad");
        }
        _ => panic!("malformed body is terminal"),
    }
    assert_eq!(edit_on_exists(true), None);
    assert_eq!(
        edit_on_exists(false),
        Some((http::NOT_FOUND.to_string(), "User not found".to_string()))
    );
    assert_eq!(edit_on_updated(true), None);
    assert_eq!(
        edit_on_updated(false),
        Some((http::INTERNAL_ERROR.to_string(), "Failed to update user".to_string()))
    );
}

#[test]
fn delete_and_get_flow_decisions() {
    assert_eq!(id_begin("DELETE /users/9 HTTP/1.0"), Ok(9));
    assert_eq!(
        id_begin("DELETE /users/x HTTP/1.0"),
        Err((http::INTERNAL_ERROR.to_string(), "Internal error".to_string()))
    );
    assert_eq!(delete_on_exists(true), None);
    assert_eq!(
        delete_on_exists(false),
        Some((http::NOT_FOUND.to_string(), "User not found".to_string()))
    );
    assert_eq!(delete_on_deleted(true), (http::NO_CONTENT.to_string(), "".to_string()));
    assert_eq!(
        delete_on_deleted(false),
        (http::INTERNAL_ERROR.to_string(), "Failed to delete user".to_string())
    );
    assert_eq!(get_on_fetched(true), None);
    assert_eq!(
        get_on_fetched(false),
        Some((http::NOT_FOUND.to_string(), "User not found".to_string()))
    );
    let (st, b) = list_response(&None);
    assert_eq!(st, http::INTERNAL_ERROR);
    assert_eq!(b, "Internal error");
    let (st, b) = list_response(&Some(Ok("[]".to_string())));
    assert_eq!(st, http::OK_RESPONSE);
    assert_eq!(b, "[]");
}

#[test]
fn model_transforms() {
    let u = User {
        id: 3,
        name: "Ann".to_string(),
        email: "a@b.com".to_string(),
        password: "secret".to_string(),
    };
    let r = u.tranform_to_user_response();
    assert_eq!(r.id, 3);
    assert_eq!(r.name, "Ann");
    assert_eq!(r.email, "a@b.com");

    let c = create_input("Ann", "a@b.com", "pw", "pw");
    let u = c.tranform_to_user("HASH".to_string());
    assert_eq!(u.id, 0);
    assert_eq!(u.password, "HASH");

    let up = UserUpdateInput { id: 7, name: "Bob".to_string() };
    let u = up.tranform_to_user();
    assert_eq!(u.id, 7);
    assert_eq!(u.name, "Bob");
    assert_eq!(u.email, "");
    assert_eq!(u.password, "");

    let users = vec![
        User { id: 1, name: "A".into(), email: "a@x.co".into(), password: "p".into() },
        User { id: 2, name: "B".into(), email: "b@x.co".into(), password: "q".into() },
    ];
    let rs = dispatch_core::model::tranform_users_to_user_responses(users);
    assert_eq!(rs.len(), 2);
    assert_eq!(rs[0].id, 1);
    assert_eq!(rs[1].email, "b@x.co");
}
