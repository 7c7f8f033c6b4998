use todo_auth::account::{get_user, insert_new_user, AccountStore};
use todo_auth::claims::{decode_token_at, Claims, SECONDS_PER_DAY};
use todo_auth::config::AuthConfig;
use todo_auth::dtos::{LoginDTO, SignupRequestDTO};
use todo_auth::errors::{AuthError, TodoApiError};
use todo_auth::interceptor::{Authenticated, BasicAuth, Gate, RequestContext};

const JWT_KEY: &[u8] = b"secure jwt secret";
const NOW: u64 = 1_700_000_000;

fn config() -> AuthConfig {
    AuthConfig::new("0123".repeat(8).into_bytes(), JWT_KEY.to_vec())
}

fn middleware() -> todo_auth::interceptor::AuthMiddleware {
    BasicAuth.new_transform(JWT_KEY.to_vec())
}

#[test]
fn missing_header_is_rejected_before_the_handler() {
    let mw = middleware();
    let mut handler_invoked = false;
    match mw.call(None, NOW) {
        Gate::Forward(_) => {
            handler_invoked = true;
        }
        Gate::ShortCircuit(resp) => {
            assert_eq!(resp.status, 401);
            assert_eq!(resp.body, "{\"error\":\"Authentication Error :No Authorization Header\"}");
        }
    }
    assert!(!handler_invoked);
}

#[test]
fn non_utf8_header_is_rejected_as_invalid_header() {
    let mw = middleware();
    let bad = vec![0x42u8, 0xff, 0xfe];
    match mw.call(Some(&bad), NOW) {
        Gate::Forward(_) => panic!("handler reached with a malformed header"),
        Gate::ShortCircuit(resp) => {
            assert_eq!(resp.status, 401);
            assert_eq!(
                resp.body,
                "{\"error\":\"Authentication Error :Authorization header is not in valid format\"}"
            );
        }
    }
}

#[test]
fn garbage_token_is_rejected_as_invalid_token() {
    let mw = middleware();
    let header = b"Bearer not-a-token".to_vec();
    match mw.call(Some(&header), NOW) {
        Gate::Forward(_) => panic!("handler reached with a bad token"),
        Gate::ShortCircuit(resp) => {
            assert_eq!(resp.status, 401);
            assert_eq!(resp.body, "{\"error\":\"Authentication Error :Invalid JWT Token\"}");
        }
    }
}

#[test]
fn expired_token_is_rejected_as_expired() {
    let cfg = config();
    let mut store = AccountStore::new();
    let signup = SignupRequestDTO {
        email: String::from("expired@b.com"),
        password: String::from("secret123"),
        name: String::from("E"),
    };
    let resp = insert_new_user(&mut store, signup, &cfg, NOW).unwrap();
    let mw = middleware();
    let header = format!("Bearer {}", resp.token).into_bytes();
    match mw.call(Some(&header), NOW + SECONDS_PER_DAY + 1) {
        Gate::Forward(_) => panic!("handler reached with an expired token"),
        Gate::ShortCircuit(resp) => {
            assert_eq!(resp.status, 401);
            assert_eq!(resp.body, "{\"error\":\"Authentication Error :Token Expired\"}");
        }
    }
}

#[test]
fn extractor_fails_without_interceptor() {
    let ctx = RequestContext::new();
    let r = Authenticated::from_request(&ctx);
    assert_eq!(r.unwrap_err(), TodoApiError::AuthError(AuthError::InvalidToken));
}

#[test]
fn signup_login_and_replay_end_to_end() {
    let cfg = config();
    let mut store = AccountStore::new();

    // Sign up and check the issued token binds the email.
    let signup = SignupRequestDTO {
        email: String::from("a@b.com"),
        password: String::from("secret123"),
        name: String::from("A"),
    };
    let resp = insert_new_user(&mut store, signup, &cfg, NOW).unwrap();
    assert_eq!(resp.email, "a@b.com");
    let claims: Claims = decode_token_at(&resp.token, NOW, JWT_KEY).unwrap();
    assert_eq!(claims.email, "a@b.com");
    assert_eq!(claims.id, resp.id);
    assert_eq!(claims.exp, NOW + SECONDS_PER_DAY);

    // Logging in with the stored credential issues a token for the same id.
    let login = LoginDTO { email: String::from("a@b.com"), password: String::from("secret123") };
    let login_resp = get_user(&store, login, &cfg, NOW).unwrap();
    assert_eq!(login_resp.id, resp.id);
    assert_eq!(login_resp.email, "a@b.com");

    // A wrong credential is unauthorized, not a missing account.
    let bad = LoginDTO { email: String::from("a@b.com"), password: String::from("nope") };
    assert_eq!(
        get_user(&store, bad, &cfg, NOW).unwrap_err(),
        TodoApiError::AuthError(AuthError::Unauthorized)
    );

    // An unknown email is a missing account, mapped to the not-found kind.
    let unknown = LoginDTO { email: String::from("x@b.com"), password: String::from("secret123") };
    let missing = get_user(&store, unknown, &cfg, NOW).unwrap_err();
    assert_eq!(missing, TodoApiError::NotFound(String::from("User")));
    assert_eq!(missing.status_code(), 404);

    // Replaying the token on a protected call attaches the same identity.
    let mw = middleware();
    let header = format!("Bearer {}", resp.token).into_bytes();
    match mw.call(Some(&header), NOW) {
        Gate::Forward(ctx) => {
            let user = ctx.user.clone().unwrap();
            assert_eq!(user.id, resp.id);
            assert_eq!(user.email, "a@b.com");
            let auth = Authenticated::from_request(&ctx).unwrap();
            assert_eq!(auth.user().id, resp.id);
        }
        Gate::ShortCircuit(resp) => panic!("rejected a fresh token: {:?}", resp),
    }

    // A second signup with the same email fails with a uniqueness violation.
    let again = SignupRequestDTO {
        email: String::from("a@b.com"),
        password: String::from("othersecret"),
        name: String::from("A2"),
    };
    assert_eq!(
        insert_new_user(&mut store, again, &cfg, NOW).unwrap_err(),
        TodoApiError::BadRequest(String::from("User Already Exists"))
    );
    assert_eq!(store.users.len(), 1);
}

#[test]
fn corrupted_stored_hash_is_an_internal_failure() {
    let cfg = config();
    let mut store = AccountStore::new();
    store.users.push(todo_auth::models::User::from_details(
        String::from("C"),
        String::from("c@b.com"),
        String::from("not an encoded hash"),
    ));
    let login = LoginDTO { email: String::from("c@b.com"), password: String::from("whatever") };
    assert_eq!(get_user(&store, login, &cfg, NOW).unwrap_err(), TodoApiError::InternalServerError);
}
