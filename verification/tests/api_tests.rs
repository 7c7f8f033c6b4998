use todo_auth::errors::{
    store_failure_to_api, AuthError, StoreFailure, TodoApiError, TodoError,
};
use todo_auth::models::{format_uuid, parse_uuid, Todo};
use todo_auth::ui::{partition_todos, ActiveBlock, App, InputMode, Route, RouteId, StatefulList};
use todo_auth::utils::{handle_response, make_api_url};

#[test]
fn test_make_api_url() {
    let resource = "auth/login";

    let api_url = make_api_url("localhost:5900", resource);

    assert_eq!(api_url, String::from("http://localhost:5900/api/auth/login"));
}

#[test]
fn status_codes_follow_the_error_kind() {
    assert_eq!(TodoApiError::InternalServerError.status_code(), 500);
    assert_eq!(TodoApiError::DatabaseConnectionError.status_code(), 500);
    assert_eq!(TodoApiError::BadRequest(String::from("x")).status_code(), 400);
    assert_eq!(TodoApiError::NotFound(String::from("Todo")).status_code(), 404);
    assert_eq!(TodoApiError::AuthError(AuthError::InvalidToken).status_code(), 401);
    assert_eq!(TodoApiError::AuthError(AuthError::TokenExpired).status_code(), 401);
    assert_eq!(TodoApiError::AuthError(AuthError::NoAuthorizationHeader).status_code(), 401);
    assert_eq!(TodoApiError::AuthError(AuthError::SigningFailure).status_code(), 500);
}

#[test]
fn error_messages_and_bodies() {
    let e = TodoApiError::NotFound(String::from("Todo"));
    assert_eq!(e.message(), "Todo Not Found");
    let resp = e.to_response();
    assert_eq!(resp.status, 404);
    assert_eq!(resp.body, "{\"error\":\"Todo Not Found\"}");

    let e = TodoApiError::BadRequest(String::from("User Already Exists"));
    assert_eq!(e.message(), "BadRequest: User Already Exists");

    let e = TodoApiError::AuthError(AuthError::Unauthorized);
    assert_eq!(e.message(), "Authentication Error :Unauthorized");

    assert_eq!(TodoApiError::InternalServerError.message(), "Internal Server Error");

    let e = TodoError::ApiError(TodoApiError::InternalServerError);
    assert_eq!(e.message(), "Internal Server Error");
    assert_eq!(TodoError::HttpErrror(String::from("boom")).message(), "boom");
    assert_eq!(TodoError::OperationError.message(), "Some error is the");
}

#[test]
fn store_failures_fold_into_the_taxonomy() {
    assert_eq!(
        store_failure_to_api(StoreFailure::UniqueViolation(String::from("duplicate email"))),
        TodoApiError::BadRequest(String::from("duplicate email"))
    );
    assert_eq!(store_failure_to_api(StoreFailure::Other), TodoApiError::InternalServerError);
}

#[test]
fn uuid_text_round_trip() {
    let u: u128 = 0x0123_4567_89ab_cdef_0123_4567_89ab_cdef;
    let s = format_uuid(u);
    assert_eq!(parse_uuid(&s), Some(u));
    assert_eq!(s, "01234567-89ab-cdef-0123-456789abcdef");
    assert_eq!(parse_uuid("not-a-uuid"), None);
}

#[test]
fn handle_response_classifies_statuses() {
    assert_eq!(handle_response(200, String::from("payload")), Ok(String::from("payload")));
    assert!(matches!(handle_response(401, String::new()), Err(TodoError::HttpErrror(_))));
    assert!(matches!(handle_response(403, String::new()), Err(TodoError::HttpErrror(_))));
    assert_eq!(
        handle_response(404, String::new()),
        Err(TodoError::HttpErrror(String::from("Resource Not Found")))
    );
    assert!(matches!(handle_response(500, String::new()), Err(TodoError::HttpErrror(_))));
}

#[test]
fn stateful_list_wraps_in_both_directions() {
    let mut list: StatefulList<u32> = StatefulList::with_items(vec![10, 20, 30]);
    assert_eq!(list.selected, None);
    list.next();
    assert_eq!(list.selected, Some(0));
    list.next();
    list.next();
    assert_eq!(list.selected, Some(2));
    list.next();
    assert_eq!(list.selected, Some(0));
    list.previous();
    assert_eq!(list.selected, Some(2));
    list.previous();
    assert_eq!(list.selected, Some(1));
    list.unselect();
    assert_eq!(list.selected, None);
    list.previous();
    assert_eq!(list.selected, Some(0));
}

#[test]
fn stateful_list_stays_unselected_when_empty() {
    let mut list: StatefulList<u32> = StatefulList::with_items(vec![]);
    list.next();
    assert_eq!(list.selected, None);
    list.previous();
    assert_eq!(list.selected, None);
}

#[test]
fn navigation_stack_never_empties() {
    let mut app = App::new();
    assert_eq!(app.input_mode, InputMode::Normal);
    assert_eq!(
        *app.get_current_route(),
        Route { id: RouteId::Home, active_block: ActiveBlock::Home }
    );
    assert_eq!(app.pop_navigation_stack(), None);
    app.push_navigation_stack(RouteId::NewTodo, ActiveBlock::NewTodo);
    assert_eq!(app.get_current_route().id, RouteId::NewTodo);
    assert_eq!(
        app.pop_navigation_stack(),
        Some(Route { id: RouteId::NewTodo, active_block: ActiveBlock::NewTodo })
    );
    assert_eq!(app.get_current_route().id, RouteId::Home);
}

#[test]
fn error_and_message_screens_stack_and_replace() {
    let mut app = App::new();
    app.handle_error(String::from("boom"));
    assert_eq!(app.error_message, "boom");
    assert_eq!(app.get_current_route().active_block, ActiveBlock::Error);

    // A new message replaces the error screen instead of stacking on it.
    app.handle_new_message(String::from("saved"));
    assert_eq!(app.message, "saved");
    assert_eq!(app.get_current_route().active_block, ActiveBlock::Message);
    assert_eq!(app.pop_navigation_stack().map(|r| r.id), Some(RouteId::Message));
    assert_eq!(app.get_current_route().id, RouteId::Home);
}

#[test]
fn partition_splits_done_and_undone_in_order() {
    let mk = |title: &str, completed: bool| Todo {
        id: 1,
        title: String::from(title),
        completed,
        created_at: 0,
        updated_at: 0,
        user_id: 2,
    };
    let todos = vec![mk("a", false), mk("b", true), mk("c", false), mk("d", true)];
    let (undone, done) = partition_todos(&todos);
    let undone_titles: Vec<&str> = undone.iter().map(|t| t.title.as_str()).collect();
    let done_titles: Vec<&str> = done.iter().map(|t| t.title.as_str()).collect();
    assert_eq!(undone_titles, vec!["a", "c"]);
    assert_eq!(done_titles, vec!["b", "d"]);

    let mut app = App::new();
    app.load_todos(&todos);
    assert_eq!(app.undone.items.len(), 2);
    assert_eq!(app.done.items.len(), 2);
    assert_eq!(app.done.items[0].title, "b");
}
