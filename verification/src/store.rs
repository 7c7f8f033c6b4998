//! The resource store model and the per-resource ownership guard.
//!
//! The store is the keyed collection of todo records the guard consults; each
//! record carries its owner's identifier. The ownership check deliberately
//! collapses "owned by someone else" and "does not exist" into the same
//! `NotFound`, so a caller cannot learn whether a foreign resource exists.
//! Every mutating operation checks ownership before acting.

use vstd::prelude::*;

use crate::dtos::CreateTodoDTO;
use crate::errors::TodoApiError;
use crate::models::{parse_uuid, uuid_parse_of, Todo};

verus! {

/// Whether `e` is the bad-request failure reported for an identifier that is
/// not a parseable UUID.
pub open spec fn is_uuid_bad_request(e: TodoApiError) -> bool {
    e matches TodoApiError::BadRequest(m) && m@ == "Error while parsing uuid"@
}

/// Whether `e` is the bad-request failure reported for a todo identifier that
/// is not parseable.
pub open spec fn is_todo_id_bad_request(e: TodoApiError) -> bool {
    e matches TodoApiError::BadRequest(m) && m@ == "Invalid Todo Id"@
}

/// Whether `e` is the not-found failure for the resource kind `kind`.
pub open spec fn is_not_found(e: TodoApiError, kind: Seq<char>) -> bool {
    e matches TodoApiError::NotFound(m) && m@ == kind
}

/// The todo records owned by `uid`, in store order.
pub open spec fn todos_of(s: Seq<Todo>, uid: u128) -> Seq<Todo> {
    s.filter(|t: Todo| t.user_id == uid)
}

/// The records of `s` reordered with the completed ones first; within each
/// group the store order is kept.
pub open spec fn completed_first(s: Seq<Todo>) -> Seq<Todo> {
    s.filter(|t: Todo| t.completed) + s.filter(|t: Todo| !t.completed)
}

/// Pushing one record onto a sequence extends its filtered view by that
/// record exactly when the record satisfies the predicate.
pub(crate) proof fn lemma_filter_push(s: Seq<Todo>, x: Todo, pred: spec_fn(Todo) -> bool)
    ensures
        s.push(x).filter(pred) == if pred(x) {
            s.filter(pred).push(x)
        } else {
            s.filter(pred)
        },
{
    reveal(Seq::filter);
    assert(s.push(x).drop_last() =~= s);
    assert(s.push(x).last() == x);
}

/// Filtering an empty sequence yields an empty sequence.
pub(crate) proof fn lemma_filter_empty(s: Seq<Todo>, pred: spec_fn(Todo) -> bool)
    requires
        s.len() == 0,
    ensures
        s.filter(pred) == Seq::<Todo>::empty(),
{
    reveal(Seq::filter);
    assert(s =~= Seq::<Todo>::empty());
}

/// An exact copy of a todo record.
pub(crate) fn clone_todo(t: &Todo) -> (r: Todo)
    ensures
        r == *t,
{
    Todo {
        id: t.id,
        title: t.title.clone(),
        completed: t.completed,
        created_at: t.created_at,
        updated_at: t.updated_at,
        user_id: t.user_id,
    }
}

/// The durable collection of todo records the ownership guard consults.
#[derive(Debug, Clone)]
pub struct TodoStore {
    /// The stored records, in insertion order.
    pub todos: Vec<Todo>,
}

impl TodoStore {
    /// An empty store.
    pub fn new() -> (r: TodoStore)
        ensures
            r.todos@ == Seq::<Todo>::empty(),
    {
        TodoStore { todos: Vec::new() }
    }

    /// Whether the store holds a record with identifier `todo_id` owned by
    /// `owner`.
    pub open spec fn contains_pairing(&self, todo_id: u128, owner: u128) -> bool {
        exists|i: int|
            0 <= i < self.todos@.len() && self.todos@[i].id == todo_id && self.todos@[i].user_id
                == owner
    }
}

/// Verify that the requester owns the named todo: succeeds exactly when the
/// store holds that pairing; fails with `BadRequest` when either identifier
/// is not a parseable UUID, and with `NotFound` both when the record does not
/// exist and when it exists under a different owner (indistinguishably).
pub fn verify_todo_owner(store: &TodoStore, requester_id: &str, todo_id: &str) -> (r: Result<
    (),
    TodoApiError,
>)
    ensures
        (uuid_parse_of(todo_id@) is None || uuid_parse_of(requester_id@) is None) ==> (r matches
            Err(e) && is_uuid_bad_request(e)),
        uuid_parse_of(todo_id@) matches Some(t) ==> uuid_parse_of(requester_id@) matches Some(
            u,
        ) ==> if store.contains_pairing(t, u) {
            r is Ok
        } else {
            r matches Err(e) && is_not_found(e, "Todo"@)
        },
{
    let tid = match parse_uuid(todo_id) {
        Some(t) => t,
        None => {
            return Err(TodoApiError::BadRequest(String::from_str("Error while parsing uuid")));
        },
    };
    let rid = match parse_uuid(requester_id) {
        Some(u) => u,
        None => {
            return Err(TodoApiError::BadRequest(String::from_str("Error while parsing uuid")));
        },
    };
    let n = store.todos.len();
    let mut i: usize = 0;
    while i < n
        invariant
            n == store.todos@.len(),
            i <= n,
            uuid_parse_of(todo_id@) == Some(tid),
            uuid_parse_of(requester_id@) == Some(rid),
            forall|k: int|
                0 <= k < i ==> !(store.todos@[k].id == tid && store.todos@[k].user_id == rid),
        decreases n - i,
    {
        if store.todos[i].id == tid && store.todos[i].user_id == rid {
            proof {
                assert(store.contains_pairing(tid, rid)) by {
                    assert(store.todos@[i as int].id == tid && store.todos@[i as int].user_id
                        == rid);
                }
            }
            return Ok(());
        }
        i += 1;
    }
    Err(TodoApiError::NotFound(String::from_str("Todo")))
}

/// Create a new todo with the given title for the requester and append it to
/// the store. Fails with `BadRequest` when the requester identifier is not a
/// parseable UUID; on success the appended record is uncompleted, carries the
/// title and is owned by the requester, and the rest of the store is
/// unchanged.
pub fn insert_new_todo(store: &mut TodoStore, todo: CreateTodoDTO, requester_id: &str) -> (r:
    Result<Todo, TodoApiError>)
    ensures
        uuid_parse_of(requester_id@) is None ==> (r matches Err(e) && is_uuid_bad_request(e)
            && final(store).todos@ == old(store).todos@),
        uuid_parse_of(requester_id@) matches Some(u) ==> (r matches Ok(t) && final(store).todos@
            == old(store).todos@.push(t) && t.title == todo.title && t.user_id == u
            && !t.completed),
{
    let rid = match parse_uuid(requester_id) {
        Some(u) => u,
        None => {
            return Err(TodoApiError::BadRequest(String::from_str("Error while parsing uuid")));
        },
    };
    let new_todo = Todo::from_title(todo.title, rid);
    let record = clone_todo(&new_todo);
    store.todos.push(record);
    Ok(new_todo)
}

/// Remove the named todo after checking that the requester owns it. Fails
/// with `BadRequest` on an unparseable todo identifier ("Invalid Todo Id") or
/// requester identifier, and with `NotFound` when the store has no such
/// record under this owner; on success every record with that identifier is
/// removed and all other records are kept in order. The store is unchanged on
/// every failure.
pub fn remove_todo(store: &mut TodoStore, todo_id: &str, requester_id: &str) -> (r: Result<
    (),
    TodoApiError,
>)
    ensures
        uuid_parse_of(todo_id@) is None ==> (r matches Err(e) && is_todo_id_bad_request(e)
            && final(store).todos@ == old(store).todos@),
        (uuid_parse_of(todo_id@) is Some && uuid_parse_of(requester_id@) is None) ==> (r matches
            Err(e) && is_uuid_bad_request(e) && final(store).todos@ == old(store).todos@),
        uuid_parse_of(todo_id@) matches Some(t) ==> uuid_parse_of(requester_id@) matches Some(
            u,
        ) ==> if old(store).contains_pairing(t, u) {
            r is Ok && final(store).todos@ == old(store).todos@.filter(|x: Todo| x.id != t)
        } else {
            r matches Err(e) && is_not_found(e, "Todo"@) && final(store).todos@ == old(
                store,
            ).todos@
        },
{
    let tid = match parse_uuid(todo_id) {
        Some(t) => t,
        None => {
            return Err(TodoApiError::BadRequest(String::from_str("Invalid Todo Id")));
        },
    };
    verify_todo_owner(store, requester_id, todo_id)?;
    let n = store.todos.len();
    let mut kept: Vec<Todo> = Vec::new();
    proof {
        lemma_filter_empty(store.todos@.subrange(0, 0), |x: Todo| x.id != tid);
    }
    let mut i: usize = 0;
    while i < n
        invariant
            n == store.todos@.len(),
            i <= n,
            kept@ == store.todos@.subrange(0, i as int).filter(|x: Todo| x.id != tid),
        decreases n - i,
    {
        let ghost prefix = store.todos@.subrange(0, i as int);
        if store.todos[i].id != tid {
            kept.push(clone_todo(&store.todos[i]));
        }
        proof {
            lemma_filter_push(prefix, store.todos@[i as int], |x: Todo| x.id != tid);
            assert(store.todos@.subrange(0, i + 1 as int) =~= prefix.push(
                store.todos@[i as int],
            ));
        }
        i += 1;
    }
    proof {
        assert(store.todos@.subrange(0, n as int) =~= store.todos@);
    }
    store.todos = kept;
    Ok(())
}

/// Set the completion state of the named todo after checking that the
/// requester owns it. Fails with `BadRequest` on an unparseable todo
/// identifier ("Invalid Todo Id") or requester identifier, and with
/// `NotFound` when the store has no such record under this owner; on success
/// every record with that identifier has its completion state set to
/// `is_complete` and every other record and field is unchanged. The store is
/// unchanged on every failure.
pub fn update_todo_completeness(
    store: &mut TodoStore,
    todo_id: &str,
    requester_id: &str,
    is_complete: bool,
) -> (r: Result<(), TodoApiError>)
    ensures
        uuid_parse_of(todo_id@) is None ==> (r matches Err(e) && is_todo_id_bad_request(e)
            && final(store).todos@ == old(store).todos@),
        (uuid_parse_of(todo_id@) is Some && uuid_parse_of(requester_id@) is None) ==> (r matches
            Err(e) && is_uuid_bad_request(e) && final(store).todos@ == old(store).todos@),
        uuid_parse_of(todo_id@) matches Some(t) ==> uuid_parse_of(requester_id@) matches Some(
            u,
        ) ==> if old(store).contains_pairing(t, u) {
            r is Ok && final(store).todos@.len() == old(store).todos@.len() && (forall|k: int|
                0 <= k < old(store).todos@.len() ==> final(store).todos@[k] == (if old(
                    store,
                ).todos@[k].id == t {
                    Todo { completed: is_complete, ..old(store).todos@[k] }
                } else {
                    old(store).todos@[k]
                }))
        } else {
            r matches Err(e) && is_not_found(e, "Todo"@) && final(store).todos@ == old(
                store,
            ).todos@
        },
{
    let tid = match parse_uuid(todo_id) {
        Some(t) => t,
        None => {
            return Err(TodoApiError::BadRequest(String::from_str("Invalid Todo Id")));
        },
    };
    verify_todo_owner(store, requester_id, todo_id)?;
    let n = store.todos.len();
    let mut updated: Vec<Todo> = Vec::new();
    let mut i: usize = 0;
    while i < n
        invariant
            n == store.todos@.len(),
            i <= n,
            updated@.len() == i,
            forall|k: int|
                0 <= k < i ==> updated@[k] == (if store.todos@[k].id == tid {
                    Todo { completed: is_complete, ..store.todos@[k] }
                } else {
                    store.todos@[k]
                }),
        decreases n - i,
    {
        let mut record = clone_todo(&store.todos[i]);
        if record.id == tid {
            record.completed = is_complete;
        }
        updated.push(record);
        i += 1;
    }
    store.todos = updated;
    Ok(())
}

/// All todos owned by the requester, in store order. Fails with `BadRequest`
/// when the requester identifier is not a parseable UUID.
pub fn get_all_todos_for_user(store: &TodoStore, requester_id: &str) -> (r: Result<
    Vec<Todo>,
    TodoApiError,
>)
    ensures
        uuid_parse_of(requester_id@) is None ==> (r matches Err(e) && is_uuid_bad_request(e)),
        uuid_parse_of(requester_id@) matches Some(u) ==> (r matches Ok(list) && list@ == todos_of(
            store.todos@,
            u,
        )),
{
    let rid = match parse_uuid(requester_id) {
        Some(u) => u,
        None => {
            return Err(TodoApiError::BadRequest(String::from_str("Error while parsing uuid")));
        },
    };
    let n = store.todos.len();
    let mut owned: Vec<Todo> = Vec::new();
    proof {
        lemma_filter_empty(store.todos@.subrange(0, 0), |t: Todo| t.user_id == rid);
    }
    let mut i: usize = 0;
    while i < n
        invariant
            n == store.todos@.len(),
            i <= n,
            owned@ == store.todos@.subrange(0, i as int).filter(|t: Todo| t.user_id == rid),
        decreases n - i,
    {
        let ghost prefix = store.todos@.subrange(0, i as int);
        if store.todos[i].user_id == rid {
            owned.push(clone_todo(&store.todos[i]));
        }
        proof {
            lemma_filter_push(prefix, store.todos@[i as int], |t: Todo| t.user_id == rid);
            assert(store.todos@.subrange(0, i + 1 as int) =~= prefix.push(
                store.todos@[i as int],
            ));
        }
        i += 1;
    }
    proof {
        assert(store.todos@.subrange(0, n as int) =~= store.todos@);
    }
    Ok(owned)
}

/// All todos owned by the requester, with the completed ones listed first and
/// store order kept within each group. Fails with `BadRequest` when the
/// requester identifier is not a parseable UUID.
pub fn get_todos(store: &TodoStore, requester_id: &str) -> (r: Result<Vec<Todo>, TodoApiError>)
    ensures
        uuid_parse_of(requester_id@) is None ==> (r matches Err(e) && is_uuid_bad_request(e)),
        uuid_parse_of(requester_id@) matches Some(u) ==> (r matches Ok(list) && list@
            == completed_first(todos_of(store.todos@, u))),
{
    let owned = get_all_todos_for_user(store, requester_id)?;
    let n = owned.len();
    let mut list: Vec<Todo> = Vec::new();
    proof {
        lemma_filter_empty(owned@.subrange(0, 0), |t: Todo| t.completed);
    }
    let mut i: usize = 0;
    while i < n
        invariant
            n == owned@.len(),
            i <= n,
            list@ == owned@.subrange(0, i as int).filter(|t: Todo| t.completed),
        decreases n - i,
    {
        let ghost prefix = owned@.subrange(0, i as int);
        if owned[i].completed {
            list.push(clone_todo(&owned[i]));
        }
        proof {
            lemma_filter_push(prefix, owned@[i as int], |t: Todo| t.completed);
            assert(owned@.subrange(0, i + 1 as int) =~= prefix.push(owned@[i as int]));
        }
        i += 1;
    }
    proof {
        assert(owned@.subrange(0, n as int) =~= owned@);
        lemma_filter_empty(owned@.subrange(0, 0), |t: Todo| !t.completed);
    }
    let mut j: usize = 0;
    while j < n
        invariant
            n == owned@.len(),
            j <= n,
            list@ == owned@.filter(|t: Todo| t.completed) + owned@.subrange(0, j as int).filter(
                |t: Todo| !t.completed,
            ),
        decreases n - j,
    {
        let ghost prefix = owned@.subrange(0, j as int);
        if !owned[j].completed {
            list.push(clone_todo(&owned[j]));
        }
        proof {
            lemma_filter_push(prefix, owned@[j as int], |t: Todo| !t.completed);
            assert(owned@.subrange(0, j + 1 as int) =~= prefix.push(owned@[j as int]));
        }
        j += 1;
    }
    proof {
        assert(owned@.subrange(0, n as int) =~= owned@);
    }
    Ok(list)
}


/// Mark the named todo as completed, after checking that the requester owns
/// it; the outcome is exactly that of [`update_todo_completeness`] with the
/// completion state set.
pub fn mark_todo_as_complete(store: &mut TodoStore, todo_id: &str, requester_id: &str) -> (r:
    Result<(), TodoApiError>)
    ensures
        uuid_parse_of(todo_id@) is None ==> (r matches Err(e) && is_todo_id_bad_request(e)
            && final(store).todos@ == old(store).todos@),
        (uuid_parse_of(todo_id@) is Some && uuid_parse_of(requester_id@) is None) ==> (r matches
            Err(e) && is_uuid_bad_request(e) && final(store).todos@ == old(store).todos@),
        uuid_parse_of(todo_id@) matches Some(t) ==> uuid_parse_of(requester_id@) matches Some(
            u,
        ) ==> if old(store).contains_pairing(t, u) {
            r is Ok && final(store).todos@.len() == old(store).todos@.len() && (forall|k: int|
                0 <= k < old(store).todos@.len() ==> final(store).todos@[k] == (if old(
                    store,
                ).todos@[k].id == t {
                    Todo { completed: true, ..old(store).todos@[k] }
                } else {
                    old(store).todos@[k]
                }))
        } else {
            r matches Err(e) && is_not_found(e, "Todo"@) && final(store).todos@ == old(
                store,
            ).todos@
        },
{
    update_todo_completeness(store, todo_id, requester_id, true)
}

/// Mark the named todo as not completed, after checking that the requester
/// owns it; the outcome is exactly that of [`update_todo_completeness`] with
/// the completion state cleared.
pub fn mark_todo_as_incomplete(store: &mut TodoStore, todo_id: &str, requester_id: &str) -> (r:
    Result<(), TodoApiError>)
    ensures
        uuid_parse_of(todo_id@) is None ==> (r matches Err(e) && is_todo_id_bad_request(e)
            && final(store).todos@ == old(store).todos@),
        (uuid_parse_of(todo_id@) is Some && uuid_parse_of(requester_id@) is None) ==> (r matches
            Err(e) && is_uuid_bad_request(e) && final(store).todos@ == old(store).todos@),
        uuid_parse_of(todo_id@) matches Some(t) ==> uuid_parse_of(requester_id@) matches Some(
            u,
        ) ==> if old(store).contains_pairing(t, u) {
            r is Ok && final(store).todos@.len() == old(store).todos@.len() && (forall|k: int|
                0 <= k < old(store).todos@.len() ==> final(store).todos@[k] == (if old(
                    store,
                ).todos@[k].id == t {
                    Todo { completed: false, ..old(store).todos@[k] }
                } else {
                    old(store).todos@[k]
                }))
        } else {
            r matches Err(e) && is_not_found(e, "Todo"@) && final(store).todos@ == old(
                store,
            ).todos@
        },
{
    update_todo_completeness(store, todo_id, requester_id, false)
}

} // verus!
