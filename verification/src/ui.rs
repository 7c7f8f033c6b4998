//! The state of the terminal client: the todo lists with their selection
//! cursors, and the navigation stack of routes.
//!
//! Rendering is the outer layer's concern; this module holds the state and
//! the transitions the key handlers drive. The navigation stack always keeps
//! at least one route, so there is always a current route to draw.

use vstd::prelude::*;

use crate::models::Todo;
use crate::store::{clone_todo, lemma_filter_empty, lemma_filter_push};

verus! {

/// A list of items together with the cursor of the rendered list widget.
#[derive(Debug, Clone)]
pub struct StatefulList<T> {
    /// The index of the selected item, if any.
    pub selected: Option<usize>,
    /// The listed items.
    pub items: Vec<T>,
}

/// The index selected after moving the cursor forward by one, wrapping from
/// the last item to the first; with no selection the first item is selected.
pub open spec fn wrap_next(sel: Option<usize>, len: int) -> int {
    match sel {
        Option::Some(i) => if i + 1 < len {
            i + 1
        } else {
            0
        },
        Option::None => 0,
    }
}

/// The index selected after moving the cursor back by one, wrapping from the
/// first item to the last; with no selection the first item is selected.
pub open spec fn wrap_previous(sel: Option<usize>, len: int) -> int {
    match sel {
        Option::Some(i) => if i == 0 {
            len - 1
        } else {
            i - 1
        },
        Option::None => 0,
    }
}

impl<T> StatefulList<T> {
    /// The selection, if present, points at an item.
    pub open spec fn wf(&self) -> bool {
        self.selected matches Some(i) ==> i < self.items@.len()
    }

    /// A list over the given items with nothing selected.
    pub fn with_items(items: Vec<T>) -> (r: StatefulList<T>)
        ensures
            r.items == items,
            r.selected is None,
            r.wf(),
    {
        StatefulList { selected: None, items }
    }

    /// Move the selection forward by one, wrapping around; selecting the
    /// first item when nothing is selected. An empty list keeps no selection.
    pub fn next(&mut self)
        requires
            old(self).wf(),
        ensures
            final(self).items == old(self).items,
            final(self).wf(),
            old(self).items@.len() == 0 ==> final(self).selected is None,
            old(self).items@.len() > 0 ==> (final(self).selected matches Some(k) && k == wrap_next(
                old(self).selected,
                old(self).items@.len() as int,
            )),
    {
        if self.items.len() == 0 {
            self.selected = None;
        } else {
            let i = match self.selected {
                Some(i) => if i + 1 < self.items.len() {
                    i + 1
                } else {
                    0
                },
                None => 0,
            };
            self.selected = Some(i);
        }
    }

    /// Move the selection back by one, wrapping around; selecting the first
    /// item when nothing is selected. An empty list keeps no selection.
    pub fn previous(&mut self)
        requires
            old(self).wf(),
        ensures
            final(self).items == old(self).items,
            final(self).wf(),
            old(self).items@.len() == 0 ==> final(self).selected is None,
            old(self).items@.len() > 0 ==> (final(self).selected matches Some(k) && k
                == wrap_previous(old(self).selected, old(self).items@.len() as int)),
    {
        if self.items.len() == 0 {
            self.selected = None;
        } else {
            let i = match self.selected {
                Some(i) => if i == 0 {
                    self.items.len() - 1
                } else {
                    i - 1
                },
                None => 0,
            };
            self.selected = Some(i);
        }
    }

    /// Clear the selection.
    pub fn unselect(&mut self)
        ensures
            final(self).items == old(self).items,
            final(self).selected is None,
            final(self).wf(),
    {
        self.selected = None;
    }
}

/// Whether the client is currently capturing typed text.
#[derive(Debug, Clone, Copy, PartialEq, Eq, Structural)]
pub enum InputMode {
    /// Keys drive navigation.
    Normal,
    /// Keys append to the input text.
    Editing,
}

/// The screens the client can show.
#[derive(Clone, PartialEq, Eq, Structural, Debug)]
pub enum RouteId {
    Home,
    Error,
    Message,
    NewTodo,
}

/// The block of the current screen that owns the keyboard.
#[derive(Clone, Copy, PartialEq, Eq, Structural, Debug)]
pub enum ActiveBlock {
    Home,
    Error,
    Message,
    NewTodo,
}

/// One entry of the navigation stack: a screen and its active block.
#[derive(Debug, Clone, PartialEq, Eq, Structural)]
pub struct Route {
    /// The screen to draw.
    pub id: RouteId,
    /// The block that owns the keyboard.
    pub active_block: ActiveBlock,
}

/// The route the client starts on and falls back to: the home screen.
pub fn default_route() -> (r: Route)
    ensures
        r == (Route { id: RouteId::Home, active_block: ActiveBlock::Home }),
{
    Route { id: RouteId::Home, active_block: ActiveBlock::Home }
}

/// The whole client state: the two todo lists, the transient texts, the input
/// mode and the navigation stack.
#[derive(Debug, Clone)]
pub struct App {
    /// The todos not yet completed.
    pub undone: StatefulList<Todo>,
    /// The completed todos.
    pub done: StatefulList<Todo>,
    /// The text of the error screen.
    pub error_message: String,
    /// The text being typed for a new todo.
    pub input_text: String,
    /// The text of the message screen.
    pub message: String,
    /// Whether typed keys navigate or edit.
    pub input_mode: InputMode,
    /// The stack of routes; the top one is rendered. Mutate it only through
    /// the methods below, which keep it nonempty.
    pub navigation_stack: Vec<Route>,
}

/// Whether `a` and `b` agree on everything but the navigation stack and the
/// named transient texts.
pub open spec fn same_lists(a: App, b: App) -> bool {
    &&& a.undone == b.undone
    &&& a.done == b.done
    &&& a.input_text == b.input_text
    &&& a.input_mode == b.input_mode
}

impl App {
    /// The navigation stack, bottom first.
    pub open spec fn nav(&self) -> Seq<Route> {
        self.navigation_stack@
    }

    /// The stack is never empty: there is always a current route.
    pub open spec fn wf(&self) -> bool {
        self.nav().len() >= 1
    }

    /// A fresh client state: empty lists, empty texts, and the default route
    /// on the stack.
    pub fn new() -> (a: App)
        ensures
            a.wf(),
            a.nav() =~= seq![Route { id: RouteId::Home, active_block: ActiveBlock::Home }],
            a.undone.items@.len() == 0,
            a.done.items@.len() == 0,
            a.error_message@.len() == 0,
            a.input_text@.len() == 0,
            a.message@.len() == 0,
            a.input_mode == InputMode::Normal,
    {
        let mut stack: Vec<Route> = Vec::new();
        stack.push(default_route());
        App {
            undone: StatefulList::with_items(Vec::new()),
            done: StatefulList::with_items(Vec::new()),
            error_message: String::new(),
            input_mode: InputMode::Normal,
            input_text: String::new(),
            message: String::new(),
            navigation_stack: stack,
        }
    }

    /// Advance the client's clock by one tick. Nothing changes.
    pub fn on_tick(&mut self)
        ensures
            *final (self) == *old(self),
    {
    }

    /// The route currently on top of the navigation stack.
    pub fn get_current_route(&self) -> (r: &Route)
        requires
            self.wf(),
        ensures
            *r == self.nav().last(),
    {
        &self.navigation_stack[self.navigation_stack.len() - 1]
    }

    /// Replace the route on top of the navigation stack.
    pub fn set_current_route(&mut self, route: Route)
        requires
            old(self).wf(),
        ensures
            final (self).wf(),
            final (self).nav() =~= old(self).nav().drop_last().push(route),
            same_lists(*final (self), *old(self)),
            final (self).error_message == old(self).error_message,
            final (self).message == old(self).message,
    {
        let _ = self.navigation_stack.pop();
        self.navigation_stack.push(route);
    }

    /// Push a route onto the navigation stack so that it is rendered.
    pub fn push_navigation_stack(&mut self, route_id: RouteId, active_block: ActiveBlock)
        ensures
            final (self).nav() == old(self).nav().push(
                Route { id: route_id, active_block: active_block },
            ),
            final (self).wf(),
            same_lists(*final (self), *old(self)),
            final (self).error_message == old(self).error_message,
            final (self).message == old(self).message,
    {
        self.navigation_stack.push(Route { id: route_id, active_block });
    }

    /// Pop the top route, unless it is the only one: the stack never empties.
    pub fn pop_navigation_stack(&mut self) -> (r: Option<Route>)
        requires
            old(self).wf(),
        ensures
            final (self).wf(),
            old(self).nav().len() == 1 ==> r is None && final (self).nav() == old(self).nav(),
            old(self).nav().len() > 1 ==> (r matches Some(top) && top == old(self).nav().last()
                && final (self).nav() == old(self).nav().drop_last()),
            same_lists(*final (self), *old(self)),
            final (self).error_message == old(self).error_message,
            final (self).message == old(self).message,
    {
        if self.navigation_stack.len() == 1 {
            None
        } else {
            self.navigation_stack.pop()
        }
    }

    /// Show the error screen with the given message, on top of the current
    /// route.
    pub fn handle_error(&mut self, e: String)
        requires
            old(self).wf(),
        ensures
            final (self).wf(),
            final (self).error_message == e,
            final (self).nav() == old(self).nav().push(
                Route { id: RouteId::Error, active_block: ActiveBlock::Error },
            ),
            same_lists(*final (self), *old(self)),
            final (self).message == old(self).message,
    {
        self.push_navigation_stack(RouteId::Error, ActiveBlock::Error);
        self.error_message = e;
    }

    /// Show the message screen with the given text. A message or error screen
    /// already on top is replaced rather than stacked.
    pub fn handle_new_message(&mut self, m: String)
        requires
            old(self).wf(),
        ensures
            final (self).wf(),
            final (self).message == m,
            final (self).nav() == message_base(old(self).nav()).push(
                Route { id: RouteId::Message, active_block: ActiveBlock::Message },
            ),
            same_lists(*final (self), *old(self)),
            final (self).error_message == old(self).error_message,
    {
        let top = self.get_current_route();
        let active_block = top.active_block;
        if active_block == ActiveBlock::Message || active_block == ActiveBlock::Error {
            let _ = self.pop_navigation_stack();
        }
        self.push_navigation_stack(RouteId::Message, ActiveBlock::Message);
        self.message = m;
    }
}

/// The stack on which a new message route is pushed: a message or error route
/// on top is first popped, unless it is the only route.
pub open spec fn message_base(nav: Seq<Route>) -> Seq<Route> {
    if (nav.last().active_block == ActiveBlock::Message || nav.last().active_block
        == ActiveBlock::Error) && nav.len() > 1 {
        nav.drop_last()
    } else {
        nav
    }
}


/// Split fetched todos into the two rendered lists: the ones still to do and
/// the completed ones, each keeping the fetched order.
pub fn partition_todos(todos: &Vec<Todo>) -> (r: (Vec<Todo>, Vec<Todo>))
    ensures
        r.0@ == todos@.filter(|t: Todo| !t.completed),
        r.1@ == todos@.filter(|t: Todo| t.completed),
{
    let n = todos.len();
    let mut undone: Vec<Todo> = Vec::new();
    let mut done: Vec<Todo> = Vec::new();
    proof {
        lemma_filter_empty(todos@.subrange(0, 0), |t: Todo| !t.completed);
        lemma_filter_empty(todos@.subrange(0, 0), |t: Todo| t.completed);
    }
    let mut i: usize = 0;
    while i < n
        invariant
            n == todos@.len(),
            i <= n,
            undone@ == todos@.subrange(0, i as int).filter(|t: Todo| !t.completed),
            done@ == todos@.subrange(0, i as int).filter(|t: Todo| t.completed),
        decreases n - i,
    {
        let ghost prefix = todos@.subrange(0, i as int);
        if todos[i].completed {
            done.push(clone_todo(&todos[i]));
        } else {
            undone.push(clone_todo(&todos[i]));
        }
        proof {
            lemma_filter_push(prefix, todos@[i as int], |t: Todo| !t.completed);
            lemma_filter_push(prefix, todos@[i as int], |t: Todo| t.completed);
            assert(todos@.subrange(0, i + 1 as int) =~= prefix.push(todos@[i as int]));
        }
        i += 1;
    }
    proof {
        assert(todos@.subrange(0, n as int) =~= todos@);
    }
    (undone, done)
}

impl App {
    /// Load fetched todos into the two rendered lists, clearing any
    /// selection.
    pub fn load_todos(&mut self, todos: &Vec<Todo>)
        ensures
            final (self).undone.items@ == todos@.filter(|t: Todo| !t.completed),
            final (self).done.items@ == todos@.filter(|t: Todo| t.completed),
            final (self).undone.selected is None,
            final (self).done.selected is None,
            final (self).nav() == old(self).nav(),
            final (self).error_message == old(self).error_message,
            final (self).message == old(self).message,
            final (self).input_text == old(self).input_text,
            final (self).input_mode == old(self).input_mode,
    {
        let (undone, done) = partition_todos(todos);
        self.undone = StatefulList::with_items(undone);
        self.done = StatefulList::with_items(done);
    }
}

} // verus!
