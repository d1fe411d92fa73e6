//! A list of tasks, each named by an identifier that is given out once.

use crate::key::Key;
use crate::seq_facts::{lemma_first_position, lemma_index_of_first};
use vstd::prelude::*;

verus! {

/// One task of a list.
#[derive(Clone, Debug, PartialEq, Eq)]
pub struct TodoItem {
    pub id: u32,
    pub description: String,
    pub completed: bool,
}

/// The tasks of one owner.
#[derive(Clone, Debug, PartialEq, Eq)]
pub struct TodoList {
    pub items: Vec<TodoItem>,
    pub owner: Key,
    /// The identifier that the next task will get.
    pub next_id: u32,
    pub bump: u8,
}

/// Why a request on a list was refused.
#[derive(Clone, Copy, Debug, PartialEq, Eq, Structural)]
pub enum ErrorCode {
    /// No task of the list has the identifier asked for.
    ItemNotFound,
    /// The list still holds tasks and cannot be closed.
    ListNotEmpty,
}

/// The mathematical value of a [`TodoItem`].
pub ghost struct TodoItemView {
    pub id: u32,
    pub description: Seq<char>,
    pub completed: bool,
}

impl View for TodoItem {
    type V = TodoItemView;

    open spec fn view(&self) -> TodoItemView {
        TodoItemView { id: self.id, description: self.description@, completed: self.completed }
    }
}

/// The mathematical values of `items`, in the same order.
pub open spec fn item_views(items: Seq<TodoItem>) -> Seq<TodoItemView> {
    items.map_values(|item: TodoItem| item@)
}

/// The identifiers of `items`, in the same order.
pub open spec fn item_ids(items: Seq<TodoItemView>) -> Seq<u32> {
    items.map_values(|item: TodoItemView| item.id)
}

/// The mathematical value of a [`TodoList`].
pub ghost struct TodoListView {
    pub items: Seq<TodoItemView>,
    pub owner: Key,
    pub next_id: u32,
    pub bump: u8,
}

impl View for TodoList {
    type V = TodoListView;

    open spec fn view(&self) -> TodoListView {
        TodoListView {
            items: item_views(self.items@),
            owner: self.owner,
            next_id: self.next_id,
            bump: self.bump,
        }
    }
}

impl TodoListView {
    /// The position of the first task that has the identifier `item_id`.
    pub open spec fn position(self, item_id: u32) -> Option<int> {
        item_ids(self.items).index_of_first(item_id)
    }

    /// The list with a new, open task for `description` at its end. The
    /// task takes the next identifier, which is then used up.
    pub open spec fn add_item(self, description: Seq<char>) -> TodoListView {
        TodoListView {
            items: self.items.push(
                TodoItemView { id: self.next_id, description, completed: false },
            ),
            next_id: (self.next_id + 1) as u32,
            ..self
        }
    }

    /// The list with the first task that has the identifier `item_id`
    /// switched between open and completed, or `ItemNotFound`.
    pub open spec fn toggle_completed_item(self, item_id: u32) -> Result<TodoListView, ErrorCode> {
        match self.position(item_id) {
            Some(i) => Ok(
                TodoListView {
                    items: self.items.update(
                        i,
                        TodoItemView { completed: !self.items[i].completed, ..self.items[i] },
                    ),
                    ..self
                },
            ),
            None => Err(ErrorCode::ItemNotFound),
        }
    }

    /// The list without the first task that has the identifier `item_id`,
    /// or `ItemNotFound`. The other tasks keep their order.
    pub open spec fn delete_item(self, item_id: u32) -> Result<TodoListView, ErrorCode> {
        match self.position(item_id) {
            Some(i) => Ok(TodoListView { items: self.items.remove(i), ..self }),
            None => Err(ErrorCode::ItemNotFound),
        }
    }
}

impl TodoList {
    /// The position of the first task that has the identifier `item_id`.
    pub fn position(&self, item_id: u32) -> (found: Option<usize>)
        ensures
            match self@.position(item_id) {
                Some(i) => found == Some(i as usize) && 0 <= i < self.items.len()
                    && self.items[i].id == item_id,
                None => found is None,
            },
    {
        let n = self.items.len();
        let ghost ids = item_ids(self@.items);
        let mut i: usize = 0;
        while i < n
            invariant
                n == self.items.len(),
                i <= n,
                ids == item_ids(self@.items),
                forall|j: int| 0 <= j < i ==> ids[j] != item_id,
            decreases n - i,
        {
            if self.items[i].id == item_id {
                proof {
                    assert(ids[i as int] == item_id);
                    lemma_first_position(ids, item_id, i as int);
                }
                return Some(i);
            }
            i += 1;
        }
        proof {
            lemma_index_of_first(ids, item_id);
        }
        None
    }
}

/// Makes `todo_list` the empty list of `user`.
pub fn create_list(todo_list: &mut TodoList, user: Key, bump: u8) -> (res: Result<(), ErrorCode>)
    ensures
        res is Ok,
        final(todo_list)@ == (TodoListView { items: Seq::empty(), owner: user, next_id: 0, bump }),
{
    todo_list.items = Vec::new();
    todo_list.owner = user;
    todo_list.next_id = 0;
    todo_list.bump = bump;
    assert(todo_list@.items =~= Seq::<TodoItemView>::empty());
    Ok(())
}

/// Adds an open task for `description` at the end of `todo_list`.
pub fn add_item(todo_list: &mut TodoList, description: String) -> (res: Result<(), ErrorCode>)
    requires
        old(todo_list).next_id < u32::MAX,
    ensures
        res is Ok,
        final(todo_list)@ == old(todo_list)@.add_item(description@),
{
    let item = TodoItem { id: todo_list.next_id, description, completed: false };
    todo_list.items.push(item);
    todo_list.next_id += 1;
    assert(todo_list@.items =~= old(todo_list)@.items.push(item@));
    Ok(())
}

/// Switches the first task of `todo_list` that has the identifier
/// `item_id` between open and completed.
///
/// Fails with `ItemNotFound`, leaving the list as it is, if there is no
/// such task.
pub fn toggle_completed_item(todo_list: &mut TodoList, item_id: u32) -> (res: Result<(), ErrorCode>)
    ensures
        match old(todo_list)@.toggle_completed_item(item_id) {
            Ok(next) => res is Ok && final(todo_list)@ == next,
            Err(e) => res == Err::<(), ErrorCode>(e) && *final(todo_list) == *old(todo_list),
        },
{
    match todo_list.position(item_id) {
        Some(i) => {
            todo_list.items[i].completed = !todo_list.items[i].completed;
            assert(todo_list@.items =~= old(todo_list)@.toggle_completed_item(
                item_id,
            ).unwrap().items);
            Ok(())
        },
        None => Err(ErrorCode::ItemNotFound),
    }
}

/// Removes the first task of `todo_list` that has the identifier `item_id`.
///
/// Fails with `ItemNotFound`, leaving the list as it is, if there is no
/// such task.
pub fn delete_item(todo_list: &mut TodoList, item_id: u32) -> (res: Result<(), ErrorCode>)
    ensures
        match old(todo_list)@.delete_item(item_id) {
            Ok(next) => res is Ok && final(todo_list)@ == next,
            Err(e) => res == Err::<(), ErrorCode>(e) && *final(todo_list) == *old(todo_list),
        },
{
    match todo_list.position(item_id) {
        Some(i) => {
            todo_list.items.remove(i);
            assert(todo_list@.items =~= old(todo_list)@.items.remove(i as int));
            Ok(())
        },
        None => Err(ErrorCode::ItemNotFound),
    }
}

/// Whether `todo_list` may be closed: only an empty list may.
///
/// Fails with `ListNotEmpty` if the list still holds a task.
pub fn close_list(todo_list: &TodoList) -> (res: Result<(), ErrorCode>)
    ensures
        todo_list@.items.len() == 0 ==> res is Ok,
        todo_list@.items.len() > 0 ==> res == Err::<(), ErrorCode>(ErrorCode::ListNotEmpty),
{
    if todo_list.items.is_empty() {
        Ok(())
    } else {
        Err(ErrorCode::ListNotEmpty)
    }
}

} // verus!
