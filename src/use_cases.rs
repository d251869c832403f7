use vstd::prelude::*;

use crate::error::{is_todo_not_found, Error};
use crate::model::{todo_from_input, Todo, TodoInput};

verus! {

/// Whether some row carries `id`.
pub open spec fn has_id(rows: Seq<Todo>, id: u32) -> bool {
    exists|i: int| 0 <= i < rows.len() && #[trigger] rows[i].id == id
}

/// No two rows share an id.
pub open spec fn ids_unique(rows: Seq<Todo>) -> bool {
    forall|i: int, j: int|
        0 <= i < rows.len() && 0 <= j < rows.len() && i != j ==> #[trigger] rows[i].id
            != #[trigger] rows[j].id
}

/// The position of the row that carries `id`, when there is one.
pub open spec fn index_of(rows: Seq<Todo>, id: u32) -> int {
    choose|i: int| 0 <= i < rows.len() && #[trigger] rows[i].id == id
}

/// The row that carries `id`.
pub open spec fn lookup(rows: Seq<Todo>, id: u32) -> Option<Todo> {
    if has_id(rows, id) {
        Some(rows[index_of(rows, id)])
    } else {
        None
    }
}

/// The largest id among the rows, or 1 when there are none.
pub open spec fn max_id(rows: Seq<Todo>) -> int
    decreases rows.len(),
{
    if rows.len() == 0 {
        1
    } else {
        let m = max_id(rows.drop_last());
        if rows.last().id > m {
            rows.last().id as int
        } else {
            m
        }
    }
}

/// Whether a fresh id can still be given: the largest one is below the top of `u32`.
pub open spec fn can_create(rows: Seq<Todo>) -> bool {
    max_id(rows) < u32::MAX
}

/// The todo that `create` makes from an input: the next id after the largest.
pub open spec fn created(rows: Seq<Todo>, input: TodoInput) -> Todo {
    todo_from_input((max_id(rows) + 1) as u32, input)
}

/// The rows after a `create`.
pub open spec fn rows_after_create(rows: Seq<Todo>, input: TodoInput) -> Seq<Todo> {
    if can_create(rows) {
        rows.push(created(rows, input))
    } else {
        rows
    }
}

/// The rows after an `update` of `id`: its text and state replaced, its id kept.
pub open spec fn rows_after_update(rows: Seq<Todo>, id: u32, input: TodoInput) -> Seq<Todo> {
    if has_id(rows, id) {
        rows.update(index_of(rows, id), todo_from_input(id, input))
    } else {
        rows
    }
}

/// The rows after a `delete` of `id`.
pub open spec fn rows_after_delete(rows: Seq<Todo>, id: u32) -> Seq<Todo> {
    if has_id(rows, id) {
        rows.remove(index_of(rows, id))
    } else {
        rows
    }
}

/// With unique ids, the row found at `i` is the one `index_of` names.
pub proof fn lemma_index_of_unique(rows: Seq<Todo>, id: u32, i: int)
    requires
        ids_unique(rows),
        0 <= i < rows.len(),
        rows[i].id == id,
    ensures
        has_id(rows, id),
        index_of(rows, id) == i,
        lookup(rows, id) == Some(rows[i]),
{
    let j = index_of(rows, id);
    assert(rows[i].id == id);
    assert(0 <= j < rows.len() && rows[j].id == id);
}

/// Every id is at most the largest one.
pub proof fn lemma_max_id_bounds(rows: Seq<Todo>)
    ensures
        max_id(rows) >= 1,
        max_id(rows) <= u32::MAX,
        forall|i: int| 0 <= i < rows.len() ==> #[trigger] rows[i].id <= max_id(rows),
    decreases rows.len(),
{
    if rows.len() > 0 {
        lemma_max_id_bounds(rows.drop_last());
        assert forall|i: int| 0 <= i < rows.len() implies #[trigger] rows[i].id <= max_id(rows) by {
            if i < rows.len() - 1 {
                assert(rows[i] == rows.drop_last()[i]);
            }
        }
    }
}

/// A create keeps ids unique: the new id is above every existing one.
pub proof fn lemma_create_keeps_unique(rows: Seq<Todo>, input: TodoInput)
    requires
        ids_unique(rows),
    ensures
        ids_unique(rows_after_create(rows, input)),
        can_create(rows) ==> !has_id(rows, created(rows, input).id),
{
    lemma_max_id_bounds(rows);
    if can_create(rows) {
        let r2 = rows_after_create(rows, input);
        let t = created(rows, input);
        assert forall|i: int, j: int|
            0 <= i < r2.len() && 0 <= j < r2.len() && i != j implies #[trigger] r2[i].id
            != #[trigger] r2[j].id by {
            if i < rows.len() {
                assert(r2[i] == rows[i]);
            }
            if j < rows.len() {
                assert(r2[j] == rows[j]);
            }
        }
        if has_id(rows, t.id) {
            let k = choose|k: int| 0 <= k < rows.len() && #[trigger] rows[k].id == t.id;
            assert(rows[k].id <= max_id(rows));
        }
    }
}

/// An update keeps ids unique: the replaced row keeps its id.
pub proof fn lemma_update_keeps_unique(rows: Seq<Todo>, id: u32, input: TodoInput)
    requires
        ids_unique(rows),
    ensures
        ids_unique(rows_after_update(rows, id, input)),
{
    if has_id(rows, id) {
        let k = index_of(rows, id);
        let r2 = rows_after_update(rows, id, input);
        assert forall|i: int, j: int|
            0 <= i < r2.len() && 0 <= j < r2.len() && i != j implies #[trigger] r2[i].id
            != #[trigger] r2[j].id by {
            assert(r2[i].id == rows[i].id);
            assert(r2[j].id == rows[j].id);
        }
    }
}

/// A delete keeps ids unique and leaves no row with the deleted id.
pub proof fn lemma_delete_keeps_unique(rows: Seq<Todo>, id: u32)
    requires
        ids_unique(rows),
    ensures
        ids_unique(rows_after_delete(rows, id)),
        !has_id(rows_after_delete(rows, id), id),
{
    if has_id(rows, id) {
        let k = index_of(rows, id);
        let r2 = rows_after_delete(rows, id);
        assert forall|i: int| 0 <= i < r2.len() implies #[trigger] r2[i] == (if i < k {
            rows[i]
        } else {
            rows[i + 1]
        }) by {}
        assert forall|i: int, j: int|
            0 <= i < r2.len() && 0 <= j < r2.len() && i != j implies #[trigger] r2[i].id
            != #[trigger] r2[j].id by {
            let a = if i < k { i } else { i + 1 };
            let b = if j < k { j } else { j + 1 };
            assert(r2[i] == rows[a]);
            assert(r2[j] == rows[b]);
        }
        if has_id(r2, id) {
            let m = choose|m: int| 0 <= m < r2.len() && #[trigger] r2[m].id == id;
            let a = if m < k { m } else { m + 1 };
            assert(r2[m] == rows[a]);
        }
    }
}

/// The storage port: what the use cases need from a store of todos.
pub trait TodoOutputPort {
    /// The stored todos.
    spec fn rows(&self) -> Seq<Todo>;

    /// All stored todos.
    fn list_todos(&self) -> (r: Result<Vec<Todo>, Error>)
        requires
            ids_unique(self.rows()),
        ensures
            r matches Ok(v) && v@ == self.rows(),
    ;

    /// The todo with `id`, or a not-found error for that id.
    fn get_todo(&self, id: u32) -> (r: Result<Todo, Error>)
        requires
            ids_unique(self.rows()),
        ensures
            r is Ok <==> has_id(self.rows(), id),
            r matches Ok(t) ==> Some(t) == lookup(self.rows(), id),
            r matches Err(e) ==> is_todo_not_found(e, id),
    ;

    /// Stores a new todo under a fresh id and returns it.
    fn create_todo(&mut self, todo: TodoInput) -> (r: Result<Todo, Error>)
        requires
            ids_unique(old(self).rows()),
        ensures
            ids_unique(final(self).rows()),
            final(self).rows() == rows_after_create(old(self).rows(), todo),
            r is Ok <==> can_create(old(self).rows()),
            r matches Ok(t) ==> t == created(old(self).rows(), todo),
            r matches Err(e) ==> e is Unexpected,
    ;

    /// Replaces the text and state of the todo with `id`.
    fn update_todo(&mut self, id: u32, todo: TodoInput) -> (r: Result<Todo, Error>)
        requires
            ids_unique(old(self).rows()),
        ensures
            ids_unique(final(self).rows()),
            final(self).rows() == rows_after_update(old(self).rows(), id, todo),
            r is Ok <==> has_id(old(self).rows(), id),
            r matches Ok(t) ==> t == todo_from_input(id, todo),
            r matches Err(e) ==> is_todo_not_found(e, id),
    ;

    /// Removes the todo with `id`.
    fn delete_todo(&mut self, id: u32) -> (r: Result<(), Error>)
        requires
            ids_unique(old(self).rows()),
        ensures
            ids_unique(final(self).rows()),
            final(self).rows() == rows_after_delete(old(self).rows(), id),
            r is Ok <==> has_id(old(self).rows(), id),
            r matches Err(e) ==> is_todo_not_found(e, id),
    ;
}


/// The use cases offered to request handlers; the seam for business rules.
pub trait TodoInputPort {
    /// The todos the use cases work on.
    spec fn rows(&self) -> Seq<Todo>;

    /// All todos.
    fn list_todos(&self) -> (r: Result<Vec<Todo>, Error>)
        requires
            ids_unique(self.rows()),
        ensures
            r matches Ok(v) && v@ == self.rows(),
    ;

    /// The todo with `id`, or a not-found error for that id.
    fn get_todo(&self, id: u32) -> (r: Result<Todo, Error>)
        requires
            ids_unique(self.rows()),
        ensures
            r is Ok <==> has_id(self.rows(), id),
            r matches Ok(t) ==> Some(t) == lookup(self.rows(), id),
            r matches Err(e) ==> is_todo_not_found(e, id),
    ;

    /// Creates a todo under a fresh id.
    fn create_todo(&mut self, todo: TodoInput) -> (r: Result<Todo, Error>)
        requires
            ids_unique(old(self).rows()),
        ensures
            ids_unique(final(self).rows()),
            final(self).rows() == rows_after_create(old(self).rows(), todo),
            r is Ok <==> can_create(old(self).rows()),
            r matches Ok(t) ==> t == created(old(self).rows(), todo),
            r matches Err(e) ==> e is Unexpected,
    ;

    /// Replaces the text and state of the todo with `id`.
    fn update_todo(&mut self, id: u32, todo: TodoInput) -> (r: Result<Todo, Error>)
        requires
            ids_unique(old(self).rows()),
        ensures
            ids_unique(final(self).rows()),
            final(self).rows() == rows_after_update(old(self).rows(), id, todo),
            r is Ok <==> has_id(old(self).rows(), id),
            r matches Ok(t) ==> t == todo_from_input(id, todo),
            r matches Err(e) ==> is_todo_not_found(e, id),
    ;

    /// Removes the todo with `id`.
    fn delete_todo(&mut self, id: u32) -> (r: Result<(), Error>)
        requires
            ids_unique(old(self).rows()),
        ensures
            ids_unique(final(self).rows()),
            final(self).rows() == rows_after_delete(old(self).rows(), id),
            r is Ok <==> has_id(old(self).rows(), id),
            r matches Err(e) ==> is_todo_not_found(e, id),
    ;
}

/// The use-case service: it hands each operation to the store it was given.
pub struct TodoService<S: TodoOutputPort> {
    todo_store: S,
}

impl<S: TodoOutputPort> TodoService<S> {
    /// A service over `todo_store`.
    pub fn new(todo_store: S) -> (r: Self)
        ensures
            r.rows() == todo_store.rows(),
    {
        TodoService { todo_store }
    }
}

impl<S: TodoOutputPort> TodoInputPort for TodoService<S> {
    closed spec fn rows(&self) -> Seq<Todo> {
        self.todo_store.rows()
    }

    fn list_todos(&self) -> (r: Result<Vec<Todo>, Error>) {
        self.todo_store.list_todos()
    }

    fn get_todo(&self, id: u32) -> (r: Result<Todo, Error>) {
        self.todo_store.get_todo(id)
    }

    fn create_todo(&mut self, todo: TodoInput) -> (r: Result<Todo, Error>) {
        self.todo_store.create_todo(todo)
    }

    fn update_todo(&mut self, id: u32, todo: TodoInput) -> (r: Result<Todo, Error>) {
        self.todo_store.update_todo(id, todo)
    }

    fn delete_todo(&mut self, id: u32) -> (r: Result<(), Error>) {
        self.todo_store.delete_todo(id)
    }
}

} // verus!
