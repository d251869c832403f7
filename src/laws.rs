use vstd::prelude::*;

use crate::model::{text_is_valid, todo_from_input, Todo, TodoInput};
use crate::use_cases::{
    can_create, created, has_id, ids_unique, index_of, lemma_create_keeps_unique,
    lemma_delete_keeps_unique, lemma_index_of_unique, lemma_update_keeps_unique, lookup,
    rows_after_create, rows_after_delete, rows_after_update,
};

verus! {

/// A create gives an id that no stored todo has, and keeps the input's text and state.
pub proof fn law_create_fresh(rows: Seq<Todo>, input: TodoInput)
    requires
        ids_unique(rows),
        text_is_valid(input.text@),
        can_create(rows),
    ensures
        !has_id(rows, created(rows, input).id),
        created(rows, input).text == input.text,
        created(rows, input).state == input.state,
        ids_unique(rows_after_create(rows, input)),
{
    lemma_create_keeps_unique(rows, input);
}

/// Reading the id a create gave returns exactly the created todo.
pub proof fn law_get_after_create(rows: Seq<Todo>, input: TodoInput)
    requires
        ids_unique(rows),
        can_create(rows),
    ensures
        lookup(rows_after_create(rows, input), created(rows, input).id) == Some(
            created(rows, input),
        ),
{
    lemma_create_keeps_unique(rows, input);
    let after = rows_after_create(rows, input);
    lemma_index_of_unique(after, created(rows, input).id, rows.len() as int);
}

/// After a delete, no todo has the deleted id: reading it finds nothing.
pub proof fn law_get_after_delete(rows: Seq<Todo>, id: u32)
    requires
        ids_unique(rows),
    ensures
        !has_id(rows_after_delete(rows, id), id),
        lookup(rows_after_delete(rows, id), id) is None,
{
    lemma_delete_keeps_unique(rows, id);
}

/// An update of a stored id replaces its text and state, keeps its id, and leaves the
/// number of todos as it was.
pub proof fn law_update_existing(rows: Seq<Todo>, id: u32, input: TodoInput)
    requires
        ids_unique(rows),
        has_id(rows, id),
    ensures
        lookup(rows_after_update(rows, id, input), id) == Some(todo_from_input(id, input)),
        rows_after_update(rows, id, input).len() == rows.len(),
{
    lemma_update_keeps_unique(rows, id, input);
    let after = rows_after_update(rows, id, input);
    lemma_index_of_unique(after, id, index_of(rows, id));
}

/// A delete of a stored id takes exactly one todo away.
pub proof fn law_delete_existing(rows: Seq<Todo>, id: u32)
    requires
        ids_unique(rows),
        has_id(rows, id),
    ensures
        rows_after_delete(rows, id).len() == rows.len() - 1,
        !has_id(rows_after_delete(rows, id), id),
{
    lemma_delete_keeps_unique(rows, id);
}

/// One operation on the store.
pub enum Operation {
    Create(TodoInput),
    Update(u32, TodoInput),
    Delete(u32),
}

/// The rows after one operation.
pub open spec fn apply(rows: Seq<Todo>, op: Operation) -> Seq<Todo> {
    match op {
        Operation::Create(input) => rows_after_create(rows, input),
        Operation::Update(id, input) => rows_after_update(rows, id, input),
        Operation::Delete(id) => rows_after_delete(rows, id),
    }
}

/// Whether an operation succeeds on these rows.
pub open spec fn succeeds(rows: Seq<Todo>, op: Operation) -> bool {
    match op {
        Operation::Create(_) => can_create(rows),
        Operation::Update(id, _) => has_id(rows, id),
        Operation::Delete(id) => has_id(rows, id),
    }
}

/// The rows after a run of operations on an empty store.
pub open spec fn run(ops: Seq<Operation>) -> Seq<Todo>
    decreases ops.len(),
{
    if ops.len() == 0 {
        Seq::empty()
    } else {
        apply(run(ops.drop_last()), ops.last())
    }
}

/// How many creates of a run succeeded.
pub open spec fn creates_done(ops: Seq<Operation>) -> int
    decreases ops.len(),
{
    if ops.len() == 0 {
        0
    } else {
        let before = ops.drop_last();
        creates_done(before) + if ops.last() is Create && succeeds(run(before), ops.last()) {
            1int
        } else {
            0
        }
    }
}

/// How many deletes of a run succeeded.
pub open spec fn deletes_done(ops: Seq<Operation>) -> int
    decreases ops.len(),
{
    if ops.len() == 0 {
        0
    } else {
        let before = ops.drop_last();
        deletes_done(before) + if ops.last() is Delete && succeeds(run(before), ops.last()) {
            1int
        } else {
            0
        }
    }
}

/// At every point of any run, the store holds as many todos as were created and not deleted,
/// and no two of them share an id.
pub proof fn law_count_is_created_minus_deleted(ops: Seq<Operation>)
    ensures
        ids_unique(run(ops)),
        run(ops).len() == creates_done(ops) - deletes_done(ops),
    decreases ops.len(),
{
    if ops.len() > 0 {
        let before = ops.drop_last();
        law_count_is_created_minus_deleted(before);
        let rows = run(before);
        match ops.last() {
            Operation::Create(input) => {
                lemma_create_keeps_unique(rows, input);
            },
            Operation::Update(id, input) => {
                lemma_update_keeps_unique(rows, id, input);
            },
            Operation::Delete(id) => {
                lemma_delete_keeps_unique(rows, id);
            },
        }
    }
}


/// The ids that the successful creates of a run gave out.
pub open spec fn created_ids(ops: Seq<Operation>) -> Set<u32>
    decreases ops.len(),
{
    if ops.len() == 0 {
        Set::empty()
    } else {
        let before = ops.drop_last();
        let rows = run(before);
        match ops.last() {
            Operation::Create(input) => if can_create(rows) {
                created_ids(before).insert(created(rows, input).id)
            } else {
                created_ids(before)
            },
            _ => created_ids(before),
        }
    }
}

/// A run with no delete in it.
pub open spec fn has_no_delete(ops: Seq<Operation>) -> bool {
    forall|i: int| 0 <= i < ops.len() ==> !(#[trigger] ops[i] is Delete)
}

/// Without deletes, every id a create gave out is still stored.
proof fn lemma_created_ids_stored(ops: Seq<Operation>)
    requires
        has_no_delete(ops),
    ensures
        forall|x: u32| #[trigger] created_ids(ops).contains(x) ==> has_id(run(ops), x),
    decreases ops.len(),
{
    if ops.len() > 0 {
        let before = ops.drop_last();
        assert forall|i: int| 0 <= i < before.len() implies !(#[trigger] before[i] is Delete) by {
            assert(before[i] == ops[i]);
        }
        lemma_created_ids_stored(before);
        let rows = run(before);
        let after = run(ops);
        assert(!(ops[ops.len() - 1] is Delete));
        assert forall|x: u32| #[trigger] created_ids(ops).contains(x) implies has_id(after, x) by {
            match ops.last() {
                Operation::Create(input) => {
                    if can_create(rows) && x == created(rows, input).id {
                        assert(after[rows.len() as int].id == x);
                    } else {
                        assert(created_ids(before).contains(x));
                        let j = choose|j: int| 0 <= j < rows.len() && #[trigger] rows[j].id == x;
                        assert(after[j].id == x);
                    }
                },
                Operation::Update(id, input) => {
                    assert(created_ids(before).contains(x));
                    let j = choose|j: int| 0 <= j < rows.len() && #[trigger] rows[j].id == x;
                    if has_id(rows, id) {
                        let k = index_of(rows, id);
                        assert(after[j].id == rows[j].id);
                    }
                    assert(after[j].id == x);
                },
                Operation::Delete(_) => {},
            }
        }
    }
}

/// In a run without deletes, a create gives an id that no earlier create ever gave.
pub proof fn law_create_id_never_given_before(ops: Seq<Operation>, input: TodoInput)
    requires
        has_no_delete(ops),
        can_create(run(ops)),
    ensures
        !created_ids(ops).contains(created(run(ops), input).id),
{
    law_count_is_created_minus_deleted(ops);
    lemma_created_ids_stored(ops);
    lemma_create_keeps_unique(run(ops), input);
}

} // verus!
