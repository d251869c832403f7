use vstd::prelude::*;

use crate::error::{todo_not_found, Error};
use crate::model::{Todo, TodoInput};
use crate::use_cases::{
    can_create, created, has_id, ids_unique, lemma_create_keeps_unique, lemma_delete_keeps_unique,
    lemma_index_of_unique, lemma_max_id_bounds, lemma_update_keeps_unique, lookup, max_id,
    rows_after_create, rows_after_delete, rows_after_update, TodoOutputPort,
};

verus! {

/// A store that keeps its todos in memory, in the order they were created.
pub struct InMemoryTodoStore {
    todo_store: Vec<Todo>,
}

impl View for InMemoryTodoStore {
    type V = Seq<Todo>;

    closed spec fn view(&self) -> Seq<Todo> {
        self.todo_store@
    }
}

impl InMemoryTodoStore {
    /// An empty store.
    pub fn new() -> (r: Self)
        ensures
            r@ == Seq::<Todo>::empty(),
            ids_unique(r@),
    {
        InMemoryTodoStore { todo_store: Vec::new() }
    }

    /// The position of the todo with `id`, if any.
    fn position(&self, id: u32) -> (r: Option<usize>)
        requires
            ids_unique(self@),
        ensures
            r is Some <==> has_id(self@, id),
            r matches Some(i) ==> i < self@.len() && self@[i as int].id == id && lookup(self@, id)
                == Some(self@[i as int]) && crate::use_cases::index_of(self@, id) == i,
    {
        let mut i: usize = 0;
        while i < self.todo_store.len()
            invariant
                i <= self.todo_store@.len(),
                ids_unique(self@),
                forall|k: int| 0 <= k < i ==> #[trigger] self.todo_store@[k].id != id,
            decreases self.todo_store@.len() - i,
        {
            if self.todo_store[i].id == id {
                proof {
                    lemma_index_of_unique(self@, id, i as int);
                }
                return Some(i);
            }
            i = i + 1;
        }
        None
    }

    /// The largest stored id, or 1 when the store is empty.
    fn max_id(&self) -> (r: u32)
        ensures
            r == max_id(self@),
    {
        let mut m: u32 = 1;
        let mut i: usize = 0;
        while i < self.todo_store.len()
            invariant
                i <= self.todo_store@.len(),
                m == max_id(self.todo_store@.subrange(0, i as int)),
            decreases self.todo_store@.len() - i,
        {
            proof {
                let next = self.todo_store@.subrange(0, i + 1);
                assert(next.drop_last() =~= self.todo_store@.subrange(0, i as int));
            }
            if self.todo_store[i].id > m {
                m = self.todo_store[i].id;
            }
            i = i + 1;
        }
        assert(self.todo_store@.subrange(0, i as int) =~= self.todo_store@);
        m
    }
}

impl TodoOutputPort for InMemoryTodoStore {
    open spec fn rows(&self) -> Seq<Todo> {
        self@
    }

    fn list_todos(&self) -> (r: Result<Vec<Todo>, Error>) {
        let mut out: Vec<Todo> = Vec::new();
        let mut i: usize = 0;
        while i < self.todo_store.len()
            invariant
                i <= self.todo_store@.len(),
                out@ == self.todo_store@.subrange(0, i as int),
            decreases self.todo_store@.len() - i,
        {
            out.push(self.todo_store[i].duplicate());
            proof {
                assert(out@ =~= self.todo_store@.subrange(0, i + 1));
            }
            i = i + 1;
        }
        assert(self.todo_store@.subrange(0, i as int) =~= self.todo_store@);
        Ok(out)
    }

    fn get_todo(&self, id: u32) -> (r: Result<Todo, Error>) {
        match self.position(id) {
            Some(i) => Ok(self.todo_store[i].duplicate()),
            None => Err(todo_not_found(id)),
        }
    }

    fn create_todo(&mut self, todo: TodoInput) -> (r: Result<Todo, Error>) {
        proof {
            lemma_create_keeps_unique(self@, todo);
            lemma_max_id_bounds(self@);
        }
        let max = self.max_id();
        if max == u32::MAX {
            return Err(Error::Unexpected(String::from_str("no fresh todo id is left")));
        }
        let new_todo = Todo { id: max + 1, text: todo.text, state: todo.state };
        self.todo_store.push(new_todo.duplicate());
        Ok(new_todo)
    }

    fn update_todo(&mut self, id: u32, todo: TodoInput) -> (r: Result<Todo, Error>) {
        proof {
            lemma_update_keeps_unique(self@, id, todo);
        }
        match self.position(id) {
            Some(i) => {
                let updated = Todo { id, text: todo.text, state: todo.state };
                self.todo_store.set(i, updated.duplicate());
                Ok(updated)
            },
            None => Err(todo_not_found(id)),
        }
    }

    fn delete_todo(&mut self, id: u32) -> (r: Result<(), Error>) {
        proof {
            lemma_delete_keeps_unique(self@, id);
        }
        match self.position(id) {
            Some(i) => {
                self.todo_store.remove(i);
                Ok(())
            },
            None => Err(todo_not_found(id)),
        }
    }
}

} // verus!
