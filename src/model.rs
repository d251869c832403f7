use vstd::prelude::*;

verus! {

/// Shortest text a todo may carry, in characters.
pub const TEXT_MIN_CHARS: usize = 1;

/// Longest text a todo may carry, in characters.
pub const TEXT_MAX_CHARS: usize = 200;

/// Whether a todo is still open or has been closed.
#[derive(Clone, Copy, Debug, PartialEq, Eq, Structural)]
pub enum TodoState {
    Opened,
    Closed,
}

/// A persisted todo item: its id is assigned by the store and never changes.
#[derive(Clone, Debug, PartialEq)]
pub struct Todo {
    pub id: u32,
    pub text: String,
    pub state: TodoState,
}

/// What a client submits to create a todo or to replace one: no id.
#[derive(Clone, Debug, PartialEq)]
pub struct TodoInput {
    pub text: String,
    pub state: TodoState,
}

/// One field that failed its validation rule.
#[derive(Clone, Debug, PartialEq)]
pub struct FieldViolation {
    pub field: String,
    pub message: String,
}

/// The text rule: between one and two hundred characters.
pub open spec fn text_is_valid(text: Seq<char>) -> bool {
    TEXT_MIN_CHARS <= text.len() <= TEXT_MAX_CHARS
}

/// The todo that an input becomes under a given id.
pub open spec fn todo_from_input(id: u32, input: TodoInput) -> Todo {
    Todo { id, text: input.text, state: input.state }
}

/// The message given for a text outside its allowed length.
pub open spec fn text_length_message() -> Seq<char> {
    "Can not be empty or longer then 200 characters"@
}

/// The violations that an input has, in field order.
pub open spec fn violations_of(input: TodoInput) -> Seq<(Seq<char>, Seq<char>)> {
    if text_is_valid(input.text@) {
        seq![]
    } else {
        seq![("text"@, text_length_message())]
    }
}

/// A list of violations as plain (field, message) pairs.
pub open spec fn violations_view(v: Seq<FieldViolation>) -> Seq<(Seq<char>, Seq<char>)> {
    v.map_values(|f: FieldViolation| (f.field@, f.message@))
}

impl Todo {
    /// A field-by-field copy.
    pub fn duplicate(&self) -> (r: Todo)
        ensures
            r == *self,
    {
        Todo { id: self.id, text: self.text.clone(), state: self.state }
    }
}

impl TodoInput {
    /// Checks every field rule and collects each violation, not just the first.
    pub fn validate(&self) -> (r: Result<(), Vec<FieldViolation>>)
        ensures
            r is Ok <==> violations_of(*self).len() == 0,
            r matches Err(v) ==> violations_view(v@) == violations_of(*self),
    {
        let mut violations: Vec<FieldViolation> = Vec::new();
        let n = self.text.as_str().unicode_len();
        if n < TEXT_MIN_CHARS || n > TEXT_MAX_CHARS {
            let field = String::from_str("text");
            let message = String::from_str("Can not be empty or longer then 200 characters");
            proof {
                reveal_strlit("text");
                reveal_strlit("Can not be empty or longer then 200 characters");
            }
            violations.push(FieldViolation { field, message });
        }
        if violations.len() == 0 {
            Ok(())
        } else {
            proof {
                assert(violations_view(violations@) =~= violations_of(*self));
            }
            Err(violations)
        }
    }
}

} // verus!
