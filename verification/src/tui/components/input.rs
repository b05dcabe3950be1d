//! A one-line text input, edited as tui_input edits it: typed chars go in
//! at the cursor and Backspace deletes the grapheme before it. Only these
//! two edits are offered, so the cursor always stays at the end.

use vstd::prelude::*;

use tui_input::{Input, InputRequest};

use super::Key;

verus! {

/// What tui_input's `DeletePrevChar` leaves of an input holding `value` with
/// the cursor after `cursor` chars: the new value and cursor. It deletes the
/// whole grapheme cluster before the cursor, which Unicode segmentation decides.
pub uninterp spec fn delete_prev_grapheme(value: Seq<char>, cursor: nat) -> (Seq<char>, nat);

/// tui_input: `Input::handle(InsertChar(c))` on an input holding `value` with
/// the cursor after `cursor` chars: `c` goes in at the cursor, which moves
/// past it.
#[verifier::external_body]
fn input_insert_char(value: &str, cursor: usize, c: char) -> (r: (String, usize))
    requires
        cursor <= value@.len(),
        cursor < usize::MAX,
    ensures
        r.0@ == value@.insert(cursor as int, c),
        r.1 == cursor + 1,
{
    let mut input = Input::new(value.to_owned()).with_cursor(cursor);
    input.handle(InputRequest::InsertChar(c));
    (input.value().to_owned(), input.cursor())
}

/// tui_input: `Input::handle(DeletePrevChar)` on an input holding `value`
/// with the cursor after `cursor` chars. At the start nothing changes;
/// otherwise the chars of the grapheme before the cursor, at least one, are
/// removed and the cursor moves to where they began. How many chars that is
/// is not stated beyond the name [`delete_prev_grapheme`].
#[verifier::external_body]
fn input_delete_prev_char(value: &str, cursor: usize) -> (r: (String, usize))
    requires
        cursor <= value@.len(),
    ensures
        (r.0@, r.1 as nat) == delete_prev_grapheme(value@, cursor as nat),
        cursor == 0 ==> r.0@ == value@ && r.1 == 0,
        cursor > 0 ==> r.1 < cursor && r.0@ == value@.subrange(0, r.1 as int) + value@.subrange(
            cursor as int,
            value@.len() as int,
        ),
{
    let mut input = Input::new(value.to_owned()).with_cursor(cursor);
    input.handle(InputRequest::DeletePrevChar);
    (input.value().to_owned(), input.cursor())
}

/// A text input whose cursor sits at the end of its text.
pub struct TextInput {
    value: String,
    cursor: usize,
}

impl View for TextInput {
    type V = Seq<char>;

    closed spec fn view(&self) -> Seq<char> {
        self.value@
    }
}

impl TextInput {
    #[verifier::type_invariant]
    closed spec fn cursor_at_end(&self) -> bool {
        self.cursor == self.value@.len()
    }

    /// An empty input.
    pub fn new() -> (r: Self)
        ensures
            r@ == Seq::<char>::empty(),
    {
        TextInput { value: String::new(), cursor: 0 }
    }

    /// The text typed so far.
    pub fn value(&self) -> (r: &str)
        ensures
            r@ == self@,
    {
        self.value.as_str()
    }

    /// Types `c` at the end. (An input that already holds `usize::MAX - 1`
    /// chars takes no more.)
    pub fn insert_char(&mut self, c: char)
        ensures
            old(self)@.len() < usize::MAX - 1 ==> final(self)@ == old(self)@.push(c),
            old(self)@.len() >= usize::MAX - 1 ==> final(self)@ == old(self)@,
    {
        proof {
            use_type_invariant(&*self);
        }
        if self.cursor < usize::MAX - 1 {
            let (value, cursor) = input_insert_char(self.value.as_str(), self.cursor, c);
            assert(value@ =~= old(self)@.push(c));
            *self = TextInput { value, cursor };
        }
    }

    /// Backspace: removes the grapheme at the end, or nothing when empty.
    pub fn delete_prev_char(&mut self)
        ensures
            old(self)@.len() == 0 ==> final(self)@ == old(self)@,
            old(self)@.len() > 0 ==> final(self)@.len() < old(self)@.len() && final(self)@
                == old(self)@.take(final(self)@.len() as int),
            final(self)@ == delete_prev_grapheme(old(self)@, old(self)@.len()).0,
    {
        proof {
            use_type_invariant(&*self);
        }
        let (value, cursor) = input_delete_prev_char(self.value.as_str(), self.cursor);
        assert(old(self)@.subrange(self.cursor as int, old(self)@.len() as int) =~= Seq::<char>::empty());
        assert(cursor > 0 ==> value@ =~= old(self)@.subrange(0, cursor as int));
        *self = TextInput { value, cursor };
    }
}

/// Applies a key to a text input: a char is typed, Backspace deletes, any
/// other key is ignored.
pub fn apply_input(input: &mut TextInput, code: Key)
    ensures
        code matches Key::Char(c) ==> (old(input)@.len() < usize::MAX - 1 ==> final(input)@
            == old(input)@.push(c)),
        code is Backspace ==> final(input)@ == delete_prev_grapheme(old(input)@, old(input)@.len()).0,
        !(code is Char) && !(code is Backspace) ==> final(input)@ == old(input)@,
{
    match code {
        Key::Char(c) => {
            input.insert_char(c);
        },
        Key::Backspace => {
            input.delete_prev_char();
        },
        _ => {},
    }
}

} // verus!
