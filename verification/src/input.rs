//! The search field: one line of text with a cursor, kept by `tui_input`.
//!
//! The buffer itself is a `tui_input::Input`. What it holds is known here only
//! through `input_text` and `input_cursor`, and what a key does to it through
//! the contract of `forward_key`.

use crate::event::{Key, KeyEvent, KeyKind, CONTROL, META, NO_MODIFIERS, SHIFT};
use crossterm::event::{KeyCode, KeyModifiers};
use tui_input::backend::crossterm::EventHandler;
use vstd::prelude::*;

verus! {

/// `tui_input::Input`, the buffer behind the search field. Nothing is known
/// of a value of it but what `input_text` and `input_cursor` name.
#[verifier::external_type_specification]
#[verifier::external_body]
pub struct ExInput(tui_input::Input);

/// The characters that a `tui_input::Input` holds, first to last.
pub uninterp spec fn input_text(input: tui_input::Input) -> Seq<char>;

/// The cursor of a `tui_input::Input`: how many of its characters stand
/// before the cursor.
pub uninterp spec fn input_cursor(input: tui_input::Input) -> nat;

/// The text and cursor that `tui_input` leaves behind when one of the keys
/// bound to a word-wise edit reaches a buffer holding `text` with its cursor
/// at `cursor`. Where a word begins and ends is decided by Unicode's
/// alphanumeric classes, which are not restated here.
pub uninterp spec fn word_edit(text: Seq<char>, cursor: nat, key: KeyEvent) -> InputView;

/// What a search field holds: its characters and the number of them that
/// stand before the cursor.
pub ghost struct InputView {
    pub text: Seq<char>,
    pub cursor: nat,
}

impl InputView {
    /// The cursor lies within the text or directly behind it.
    pub open spec fn wf(self) -> bool {
        self.cursor <= self.text.len()
    }

    /// How far the text is scrolled in a window `width` columns wide.
    pub open spec fn scroll(self, width: nat) -> nat {
        scroll_for(self.cursor, width)
    }

    /// The part of the text that a window `width` columns wide shows: what
    /// follows the scroll, cut off at the window's width.
    pub open spec fn visible(self, width: nat) -> Seq<char> {
        let from = self.scroll(width) as int;
        let to = if from + width < self.text.len() {
            from + width
        } else {
            self.text.len() as int
        };
        self.text.subrange(from, to)
    }

    /// The empty field.
    pub open spec fn empty() -> InputView {
        InputView { text: Seq::empty(), cursor: 0 }
    }
}

/// What a key asks of the search field.
pub ghost enum Edit {
    InsertChar(char),
    DeletePrevChar,
    DeleteNextChar,
    GoToPrevChar,
    GoToNextChar,
    GoToPrevWord,
    GoToNextWord,
    GoToStart,
    GoToEnd,
    DeletePrevWord,
    DeleteNextWord,
    DeleteLine,
    DeleteTillEnd,
}

impl Edit {
    /// Whether the edit works on a whole word.
    pub open spec fn is_word_wise(self) -> bool {
        self is GoToPrevWord || self is GoToNextWord || self is DeletePrevWord
            || self is DeleteNextWord
    }
}

/// The edit that a key is bound to, if any. Only presses are bound, and a
/// binding asks for exactly the modifiers it names.
pub open spec fn binding(key: KeyEvent) -> Option<Edit> {
    let plain = key.modifiers == NO_MODIFIERS;
    let shift = key.modifiers == SHIFT;
    let control = key.modifiers == CONTROL;
    let meta = key.modifiers == META;
    if key.kind != KeyKind::Press {
        None
    } else {
        match key.code {
            Key::Backspace => if plain {
                Some(Edit::DeletePrevChar)
            } else if meta {
                Some(Edit::DeletePrevWord)
            } else {
                None
            },
            Key::Delete => if plain {
                Some(Edit::DeleteNextChar)
            } else if control {
                Some(Edit::DeleteNextWord)
            } else {
                None
            },
            Key::Left => if plain {
                Some(Edit::GoToPrevChar)
            } else if control {
                Some(Edit::GoToPrevWord)
            } else {
                None
            },
            Key::Right => if plain {
                Some(Edit::GoToNextChar)
            } else if control {
                Some(Edit::GoToNextWord)
            } else {
                None
            },
            Key::Home => if plain {
                Some(Edit::GoToStart)
            } else {
                None
            },
            Key::End => if plain {
                Some(Edit::GoToEnd)
            } else {
                None
            },
            Key::Char(c) => if plain || shift {
                Some(Edit::InsertChar(c))
            } else if control {
                control_binding(c)
            } else if meta {
                meta_binding(c)
            } else {
                None
            },
            _ => None,
        }
    }
}

/// The edit bound to a character key pressed with Control alone.
pub open spec fn control_binding(c: char) -> Option<Edit> {
    if c == 'h' {
        Some(Edit::DeletePrevChar)
    } else if c == 'b' {
        Some(Edit::GoToPrevChar)
    } else if c == 'f' {
        Some(Edit::GoToNextChar)
    } else if c == 'u' {
        Some(Edit::DeleteLine)
    } else if c == 'w' {
        Some(Edit::DeletePrevWord)
    } else if c == 'k' {
        Some(Edit::DeleteTillEnd)
    } else if c == 'a' {
        Some(Edit::GoToStart)
    } else if c == 'e' {
        Some(Edit::GoToEnd)
    } else {
        None
    }
}

/// The edit bound to a character key pressed with Meta alone.
pub open spec fn meta_binding(c: char) -> Option<Edit> {
    if c == 'b' {
        Some(Edit::GoToPrevWord)
    } else if c == 'f' {
        Some(Edit::GoToNextWord)
    } else if c == 'd' {
        Some(Edit::DeletePrevWord)
    } else {
        None
    }
}

/// The field after a character-wise edit. Word-wise edits are `word_edit`'s.
pub open spec fn char_edit(v: InputView, edit: Edit) -> InputView {
    match edit {
        Edit::InsertChar(c) => InputView {
            text: v.text.insert(v.cursor as int, c),
            cursor: v.cursor + 1,
        },
        Edit::DeletePrevChar => if v.cursor == 0 {
            v
        } else {
            InputView { text: v.text.remove(v.cursor - 1), cursor: (v.cursor - 1) as nat }
        },
        Edit::DeleteNextChar => if v.cursor == v.text.len() {
            v
        } else {
            InputView { text: v.text.remove(v.cursor as int), cursor: v.cursor }
        },
        Edit::GoToPrevChar => if v.cursor == 0 {
            v
        } else {
            InputView { text: v.text, cursor: (v.cursor - 1) as nat }
        },
        Edit::GoToNextChar => if v.cursor == v.text.len() {
            v
        } else {
            InputView { text: v.text, cursor: v.cursor + 1 }
        },
        Edit::GoToStart => InputView { text: v.text, cursor: 0 },
        Edit::GoToEnd => InputView { text: v.text, cursor: v.text.len() },
        Edit::DeleteLine => if v.text.len() == 0 {
            v
        } else {
            InputView::empty()
        },
        Edit::DeleteTillEnd => InputView { text: v.text.take(v.cursor as int), cursor: v.cursor },
        _ => v,
    }
}

/// The field after a key has reached it: unchanged where the key is bound to
/// nothing, edited as the binding says otherwise.
pub open spec fn key_effect(v: InputView, key: KeyEvent) -> InputView {
    match binding(key) {
        None => v,
        Some(edit) => if edit.is_word_wise() {
            word_edit(v.text, v.cursor, key)
        } else {
            char_edit(v, edit)
        },
    }
}

/// What a `tui_input::Input` holds.
pub open spec fn contents(input: tui_input::Input) -> InputView {
    InputView { text: input_text(input), cursor: input_cursor(input) }
}

/// Whether the key is bound to an edit that works on a whole word.
pub open spec fn bound_word_wise(key: KeyEvent) -> bool {
    match binding(key) {
        Some(edit) => edit.is_word_wise(),
        None => false,
    }
}

/// The scroll of a window `width` columns wide over a line with its cursor
/// at `cursor`: the least scroll that leaves the cursor inside the window,
/// and never more than the cursor itself.
pub open spec fn scroll_for(cursor: nat, width: nat) -> nat {
    if width == 0 {
        cursor
    } else if cursor < width {
        0
    } else {
        (cursor - width + 1) as nat
    }
}

/// `<tui_input::Input as Default>::default`: an empty buffer with its cursor
/// at the start.
pub assume_specification[ <tui_input::Input as Default>::default ]() -> (input: tui_input::Input)
    ensures
        input_text(input) == Seq::<char>::empty(),
        input_cursor(input) == 0,
;

/// `tui_input::Input::value`: the buffer's text.
pub assume_specification[ tui_input::Input::value ](input: &tui_input::Input) -> (value: &str)
    ensures
        value@ == input_text(*input),
;

/// `tui_input::Input::cursor`: the number of characters before the cursor.
pub assume_specification[ tui_input::Input::cursor ](input: &tui_input::Input) -> (cursor: usize)
    ensures
        cursor == input_cursor(*input),
;

/// `tui_input`'s `handle_event` on the `crossterm` press that stands for
/// `key`, with `Other` handed on as `Null`, a code that nothing is bound to.
/// It looks the key up in its bindings and applies the edit it finds: the
/// character-wise edits do what `char_edit` says, the word-wise ones are
/// named by `word_edit`, and none of them moves the cursor out of the text.
#[verifier::external_body]
fn forward_key(input: &mut tui_input::Input, key: KeyEvent)
    requires
        contents(*old(input)).wf(),
        key.kind == KeyKind::Press,
    ensures
        contents(*final(input)) == key_effect(contents(*old(input)), key),
        bound_word_wise(key) ==> contents(*final(input)) == word_edit(
            input_text(*old(input)),
            input_cursor(*old(input)),
            key,
        ),
        contents(*final(input)).wf(),
    no_unwind
{
    let code = match key.code {
        Key::Backspace => KeyCode::Backspace,
        Key::Enter => KeyCode::Enter,
        Key::Left => KeyCode::Left,
        Key::Right => KeyCode::Right,
        Key::Home => KeyCode::Home,
        Key::End => KeyCode::End,
        Key::Delete => KeyCode::Delete,
        Key::Char(c) => KeyCode::Char(c),
        Key::Esc => KeyCode::Esc,
        Key::Other => KeyCode::Null,
    };
    let modifiers = KeyModifiers::from_bits_retain(key.modifiers);
    let press = crossterm::event::KeyEvent::new(code, modifiers);
    input.handle_event(&crossterm::event::Event::Key(press));
}

/// The search field.
#[derive(Debug)]
pub struct InputBuffer {
    inner: tui_input::Input,
}

impl View for InputBuffer {
    type V = InputView;

    closed spec fn view(&self) -> InputView {
        contents(self.inner)
    }
}

impl InputBuffer {
    #[verifier::type_invariant]
    spec fn cursor_within_text(self) -> bool {
        contents(self.inner).wf()
    }

    /// An empty field with the cursor at its start.
    pub fn new() -> (buffer: InputBuffer)
        ensures
            buffer@ == InputView::empty(),
    {
        InputBuffer { inner: Default::default() }
    }

    /// The text of the field.
    pub fn value(&self) -> (value: &str)
        ensures
            value@ == self@.text,
    {
        self.inner.value()
    }

    /// The number of characters before the cursor, never more than the text
    /// has.
    pub fn cursor(&self) -> (cursor: usize)
        ensures
            cursor == self@.cursor,
            self@.wf(),
    {
        proof {
            use_type_invariant(self);
        }
        self.inner.cursor()
    }

    /// How far the text is scrolled in a window `width` columns wide: as
    /// little as leaves the cursor inside the window, and all the way to the
    /// cursor where the window has no column.
    pub fn visual_scroll(&self, width: usize) -> (scroll: usize)
        ensures
            scroll == self@.scroll(width as nat),
            scroll <= self@.cursor,
    {
        let cursor = self.cursor();
        if width == 0 {
            cursor
        } else if cursor < width {
            0
        } else {
            cursor - width + 1
        }
    }

    /// The part of the text that a window `width` columns wide shows.
    pub fn visible(&self, width: usize) -> (shown: String)
        ensures
            shown@ == self@.visible(width as nat),
    {
        proof {
            use_type_invariant(self);
        }
        let value = self.value();
        let len = value.unicode_len();
        let from = self.visual_scroll(width);
        let to = if width < len - from {
            from + width
        } else {
            len
        };
        value.substring_char(from, to).to_owned()
    }

    /// Hands a key to the field, which edits itself as `key_effect` says.
    pub fn handle_key(&mut self, key: KeyEvent)
        ensures
            final(self)@ == key_effect(old(self)@, key),
            final(self)@.wf(),
    {
        proof {
            use_type_invariant(&*self);
        }
        match key.kind {
            KeyKind::Press => forward_key(&mut self.inner, key),
            _ => {},
        }
    }
}

/// In a window of at least one column the scroll does not pass the cursor
/// and leaves the cursor inside the window, whatever the field holds.
pub proof fn lemma_scroll_shows_cursor(v: InputView, width: nat)
    requires
        width >= 1,
    ensures
        0 <= v.scroll(width) <= v.cursor,
        v.cursor - v.scroll(width) < width,
{
}

/// No smaller scroll leaves the cursor inside a window of at least one
/// column.
pub proof fn lemma_scroll_is_least(cursor: nat, width: nat, scroll: nat)
    requires
        width >= 1,
        cursor - scroll < width,
    ensures
        scroll_for(cursor, width) <= scroll,
{
}

/// In a window of at least one column the scroll is `cursor - width + 1`,
/// or zero where that is negative.
pub proof fn lemma_scroll_formula(cursor: nat, width: nat)
    requires
        width >= 1,
    ensures
        scroll_for(cursor, width) == if cursor - width + 1 > 0 {
            cursor - width + 1
        } else {
            0
        },
{
}

/// A character-wise edit leaves the cursor within the text when it was
/// there before. Of the word-wise edits the same is taken from `tui_input`.
pub proof fn lemma_char_edit_keeps_cursor_in_text(v: InputView, edit: Edit)
    requires
        v.wf(),
        !edit.is_word_wise(),
    ensures
        char_edit(v, edit).wf(),
{
}

} // verus!
