//! The application: its two modes, what a key does in each, and the frame
//! that shows its state.

use crate::event::{Event, Key, KeyEvent, KeyKind, NO_MODIFIERS};
use crate::frame::{
    can_hold_input, cursor_cell, inner_width, texts, Alignment, BlockModel, BlockView, FrameModel,
    FrameView, InputStyle, CONTENT_TITLE, HELP, INPUT_PADDING, INPUT_TITLE, TITLE,
};
use crate::input::{key_effect, InputBuffer, InputView};
use crate::layout::{FrameLayout, Rect};
use vstd::prelude::*;

verus! {

/// Whether keys edit the search field or steer the application.
#[derive(Clone, Copy, Debug, PartialEq, Eq, Structural)]
pub enum InputMode {
    Editing,
    Normal,
}

/// The state of the application.
#[derive(Debug)]
pub struct App {
    input_mode: InputMode,
    exit: bool,
    input: InputBuffer,
    search_items: Vec<String>,
    selected_item: String,
}

/// The state of the application as plain values.
pub ghost struct AppView {
    pub mode: InputMode,
    pub exit: bool,
    pub input: InputView,
    pub search_items: Seq<Seq<char>>,
    pub selected_item: Seq<char>,
}

impl AppView {
    /// The state at startup: Normal mode, not exiting, nothing typed, no
    /// results, nothing selected.
    pub open spec fn initial() -> AppView {
        AppView {
            mode: InputMode::Normal,
            exit: false,
            input: InputView::empty(),
            search_items: Seq::empty(),
            selected_item: Seq::empty(),
        }
    }

    /// Whether the key asks to leave the application from Normal mode.
    pub open spec fn quits(key: KeyEvent) -> bool {
        key.code == Key::Char('q') || key.code == Key::Esc
    }

    /// Whether the key ends the editing of the search field.
    pub open spec fn leaves_editing(key: KeyEvent) -> bool {
        key.code == Key::Enter || key.code == Key::Esc
    }

    /// The state after a key. In Normal mode `q` and `Esc` set the exit flag,
    /// `s` switches to Editing, and every other key is ignored. In Editing
    /// mode `Enter` and `Esc` switch to Normal, and every other key goes to
    /// the search field.
    pub open spec fn on_key(self, key: KeyEvent) -> AppView {
        match self.mode {
            InputMode::Normal => if Self::quits(key) {
                AppView { exit: true, ..self }
            } else if key.code == Key::Char('s') {
                AppView { mode: InputMode::Editing, ..self }
            } else {
                self
            },
            InputMode::Editing => if Self::leaves_editing(key) {
                AppView { mode: InputMode::Normal, ..self }
            } else {
                AppView { input: key_effect(self.input, key), ..self }
            },
        }
    }

    /// The state after an event: only the press of a key changes it.
    pub open spec fn on_event(self, event: Event) -> AppView {
        match event {
            Event::Key(key) => if key.kind == KeyKind::Press {
                self.on_key(key)
            } else {
                self
            },
            _ => self,
        }
    }

    /// The state after a sequence of events, first to last.
    pub open spec fn replay(self, events: Seq<Event>) -> AppView
        decreases events.len(),
    {
        if events.len() == 0 {
            self
        } else {
            self.replay(events.drop_last()).on_event(events.last())
        }
    }

    /// How many of the events the loop takes before it stops: it takes one
    /// after another until the exit flag is set or none is left.
    pub open spec fn taken(self, events: Seq<Event>) -> nat
        decreases events.len(),
    {
        if self.exit || events.len() == 0 {
            0
        } else {
            1 + self.on_event(events.first()).taken(events.drop_first())
        }
    }

    /// The frame that shows this state in the given regions: the centred
    /// title line; the bordered and padded search box with the whole text of
    /// the field, yellow while it is edited, scrolled so far that the cursor
    /// stays in the box; the cursor, hidden in Normal mode; the bordered list
    /// of results under its centred title; and the centred help line.
    pub open spec fn frame(self, layout: FrameLayout) -> FrameModel {
        FrameModel {
            title: BlockModel::line(layout.title, TITLE@),
            input_box: BlockModel::boxed(
                layout.input_box,
                INPUT_TITLE@,
                Alignment::Left,
                INPUT_PADDING,
            ),
            input: self.input.text,
            input_style: match self.mode {
                InputMode::Normal => InputStyle::Plain,
                InputMode::Editing => InputStyle::Yellow,
            },
            scroll: self.input.scroll(inner_width(layout.input_box.width) as nat),
            cursor: match self.mode {
                InputMode::Normal => None,
                InputMode::Editing => Some(cursor_cell(layout.input_box, self.input)),
            },
            content: BlockModel::boxed(layout.content, CONTENT_TITLE@, Alignment::Center, 0),
            items: self.search_items,
            help: BlockModel::line(layout.help, HELP@),
        }
    }
}

impl View for App {
    type V = AppView;

    closed spec fn view(&self) -> AppView {
        AppView {
            mode: self.input_mode,
            exit: self.exit,
            input: self.input@,
            search_items: texts(self.search_items@),
            selected_item: self.selected_item@,
        }
    }
}

impl Default for App {
    /// The application at startup.
    fn default() -> (app: App)
        ensures
            app@ == AppView::initial(),
    {
        let app = App {
            input_mode: InputMode::Normal,
            exit: false,
            input: InputBuffer::new(),
            search_items: Vec::new(),
            selected_item: String::new(),
        };
        assert(texts(app.search_items@) =~= Seq::empty());
        app
    }
}

/// An area that a frame can be drawn into: wide enough for the search box,
/// and ending at a column and above a row that a `u16` can hold.
pub open spec fn can_render(area: Rect) -> bool {
    &&& area.width >= 5
    &&& area.right() <= u16::MAX
    &&& area.bottom() < u16::MAX
}

/// The area of the frame that follows an event: a resize gives the terminal
/// a new size, and the frame fills it from the top-left corner; any other
/// event leaves the area as it was.
pub open spec fn area_after(area: Rect, event: Event) -> Rect {
    match event {
        Event::Resize(columns, rows) => Rect { x: 0, y: 0, width: columns, height: rows },
        _ => area,
    }
}

/// The area of the frame that follows a sequence of events.
pub open spec fn area_at(area: Rect, events: Seq<Event>) -> Rect
    decreases events.len(),
{
    if events.len() == 0 {
        area
    } else {
        area_after(area_at(area, events.drop_last()), events.last())
    }
}

/// Whether a frame can be drawn after the event whatever the area was
/// before: a resize must leave an area that `can_render` accepts.
pub open spec fn keeps_renderable(event: Event) -> bool {
    match event {
        Event::Resize(columns, rows) => can_render(
            Rect { x: 0, y: 0, width: columns, height: rows },
        ),
        _ => true,
    }
}

impl App {
    /// The current mode.
    pub fn input_mode(&self) -> (mode: InputMode)
        ensures
            mode == self@.mode,
    {
        self.input_mode
    }

    /// Whether the exit flag is set.
    pub fn should_exit(&self) -> (exit: bool)
        ensures
            exit == self@.exit,
    {
        self.exit
    }

    /// The search field.
    pub fn input(&self) -> (input: &InputBuffer)
        ensures
            input@ == self@.input,
    {
        &self.input
    }

    /// The results on display.
    pub fn search_items(&self) -> (items: &Vec<String>)
        ensures
            texts(items@) == self@.search_items,
    {
        &self.search_items
    }

    /// The selected result.
    pub fn selected_item(&self) -> (item: &String)
        ensures
            item@ == self@.selected_item,
    {
        &self.selected_item
    }

    /// Plays the loop over a recorded session: draw a frame, take the next
    /// event, and so on until the exit flag is set or the record ends, where
    /// the loop would wait on the frame it has just drawn. Returns the frames
    /// drawn, first to last: frame `k` shows the state after `k` events, in
    /// the area that the resizes among them have left.
    pub fn run(&mut self, area: Rect, events: &Vec<Event>) -> (frames: Vec<FrameView>)
        requires
            can_render(area),
            forall|i: int| 0 <= i < events@.len() ==> keeps_renderable(#[trigger] events@[i]),
        ensures
            final(self)@ == old(self)@.replay(events@.take(old(self)@.taken(events@) as int)),
            frames@.len() == old(self)@.taken(events@) + if final(self)@.exit {
                0nat
            } else {
                1nat
            },
            forall|k: int|
                0 <= k < frames@.len() ==> {
                    let shown = old(self)@.replay(events@.take(k));
                    let within = area_at(area, events@.take(k));
                    &&& !shown.exit
                    &&& (#[trigger] frames@[k])@ == shown.frame(frames@[k]@.layout())
                    &&& frames@[k]@.layout().is_within(within)
                    &&& within.height >= 5 ==> frames@[k]@.layout() == FrameLayout::stack(within)
                },
    {
        let mut frames: Vec<FrameView> = Vec::new();
        let first = area;
        let mut area = area;
        let mut i: usize = 0;
        proof {
            assert(events@.take(0) =~= Seq::empty());
            assert(events@.skip(0) =~= events@);
        }
        while !self.exit && i < events.len()
            invariant
                i <= events@.len(),
                forall|j: int| 0 <= j < events@.len() ==> keeps_renderable(#[trigger] events@[j]),
                self@ == old(self)@.replay(events@.take(i as int)),
                area == area_at(first, events@.take(i as int)),
                can_render(area),
                old(self)@.taken(events@) == i + self@.taken(events@.skip(i as int)),
                frames@.len() == i,
                forall|k: int|
                    0 <= k < frames@.len() ==> {
                        let shown = old(self)@.replay(events@.take(k));
                        let within = area_at(first, events@.take(k));
                        &&& !shown.exit
                        &&& (#[trigger] frames@[k])@ == shown.frame(frames@[k]@.layout())
                        &&& frames@[k]@.layout().is_within(within)
                        &&& within.height >= 5 ==> frames@[k]@.layout() == FrameLayout::stack(
                            within,
                        )
                    },
            decreases events@.len() - i,
        {
            let frame = self.render_frame(area);
            frames.push(frame);
            let event = events[i];
            self.handle_events(event);
            match event {
                Event::Resize(columns, rows) => {
                    area = Rect { x: 0, y: 0, width: columns, height: rows };
                },
                _ => {},
            }
            proof {
                let rest = events@.skip(i as int);
                let next = events@.take(i + 1);
                assert(next.drop_last() =~= events@.take(i as int));
                assert(next.last() == events@[i as int]);
                assert(rest.first() == events@[i as int]);
                assert(rest.drop_first() =~= events@.skip(i + 1));
            }
            i += 1;
        }
        if !self.exit {
            let frame = self.render_frame(area);
            frames.push(frame);
        }
        frames
    }

    /// Takes one event read from the terminal. The press of a key goes to
    /// `handle_key_event`; repeats, releases, resizes and everything else
    /// leave the state as it is.
    pub fn handle_events(&mut self, event: Event)
        ensures
            final(self)@ == old(self)@.on_event(event),
    {
        match event {
            Event::Key(key_event) => match key_event.kind {
                KeyKind::Press => self.handle_key_event(key_event),
                _ => {},
            },
            _ => {},
        }
    }

    /// Takes one key, as `AppView::on_key` says.
    pub fn handle_key_event(&mut self, key_event: KeyEvent)
        ensures
            final(self)@ == old(self)@.on_key(key_event),
    {
        match self.input_mode {
            InputMode::Editing => match key_event.code {
                Key::Enter => self.input_mode = InputMode::Normal,
                Key::Esc => {
                    self.input_mode = InputMode::Normal;
                },
                _ => {
                    self.input.handle_key(key_event);
                },
            },
            InputMode::Normal => match key_event.code {
                Key::Char('q') | Key::Esc => self.exit(),
                Key::Char('s') => self.input_mode = InputMode::Editing,
                _ => {},
            },
        }
    }

    /// Sets the exit flag.
    fn exit(&mut self)
        ensures
            final(self)@ == (AppView { exit: true, ..old(self)@ }),
    {
        self.exit = true;
    }

    /// The frame that shows the current state in `area`. The regions come
    /// from `FrameLayout::split`, so they are bands of `area`, and the stack
    /// of one, three, the remaining and one rows where `area` has five rows
    /// or more; what stands in them is `AppView::frame`.
    pub fn render_frame(&self, area: Rect) -> (frame: FrameView)
        requires
            can_render(area),
        ensures
            frame@ == self@.frame(frame@.layout()),
            frame@.layout().is_within(area),
            area.height >= 5 ==> frame@.layout() == FrameLayout::stack(area),
    {
        let layout = FrameLayout::split(area);
        self.compose_frame(layout)
    }

    /// The frame that shows the current state in the given regions.
    pub fn compose_frame(&self, layout: FrameLayout) -> (frame: FrameView)
        requires
            can_hold_input(layout.input_box),
        ensures
            frame@ == self@.frame(layout),
    {
        let input_box = layout.input_box;
        let width: u16 = (if input_box.width > 3 {
            input_box.width
        } else {
            3
        }) - 3 - 2;
        let scroll: usize = self.input.visual_scroll(width as usize);
        let cursor = match self.input_mode {
            InputMode::Normal => None,
            InputMode::Editing => {
                let ahead: usize = self.input.cursor() - scroll;
                Some((input_box.x + (ahead as u16) + 1 + 1, input_box.y + 1))
            },
        };
        let mut items: Vec<String> = Vec::new();
        let mut i: usize = 0;
        while i < self.search_items.len()
            invariant
                i <= self.search_items.len(),
                items@ == self.search_items@.take(i as int),
            decreases self.search_items.len() - i,
        {
            items.push(self.search_items[i].clone());
            assert(items@ =~= self.search_items@.take(i + 1));
            i += 1;
        }
        assert(items@ =~= self.search_items@);
        FrameView {
            title: BlockView::line(layout.title, TITLE),
            input_box: BlockView::boxed(input_box, INPUT_TITLE, Alignment::Left, INPUT_PADDING),
            input: self.input.value().to_owned(),
            input_style: match self.input_mode {
                InputMode::Normal => InputStyle::Plain,
                InputMode::Editing => InputStyle::Yellow,
            },
            scroll,
            cursor,
            content: BlockView::boxed(layout.content, CONTENT_TITLE, Alignment::Center, 0),
            items,
            help: BlockView::line(layout.help, HELP),
        }
    }
}

/// Whatever events arrive, the application is in Normal or in Editing mode
/// after each of them.
pub proof fn lemma_mode_is_normal_or_editing(s: AppView, events: Seq<Event>)
    ensures
        forall|k: int|
            0 <= k <= events.len() ==> {
                let mode = (#[trigger] s.replay(events.take(k))).mode;
                mode == InputMode::Normal || mode == InputMode::Editing
            },
{
}

/// A key sets the exit flag exactly when it is `q` or `Esc` and arrives in
/// Normal mode; no key clears the flag, and none sets it in Editing mode.
pub proof fn lemma_only_quit_keys_set_exit(s: AppView, key: KeyEvent)
    ensures
        s.on_key(key).exit == (s.exit || (s.mode == InputMode::Normal && AppView::quits(key))),
        s.mode == InputMode::Normal && AppView::quits(key) ==> s.on_key(key) == (AppView {
            exit: true,
            ..s
        }),
{
}

/// An event sets the exit flag exactly when it is the press of `q` or `Esc`
/// and arrives in Normal mode.
pub proof fn lemma_only_quit_presses_set_exit(s: AppView, event: Event)
    ensures
        s.on_event(event).exit == (s.exit || (s.mode == InputMode::Normal && match event {
            Event::Key(key) => key.kind == KeyKind::Press && AppView::quits(key),
            _ => false,
        })),
{
}

/// In Editing mode `Enter` and `Esc` switch to Normal mode and change
/// nothing else: the search field keeps its text and its cursor.
pub proof fn lemma_leaving_editing_keeps_input(s: AppView, key: KeyEvent)
    requires
        s.mode == InputMode::Editing,
        AppView::leaves_editing(key),
    ensures
        s.on_key(key) == (AppView { mode: InputMode::Normal, ..s }),
        s.on_key(key).input == s.input,
{
}

/// In Normal mode no key changes the search field, the results or the
/// selection.
pub proof fn lemma_normal_mode_keeps_input(s: AppView, key: KeyEvent)
    requires
        s.mode == InputMode::Normal,
    ensures
        s.on_key(key).input == s.input,
        s.on_key(key).search_items == s.search_items,
        s.on_key(key).selected_item == s.selected_item,
{
}

/// No event changes the results or the selection.
pub proof fn lemma_events_keep_results(s: AppView, events: Seq<Event>)
    ensures
        s.replay(events).search_items == s.search_items,
        s.replay(events).selected_item == s.selected_item,
    decreases events.len(),
{
    if events.len() > 0 {
        lemma_events_keep_results(s, events.drop_last());
    }
}

/// The press of the key of a character with no modifier held.
pub open spec fn char_press(c: char) -> Event {
    Event::Key(KeyEvent { code: Key::Char(c), modifiers: NO_MODIFIERS, kind: KeyKind::Press })
}

/// The presses that type `text`: one character key after the other.
pub open spec fn typing(text: Seq<char>) -> Seq<Event> {
    text.map_values(|c: char| char_press(c))
}

/// In Editing mode, typing puts the text where the cursor was and leaves
/// the cursor behind it; nothing else changes.
pub proof fn lemma_typing_inserts_at_cursor(s: AppView, text: Seq<char>)
    requires
        s.mode == InputMode::Editing,
        s.input.wf(),
    ensures
        s.replay(typing(text)) == (AppView {
            input: InputView {
                text: s.input.text.take(s.input.cursor as int) + text + s.input.text.skip(
                    s.input.cursor as int,
                ),
                cursor: s.input.cursor + text.len(),
            },
            ..s
        }),
    decreases text.len(),
{
    let before = s.input.text.take(s.input.cursor as int);
    let after = s.input.text.skip(s.input.cursor as int);
    if text.len() == 0 {
        assert(before + text + after =~= s.input.text);
    } else {
        let front = text.drop_last();
        lemma_typing_inserts_at_cursor(s, front);
        assert(typing(text).drop_last() =~= typing(front));
        let at = (s.input.cursor + front.len()) as int;
        assert((before + front + after).insert(at, text.last()) =~= before + text + after);
    }
}

/// Replaying a sequence of events is handling the first and replaying the
/// rest.
pub proof fn lemma_replay_from_first(s: AppView, events: Seq<Event>)
    requires
        events.len() > 0,
    ensures
        s.replay(events) == s.on_event(events.first()).replay(events.drop_first()),
    decreases events.len(),
{
    let rest = events.drop_first();
    if events.len() == 1 {
        reveal_with_fuel(AppView::replay, 2);
        assert(events.drop_last().len() == 0);
        assert(rest.len() == 0);
    } else {
        let front = events.drop_last();
        lemma_replay_from_first(s, front);
        assert(front.drop_first() =~= rest.drop_last());
        assert(rest.last() == events.last());
    }
}

/// From startup, `s` and then typing a text leaves the application editing
/// a search field that holds the text with the cursor behind it.
pub proof fn lemma_s_then_typing_fills_the_field(text: Seq<char>)
    ensures
        AppView::initial().replay(seq![char_press('s')] + typing(text)) == (AppView {
            mode: InputMode::Editing,
            input: InputView { text, cursor: text.len() },
            ..AppView::initial()
        }),
{
    let events = seq![char_press('s')] + typing(text);
    let editing = AppView::initial().on_event(char_press('s'));
    lemma_replay_from_first(AppView::initial(), events);
    assert(events.drop_first() =~= typing(text));
    lemma_typing_inserts_at_cursor(editing, text);
    assert(editing.input.text.take(0) + text + editing.input.text.skip(0) =~= text);
}

/// The loop stops at the first state with the exit flag set: it takes no
/// event after one that sets the flag, and it takes every event before.
pub proof fn lemma_taken_ends_at_first_exit(s: AppView, events: Seq<Event>)
    ensures
        s.taken(events) <= events.len(),
        forall|k: int| 0 <= k < s.taken(events) ==> !(#[trigger] s.replay(events.take(k))).exit,
        s.taken(events) < events.len() ==> s.replay(events.take(s.taken(events) as int)).exit,
    decreases events.len(),
{
    if s.exit || events.len() == 0 {
        assert(events.take(0) =~= Seq::empty());
    } else {
        let next = s.on_event(events.first());
        let rest = events.drop_first();
        lemma_taken_ends_at_first_exit(next, rest);
        let taken = s.taken(events) as int;
        assert forall|k: int| 0 <= k < taken implies !(#[trigger] s.replay(events.take(k))).exit by {
            if k == 0 {
                assert(events.take(0) =~= Seq::empty());
            } else {
                lemma_replay_from_first(s, events.take(k));
                assert(events.take(k).drop_first() =~= rest.take(k - 1));
            }
        }
        if taken < events.len() {
            lemma_replay_from_first(s, events.take(taken));
            assert(events.take(taken).drop_first() =~= rest.take(taken - 1));
        }
    }
}

/// From Normal mode the press of `q` or `Esc` ends the loop within one
/// round: the loop takes that event and no other.
pub proof fn lemma_quit_ends_loop(s: AppView, events: Seq<Event>)
    requires
        s.mode == InputMode::Normal,
        !s.exit,
        events.len() > 0,
        events.first() matches Event::Key(key) && key.kind == KeyKind::Press && AppView::quits(key),
    ensures
        s.taken(events) == 1,
        s.replay(events.take(1)).exit,
{
    reveal_with_fuel(AppView::replay, 2);
    reveal_with_fuel(AppView::taken, 2);
    assert(events.take(1).drop_last().len() == 0);
    assert(events.take(1).last() == events.first());
}

/// In Normal mode a frame hides the cursor. In Editing mode it shows the
/// cursor on the row below the top border of the search box, right of the
/// left border and the padding and left of the padding on the other side.
pub proof fn lemma_cursor_inside_input_box(s: AppView, layout: FrameLayout)
    requires
        can_hold_input(layout.input_box),
    ensures
        s.mode == InputMode::Normal <==> s.frame(layout).cursor is None,
        s.mode == InputMode::Editing ==> {
            let cell = s.frame(layout).cursor->Some_0;
            &&& layout.input_box.x + 2 <= cell.0 < layout.input_box.right() - 2
            &&& cell.1 == layout.input_box.y + 1
        },
{
}

/// A frame shows the mode, the search field and the results, in the given
/// regions, and nothing else of the state: two states that agree in the
/// three are drawn alike.
pub proof fn lemma_frame_shows_mode_input_and_results(a: AppView, b: AppView, layout: FrameLayout)
    requires
        a.mode == b.mode,
        a.input == b.input,
        a.search_items == b.search_items,
    ensures
        a.frame(layout) == b.frame(layout),
{
}

/// The scroll of a frame does not pass the cursor of the search field, and
/// where the search box has an inner width of at least one column the cursor
/// is less than that width ahead of the scroll.
pub proof fn lemma_frame_scroll_shows_cursor(s: AppView, layout: FrameLayout)
    requires
        layout.input_box.width >= 5,
    ensures
        0 <= s.frame(layout).scroll <= s.input.cursor,
        inner_width(layout.input_box.width) >= 1 ==> s.input.cursor - s.frame(layout).scroll
            < inner_width(layout.input_box.width),
{
}

} // verus!
