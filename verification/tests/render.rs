use ytui::app::App;
use ytui::event::{Event, Key, KeyEvent};
use ytui::frame::{Alignment, InputStyle, CONTENT_TITLE, HELP, INPUT_PADDING, INPUT_TITLE, TITLE};
use ytui::layout::{FrameLayout, Rect};

fn press(code: Key) -> Event {
    Event::Key(KeyEvent::press(code))
}

fn editing(text: &str) -> App {
    let mut app = App::default();
    app.handle_events(press(Key::Char('s')));
    for c in text.chars() {
        app.handle_events(press(Key::Char(c)));
    }
    app
}

fn rect(x: u16, y: u16, width: u16, height: u16) -> Rect {
    Rect { x, y, width, height }
}

#[test]
fn the_texts_of_a_frame_are_fixed() {
    assert_eq!(TITLE, " ytui - youtube search in the terminal ");
    assert_eq!(INPUT_TITLE, " Search ");
    assert_eq!(CONTENT_TITLE, " Youtube videos ");
    assert_eq!(
        HELP,
        "h - move left, j - move down, k - move up, l - move right , s - enter search mode, esc - exit search mode"
    );
    let frame = App::default().render_frame(rect(0, 0, 80, 24));
    assert_eq!(frame.title.title, TITLE);
    assert_eq!(frame.input_box.title, INPUT_TITLE);
    assert_eq!(frame.content.title, CONTENT_TITLE);
    assert_eq!(frame.help.title, HELP);
}

#[test]
fn the_lines_are_centred_and_the_boxes_bordered() {
    let frame = App::default().render_frame(rect(0, 0, 80, 24));
    for line in [&frame.title, &frame.help] {
        assert_eq!(line.title_alignment, Alignment::Center);
        assert!(!line.bordered);
        assert_eq!(line.padding, 0);
    }
    assert!(frame.input_box.bordered);
    assert_eq!(frame.input_box.title_alignment, Alignment::Left);
    assert_eq!(frame.input_box.padding, 1);
    assert_eq!(INPUT_PADDING, 1);
    assert!(frame.content.bordered);
    assert_eq!(frame.content.title_alignment, Alignment::Center);
    assert_eq!(frame.content.padding, 0);
}

#[test]
fn the_first_frame_is_empty_and_hides_the_cursor() {
    let frame = App::default().render_frame(rect(0, 0, 80, 24));
    assert_eq!(frame.title.area, rect(0, 0, 80, 1));
    assert_eq!(frame.input_box.area, rect(0, 1, 80, 3));
    assert_eq!(frame.content.area, rect(0, 4, 80, 19));
    assert_eq!(frame.help.area, rect(0, 23, 80, 1));
    assert_eq!(frame.layout(), FrameLayout::split(rect(0, 0, 80, 24)));
    assert_eq!(frame.input, "");
    assert_eq!(frame.input_style, InputStyle::Plain);
    assert_eq!(frame.scroll, 0);
    assert_eq!(frame.cursor, None);
    assert!(frame.items.is_empty());
}

#[test]
fn pressing_s_shows_the_cursor_at_the_start_of_the_box() {
    let app = editing("");
    let frame = app.render_frame(rect(0, 0, 80, 24));
    let input_box = frame.input_box.area;
    assert_eq!(frame.cursor, Some((input_box.x + 2, input_box.y + 1)));
    assert_eq!(frame.cursor, Some((2, 2)));
    assert_eq!(frame.input_style, InputStyle::Yellow);
    let frame = app.render_frame(rect(10, 20, 30, 12));
    assert_eq!(frame.input_box.area, rect(10, 21, 30, 3));
    assert_eq!(frame.cursor, Some((12, 22)));
}

#[test]
fn hello_is_shown_unscrolled() {
    let app = editing("hello");
    let frame = app.render_frame(rect(0, 0, 15, 24));
    assert_eq!(frame.input, "hello");
    assert_eq!(frame.scroll, 0);
    assert_eq!(frame.cursor, Some((7, 2)));
}

#[test]
fn twenty_characters_scroll_a_box_ten_columns_wide_inside() {
    let app = editing("abcdefghijklmnopqrst");
    let frame = app.render_frame(rect(4, 0, 15, 24));
    let input_box = frame.input_box.area;
    assert_eq!(input_box, rect(4, 1, 15, 3));
    assert_eq!(frame.input, "abcdefghijklmnopqrst");
    assert_eq!(frame.scroll, 11);
    assert_eq!(frame.cursor, Some((input_box.x + 2 + 9, input_box.y + 1)));
    assert_eq!(app.input().visible(10), "lmnopqrst");
}

#[test]
fn leaving_editing_hides_the_cursor_and_keeps_the_text() {
    let mut app = editing("hi");
    app.handle_events(press(Key::Esc));
    let frame = app.render_frame(rect(0, 0, 80, 24));
    assert_eq!(frame.cursor, None);
    assert_eq!(frame.input, "hi");
    assert_eq!(frame.input_style, InputStyle::Plain);
}

#[test]
fn the_scroll_stays_in_normal_mode() {
    let mut app = editing("abcdefghijklmnopqrst");
    app.handle_events(press(Key::Enter));
    let frame = app.render_frame(rect(0, 0, 15, 24));
    assert_eq!(frame.scroll, 11);
    assert_eq!(frame.cursor, None);
}

#[test]
fn the_cursor_follows_the_arrows() {
    let mut app = editing("abcdefghijklmnopqrst");
    for _ in 0..12 {
        app.handle_events(press(Key::Left));
    }
    let frame = app.render_frame(rect(0, 0, 15, 24));
    assert_eq!(frame.scroll, 0);
    assert_eq!(frame.cursor, Some((10, 2)));
    app.handle_events(press(Key::Right));
    app.handle_events(press(Key::Right));
    let frame = app.render_frame(rect(0, 0, 15, 24));
    assert_eq!(frame.scroll, 1);
    assert_eq!(frame.cursor, Some((11, 2)));
}

#[test]
fn the_narrowest_box_keeps_the_cursor_on_its_only_column() {
    let app = editing("abc");
    let frame = app.render_frame(rect(0, 0, 5, 24));
    assert_eq!(frame.scroll, 3);
    assert_eq!(frame.cursor, Some((2, 2)));
    let frame = app.render_frame(rect(0, 0, 6, 24));
    assert_eq!(frame.scroll, 3);
    assert_eq!(frame.cursor, Some((2, 2)));
    let frame = app.render_frame(rect(0, 0, 7, 24));
    assert_eq!(frame.scroll, 2);
    assert_eq!(frame.cursor, Some((3, 2)));
}

#[test]
fn the_cursor_stays_between_the_borders_and_padding() {
    let mut app = editing("");
    for n in 0..40 {
        for width in 5..30 {
            let frame = app.render_frame(rect(3, 0, width, 24));
            let (column, row) = frame.cursor.unwrap();
            assert!(frame.scroll <= n);
            assert!(column >= 3 + 2);
            assert!(column < 3 + width - 2);
            assert_eq!(row, 2);
            if width >= 6 {
                assert!(n - frame.scroll < usize::from(width) - 5);
            }
        }
        app.handle_events(press(Key::Char('x')));
    }
}

#[test]
fn a_frame_at_the_far_corner_fits() {
    let app = editing("abcdefghijklmnopqrst");
    let frame = app.render_frame(rect(65520, 65510, 15, 24));
    assert_eq!(frame.input_box.area, rect(65520, 65511, 15, 3));
    assert_eq!(frame.cursor, Some((65531, 65512)));
    let frame = app.render_frame(rect(0, 0, 65535, 65534));
    assert_eq!(frame.scroll, 0);
    assert_eq!(frame.cursor, Some((22, 2)));
}

#[test]
fn a_low_area_still_gives_a_frame() {
    let app = editing("ab");
    for height in 0..5 {
        let area = rect(0, 0, 20, height);
        let frame = app.render_frame(area);
        let input_box = frame.input_box.area;
        assert_eq!(input_box.x, 0);
        assert_eq!(input_box.width, 20);
        assert!(input_box.y + input_box.height <= height);
        assert_eq!(frame.input, "ab");
        assert_eq!(frame.scroll, 0);
        assert_eq!(frame.cursor, Some((4, input_box.y + 1)));
    }
}

#[test]
fn rendering_twice_gives_the_same_frame() {
    let app = editing("abcdefghijklmnopqrst");
    for area in [rect(0, 0, 80, 24), rect(0, 0, 15, 5), rect(2, 3, 9, 2)] {
        let first = app.render_frame(area);
        let second = app.render_frame(area);
        assert_eq!(first.layout(), second.layout());
        assert_eq!(first.title.title, second.title.title);
        assert_eq!(first.input_box.title, second.input_box.title);
        assert_eq!(first.input, second.input);
        assert_eq!(first.input_style, second.input_style);
        assert_eq!(first.scroll, second.scroll);
        assert_eq!(first.cursor, second.cursor);
        assert_eq!(first.content.title, second.content.title);
        assert_eq!(first.items, second.items);
        assert_eq!(first.help.title, second.help.title);
    }
}

#[test]
fn rendering_leaves_the_state_alone() {
    let app = editing("abc");
    let _ = app.render_frame(rect(0, 0, 80, 24));
    assert_eq!(app.input().value(), "abc");
    assert_eq!(app.input().cursor(), 3);
    assert!(!app.should_exit());
}

#[test]
fn composing_takes_the_regions_as_given() {
    let app = editing("abcdefgh");
    let layout = FrameLayout {
        title: rect(0, 0, 12, 1),
        input_box: rect(1, 5, 10, 3),
        content: rect(0, 8, 12, 2),
        help: rect(0, 10, 12, 1),
    };
    let frame = app.compose_frame(layout);
    assert_eq!(frame.layout(), layout);
    assert_eq!(frame.scroll, 4);
    assert_eq!(frame.cursor, Some((1 + 4 + 2, 6)));
}
