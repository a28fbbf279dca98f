use panotti::app::App;
use panotti::driver::on_event;
use panotti::driver::start;
use panotti::driver::Event;
use panotti::driver::KeyCode;
use panotti::driver::KeyEvent;
use panotti::driver::KeyEventKind;
use panotti::render::banner;
use panotti::render::view;
use panotti::render::Area;

fn app_with_lines(count: usize) -> App {
    let mut app = App::default();
    for i in 0..count {
        app.messages.push(format!("line {}", i));
    }
    app
}

fn viewport(width: u16, height: u16) -> Area {
    Area { x: 0, y: 0, width, height }
}

fn texts(app: &App, area: Area) -> Vec<String> {
    view(app, area).rows.into_iter().map(|row| row.text).collect()
}

#[test]
fn banner_greets_and_hints_at_quitting() {
    assert_eq!(banner(), "panotti (press 'q' to quit)");
}

#[test]
fn frame_carries_the_banner_over_the_whole_viewport() {
    let frame = view(&app_with_lines(2), viewport(80, 24));
    assert_eq!(frame.banner, "panotti (press 'q' to quit)");
    assert_eq!(frame.banner_area, viewport(80, 24));
}

#[test]
fn a_short_log_is_shown_whole() {
    let app = app_with_lines(3);
    assert_eq!(texts(&app, viewport(80, 24)), vec!["line 0", "line 1", "line 2"]);
    assert_eq!(texts(&app, viewport(80, 4)), vec!["line 0", "line 1", "line 2"]);
}

#[test]
fn five_lines_in_a_viewport_of_three_show_the_last_two() {
    let app = app_with_lines(5);
    assert_eq!(texts(&app, viewport(80, 3)), vec!["line 3", "line 4"]);
}

#[test]
fn the_oldest_line_is_dropped_first_as_the_log_grows() {
    let mut app = app_with_lines(3);
    let area = viewport(40, 4);
    assert_eq!(texts(&app, area), vec!["line 0", "line 1", "line 2"]);
    app.messages.push("line 3".to_string());
    assert_eq!(texts(&app, area), vec!["line 1", "line 2", "line 3"]);
    app.messages.push("line 4".to_string());
    assert_eq!(texts(&app, area), vec!["line 2", "line 3", "line 4"]);
}

#[test]
fn a_long_log_never_collapses_to_its_first_line() {
    let app = app_with_lines(100);
    let shown = texts(&app, viewport(80, 11));
    assert_eq!(shown.len(), 10);
    assert_eq!(shown[0], "line 90");
    assert_eq!(shown[9], "line 99");
}

#[test]
fn rendering_leaves_the_log_alone() {
    let app = app_with_lines(5);
    let _ = view(&app, viewport(80, 3));
    assert_eq!(app.messages.len(), 5);
    assert_eq!(app.messages[0], "line 0");
}

#[test]
fn a_viewport_of_height_one_has_room_for_the_banner_only() {
    let frame = view(&app_with_lines(5), viewport(80, 1));
    assert!(frame.rows.is_empty());
    assert_eq!(frame.banner, "panotti (press 'q' to quit)");
}

#[test]
fn a_viewport_of_height_zero_shows_no_line() {
    assert!(view(&app_with_lines(5), viewport(80, 0)).rows.is_empty());
    assert!(view(&app_with_lines(0), viewport(0, 0)).rows.is_empty());
}

#[test]
fn an_empty_log_gives_no_rows() {
    assert!(view(&App::default(), viewport(80, 24)).rows.is_empty());
}

#[test]
fn rows_lie_beneath_the_banner_one_cell_high_and_as_wide_as_the_viewport() {
    let frame = view(&app_with_lines(5), viewport(77, 4));
    assert_eq!(frame.rows.len(), 3);
    assert_eq!(frame.rows[0].area, Area { x: 0, y: 1, width: 77, height: 1 });
    assert_eq!(frame.rows[1].area, Area { x: 0, y: 2, width: 77, height: 1 });
    assert_eq!(frame.rows[2].area, Area { x: 0, y: 3, width: 77, height: 1 });
}

#[test]
fn the_tallest_viewport_keeps_every_row_one_cell_high() {
    let app = app_with_lines(70000);
    let frame = view(&app, viewport(u16::MAX, u16::MAX));
    assert_eq!(frame.rows.len(), 65534);
    assert_eq!(frame.rows[0].text, "line 4466");
    assert_eq!(frame.rows[0].area, Area { x: 0, y: 1, width: u16::MAX, height: 1 });
    assert_eq!(frame.rows[65533].text, "line 69999");
    assert_eq!(frame.rows[65533].area, Area { x: 0, y: 65534, width: u16::MAX, height: 1 });
}

#[test]
fn the_viewport_origin_does_not_move_the_rows() {
    let frame = view(&app_with_lines(1), Area { x: 5, y: 7, width: 10, height: 3 });
    assert_eq!(frame.banner_area, Area { x: 5, y: 7, width: 10, height: 3 });
    assert_eq!(frame.rows[0].area, Area { x: 0, y: 1, width: 10, height: 1 });
}

#[test]
fn the_log_of_a_short_session_in_a_small_viewport() {
    let mut app = App::default();
    start(&mut app);
    let t = Event::Key(KeyEvent { code: KeyCode::Char('t'), kind: KeyEventKind::Press });
    on_event(&mut app, t);
    on_event(&mut app, t);
    assert_eq!(app.messages.len(), 5);
    assert_eq!(
        texts(&app, viewport(80, 3)),
        vec!["Transcriber is now false", "Transcriber is now true"]
    );
}
