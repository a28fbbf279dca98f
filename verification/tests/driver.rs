use panotti::app::App;
use panotti::app::Mode;
use panotti::attributes::Attribute;
use panotti::audio::AudioDevice;
use panotti::audio::AudioHost;
use panotti::driver::message_for;
use panotti::driver::on_event;
use panotti::driver::settle;
use panotti::driver::start;
use panotti::driver::tick;
use panotti::driver::Action;
use panotti::driver::Event;
use panotti::driver::KeyCode;
use panotti::driver::KeyEvent;
use panotti::driver::KeyEventKind;
use panotti::driver::MAX_CASCADE;
use panotti::msg::Msg;

fn press(c: char) -> Event {
    Event::Key(KeyEvent { code: KeyCode::Char(c), kind: KeyEventKind::Press })
}

#[test]
fn q_t_and_star_are_the_recognized_keys() {
    assert!(matches!(message_for(press('q')), Msg::Stopping));
    assert!(matches!(message_for(press('t')), Msg::ToggleTranscriber));
    assert!(matches!(message_for(press('*')), Msg::ClearMessages));
}

#[test]
fn other_keys_are_inert() {
    assert!(matches!(message_for(press('x')), Msg::NoOp));
    assert!(matches!(message_for(press('Q')), Msg::NoOp));
    assert!(matches!(message_for(press('T')), Msg::NoOp));
    assert!(matches!(
        message_for(Event::Key(KeyEvent { code: KeyCode::Other, kind: KeyEventKind::Press })),
        Msg::NoOp
    ));
    assert!(matches!(message_for(Event::Other), Msg::NoOp));
}

#[test]
fn releases_and_repeats_are_inert() {
    for c in ['q', 't', '*'] {
        for kind in [KeyEventKind::Release, KeyEventKind::Repeat] {
            let event = Event::Key(KeyEvent { code: KeyCode::Char(c), kind });
            assert!(matches!(message_for(event), Msg::NoOp));
        }
    }
}

#[test]
fn max_cascade_is_two() {
    assert_eq!(MAX_CASCADE, 2);
}

#[test]
fn started_settles_in_two_dispatches() {
    let mut app = App::default();
    assert_eq!(settle(&mut app, Msg::Started), 2);
    assert_eq!(app.mode, Mode::Idle);
    assert!(app.transcriber);
}

#[test]
fn every_other_message_settles_in_one_dispatch() {
    let one = |msg: Msg| {
        let mut app = App::default();
        settle(&mut app, msg)
    };
    assert_eq!(one(Msg::NoOp), 1);
    assert_eq!(one(Msg::Stopping), 1);
    assert_eq!(one(Msg::ToggleTranscriber), 1);
    assert_eq!(one(Msg::ClearMessages), 1);
    assert_eq!(one(Msg::ContextAdded { attributes: vec![] }), 1);
    assert_eq!(
        one(Msg::ContextRemoved {
            attributes: vec![Attribute::new("x".to_string(), "y".to_string())]
        }),
        1
    );
}

#[test]
fn processing_started_to_quiescence_from_defaults() {
    let mut app = App::default();
    assert_eq!(app.mode, Mode::Normal);
    assert!(app.messages.is_empty());
    let action = start(&mut app);
    assert_eq!(action, Action::Present);
    assert_eq!(app.mode, Mode::Idle);
    assert!(app.transcriber);
    assert!(!app.exit);
    assert_eq!(
        app.messages,
        vec![
            "App started".to_string(),
            "No audio host?".to_string(),
            "Transcriber is now true".to_string(),
        ]
    );
}

#[test]
fn processing_started_to_quiescence_with_devices() {
    let host = AudioHost {
        input: Some(AudioDevice { name: Some("mic".to_string()) }),
        output: Some(AudioDevice { name: None }),
    };
    let mut app = App::with_audio_host(Some(host));
    let action = start(&mut app);
    assert_eq!(action, Action::Present);
    assert_eq!(app.mode, Mode::Idle);
    assert!(app.transcriber);
    assert_eq!(
        app.messages,
        vec![
            "App started".to_string(),
            "Default input device: mic".to_string(),
            "output device: name unavailable".to_string(),
            "Transcriber is now true".to_string(),
        ]
    );
}

#[test]
fn stopping_ends_the_loop() {
    let mut app = App::default();
    start(&mut app);
    let log = app.messages.clone();
    let action = on_event(&mut app, press('q'));
    assert_eq!(action, Action::Exit);
    assert!(app.exit);
    assert_eq!(app.messages, log);
}

#[test]
fn an_inert_event_waits_without_presenting() {
    let mut app = App::default();
    start(&mut app);
    let log = app.messages.clone();
    assert_eq!(on_event(&mut app, press('x')), Action::Wait);
    assert_eq!(on_event(&mut app, Event::Other), Action::Wait);
    assert_eq!(app.messages, log);
    assert!(app.transcriber);
    assert!(!app.exit);
}

#[test]
fn t_toggles_and_presents() {
    let mut app = App::default();
    start(&mut app);
    assert_eq!(on_event(&mut app, press('t')), Action::Present);
    assert!(!app.transcriber);
    assert_eq!(app.messages.last().unwrap(), "Transcriber is now false");
}

#[test]
fn star_clears_and_presents() {
    let mut app = App::default();
    start(&mut app);
    assert_eq!(on_event(&mut app, press('*')), Action::Present);
    assert!(app.messages.is_empty());
}

#[test]
fn once_the_exit_flag_is_set_every_tick_exits() {
    let mut app = App::default();
    assert_eq!(tick(&mut app, Msg::Stopping), Action::Exit);
    assert_eq!(tick(&mut app, Msg::NoOp), Action::Exit);
    assert_eq!(on_event(&mut app, press('t')), Action::Exit);
}

#[test]
fn tick_with_a_context_message_presents() {
    let mut app = App::default();
    let added = Msg::ContextAdded {
        attributes: vec![Attribute::new("zoom".to_string(), "selected".to_string())],
    };
    assert_eq!(tick(&mut app, added), Action::Present);
    assert_eq!(app.current_context.len(), 1);
    assert_eq!(tick(&mut app, Msg::NoOp), Action::Wait);
}
