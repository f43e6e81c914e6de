use blockfall::intent::InputIntent;
use blockfall::listener::{
    intent_of, is_interrupt, on_event, only_control, Key, KeyPress, ListenerAction, Modifiers,
    Notice, TerminalEvent,
};

const NONE: Modifiers = Modifiers {
    shift: false,
    control: false,
    alt: false,
    super_key: false,
    hyper: false,
    meta: false,
};

const CONTROL: Modifiers = Modifiers {
    shift: false,
    control: true,
    alt: false,
    super_key: false,
    hyper: false,
    meta: false,
};

fn plain(c: char) -> KeyPress {
    KeyPress { key: Key::Char(c), modifiers: NONE }
}

fn all_intents() -> [InputIntent; 5] {
    [
        InputIntent::Up,
        InputIntent::Down,
        InputIntent::Left,
        InputIntent::Right,
        InputIntent::Neutral,
    ]
}

#[test]
fn wasd_map_to_the_four_directions() {
    assert_eq!(InputIntent::from_char('w'), InputIntent::Up);
    assert_eq!(InputIntent::from_char('s'), InputIntent::Down);
    assert_eq!(InputIntent::from_char('a'), InputIntent::Left);
    assert_eq!(InputIntent::from_char('d'), InputIntent::Right);
}

#[test]
fn other_characters_map_to_neutral() {
    for c in ['W', 'A', 'S', 'D', 'c', 'x', ' ', '0', '\n', 'é', '█'] {
        assert_eq!(InputIntent::from_char(c), InputIntent::Neutral, "{:?}", c);
    }
}

#[test]
fn a_key_press_overwrites_the_mailbox() {
    for before in all_intents() {
        let mut intent = before;
        let action = on_event(&mut intent, &TerminalEvent::Key(plain('a')));
        assert_eq!(intent, InputIntent::Left);
        assert_eq!(action, ListenerAction::Continue);
    }
}

#[test]
fn only_the_last_press_is_kept() {
    let mut intent = InputIntent::Neutral;
    on_event(&mut intent, &TerminalEvent::Key(plain('a')));
    on_event(&mut intent, &TerminalEvent::Key(plain('d')));
    on_event(&mut intent, &TerminalEvent::Key(plain('s')));
    assert_eq!(intent, InputIntent::Down);
}

#[test]
fn an_unrecognised_key_clears_the_mailbox() {
    for before in all_intents() {
        let mut intent = before;
        let action = on_event(&mut intent, &TerminalEvent::Key(plain('x')));
        assert_eq!(intent, InputIntent::Neutral);
        assert_eq!(action, ListenerAction::Continue);

        let mut intent = before;
        let arrow = KeyPress { key: Key::Other, modifiers: NONE };
        let action = on_event(&mut intent, &TerminalEvent::Key(arrow));
        assert_eq!(intent, InputIntent::Neutral);
        assert_eq!(action, ListenerAction::Continue);
    }
}

#[test]
fn modifiers_do_not_change_the_intent_of_a_key() {
    let press = KeyPress { key: Key::Char('d'), modifiers: CONTROL };
    assert_eq!(intent_of(&press), InputIntent::Right);
    let mut intent = InputIntent::Neutral;
    assert_eq!(on_event(&mut intent, &TerminalEvent::Key(press)), ListenerAction::Continue);
    assert_eq!(intent, InputIntent::Right);
}

#[test]
fn control_c_quits_from_any_state() {
    let interrupt = KeyPress { key: Key::Char('c'), modifiers: CONTROL };
    assert!(is_interrupt(&interrupt));
    for before in all_intents() {
        let mut intent = before;
        let action = on_event(&mut intent, &TerminalEvent::Key(interrupt));
        assert_eq!(action, ListenerAction::Quit);
        assert_eq!(intent, InputIntent::Neutral);
    }
}

#[test]
fn plain_c_does_not_quit() {
    assert!(!is_interrupt(&plain('c')));
    let mut intent = InputIntent::Left;
    assert_eq!(on_event(&mut intent, &TerminalEvent::Key(plain('c'))), ListenerAction::Continue);
    assert_eq!(intent, InputIntent::Neutral);
}

#[test]
fn control_with_another_modifier_does_not_quit() {
    let with = [
        Modifiers { shift: true, ..CONTROL },
        Modifiers { alt: true, ..CONTROL },
        Modifiers { super_key: true, ..CONTROL },
        Modifiers { hyper: true, ..CONTROL },
        Modifiers { meta: true, ..CONTROL },
    ];
    for modifiers in with {
        assert!(!only_control(&modifiers));
        let press = KeyPress { key: Key::Char('c'), modifiers };
        assert!(!is_interrupt(&press));
        let mut intent = InputIntent::Up;
        assert_eq!(on_event(&mut intent, &TerminalEvent::Key(press)), ListenerAction::Continue);
    }
    assert!(only_control(&CONTROL));
    assert!(!only_control(&NONE));
}

#[test]
fn control_with_another_key_does_not_quit() {
    for key in [Key::Char('C'), Key::Char('d'), Key::Char('x'), Key::Other] {
        assert!(!is_interrupt(&KeyPress { key, modifiers: CONTROL }));
    }
}

#[test]
fn focus_and_resize_are_reported_and_change_nothing() {
    for before in all_intents() {
        let mut intent = before;
        assert_eq!(
            on_event(&mut intent, &TerminalEvent::FocusGained),
            ListenerAction::Report(Notice::FocusGained)
        );
        assert_eq!(intent, before);
        assert_eq!(
            on_event(&mut intent, &TerminalEvent::FocusLost),
            ListenerAction::Report(Notice::FocusLost)
        );
        assert_eq!(intent, before);
        assert_eq!(
            on_event(&mut intent, &TerminalEvent::Resize(80, 24)),
            ListenerAction::Report(Notice::Resized(80, 24))
        );
        assert_eq!(intent, before);
    }
}

#[test]
fn other_events_are_ignored() {
    for before in all_intents() {
        let mut intent = before;
        assert_eq!(on_event(&mut intent, &TerminalEvent::Other), ListenerAction::Continue);
        assert_eq!(intent, before);
    }
}
