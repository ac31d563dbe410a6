use fe_os::decoder::DecoderSession;
use fe_os::decoder::KeyPress;
use fe_os::handlers::keyboard_step;
use fe_os::handlers::HandlerAction;

fn decoded_keys(actions: &[HandlerAction]) -> Vec<KeyPress> {
    actions
        .iter()
        .filter_map(|a| match a {
            HandlerAction::InvokeKeyHook(k) => Some(*k),
            _ => None,
        })
        .collect()
}

#[test]
fn press_release_pair_yields_exactly_one_a() {
    // Scancode set 1: 0x1E is 'a' pressed, 0x9E is 'a' released. The pair
    // yields exactly one decoded key event, the character 'a'.
    let mut session = DecoderSession::new();
    let mut keys = Vec::new();
    for byte in [0x1E, 0x9E] {
        keys.extend(decoded_keys(&keyboard_step(&mut session, byte)));
    }
    assert_eq!(keys, vec![KeyPress::Unicode('a')]);
}

#[test]
fn stray_byte_yields_nothing_and_session_recovers() {
    // An unrecognized stray byte decodes to nothing, and the session still
    // decodes the next valid sequence correctly.
    let mut session = DecoderSession::new();
    let stray = keyboard_step(&mut session, 0xFF);
    assert!(decoded_keys(&stray).is_empty());

    let next = keyboard_step(&mut session, 0x1E);
    assert_eq!(decoded_keys(&next), vec![KeyPress::Unicode('a')]);
}

#[test]
fn shifted_letter_decodes_uppercase() {
    // 0x2A is left shift down; with shift held, 'a' decodes as 'A'.
    let mut session = DecoderSession::new();
    keyboard_step(&mut session, 0x2A);
    let actions = keyboard_step(&mut session, 0x1E);
    assert_eq!(decoded_keys(&actions), vec![KeyPress::Unicode('A')]);
}

#[test]
fn extended_prefix_waits_for_its_second_byte() {
    // 0xE0 opens an extended sequence: no key yet, and the handler still
    // acknowledges; the following byte completes the sequence.
    let mut session = DecoderSession::new();
    let first = keyboard_step(&mut session, 0xE0);
    assert!(decoded_keys(&first).is_empty());
    assert!(matches!(first.last(), Some(HandlerAction::Acknowledge(33))));

    // 0x48 after the prefix is the up-arrow key, a raw key with no
    // character.
    let second = keyboard_step(&mut session, 0x48);
    assert_eq!(second.len(), 2);
    assert!(matches!(second[0], HandlerAction::InvokeKeyHook(KeyPress::Raw(_))));
}
