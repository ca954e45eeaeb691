use rjremote::input::{
    key_event_plan, mouse_command, named_key, same_text, KeyModifiers, KeyStep, Modifier,
    MouseButton, MouseCommand, NamedKey,
};

fn mods(ctrl: bool, alt: bool, shift: bool, meta: bool) -> KeyModifiers {
    KeyModifiers { ctrl, alt, shift, meta }
}

#[test]
fn mouse_actions_decode() {
    assert!(matches!(mouse_command(100, 200, "move"), Ok(MouseCommand::MoveTo { x: 100, y: 200 })));
    assert!(matches!(mouse_command(0, 0, "left_click"), Ok(MouseCommand::Click(MouseButton::Left))));
    assert!(matches!(mouse_command(0, 0, "right_click"), Ok(MouseCommand::Click(MouseButton::Right))));
    assert!(matches!(mouse_command(0, 0, "middle_click"), Ok(MouseCommand::Click(MouseButton::Middle))));
    assert!(matches!(mouse_command(0, 0, "scroll_up"), Ok(MouseCommand::Scroll(3))));
    assert!(matches!(mouse_command(0, 0, "scroll_down"), Ok(MouseCommand::Scroll(-3))));
}

#[test]
fn unknown_mouse_action_is_refused() {
    match mouse_command(1, 2, "double_click") {
        Err(m) => assert_eq!(m, "Unknown mouse action: double_click"),
        Ok(_) => panic!("expected error"),
    }
    assert!(mouse_command(1, 2, "Move").is_err());
    assert!(mouse_command(1, 2, "").is_err());
}

#[test]
fn mouse_failure_messages() {
    assert_eq!(MouseCommand::MoveTo { x: 0, y: 0 }.failure_message("x"), "Mouse move error: x");
    assert_eq!(MouseCommand::Click(MouseButton::Left).failure_message("y"), "Click error: y");
    assert_eq!(MouseCommand::Scroll(3).failure_message("z"), "Scroll error: z");
}

#[test]
fn named_keys_lookup() {
    assert!(matches!(named_key("Enter"), Some(NamedKey::Return)));
    assert!(matches!(named_key("ArrowLeft"), Some(NamedKey::LeftArrow)));
    assert!(matches!(named_key(" "), Some(NamedKey::Space)));
    assert!(matches!(named_key("F12"), Some(NamedKey::F12)));
    assert!(matches!(named_key("F13"), None));
    assert!(matches!(named_key("enter"), None));
    assert!(same_text("abc", "abc"));
    assert!(!same_text("abc", "abd"));
}

#[test]
fn key_plan_with_modifiers() {
    let steps = key_event_plan("Enter".to_string(), &mods(true, false, true, false));
    assert_eq!(steps.len(), 5);
    assert!(matches!(steps[0], KeyStep::Press(Modifier::Control)));
    assert!(matches!(steps[1], KeyStep::Press(Modifier::Shift)));
    assert!(matches!(steps[2], KeyStep::Tap(NamedKey::Return)));
    assert!(matches!(steps[3], KeyStep::Release(Modifier::Shift)));
    assert!(matches!(steps[4], KeyStep::Release(Modifier::Control)));
}

#[test]
fn key_plan_all_modifiers_released_in_reverse() {
    let steps = key_event_plan("c".to_string(), &mods(true, true, true, true));
    assert_eq!(steps.len(), 9);
    let order = [Modifier::Control, Modifier::Alt, Modifier::Shift, Modifier::Meta];
    for (i, m) in order.iter().enumerate() {
        assert!(matches!(&steps[i], KeyStep::Press(p) if p == m));
        assert!(matches!(&steps[8 - i], KeyStep::Release(r) if r == m));
    }
    assert!(matches!(&steps[4], KeyStep::Text(t) if t == "c"));
}

#[test]
fn key_plan_text_without_modifiers() {
    let steps = key_event_plan("Hello".to_string(), &mods(false, false, false, false));
    assert_eq!(steps.len(), 1);
    assert!(matches!(&steps[0], KeyStep::Text(t) if t == "Hello"));
    let steps = key_event_plan("é".to_string(), &mods(false, false, false, true));
    assert_eq!(steps.len(), 3);
    assert!(matches!(&steps[1], KeyStep::Text(t) if t == "é"));
}

#[test]
fn key_failure_messages() {
    assert_eq!(KeyStep::Press(Modifier::Alt).failure_message("e"), "Key error: e");
    assert_eq!(KeyStep::Release(Modifier::Meta).failure_message("e"), "Key error: e");
    assert_eq!(KeyStep::Tap(NamedKey::Tab).failure_message("e"), "Key input error: e");
    assert_eq!(KeyStep::Text("x".to_string()).failure_message("e"), "Key input error: e");
}
