//! Remote input: turns the mouse and keyboard requests of a viewer into the exact
//! sequence of synthetic input operations the host performs.

use vstd::prelude::*;

verus! {

/// Lines scrolled per scroll request.
pub const SCROLL_STEP: i32 = 3;

/// Which modifier keys are held for a key event.
pub struct KeyModifiers {
    pub ctrl: bool,
    pub alt: bool,
    pub shift: bool,
    pub meta: bool,
}

/// Whether two texts are equal.
pub fn same_text(a: &str, b: &str) -> (r: bool)
    ensures
        r == (a@ == b@),
{
    a.to_owned() == b.to_owned()
}

// ---------------------------------------------------------------------------
// Mouse
// ---------------------------------------------------------------------------

/// A mouse button.
#[derive(PartialEq, Eq, Structural)]
pub enum MouseButton {
    Left,
    Right,
    Middle,
}

/// One synthetic mouse operation.
#[derive(PartialEq, Eq, Structural)]
pub enum MouseCommand {
    /// Move the pointer to the absolute position given in the viewer's 0..=65535
    /// coordinate space (scaling to screen pixels is left to the caller).
    MoveTo { x: i32, y: i32 },
    /// Press and release a button.
    Click(MouseButton),
    /// Scroll vertically by this many lines (positive is down in `enigo`'s convention,
    /// so "scroll up" is the positive step as the request names it).
    Scroll(i32),
}

/// The operation a mouse request names, if it names one.
pub open spec fn mouse_command_for(x: i32, y: i32, action: Seq<char>) -> Option<MouseCommand> {
    if action == "move"@ {
        Some(MouseCommand::MoveTo { x, y })
    } else if action == "left_click"@ {
        Some(MouseCommand::Click(MouseButton::Left))
    } else if action == "right_click"@ {
        Some(MouseCommand::Click(MouseButton::Right))
    } else if action == "middle_click"@ {
        Some(MouseCommand::Click(MouseButton::Middle))
    } else if action == "scroll_up"@ {
        Some(MouseCommand::Scroll(SCROLL_STEP))
    } else if action == "scroll_down"@ {
        Some(MouseCommand::Scroll((-SCROLL_STEP) as i32))
    } else {
        None
    }
}

/// Decodes a mouse request; an unknown action is refused with its name.
pub fn mouse_command(x: i32, y: i32, action: &str) -> (r: Result<MouseCommand, String>)
    ensures
        match mouse_command_for(x, y, action@) {
            Some(c) => r == Ok::<MouseCommand, String>(c),
            None => r matches Err(m) && m@ == "Unknown mouse action: "@ + action@,
        },
        action@ == "move"@ ==> r == Ok::<MouseCommand, String>(MouseCommand::MoveTo { x: x, y: y }),
{
    if same_text(action, "move") {
        Ok(MouseCommand::MoveTo { x, y })
    } else if same_text(action, "left_click") {
        Ok(MouseCommand::Click(MouseButton::Left))
    } else if same_text(action, "right_click") {
        Ok(MouseCommand::Click(MouseButton::Right))
    } else if same_text(action, "middle_click") {
        Ok(MouseCommand::Click(MouseButton::Middle))
    } else if same_text(action, "scroll_up") {
        Ok(MouseCommand::Scroll(SCROLL_STEP))
    } else if same_text(action, "scroll_down") {
        Ok(MouseCommand::Scroll(-SCROLL_STEP))
    } else {
        let mut m = String::from_str("Unknown mouse action: ");
        m.append(action);
        Err(m)
    }
}

/// A mouse request carries out the action it names: `move` goes to the requested
/// coordinates unchanged, the three clicks press the button they name, and the two
/// scrolls move three lines, up as the positive step and down as the negative one.
pub proof fn law_mouse_actions(x: i32, y: i32)
    ensures
        mouse_command_for(x, y, "move"@) == Some(MouseCommand::MoveTo { x: x, y: y }),
        mouse_command_for(x, y, "left_click"@) == Some(MouseCommand::Click(MouseButton::Left)),
        mouse_command_for(x, y, "right_click"@) == Some(MouseCommand::Click(MouseButton::Right)),
        mouse_command_for(x, y, "middle_click"@) == Some(MouseCommand::Click(MouseButton::Middle)),
        mouse_command_for(x, y, "scroll_up"@) == Some(MouseCommand::Scroll(3i32)),
        mouse_command_for(x, y, "scroll_down"@) == Some(MouseCommand::Scroll(-3i32)),
{
    reveal_strlit("move");
    reveal_strlit("left_click");
    reveal_strlit("right_click");
    reveal_strlit("middle_click");
    reveal_strlit("scroll_up");
    reveal_strlit("scroll_down");
    assert("left_click"@[0] != "move"@[0]);
    assert("right_click"@[0] != "move"@[0] && "right_click"@[0] != "left_click"@[0]);
    assert("middle_click"@[1] != "move"@[1] && "middle_click"@[0] != "left_click"@[0]
        && "middle_click"@[0] != "right_click"@[0]);
    assert("scroll_up"@[0] != "move"@[0] && "scroll_up"@[0] != "left_click"@[0]
        && "scroll_up"@[0] != "right_click"@[0] && "scroll_up"@[0] != "middle_click"@[0]);
    assert("scroll_down"@[0] != "move"@[0] && "scroll_down"@[0] != "left_click"@[0]
        && "scroll_down"@[0] != "right_click"@[0] && "scroll_down"@[0] != "middle_click"@[0]
        && "scroll_down"@[7] != "scroll_up"@[7]);
}

/// The error text when performing a mouse operation failed with `detail`.
pub open spec fn mouse_failure_text(c: MouseCommand, detail: Seq<char>) -> Seq<char> {
    match c {
        MouseCommand::MoveTo { .. } => "Mouse move error: "@ + detail,
        MouseCommand::Click(_) => "Click error: "@ + detail,
        MouseCommand::Scroll(_) => "Scroll error: "@ + detail,
    }
}

impl MouseCommand {
    /// The error text when performing this operation failed with `detail`.
    pub fn failure_message(&self, detail: &str) -> (m: String)
        ensures
            m@ == mouse_failure_text(*self, detail@),
    {
        let mut m = match self {
            MouseCommand::MoveTo { .. } => String::from_str("Mouse move error: "),
            MouseCommand::Click(_) => String::from_str("Click error: "),
            MouseCommand::Scroll(_) => String::from_str("Scroll error: "),
        };
        m.append(detail);
        m
    }
}

// ---------------------------------------------------------------------------
// Keyboard
// ---------------------------------------------------------------------------

/// A modifier key.
#[derive(PartialEq, Eq, Structural)]
pub enum Modifier {
    Control,
    Alt,
    Shift,
    Meta,
}

/// A non-text key the host can tap.
#[derive(PartialEq, Eq, Structural)]
pub enum NamedKey {
    Return,
    Backspace,
    Tab,
    Escape,
    Delete,
    UpArrow,
    DownArrow,
    LeftArrow,
    RightArrow,
    Home,
    End,
    PageUp,
    PageDown,
    Space,
    F1,
    F2,
    F3,
    F4,
    F5,
    F6,
    F7,
    F8,
    F9,
    F10,
    F11,
    F12,
}

/// The named key a key event's text stands for, if any.
pub open spec fn named_key_for(key: Seq<char>) -> Option<NamedKey> {
    if key == "Enter"@ {
        Some(NamedKey::Return)
    } else if key == "Backspace"@ {
        Some(NamedKey::Backspace)
    } else if key == "Tab"@ {
        Some(NamedKey::Tab)
    } else if key == "Escape"@ {
        Some(NamedKey::Escape)
    } else if key == "Delete"@ {
        Some(NamedKey::Delete)
    } else if key == "ArrowUp"@ {
        Some(NamedKey::UpArrow)
    } else if key == "ArrowDown"@ {
        Some(NamedKey::DownArrow)
    } else if key == "ArrowLeft"@ {
        Some(NamedKey::LeftArrow)
    } else if key == "ArrowRight"@ {
        Some(NamedKey::RightArrow)
    } else if key == "Home"@ {
        Some(NamedKey::Home)
    } else if key == "End"@ {
        Some(NamedKey::End)
    } else if key == "PageUp"@ {
        Some(NamedKey::PageUp)
    } else if key == "PageDown"@ {
        Some(NamedKey::PageDown)
    } else if key == " "@ {
        Some(NamedKey::Space)
    } else if key == "F1"@ {
        Some(NamedKey::F1)
    } else if key == "F2"@ {
        Some(NamedKey::F2)
    } else if key == "F3"@ {
        Some(NamedKey::F3)
    } else if key == "F4"@ {
        Some(NamedKey::F4)
    } else if key == "F5"@ {
        Some(NamedKey::F5)
    } else if key == "F6"@ {
        Some(NamedKey::F6)
    } else if key == "F7"@ {
        Some(NamedKey::F7)
    } else if key == "F8"@ {
        Some(NamedKey::F8)
    } else if key == "F9"@ {
        Some(NamedKey::F9)
    } else if key == "F10"@ {
        Some(NamedKey::F10)
    } else if key == "F11"@ {
        Some(NamedKey::F11)
    } else if key == "F12"@ {
        Some(NamedKey::F12)
    } else {
        None
    }
}

/// Looks up the named key a key event's text stands for.
pub fn named_key(key: &str) -> (k: Option<NamedKey>)
    ensures
        k == named_key_for(key@),
{
    if same_text(key, "Enter") {
        Some(NamedKey::Return)
    } else if same_text(key, "Backspace") {
        Some(NamedKey::Backspace)
    } else if same_text(key, "Tab") {
        Some(NamedKey::Tab)
    } else if same_text(key, "Escape") {
        Some(NamedKey::Escape)
    } else if same_text(key, "Delete") {
        Some(NamedKey::Delete)
    } else if same_text(key, "ArrowUp") {
        Some(NamedKey::UpArrow)
    } else if same_text(key, "ArrowDown") {
        Some(NamedKey::DownArrow)
    } else if same_text(key, "ArrowLeft") {
        Some(NamedKey::LeftArrow)
    } else if same_text(key, "ArrowRight") {
        Some(NamedKey::RightArrow)
    } else if same_text(key, "Home") {
        Some(NamedKey::Home)
    } else if same_text(key, "End") {
        Some(NamedKey::End)
    } else if same_text(key, "PageUp") {
        Some(NamedKey::PageUp)
    } else if same_text(key, "PageDown") {
        Some(NamedKey::PageDown)
    } else if same_text(key, " ") {
        Some(NamedKey::Space)
    } else if same_text(key, "F1") {
        Some(NamedKey::F1)
    } else if same_text(key, "F2") {
        Some(NamedKey::F2)
    } else if same_text(key, "F3") {
        Some(NamedKey::F3)
    } else if same_text(key, "F4") {
        Some(NamedKey::F4)
    } else if same_text(key, "F5") {
        Some(NamedKey::F5)
    } else if same_text(key, "F6") {
        Some(NamedKey::F6)
    } else if same_text(key, "F7") {
        Some(NamedKey::F7)
    } else if same_text(key, "F8") {
        Some(NamedKey::F8)
    } else if same_text(key, "F9") {
        Some(NamedKey::F9)
    } else if same_text(key, "F10") {
        Some(NamedKey::F10)
    } else if same_text(key, "F11") {
        Some(NamedKey::F11)
    } else if same_text(key, "F12") {
        Some(NamedKey::F12)
    } else {
        None
    }
}

/// The text of a key event that taps `k`, as a viewer names the key.
pub open spec fn key_label(k: NamedKey) -> Seq<char> {
    match k {
        NamedKey::Return => "Enter"@,
        NamedKey::Backspace => "Backspace"@,
        NamedKey::Tab => "Tab"@,
        NamedKey::Escape => "Escape"@,
        NamedKey::Delete => "Delete"@,
        NamedKey::UpArrow => "ArrowUp"@,
        NamedKey::DownArrow => "ArrowDown"@,
        NamedKey::LeftArrow => "ArrowLeft"@,
        NamedKey::RightArrow => "ArrowRight"@,
        NamedKey::Home => "Home"@,
        NamedKey::End => "End"@,
        NamedKey::PageUp => "PageUp"@,
        NamedKey::PageDown => "PageDown"@,
        NamedKey::Space => " "@,
        NamedKey::F1 => "F1"@,
        NamedKey::F2 => "F2"@,
        NamedKey::F3 => "F3"@,
        NamedKey::F4 => "F4"@,
        NamedKey::F5 => "F5"@,
        NamedKey::F6 => "F6"@,
        NamedKey::F7 => "F7"@,
        NamedKey::F8 => "F8"@,
        NamedKey::F9 => "F9"@,
        NamedKey::F10 => "F10"@,
        NamedKey::F11 => "F11"@,
        NamedKey::F12 => "F12"@,
    }
}

/// One synthetic keyboard operation.
pub enum KeyStep {
    /// Hold a modifier down.
    Press(Modifier),
    /// Let a modifier go.
    Release(Modifier),
    /// Press and release a named key.
    Tap(NamedKey),
    /// Type this text.
    Text(String),
}

/// The modifiers held for an event, in the order they are pressed.
pub open spec fn held_modifiers(m: KeyModifiers) -> Seq<Modifier> {
    let s0 = Seq::<Modifier>::empty();
    let s1 = if m.ctrl {
        s0.push(Modifier::Control)
    } else {
        s0
    };
    let s2 = if m.alt {
        s1.push(Modifier::Alt)
    } else {
        s1
    };
    let s3 = if m.shift {
        s2.push(Modifier::Shift)
    } else {
        s2
    };
    if m.meta {
        s3.push(Modifier::Meta)
    } else {
        s3
    }
}

/// The operation that types the key itself.
pub open spec fn main_step(key: String) -> KeyStep {
    match named_key_for(key@) {
        Some(k) => KeyStep::Tap(k),
        None => KeyStep::Text(key),
    }
}

/// The operations for a key event: press the held modifiers (Control, Alt, Shift,
/// Meta), type the key, then release the modifiers in the opposite order.
pub open spec fn key_steps(key: String, m: KeyModifiers) -> Seq<KeyStep> {
    held_modifiers(m).map_values(|x: Modifier| KeyStep::Press(x)) + seq![main_step(key)]
        + held_modifiers(m).reverse().map_values(|x: Modifier| KeyStep::Release(x))
}

/// Plans the operations for a key event (see `key_steps`).
pub fn key_event_plan(key: String, modifiers: &KeyModifiers) -> (steps: Vec<KeyStep>)
    ensures
        steps@ == key_steps(key, *modifiers),
{
    let ghost held = held_modifiers(*modifiers);
    let mut steps: Vec<KeyStep> = Vec::new();
    if modifiers.ctrl {
        steps.push(KeyStep::Press(Modifier::Control));
    }
    if modifiers.alt {
        steps.push(KeyStep::Press(Modifier::Alt));
    }
    if modifiers.shift {
        steps.push(KeyStep::Press(Modifier::Shift));
    }
    if modifiers.meta {
        steps.push(KeyStep::Press(Modifier::Meta));
    }
    assert(steps@ =~= held.map_values(|x: Modifier| KeyStep::Press(x)));
    let ghost pressed = steps@;
    let main = match named_key(key.as_str()) {
        Some(k) => KeyStep::Tap(k),
        None => KeyStep::Text(key),
    };
    steps.push(main);
    let ghost before_release = steps@;
    if modifiers.meta {
        steps.push(KeyStep::Release(Modifier::Meta));
    }
    if modifiers.shift {
        steps.push(KeyStep::Release(Modifier::Shift));
    }
    if modifiers.alt {
        steps.push(KeyStep::Release(Modifier::Alt));
    }
    if modifiers.ctrl {
        steps.push(KeyStep::Release(Modifier::Control));
    }
    assert(steps@.subrange(before_release.len() as int, steps@.len() as int) =~= held.reverse().map_values(
        |x: Modifier| KeyStep::Release(x),
    ));
    assert(steps@ =~= key_steps(key, *modifiers));
    steps
}

/// Every modifier pressed for a key event is released after the key, and the
/// releases come in the opposite order of the presses; exactly one operation types
/// the key.
pub proof fn law_modifiers_released_in_reverse(key: String, m: KeyModifiers)
    ensures
        ({
            let steps = key_steps(key, m);
            let held = held_modifiers(m);
            let n = held.len() as int;
            &&& steps.len() == 2 * n + 1
            &&& steps[n] == main_step(key)
            &&& forall|i: int|
                0 <= i < n ==> steps[i] == KeyStep::Press(held[i]) && steps[2 * n - i]
                    == KeyStep::Release(held[i])
        }),
{
    let steps = key_steps(key, m);
    let held = held_modifiers(m);
    let n = held.len() as int;
    assert forall|i: int| 0 <= i < n implies steps[i] == KeyStep::Press(held[i]) && steps[2 * n - i]
        == KeyStep::Release(held[i]) by {
        assert(held.reverse()[n - 1 - i] == held[i]);
    }
}

/// Each key a viewer names by its label is tapped as that very key (`Backspace`
/// taps Backspace, `Enter` taps Return, `ArrowUp` taps the up arrow, and so on),
/// only its own label taps it, and any other text is typed as it is.
pub proof fn law_named_keys_tap_their_key(key: String, k: NamedKey)
    ensures
        main_step(key) == KeyStep::Tap(k) <==> key@ == key_label(k),
        (forall|j: NamedKey| key@ != #[trigger] key_label(j)) ==> main_step(key) == KeyStep::Text(key),
{
    reveal_strlit("Enter");
    reveal_strlit("Backspace");
    reveal_strlit("Tab");
    reveal_strlit("Escape");
    reveal_strlit("Delete");
    reveal_strlit("ArrowUp");
    reveal_strlit("ArrowDown");
    reveal_strlit("ArrowLeft");
    reveal_strlit("ArrowRight");
    reveal_strlit("Home");
    reveal_strlit("End");
    reveal_strlit("PageUp");
    reveal_strlit("PageDown");
    reveal_strlit(" ");
    reveal_strlit("F1");
    reveal_strlit("F2");
    reveal_strlit("F3");
    reveal_strlit("F4");
    reveal_strlit("F5");
    reveal_strlit("F6");
    reveal_strlit("F7");
    reveal_strlit("F8");
    reveal_strlit("F9");
    reveal_strlit("F10");
    reveal_strlit("F11");
    reveal_strlit("F12");
    assert("Enter"@.len() == 5);
    assert("Backspace"@.len() == 9);
    assert("Tab"@.len() == 3);
    assert("Escape"@.len() == 6);
    assert("Delete"@.len() == 6);
    assert("ArrowUp"@.len() == 7);
    assert("ArrowDown"@.len() == 9);
    assert("ArrowLeft"@.len() == 9);
    assert("ArrowRight"@.len() == 10);
    assert("Home"@.len() == 4);
    assert("End"@.len() == 3);
    assert("PageUp"@.len() == 6);
    assert("PageDown"@.len() == 8);
    assert(" "@.len() == 1);
    assert("F1"@.len() == 2);
    assert("F2"@.len() == 2);
    assert("F3"@.len() == 2);
    assert("F4"@.len() == 2);
    assert("F5"@.len() == 2);
    assert("F6"@.len() == 2);
    assert("F7"@.len() == 2);
    assert("F8"@.len() == 2);
    assert("F9"@.len() == 2);
    assert("F10"@.len() == 3);
    assert("F11"@.len() == 3);
    assert("F12"@.len() == 3);
    assert("Delete"@[0] != "Escape"@[0]);
    assert("ArrowDown"@[0] != "Backspace"@[0]);
    assert("ArrowLeft"@[0] != "Backspace"@[0]);
    assert("ArrowLeft"@[5] != "ArrowDown"@[5]);
    assert("End"@[0] != "Tab"@[0]);
    assert("PageUp"@[0] != "Escape"@[0]);
    assert("PageUp"@[0] != "Delete"@[0]);
    assert("F2"@[1] != "F1"@[1]);
    assert("F3"@[1] != "F1"@[1]);
    assert("F3"@[1] != "F2"@[1]);
    assert("F4"@[1] != "F1"@[1]);
    assert("F4"@[1] != "F2"@[1]);
    assert("F4"@[1] != "F3"@[1]);
    assert("F5"@[1] != "F1"@[1]);
    assert("F5"@[1] != "F2"@[1]);
    assert("F5"@[1] != "F3"@[1]);
    assert("F5"@[1] != "F4"@[1]);
    assert("F6"@[1] != "F1"@[1]);
    assert("F6"@[1] != "F2"@[1]);
    assert("F6"@[1] != "F3"@[1]);
    assert("F6"@[1] != "F4"@[1]);
    assert("F6"@[1] != "F5"@[1]);
    assert("F7"@[1] != "F1"@[1]);
    assert("F7"@[1] != "F2"@[1]);
    assert("F7"@[1] != "F3"@[1]);
    assert("F7"@[1] != "F4"@[1]);
    assert("F7"@[1] != "F5"@[1]);
    assert("F7"@[1] != "F6"@[1]);
    assert("F8"@[1] != "F1"@[1]);
    assert("F8"@[1] != "F2"@[1]);
    assert("F8"@[1] != "F3"@[1]);
    assert("F8"@[1] != "F4"@[1]);
    assert("F8"@[1] != "F5"@[1]);
    assert("F8"@[1] != "F6"@[1]);
    assert("F8"@[1] != "F7"@[1]);
    assert("F9"@[1] != "F1"@[1]);
    assert("F9"@[1] != "F2"@[1]);
    assert("F9"@[1] != "F3"@[1]);
    assert("F9"@[1] != "F4"@[1]);
    assert("F9"@[1] != "F5"@[1]);
    assert("F9"@[1] != "F6"@[1]);
    assert("F9"@[1] != "F7"@[1]);
    assert("F9"@[1] != "F8"@[1]);
    assert("F10"@[0] != "Tab"@[0]);
    assert("F10"@[0] != "End"@[0]);
    assert("F11"@[0] != "Tab"@[0]);
    assert("F11"@[0] != "End"@[0]);
    assert("F11"@[2] != "F10"@[2]);
    assert("F12"@[0] != "Tab"@[0]);
    assert("F12"@[0] != "End"@[0]);
    assert("F12"@[2] != "F10"@[2]);
    assert("F12"@[2] != "F11"@[2]);
    assert(named_key_for(key_label(k)) == Some(k));
    if named_key_for(key@) is Some {
        assert(key@ == key_label(named_key_for(key@).unwrap()));
    }
}

/// The error text when performing a keyboard operation failed with `detail`:
/// modifier presses and releases report a key error, typing reports a key input error.
pub open spec fn key_failure_text(step: KeyStep, detail: Seq<char>) -> Seq<char> {
    match step {
        KeyStep::Press(_) => "Key error: "@ + detail,
        KeyStep::Release(_) => "Key error: "@ + detail,
        KeyStep::Tap(_) => "Key input error: "@ + detail,
        KeyStep::Text(_) => "Key input error: "@ + detail,
    }
}

impl KeyStep {
    /// The error text when performing this operation failed with `detail`.
    pub fn failure_message(&self, detail: &str) -> (m: String)
        ensures
            m@ == key_failure_text(*self, detail@),
    {
        let mut m = match self {
            KeyStep::Press(_) => String::from_str("Key error: "),
            KeyStep::Release(_) => String::from_str("Key error: "),
            KeyStep::Tap(_) => String::from_str("Key input error: "),
            KeyStep::Text(_) => String::from_str("Key input error: "),
        };
        m.append(detail);
        m
    }
}

} // verus!
