use penrose::bindings::{BindingError, KeyCode, ModifierKey, MouseButton, MouseEvent, MouseEventKind, MouseState};
use penrose::geometry::Point;

#[test]
fn ignoring_modifier_clears_mask_bits() {
    let k = KeyCode { mask: 0b1101, code: 42 };
    let r = k.ignoring_modifier(0b0100);
    assert_eq!(r, KeyCode { mask: 0b1001, code: 42 });
    assert_eq!(k.ignoring_modifier(0), k);
}

#[test]
fn mouse_button_numbers() {
    assert_eq!(u8::from(MouseButton::Left), 1);
    assert_eq!(u8::from(MouseButton::Middle), 2);
    assert_eq!(u8::from(MouseButton::Right), 3);
    assert_eq!(u8::from(MouseButton::ScrollUp), 4);
    assert_eq!(u8::from(MouseButton::ScrollDown), 5);
}

#[test]
fn modifier_names() {
    assert_eq!(ModifierKey::from_name("C"), Ok(ModifierKey::Ctrl));
    assert_eq!(ModifierKey::from_name("A"), Ok(ModifierKey::Alt));
    assert_eq!(ModifierKey::from_name("S"), Ok(ModifierKey::Shift));
    assert_eq!(ModifierKey::from_name("M"), Ok(ModifierKey::Meta));
}

#[test]
fn unknown_modifier_name() {
    assert_eq!(ModifierKey::from_name("X"), Err(BindingError::UnknownModifier("X".to_string())));
    assert_eq!(ModifierKey::from_name("CA"), Err(BindingError::UnknownModifier("CA".to_string())));
    assert_eq!(ModifierKey::from_name(""), Err(BindingError::UnknownModifier(String::new())));
}

#[test]
fn all_modifiers_in_order() {
    assert_eq!(ModifierKey::all(), vec![ModifierKey::Ctrl, ModifierKey::Alt, ModifierKey::Shift, ModifierKey::Meta]);
}

#[test]
fn mouse_state_sorts_modifiers() {
    let s = MouseState::new(MouseButton::Left, vec![ModifierKey::Meta, ModifierKey::Ctrl, ModifierKey::Shift, ModifierKey::Ctrl]);
    assert_eq!(s.button, MouseButton::Left);
    assert_eq!(s.modifiers, vec![ModifierKey::Ctrl, ModifierKey::Ctrl, ModifierKey::Shift, ModifierKey::Meta]);
    let t = MouseState::new(MouseButton::Left, vec![ModifierKey::Ctrl, ModifierKey::Meta, ModifierKey::Ctrl, ModifierKey::Shift]);
    assert_eq!(s, t);
}

#[test]
fn mouse_event_from_raw_values() {
    let state = MouseState::new(MouseButton::Right, vec![]);
    let e = MouseEvent::new(9, 10, 20, 3, -1, state.clone(), MouseEventKind::Press);
    assert_eq!(e.id, 9);
    assert_eq!(e.rpt, Point::new(10, 20));
    assert_eq!(e.wpt, Point::new(3, -1i16 as u32));
    assert_eq!(e.wpt.y, u32::MAX);
    assert_eq!(e.state, state);
    assert_eq!(e.kind, MouseEventKind::Press);
}
