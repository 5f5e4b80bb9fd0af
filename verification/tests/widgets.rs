//! Tests for widget state machines. Containment of a point in a
//! rectangle is the caller's geometry, so the tests compute it here in
//! plain `f32` and hand the widgets the resulting `bool`.

use horizon_engine::math::ColorBits;
use horizon_engine::ui::{Button, Label, Panel, Rect, WidgetState};

fn rect(x: f32, y: f32, w: f32, h: f32) -> Rect {
    Rect::new(x.to_bits(), y.to_bits(), w.to_bits(), h.to_bits())
}

/// Absolute containment of a point in a rectangle.
fn contains(r: &Rect, px: f32, py: f32) -> bool {
    let x = f32::from_bits(r.x);
    let y = f32::from_bits(r.y);
    let w = f32::from_bits(r.w);
    let h = f32::from_bits(r.h);
    px >= x && px <= x + w && py >= y && py <= y + h
}

#[test]
fn test_button_click() {
    let rect = rect(10.0, 10.0, 100.0, 30.0);
    let mut button = Button::new("Test".to_string(), rect);
    let inside = contains(&button.rect, 50.0, 25.0);

    // Simulate click
    button.on_mouse_down(inside);
    assert_eq!(button.state(), WidgetState::Pressed);

    button.on_mouse_up(inside);
    assert!(button.was_clicked());
    assert_eq!(button.state(), WidgetState::Hovered);
}

#[test]
fn test_button_click_outside() {
    let rect = rect(10.0, 10.0, 100.0, 30.0);
    let mut button = Button::new("Test".to_string(), rect);
    let outside = contains(&button.rect, 200.0, 200.0);

    button.on_mouse_down(outside);
    assert_eq!(button.state(), WidgetState::Normal);
}

#[test]
fn was_clicked_resets() {
    let mut button = Button::new("Go".to_string(), rect(0.0, 0.0, 10.0, 10.0));
    button.on_mouse_down(true);
    button.on_mouse_up(true);
    assert!(button.was_clicked());
    assert!(!button.was_clicked());
}

#[test]
fn disabled_button_ignores_events() {
    let mut button = Button::new("Off".to_string(), rect(0.0, 0.0, 10.0, 10.0));
    button.set_disabled(true);
    assert!(button.is_disabled());
    assert_eq!(button.state(), WidgetState::Disabled);

    button.on_mouse_move(true);
    assert_eq!(button.state(), WidgetState::Disabled);
    assert!(!button.on_mouse_down(true));
    assert!(!button.on_mouse_up(true));
    assert!(!button.was_clicked());

    button.set_disabled(false);
    assert_eq!(button.state(), WidgetState::Normal);
    assert!(!button.is_disabled());
}

#[test]
fn hover_follows_pointer() {
    let mut button = Button::new("Hover".to_string(), rect(0.0, 0.0, 10.0, 10.0));
    button.on_mouse_move(true);
    assert_eq!(button.state(), WidgetState::Hovered);
    button.on_mouse_move(false);
    assert_eq!(button.state(), WidgetState::Normal);
}

#[test]
fn release_outside_cancels_press() {
    let mut button = Button::new("Drag".to_string(), rect(0.0, 0.0, 10.0, 10.0));
    assert!(button.on_mouse_down(true));
    // Dragging while pressed keeps the pressed state.
    button.on_mouse_move(false);
    assert_eq!(button.state(), WidgetState::Pressed);
    assert!(!button.on_mouse_up(false));
    assert_eq!(button.state(), WidgetState::Normal);
    assert!(!button.was_clicked());
}

#[test]
fn label_defaults_to_white() {
    let label = Label::new("Score".to_string(), rect(0.0, 0.0, 60.0, 20.0));
    let one = 1.0f32.to_bits();
    assert_eq!(label.text, "Score");
    assert_eq!(label.color, ColorBits { r: one, g: one, b: one, a: one });

    let red = label.with_color(ColorBits {
        r: 1.0f32.to_bits(),
        g: 0.0f32.to_bits(),
        b: 0.0f32.to_bits(),
        a: 1.0f32.to_bits(),
    });
    assert_eq!(red.text, "Score");
    assert_eq!(red.color.g, 0.0f32.to_bits());
}

#[test]
fn panel_title_is_optional() {
    let p = Panel::new(rect(5.0, 5.0, 50.0, 50.0));
    assert!(p.title.is_none());
    let titled = p.with_title("Stats".to_string());
    assert_eq!(titled.title, Some("Stats".to_string()));
}
