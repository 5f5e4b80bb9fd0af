//! Interactive widget state.
//!
//! The widgets keep their interaction state machines here; where the
//! pointer lies relative to a widget's rectangle is geometry over
//! floats, so the caller's layout code decides containment and the
//! event methods take that decision as a plain `bool`.

use vstd::prelude::*;

use crate::math::{ColorBits, F32_BITS_ONE};

verus! {

/// Widget interaction state.
#[derive(Debug, Clone, Copy, PartialEq, Eq, Structural, Default)]
pub enum WidgetState {
    /// Normal state.
    #[default]
    Normal,
    /// Mouse hovering.
    Hovered,
    /// Being pressed.
    Pressed,
    /// Disabled.
    Disabled,
}

/// A widget rectangle: position and size, each component an `f32` bit
/// pattern.
#[derive(Debug, Clone, Copy, PartialEq, Eq, Structural)]
pub struct Rect {
    /// Horizontal position.
    pub x: u32,
    /// Vertical position.
    pub y: u32,
    /// Width.
    pub w: u32,
    /// Height.
    pub h: u32,
}

impl Rect {
    /// Build a rectangle from its components.
    pub fn new(x: u32, y: u32, w: u32, h: u32) -> (r: Rect)
        ensures
            r == (Rect { x, y, w, h }),
    {
        Rect { x, y, w, h }
    }
}

/// The state a button moves to when the pointer moves: hovering or
/// normal by containment, except that a disabled or pressed button
/// keeps its state.
pub open spec fn spec_state_after_move(s: WidgetState, inside: bool) -> WidgetState {
    if s is Disabled || s is Pressed {
        s
    } else if inside {
        WidgetState::Hovered
    } else {
        WidgetState::Normal
    }
}

/// The state a button moves to on a press: pressed if it is enabled and
/// the pointer is inside, else unchanged.
pub open spec fn spec_state_after_down(s: WidgetState, inside: bool) -> WidgetState {
    if !(s is Disabled) && inside {
        WidgetState::Pressed
    } else {
        s
    }
}

/// The state a button moves to on a release: a pressed button becomes
/// hovered when released inside and normal when released outside; any
/// other state is kept.
pub open spec fn spec_state_after_up(s: WidgetState, inside: bool) -> WidgetState {
    if s is Pressed {
        if inside {
            WidgetState::Hovered
        } else {
            WidgetState::Normal
        }
    } else {
        s
    }
}

/// A clickable button.
#[derive(Debug, Clone)]
pub struct Button {
    /// Rectangle.
    pub rect: Rect,
    /// Label text.
    pub text: String,
    /// Current state.
    pub state: WidgetState,
    /// Whether the button was clicked this frame.
    pub clicked: bool,
}

impl Button {
    /// Create a new button in the normal state.
    pub fn new(text: String, rect: Rect) -> (b: Button)
        ensures
            b.rect == rect,
            b.text == text,
            b.state is Normal,
            !b.clicked,
    {
        Button { rect, text, state: WidgetState::Normal, clicked: false }
    }

    /// Whether the button was clicked since the last check; the flag
    /// resets on every check.
    pub fn was_clicked(&mut self) -> (r: bool)
        ensures
            r == old(self).clicked,
            !final(self).clicked,
            final(self).state == old(self).state,
            final(self).rect == old(self).rect,
            final(self).text == old(self).text,
    {
        let result = self.clicked;
        self.clicked = false;
        result
    }

    /// Disable or enable the button.
    pub fn set_disabled(&mut self, disabled: bool)
        ensures
            final(self).state == if disabled {
                WidgetState::Disabled
            } else {
                WidgetState::Normal
            },
            final(self).clicked == old(self).clicked,
            final(self).rect == old(self).rect,
            final(self).text == old(self).text,
    {
        self.state = if disabled {
            WidgetState::Disabled
        } else {
            WidgetState::Normal
        };
    }

    /// Whether the button is disabled.
    pub fn is_disabled(&self) -> (r: bool)
        ensures
            r == (self.state is Disabled),
    {
        self.state == WidgetState::Disabled
    }

    /// The current interaction state.
    pub fn state(&self) -> (s: WidgetState)
        ensures
            s == self.state,
    {
        self.state
    }

    /// Handle pointer movement; `inside` says whether the pointer lies
    /// in the button's rectangle.
    pub fn on_mouse_move(&mut self, inside: bool)
        ensures
            final(self).state == spec_state_after_move(old(self).state, inside),
            final(self).clicked == old(self).clicked,
            final(self).rect == old(self).rect,
            final(self).text == old(self).text,
    {
        if self.state == WidgetState::Disabled {
            return ;
        }
        if inside {
            if self.state != WidgetState::Pressed {
                self.state = WidgetState::Hovered;
            }
        } else if self.state != WidgetState::Pressed {
            self.state = WidgetState::Normal;
        }
    }

    /// Handle a pointer press; returns whether the button consumed it.
    pub fn on_mouse_down(&mut self, inside: bool) -> (handled: bool)
        ensures
            final(self).state == spec_state_after_down(old(self).state, inside),
            handled == (!(old(self).state is Disabled) && inside),
            final(self).clicked == old(self).clicked,
            final(self).rect == old(self).rect,
            final(self).text == old(self).text,
    {
        if self.state == WidgetState::Disabled {
            return false;
        }
        if inside {
            self.state = WidgetState::Pressed;
            true
        } else {
            false
        }
    }

    /// Handle a pointer release; a press completed inside the button
    /// records a click and is consumed.
    pub fn on_mouse_up(&mut self, inside: bool) -> (handled: bool)
        ensures
            final(self).state == spec_state_after_up(old(self).state, inside),
            handled == (old(self).state is Pressed && inside),
            final(self).clicked == (old(self).clicked || (old(self).state is Pressed && inside)),
            final(self).rect == old(self).rect,
            final(self).text == old(self).text,
    {
        if self.state == WidgetState::Pressed {
            if inside {
                self.clicked = true;
                self.state = WidgetState::Hovered;
                return true;
            }
            self.state = WidgetState::Normal;
        }
        false
    }
}

/// A text label.
#[derive(Debug, Clone)]
pub struct Label {
    /// Rectangle.
    pub rect: Rect,
    /// Text content.
    pub text: String,
    /// Text color (RGBA), as `f32` bit patterns.
    pub color: ColorBits,
}

impl Label {
    /// Create a new label in opaque white.
    pub fn new(text: String, rect: Rect) -> (l: Label)
        ensures
            l.rect == rect,
            l.text == text,
            l.color == (ColorBits {
                r: F32_BITS_ONE,
                g: F32_BITS_ONE,
                b: F32_BITS_ONE,
                a: F32_BITS_ONE,
            }),
    {
        Label {
            rect,
            text,
            color: ColorBits { r: F32_BITS_ONE, g: F32_BITS_ONE, b: F32_BITS_ONE, a: F32_BITS_ONE },
        }
    }

    /// Set text color.
    pub fn with_color(self, color: ColorBits) -> (l: Label)
        ensures
            l.rect == self.rect,
            l.text == self.text,
            l.color == color,
    {
        Label { rect: self.rect, text: self.text, color }
    }
}

/// A container panel.
#[derive(Debug, Clone)]
pub struct Panel {
    /// Rectangle.
    pub rect: Rect,
    /// Panel title (optional).
    pub title: Option<String>,
}

impl Panel {
    /// Create a new untitled panel.
    pub fn new(rect: Rect) -> (p: Panel)
        ensures
            p.rect == rect,
            p.title is None,
    {
        Panel { rect, title: None }
    }

    /// Set the title.
    pub fn with_title(self, title: String) -> (p: Panel)
        ensures
            p.rect == self.rect,
            p.title == Some(title),
    {
        Panel { rect: self.rect, title: Some(title) }
    }
}

} // verus!
