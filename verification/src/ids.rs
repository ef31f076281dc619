//! Identifiers of widgets and layers, and what a widget senses.

use vstd::prelude::*;

verus! {

/// An opaque, stable name for a piece of interactive or persistent state.
#[derive(Clone, Copy, Debug, PartialEq, Eq, Hash, Structural)]
pub struct Id {
    pub value: u64,
}

impl Id {
    pub fn new(value: u64) -> (id: Id)
        ensures
            id.value == value,
    {
        Id { value }
    }

    /// Whether `slot` holds exactly this id.
    pub fn is_in(self, slot: Option<Id>) -> (held: bool)
        ensures
            held == (slot == Some(self)),
    {
        match slot {
            Some(other) => other.value == self.value,
            None => false,
        }
    }
}

/// The stacking class of a layer, from back to front.
#[derive(Clone, Copy, Debug, PartialEq, Eq, Hash, Structural)]
pub enum Order {
    Background,
    Middle,
    Foreground,
    Tooltip,
    Debug,
}

impl Order {
    /// The place of the class in the stacking order, from 0 at the back.
    pub open spec fn spec_rank(self) -> u8 {
        match self {
            Order::Background => 0,
            Order::Middle => 1,
            Order::Foreground => 2,
            Order::Tooltip => 3,
            Order::Debug => 4,
        }
    }

    #[verifier::when_used_as_spec(spec_rank)]
    pub fn rank(self) -> (r: u8)
        ensures
            r == self.spec_rank(),
    {
        match self {
            Order::Background => 0,
            Order::Middle => 1,
            Order::Foreground => 2,
            Order::Tooltip => 3,
            Order::Debug => 4,
        }
    }

    /// Whether widgets on a layer of this class may be interacted with.
    pub open spec fn spec_allow_interaction(self) -> bool {
        self != Order::Tooltip
    }

    #[verifier::when_used_as_spec(spec_allow_interaction)]
    pub fn allow_interaction(self) -> (allowed: bool)
        ensures
            allowed == self.spec_allow_interaction(),
    {
        match self {
            Order::Tooltip => false,
            _ => true,
        }
    }
}

/// An independently hit-testable drawing surface.
#[derive(Clone, Copy, Debug, PartialEq, Eq, Hash, Structural)]
pub struct LayerId {
    pub order: Order,
    pub id: Id,
}

impl LayerId {
    pub fn new(order: Order, id: Id) -> (layer: LayerId)
        ensures
            layer.order == order,
            layer.id == id,
    {
        LayerId { order, id }
    }

    /// The layer behind all panels and windows.
    pub open spec fn spec_background() -> LayerId {
        LayerId { order: Order::Background, id: Id { value: 0 } }
    }

    #[verifier::when_used_as_spec(spec_background)]
    pub fn background() -> (layer: LayerId)
        ensures
            layer == LayerId::spec_background(),
    {
        LayerId { order: Order::Background, id: Id { value: 0 } }
    }

    /// The layer painted on top of everything else.
    pub open spec fn spec_debug() -> LayerId {
        LayerId { order: Order::Debug, id: Id { value: 1 } }
    }

    #[verifier::when_used_as_spec(spec_debug)]
    pub fn debug() -> (layer: LayerId)
        ensures
            layer == LayerId::spec_debug(),
    {
        LayerId { order: Order::Debug, id: Id { value: 1 } }
    }

    pub open spec fn spec_allow_interaction(self) -> bool {
        self.order.spec_allow_interaction()
    }

    #[verifier::when_used_as_spec(spec_allow_interaction)]
    pub fn allow_interaction(self) -> (allowed: bool)
        ensures
            allowed == self.spec_allow_interaction(),
    {
        self.order.allow_interaction()
    }

    /// Whether `slot` holds exactly this layer.
    pub fn is_in(self, slot: Option<LayerId>) -> (held: bool)
        ensures
            held == (slot == Some(self)),
    {
        match slot {
            Some(other) => other == self,
            None => false,
        }
    }
}

/// What kinds of interaction a widget is interested in.
#[derive(Clone, Copy, Debug, PartialEq, Eq, Structural)]
pub struct Sense {
    pub click: bool,
    pub drag: bool,
    pub focusable: bool,
}

impl Sense {
    /// Senses nothing but a hover.
    pub fn hover() -> (s: Sense)
        ensures
            s == (Sense { click: false, drag: false, focusable: false }),
    {
        Sense { click: false, drag: false, focusable: false }
    }

    /// Senses only focus, for a screen reader.
    pub fn focusable_noninteractive() -> (s: Sense)
        ensures
            s == (Sense { click: false, drag: false, focusable: true }),
    {
        Sense { click: false, drag: false, focusable: true }
    }

    /// Senses clicks.
    pub fn click() -> (s: Sense)
        ensures
            s == (Sense { click: true, drag: false, focusable: true }),
    {
        Sense { click: true, drag: false, focusable: true }
    }

    /// Senses drags.
    pub fn drag() -> (s: Sense)
        ensures
            s == (Sense { click: false, drag: true, focusable: true }),
    {
        Sense { click: false, drag: true, focusable: true }
    }

    /// Senses clicks and drags.
    pub fn click_and_drag() -> (s: Sense)
        ensures
            s == (Sense { click: true, drag: true, focusable: true }),
    {
        Sense { click: true, drag: true, focusable: true }
    }

    /// Whether the widget senses clicks or drags.
    pub open spec fn spec_interactive(self) -> bool {
        self.click || self.drag
    }

    #[verifier::when_used_as_spec(spec_interactive)]
    pub fn interactive(self) -> (yes: bool)
        ensures
            yes == self.spec_interactive(),
    {
        self.click || self.drag
    }
}

/// A button of the pointing device.
#[derive(Clone, Copy, Debug, PartialEq, Eq, Hash, Structural)]
pub enum PointerButton {
    Primary,
    Secondary,
    Middle,
}

/// One flag per pointer button.
#[derive(Clone, Copy, Debug, PartialEq, Eq, Structural)]
pub struct ButtonFlags {
    pub primary: bool,
    pub secondary: bool,
    pub middle: bool,
}

impl ButtonFlags {
    pub open spec fn spec_none() -> ButtonFlags {
        ButtonFlags { primary: false, secondary: false, middle: false }
    }

    #[verifier::when_used_as_spec(spec_none)]
    pub fn none() -> (f: ButtonFlags)
        ensures
            f == ButtonFlags::spec_none(),
    {
        ButtonFlags { primary: false, secondary: false, middle: false }
    }

    pub open spec fn spec_get(self, button: PointerButton) -> bool {
        match button {
            PointerButton::Primary => self.primary,
            PointerButton::Secondary => self.secondary,
            PointerButton::Middle => self.middle,
        }
    }

    #[verifier::when_used_as_spec(spec_get)]
    pub fn get(self, button: PointerButton) -> (on: bool)
        ensures
            on == self.spec_get(button),
    {
        match button {
            PointerButton::Primary => self.primary,
            PointerButton::Secondary => self.secondary,
            PointerButton::Middle => self.middle,
        }
    }

    /// The flags with the one of `button` replaced by `on`.
    pub open spec fn spec_with(self, button: PointerButton, on: bool) -> ButtonFlags {
        match button {
            PointerButton::Primary => ButtonFlags { primary: on, ..self },
            PointerButton::Secondary => ButtonFlags { secondary: on, ..self },
            PointerButton::Middle => ButtonFlags { middle: on, ..self },
        }
    }

    #[verifier::when_used_as_spec(spec_with)]
    pub fn with(self, button: PointerButton, on: bool) -> (f: ButtonFlags)
        ensures
            f == self.spec_with(button, on),
    {
        match button {
            PointerButton::Primary => ButtonFlags { primary: on, ..self },
            PointerButton::Secondary => ButtonFlags { secondary: on, ..self },
            PointerButton::Middle => ButtonFlags { middle: on, ..self },
        }
    }

    pub open spec fn spec_any(self) -> bool {
        self.primary || self.secondary || self.middle
    }

    #[verifier::when_used_as_spec(spec_any)]
    pub fn any(self) -> (on: bool)
        ensures
            on == self.spec_any(),
    {
        self.primary || self.secondary || self.middle
    }
}

} // verus!
