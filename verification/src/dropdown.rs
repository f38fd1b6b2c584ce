//! Dropdown logic.
//!
//! A dropdown holds one piece of state, whether its menu is expanded, and
//! toggles it on every toggle message. Its view is a base class plus the
//! modifiers of its opening position and, while expanded, the `Expanded`
//! modifier; the menu element is hidden exactly while the dropdown is
//! collapsed.

use crate::classes::{push_flag, spec_flag, StyleModifier};
use vstd::prelude::*;

verus! {

/// Where the dropdown menu opens relative to its toggle.
#[derive(Clone, Copy, Debug, PartialEq, Eq, Structural)]
pub enum Position {
    Left,
    Right,
    Top,
}

impl Default for Position {
    fn default() -> (r: Self)
        ensures
            r == Position::Left,
    {
        Position::Left
    }
}

/// The modifiers contributed by the opening position.
pub open spec fn spec_position_modifiers(p: Position) -> Seq<StyleModifier> {
    match p {
        Position::Left => Seq::empty(),
        Position::Right => seq![StyleModifier::Right],
        Position::Top => seq![StyleModifier::Top],
    }
}

impl Position {
    /// The modifier classes of this position.
    pub fn as_classes(&self) -> (r: Vec<StyleModifier>)
        ensures
            r@ == spec_position_modifiers(*self),
    {
        let mut r: Vec<StyleModifier> = Vec::new();
        match self {
            Position::Left => {},
            Position::Right => r.push(StyleModifier::Right),
            Position::Top => r.push(StyleModifier::Top),
        }
        proof {
            assert(r@ =~= spec_position_modifiers(*self));
        }
        r
    }
}

/// An icon a dropdown toggle can show.
#[derive(Clone, Copy, Debug, PartialEq, Eq, Structural)]
pub enum Icon {
    CaretDown,
    EllipsisV,
}

/// The styling of the toggle button.
#[derive(Clone, Copy, Debug, PartialEq, Eq, Structural)]
pub enum ButtonVariant {
    Default,
    Plain,
}

/// The properties of a dropdown that its logic reads. The toggle markup and
/// the menu children stay with the rendering layer.
#[derive(Clone, Debug)]
pub struct Props {
    pub position: Position,
    pub icon: Option<Icon>,
    pub text: String,
    pub disabled: bool,
    pub plain: bool,
    pub toggle_style: Option<String>,
}

/// Equality of dropdown properties, text compared by content.
pub open spec fn props_eq(a: Props, b: Props) -> bool {
    &&& a.position == b.position
    &&& a.icon == b.icon
    &&& a.text@ == b.text@
    &&& a.disabled == b.disabled
    &&& a.plain == b.plain
    &&& match (a.toggle_style, b.toggle_style) {
        (Some(x), Some(y)) => x@ == y@,
        (None, None) => true,
        _ => false,
    }
}

impl PartialEq for Props {
    fn eq(&self, other: &Props) -> (r: bool) {
        self.position == other.position && (match (self.icon, other.icon) {
            (Some(x), Some(y)) => x == y,
            (None, None) => true,
            _ => false,
        }) && self.text == other.text && self.disabled == other.disabled && self.plain
            == other.plain && (match (&self.toggle_style, &other.toggle_style) {
            (Some(x), Some(y)) => *x == *y,
            (None, None) => true,
            _ => false,
        })
    }
}

impl vstd::std_specs::cmp::PartialEqSpecImpl for Props {
    open spec fn obeys_eq_spec() -> bool {
        true
    }

    open spec fn eq_spec(&self, other: &Props) -> bool {
        props_eq(*self, *other)
    }
}

/// A toggle message flips the expansion state.
#[derive(Clone, Copy, Debug, PartialEq, Eq, Structural)]
pub enum Msg {
    Toggle,
}

/// What the dropdown renders: its class list, whether the menu element is
/// hidden, and how the toggle button is styled.
pub struct DropdownView {
    pub classes: Vec<StyleModifier>,
    pub menu_hidden: bool,
    pub variant: ButtonVariant,
    pub disabled: bool,
}

/// A dropdown: its properties and whether its menu is expanded.
pub struct Dropdown {
    pub props: Props,
    pub expanded: bool,
}

/// The classes of the dropdown container: the position modifiers, then
/// `Expanded` while the menu is open.
pub open spec fn spec_dropdown_modifiers(position: Position, expanded: bool) -> Seq<StyleModifier> {
    spec_position_modifiers(position) + spec_flag(expanded, StyleModifier::Expanded)
}

impl Dropdown {
    /// A fresh dropdown starts collapsed.
    pub fn create(props: Props) -> (r: Dropdown)
        ensures
            r.props == props,
            !r.expanded,
    {
        Dropdown { props, expanded: false }
    }

    /// Every toggle message flips the expansion state and asks for a redraw.
    pub fn update(&mut self, msg: Msg) -> (render: bool)
        ensures
            final(self).expanded == !old(self).expanded,
            final(self).props == old(self).props,
            render,
    {
        match msg {
            Msg::Toggle => {
                self.expanded = !self.expanded;
            },
        }
        true
    }

    /// Adopt new properties; a redraw is needed exactly when they differ
    /// from the current ones.
    pub fn change(&mut self, props: Props) -> (render: bool)
        ensures
            render == !props_eq(old(self).props, props),
            final(self).expanded == old(self).expanded,
            render ==> final(self).props == props,
            !render ==> final(self).props == old(self).props,
    {
        if self.props != props {
            self.props = props;
            true
        } else {
            false
        }
    }

    /// What to render in the current state.
    pub fn view(&self) -> (r: DropdownView)
        ensures
            r.classes@ == spec_dropdown_modifiers(self.props.position, self.expanded),
            r.menu_hidden == !self.expanded,
            r.variant == (if self.props.plain {
                ButtonVariant::Plain
            } else {
                ButtonVariant::Default
            }),
            r.disabled == self.props.disabled,
    {
        let mut classes = self.props.position.as_classes();
        push_flag(&mut classes, self.expanded, StyleModifier::Expanded);
        let variant = if self.props.plain {
            ButtonVariant::Plain
        } else {
            ButtonVariant::Default
        };
        DropdownView { classes, menu_hidden: !self.expanded, variant, disabled: self.props.disabled }
    }
}

/// The icon a toggle shows: the configured one, or a caret by default.
pub fn toggle_icon(icon: Option<Icon>) -> (r: Icon)
    ensures
        r == (match icon {
            Some(i) => i,
            None => Icon::CaretDown,
        }),
{
    match icon {
        Some(i) => i,
        None => Icon::CaretDown,
    }
}

/// The properties of a dropdown menu item that its logic reads.
pub struct DropdownItemProps {
    pub href: String,
    pub has_onclick: bool,
}

/// How a menu item acts when chosen.
#[derive(Clone, Copy, Debug, PartialEq, Eq, Structural)]
pub enum ItemAction {
    Button,
    Link,
}

/// An item with a click handler renders as a button; otherwise it renders
/// as a link to its target.
pub fn item_action(p: &DropdownItemProps) -> (r: ItemAction)
    ensures
        r == (if p.has_onclick {
            ItemAction::Button
        } else {
            ItemAction::Link
        }),
{
    if p.has_onclick {
        ItemAction::Button
    } else {
        ItemAction::Link
    }
}

} // verus!
