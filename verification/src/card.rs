//! Card styling logic.
//!
//! A card is a container whose look is driven by a set of independent flags
//! plus one deliberate interplay: `selectable` and `clickable` are mutually
//! adjusted rather than additive. When both hold, the card is tagged
//! selectable + clickable and, if it is also selected, `Current`; when only
//! one of them holds, the card is tagged with that one and, if selected,
//! `Selected`. A card also counts as clickable when a click handler is
//! supplied even though the explicit flag is off.

use crate::classes::{push_flag, spec_flag, StyleModifier};
use vstd::prelude::*;

verus! {

/// The size of a card.
#[derive(Clone, Copy, Debug, PartialEq, Eq, Structural)]
pub enum CardSize {
    Default,
    Compact,
    Large,
}

impl Default for CardSize {
    fn default() -> (r: Self)
        ensures
            r == CardSize::Default,
    {
        CardSize::Default
    }
}

/// The style-relevant properties of a card. `has_onclick` records whether
/// the host supplied a click handler; the handler itself stays with the
/// rendering layer.
#[derive(Clone, Copy, Debug, PartialEq, Eq, Structural)]
pub struct CardProperties {
    pub size: CardSize,
    pub selectable: bool,
    pub selected: bool,
    pub clickable: bool,
    pub disabled: bool,
    pub flat: bool,
    pub rounded: bool,
    pub full_height: bool,
    pub plain: bool,
    pub expanded: bool,
    pub has_onclick: bool,
}

impl Default for CardProperties {
    fn default() -> (r: Self)
        ensures
            r == (CardProperties {
                size: CardSize::Default,
                selectable: false,
                selected: false,
                clickable: false,
                disabled: false,
                flat: false,
                rounded: false,
                full_height: false,
                plain: false,
                expanded: false,
                has_onclick: false,
            }),
    {
        CardProperties {
            size: CardSize::Default,
            selectable: false,
            selected: false,
            clickable: false,
            disabled: false,
            flat: false,
            rounded: false,
            full_height: false,
            plain: false,
            expanded: false,
            has_onclick: false,
        }
    }
}

/// The context a card passes down to its children.
#[derive(Clone, Copy, Debug, PartialEq, Eq, Structural)]
pub struct CardContext {
    pub expanded: bool,
    pub clickable: bool,
    pub selectable: bool,
    pub disabled: bool,
}

/// A card is clickable when the flag is set or a click handler is present.
pub open spec fn spec_effective_clickable(p: CardProperties) -> bool {
    p.clickable || p.has_onclick
}

pub fn effective_clickable(p: &CardProperties) -> (r: bool)
    ensures
        r == spec_effective_clickable(*p),
{
    p.clickable || p.has_onclick
}

/// The modifiers contributed by the card size.
pub open spec fn spec_size_modifiers(size: CardSize) -> Seq<StyleModifier> {
    match size {
        CardSize::Default => Seq::empty(),
        CardSize::Compact => seq![StyleModifier::Compact],
        CardSize::Large => seq![StyleModifier::DisplayLarge],
    }
}

/// The mutual adjustment of `selectable` and `clickable`: both together make
/// a selected card `Current`, either alone makes it `Selected`.
pub open spec fn spec_selection_modifiers(
    selectable: bool,
    clickable: bool,
    selected: bool,
) -> Seq<StyleModifier> {
    if selectable && clickable {
        seq![StyleModifier::Selectable, StyleModifier::Clickable] + spec_flag(
            selected,
            StyleModifier::Current,
        )
    } else if selectable {
        seq![StyleModifier::Selectable] + spec_flag(selected, StyleModifier::Selected)
    } else if clickable {
        seq![StyleModifier::Clickable] + spec_flag(selected, StyleModifier::Selected)
    } else {
        Seq::empty()
    }
}

/// The ordered modifier list of a card.
pub open spec fn spec_card_modifiers(p: CardProperties) -> Seq<StyleModifier> {
    spec_size_modifiers(p.size) + spec_flag(p.disabled, StyleModifier::Disabled) + spec_flag(
        p.expanded,
        StyleModifier::Expanded,
    ) + spec_flag(p.flat, StyleModifier::Flat) + spec_flag(p.full_height, StyleModifier::FullHeight)
        + spec_flag(p.rounded, StyleModifier::Rounded) + spec_flag(p.plain, StyleModifier::Plain)
        + spec_selection_modifiers(p.selectable, spec_effective_clickable(p), p.selected)
}

/// Append the modifiers of the card size.
fn push_size(r: &mut Vec<StyleModifier>, size: CardSize)
    ensures
        final(r)@ == old(r)@ + spec_size_modifiers(size),
{
    match size {
        CardSize::Default => {},
        CardSize::Compact => r.push(StyleModifier::Compact),
        CardSize::Large => r.push(StyleModifier::DisplayLarge),
    }
    proof {
        assert(r@ =~= old(r)@ + spec_size_modifiers(size));
    }
}

/// Append the mutually adjusted selection modifiers.
fn push_selection(r: &mut Vec<StyleModifier>, selectable: bool, clickable: bool, selected: bool)
    ensures
        final(r)@ == old(r)@ + spec_selection_modifiers(selectable, clickable, selected),
{
    if selectable && clickable {
        r.push(StyleModifier::Selectable);
        r.push(StyleModifier::Clickable);
        if selected {
            r.push(StyleModifier::Current);
        }
    } else if selectable {
        r.push(StyleModifier::Selectable);
        if selected {
            r.push(StyleModifier::Selected);
        }
    } else if clickable {
        r.push(StyleModifier::Clickable);
        if selected {
            r.push(StyleModifier::Selected);
        }
    }
    proof {
        assert(r@ =~= old(r)@ + spec_selection_modifiers(selectable, clickable, selected));
    }
}

/// Compute the ordered modifier list of a card from its properties.
pub fn card_modifiers(p: &CardProperties) -> (r: Vec<StyleModifier>)
    ensures
        r@ == spec_card_modifiers(*p),
{
    let mut r: Vec<StyleModifier> = Vec::new();
    push_size(&mut r, p.size);
    push_flag(&mut r, p.disabled, StyleModifier::Disabled);
    push_flag(&mut r, p.expanded, StyleModifier::Expanded);
    push_flag(&mut r, p.flat, StyleModifier::Flat);
    push_flag(&mut r, p.full_height, StyleModifier::FullHeight);
    push_flag(&mut r, p.rounded, StyleModifier::Rounded);
    push_flag(&mut r, p.plain, StyleModifier::Plain);
    let clickable = effective_clickable(p);
    push_selection(&mut r, p.selectable, clickable, p.selected);
    proof {
        assert(r@ =~= spec_card_modifiers(*p));
    }
    r
}

/// The context a card provides to its children: the expansion state, the
/// effective clickability, and the selectable and disabled flags.
pub fn card_context(p: &CardProperties) -> (r: CardContext)
    ensures
        r.expanded == p.expanded,
        r.clickable == spec_effective_clickable(*p),
        r.selectable == p.selectable,
        r.disabled == p.disabled,
{
    CardContext {
        expanded: p.expanded,
        clickable: effective_clickable(p),
        selectable: p.selectable,
        disabled: p.disabled,
    }
}

} // verus!
