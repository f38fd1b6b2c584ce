//! Style modifiers.
//!
//! Every widget renders a base CSS class plus an ordered list of modifier
//! classes computed from its properties. The modifiers are modeled as an
//! enum so that the composition rules can be stated and proved exactly;
//! `class_name` maps each modifier to the class the stylesheet knows.

use vstd::prelude::*;

verus! {

/// A CSS modifier class that a widget can carry.
#[derive(Clone, Copy, Debug, PartialEq, Eq, Structural)]
pub enum StyleModifier {
    Compact,
    DisplayLarge,
    Disabled,
    Expanded,
    Flat,
    Selectable,
    Selected,
    FullHeight,
    Rounded,
    Plain,
    Clickable,
    Current,
    Right,
    Top,
    Active,
}

/// The class name of each modifier, as the stylesheet spells it.
pub open spec fn spec_class_name(m: StyleModifier) -> Seq<char> {
    match m {
        StyleModifier::Compact => "pf-m-compact"@,
        StyleModifier::DisplayLarge => "pf-m-display-lg"@,
        StyleModifier::Disabled => "pf-m-disabled"@,
        StyleModifier::Expanded => "pf-m-expanded"@,
        StyleModifier::Flat => "pf-m-flat"@,
        StyleModifier::Selectable => "pf-m-selectable"@,
        StyleModifier::Selected => "pf-m-selected"@,
        StyleModifier::FullHeight => "pf-m-full-height"@,
        StyleModifier::Rounded => "pf-m-rounded"@,
        StyleModifier::Plain => "pf-m-plain"@,
        StyleModifier::Clickable => "pf-m-clickable"@,
        StyleModifier::Current => "pf-m-current"@,
        StyleModifier::Right => "pf-m-right"@,
        StyleModifier::Top => "pf-m-top"@,
        StyleModifier::Active => "pf-m-active"@,
    }
}

/// One modifier when the flag holds, none otherwise.
pub open spec fn spec_flag(b: bool, m: StyleModifier) -> Seq<StyleModifier> {
    if b {
        seq![m]
    } else {
        Seq::empty()
    }
}

/// Append one modifier when the flag holds.
pub(crate) fn push_flag(r: &mut Vec<StyleModifier>, b: bool, m: StyleModifier)
    ensures
        final(r)@ == old(r)@ + spec_flag(b, m),
{
    if b {
        r.push(m);
    }
    proof {
        assert(r@ =~= old(r)@ + spec_flag(b, m));
    }
}

/// The class name of a modifier, for the rendering layer.
pub fn class_name(m: StyleModifier) -> (r: &'static str)
    ensures
        r@ == spec_class_name(m),
{
    match m {
        StyleModifier::Compact => "pf-m-compact",
        StyleModifier::DisplayLarge => "pf-m-display-lg",
        StyleModifier::Disabled => "pf-m-disabled",
        StyleModifier::Expanded => "pf-m-expanded",
        StyleModifier::Flat => "pf-m-flat",
        StyleModifier::Selectable => "pf-m-selectable",
        StyleModifier::Selected => "pf-m-selected",
        StyleModifier::FullHeight => "pf-m-full-height",
        StyleModifier::Rounded => "pf-m-rounded",
        StyleModifier::Plain => "pf-m-plain",
        StyleModifier::Clickable => "pf-m-clickable",
        StyleModifier::Current => "pf-m-current",
        StyleModifier::Right => "pf-m-right",
        StyleModifier::Top => "pf-m-top",
        StyleModifier::Active => "pf-m-active",
    }
}

} // verus!
