use patternfly::card::{card_context, card_modifiers, CardProperties, CardSize};
use patternfly::classes::{class_name, StyleModifier};

fn base() -> CardProperties {
    CardProperties {
        size: CardSize::Default,
        selectable: false,
        selected: false,
        clickable: false,
        disabled: false,
        flat: false,
        rounded: false,
        full_height: false,
        plain: false,
        expanded: false,
        has_onclick: false,
    }
}

#[test]
fn selectable_selected_without_click() {
    let p = CardProperties {
        selectable: true,
        selected: true,
        ..base()
    };
    let tags = card_modifiers(&p);
    assert_eq!(
        tags,
        vec![StyleModifier::Selectable, StyleModifier::Selected]
    );
    assert!(!tags.contains(&StyleModifier::Clickable));
    assert!(!tags.contains(&StyleModifier::Current));
}

#[test]
fn selectable_selected_with_onclick() {
    let p = CardProperties {
        selectable: true,
        selected: true,
        has_onclick: true,
        ..base()
    };
    let tags = card_modifiers(&p);
    assert_eq!(
        tags,
        vec![
            StyleModifier::Selectable,
            StyleModifier::Clickable,
            StyleModifier::Current
        ]
    );
    assert!(!tags.contains(&StyleModifier::Selected));
}

#[test]
fn clickable_selected_alone() {
    let p = CardProperties {
        clickable: true,
        selected: true,
        ..base()
    };
    let tags = card_modifiers(&p);
    assert_eq!(tags, vec![StyleModifier::Clickable, StyleModifier::Selected]);
}

#[test]
fn independent_flags_in_order() {
    let p = CardProperties {
        size: CardSize::Compact,
        disabled: true,
        expanded: true,
        flat: true,
        full_height: true,
        rounded: true,
        plain: true,
        ..base()
    };
    let tags = card_modifiers(&p);
    assert_eq!(
        tags,
        vec![
            StyleModifier::Compact,
            StyleModifier::Disabled,
            StyleModifier::Expanded,
            StyleModifier::Flat,
            StyleModifier::FullHeight,
            StyleModifier::Rounded,
            StyleModifier::Plain
        ]
    );
}

#[test]
fn large_size_modifier() {
    let p = CardProperties {
        size: CardSize::Large,
        ..base()
    };
    assert_eq!(card_modifiers(&p), vec![StyleModifier::DisplayLarge]);
}

#[test]
fn plain_card_has_no_modifiers() {
    assert_eq!(card_modifiers(&base()), Vec::<StyleModifier>::new());
}

#[test]
fn context_infers_clickable_from_handler() {
    let p = CardProperties {
        has_onclick: true,
        selectable: true,
        disabled: true,
        ..base()
    };
    let ctx = card_context(&p);
    assert!(ctx.clickable);
    assert!(ctx.selectable);
    assert!(ctx.disabled);
    assert!(!ctx.expanded);
}

#[test]
fn modifier_class_names() {
    assert_eq!(class_name(StyleModifier::Compact), "pf-m-compact");
    assert_eq!(class_name(StyleModifier::DisplayLarge), "pf-m-display-lg");
    assert_eq!(class_name(StyleModifier::Selectable), "pf-m-selectable");
    assert_eq!(class_name(StyleModifier::Selected), "pf-m-selected");
    assert_eq!(class_name(StyleModifier::Clickable), "pf-m-clickable");
    assert_eq!(class_name(StyleModifier::Current), "pf-m-current");
    assert_eq!(class_name(StyleModifier::FullHeight), "pf-m-full-height");
    assert_eq!(class_name(StyleModifier::Active), "pf-m-active");
    assert_eq!(class_name(StyleModifier::Expanded), "pf-m-expanded");
}
