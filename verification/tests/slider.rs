use patternfly::fraction::Fraction;
use patternfly::slider::{
    pointer_fraction, step_fraction, ListenerAction, Msg, Props, RailGeometry, Slider, Step,
};

fn props(min: i64, max: i64) -> Props {
    Props {
        min: Step {
            value: min,
            label: None,
        },
        max: Step {
            value: max,
            label: None,
        },
        value: None,
        hide_labels: false,
        label_precision: 2,
    }
}

#[test]
fn value_round_trip() {
    let p = props(-5, 15);
    for v in -5..=15 {
        let frac = Slider::calc_percent(v, &p);
        assert_eq!(Slider::calc_value(frac, &p), v);
    }
}

#[test]
fn calc_percent_clamps() {
    let p = props(0, 100);
    let below = Slider::calc_percent(-10, &p);
    assert_eq!(below.num, 0);
    let above = Slider::calc_percent(250, &p);
    assert_eq!(above.num, above.den);
}

#[test]
fn pointer_outside_rail_clamps_exactly() {
    let rail = RailGeometry {
        left: 100,
        width: 200,
    };
    let left = pointer_fraction(40, rail);
    assert_eq!(left.num, 0);
    let right = pointer_fraction(450, rail);
    assert_eq!(right.num, right.den);
    let middle = pointer_fraction(150, rail);
    assert_eq!(middle.num, 50);
    assert_eq!(middle.den, 200);
}

#[test]
fn mount_with_value_notifies_it() {
    let mut p = props(0, 100);
    p.value = Some(40);
    let (slider, notified) = Slider::create(&p);
    assert_eq!(notified, 40);
    assert!(!slider.dragging);
    assert_eq!(slider.position.num, 40);
    assert_eq!(slider.position.den, 100);
}

#[test]
fn mount_without_value_notifies_minimum() {
    let p = props(10, 20);
    let (slider, notified) = Slider::create(&p);
    assert_eq!(notified, 10);
    assert_eq!(slider.position.num, 0);
}

#[test]
fn full_drag_notifies_once_per_move() {
    let p = props(0, 100);
    let rail = Some(RailGeometry {
        left: 0,
        width: 100,
    });
    let (mut slider, _initial) = Slider::create(&p);

    let down = slider.update(Msg::Start(30), rail, &p);
    assert_eq!(down.notification, None);
    assert_eq!(down.listeners, ListenerAction::Attach);

    let first = slider.update(Msg::Move(30), rail, &p);
    assert_eq!(first.notification, Some(30));
    assert_eq!(first.listeners, ListenerAction::Keep);

    let second = slider.update(Msg::Move(70), rail, &p);
    assert_eq!(second.notification, Some(70));

    let up = slider.update(Msg::Stop, rail, &p);
    assert_eq!(up.notification, None);
    assert_eq!(up.listeners, ListenerAction::Detach);
    assert!(!slider.dragging);

    let after = slider.update(Msg::Move(90), rail, &p);
    assert_eq!(after.notification, None);
    assert_eq!(after.listeners, ListenerAction::Keep);
    assert_eq!(slider.position.num, 70);
}

#[test]
fn move_without_rail_is_a_no_op() {
    let p = props(0, 100);
    let (mut slider, _initial) = Slider::create(&p);
    slider.update(Msg::Start(0), None, &p);
    let moved = slider.update(Msg::Move(50), None, &p);
    assert_eq!(moved.notification, None);
    assert_eq!(slider.position.num, 0);
}

#[test]
fn zero_width_rail_means_no_movement() {
    let p = props(0, 100);
    let rail = Some(RailGeometry { left: 10, width: 0 });
    let (mut slider, _initial) = Slider::create(&p);
    slider.update(Msg::Start(10), rail, &p);
    let moved = slider.update(Msg::Move(60), rail, &p);
    assert_eq!(moved.notification, None);
    assert_eq!(slider.position.num, 0);
}

#[test]
fn second_pointer_down_keeps_the_listener_pair() {
    let p = props(0, 100);
    let (mut slider, _initial) = Slider::create(&p);
    let first = slider.update(Msg::Start(5), None, &p);
    assert_eq!(first.listeners, ListenerAction::Attach);
    let second = slider.update(Msg::Start(6), None, &p);
    assert_eq!(second.listeners, ListenerAction::Keep);
}

#[test]
fn set_percent_notifies_mapped_value() {
    let p = props(-10, 10);
    let (mut slider, _initial) = Slider::create(&p);
    let e = slider.update(Msg::SetPercent(Fraction::new(3, 4)), None, &p);
    assert_eq!(e.notification, Some(5));
    assert_eq!(slider.position, Fraction::new(3, 4));
}

#[test]
fn stop_while_idle_keeps_listeners() {
    let p = props(0, 100);
    let (mut slider, _initial) = Slider::create(&p);
    let e = slider.update(Msg::Stop, None, &p);
    assert_eq!(e.listeners, ListenerAction::Keep);
}

#[test]
fn teardown_releases_only_while_dragging() {
    let p = props(0, 100);
    let (mut slider, _initial) = Slider::create(&p);
    assert_eq!(slider.teardown(), ListenerAction::Keep);
    slider.update(Msg::Start(0), None, &p);
    assert_eq!(slider.teardown(), ListenerAction::Detach);
}

#[test]
fn step_activity_around_half() {
    let p = props(0, 100);
    let slider = Slider {
        position: Fraction::new(1, 2),
        dragging: false,
    };
    let at_forty = slider.render_step(
        &Step {
            value: 40,
            label: None,
        },
        &p,
    );
    assert!(at_forty.active);
    assert_eq!(at_forty.percent, 40);
    let at_sixty = slider.render_step(
        &Step {
            value: 60,
            label: None,
        },
        &p,
    );
    assert!(!at_sixty.active);
    assert_eq!(at_sixty.percent, 60);
}

#[test]
fn step_fraction_clamps_into_domain() {
    let p = props(0, 50);
    let below = step_fraction(-10, &p);
    assert_eq!(below.num, 0);
    let above = step_fraction(80, &p);
    assert_eq!(above.num, above.den);
}

#[test]
fn step_display_prefers_label() {
    let labeled = Step {
        value: 3,
        label: Some(String::from("low")),
    };
    assert_eq!(labeled.display(), "low");
    let bare = Step {
        value: -7,
        label: None,
    };
    assert_eq!(bare.display(), "-7");
}

#[test]
fn view_composes_labels_and_percent() {
    let p = props(0, 100);
    let slider = Slider {
        position: Fraction::new(1, 4),
        dragging: false,
    };
    let view = slider.view(&p);
    assert_eq!(view.percent, 25);
    assert_eq!(view.value_label, "25.");
    assert_eq!(view.min_label, "0");
    assert_eq!(view.max_label, "100");
    let (min_step, max_step) = view.steps.expect("steps are shown by default");
    assert_eq!(min_step.percent, 0);
    assert!(min_step.active);
    assert_eq!(min_step.label, "0");
    assert_eq!(max_step.percent, 100);
    assert!(!max_step.active);
    assert_eq!(max_step.label, "100");
}

#[test]
fn view_hides_steps_on_request() {
    let mut p = props(0, 100);
    p.hide_labels = true;
    let slider = Slider {
        position: Fraction::new(0, 1),
        dragging: false,
    };
    assert!(slider.view(&p).steps.is_none());
}

#[test]
fn fraction_comparison_and_percent() {
    let third = Fraction::new(1, 3);
    let half = Fraction::new(1, 2);
    assert!(third.le(&half));
    assert!(!half.le(&third));
    assert!(half.le(&half));
    assert_eq!(third.percent(), 33);
    assert_eq!(half.percent(), 50);
    assert_eq!(Fraction::zero().percent(), 0);
}

#[test]
fn step_from_value() {
    let step = Step::from(12);
    assert_eq!(step.value, 12);
    assert!(step.label.is_none());
}
