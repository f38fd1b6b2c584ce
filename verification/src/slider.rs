//! The drag-gesture slider.
//!
//! A slider keeps a normalized thumb position between two bound steps and
//! emits a change notification carrying the mapped domain value. Its state
//! machine has two states, idle and dragging: a pointer-down enters the
//! drag and asks the host to attach the document-wide move and up
//! listeners; every move while dragging maps the pointer to a new position
//! from the rail geometry and notifies once; the pointer-up leaves the drag
//! and asks the host to detach the pair again. The host performs the
//! listener actions and feeds pointer events back in as messages.

use crate::fraction::Fraction;
use crate::label::{decimal_i64, spec_decimal, spec_value_label, value_label};
use vstd::arithmetic::div_mod::{lemma_div_is_ordered, lemma_div_multiples_vanish};
use vstd::arithmetic::mul::{lemma_mul_inequality, lemma_mul_is_commutative};
use vstd::prelude::*;

verus! {

/// `x` clamped into `[lo, hi]`.
pub open spec fn spec_clamp(x: int, lo: int, hi: int) -> int {
    if x < lo {
        lo
    } else if x > hi {
        hi
    } else {
        x
    }
}

/// A point on the slider's domain, with an optional display label.
#[derive(Clone, Debug)]
pub struct Step {
    pub value: i64,
    pub label: Option<String>,
}

/// The display text of a step: its label when one is set, the plain
/// decimal value otherwise.
pub open spec fn spec_step_display(step: Step) -> Seq<char> {
    match step.label {
        Some(l) => l@,
        None => spec_decimal(step.value as int),
    }
}

impl Step {
    /// The display text of this step.
    pub fn display(&self) -> (r: String)
        ensures
            r@ == spec_step_display(*self),
    {
        match &self.label {
            Some(l) => l.clone(),
            None => decimal_i64(self.value),
        }
    }
}

impl From<i64> for Step {
    fn from(value: i64) -> (r: Step) {
        Step { value, label: None }
    }
}

impl vstd::std_specs::convert::FromSpecImpl<i64> for Step {
    open spec fn obeys_from_spec() -> bool {
        true
    }

    open spec fn from_spec(value: i64) -> Step {
        Step { value, label: None }
    }
}

/// The configuration of a slider. The change-notification sink stays with
/// the host; the notified values are returned from `create` and `update`.
#[derive(Clone, Debug)]
pub struct Props {
    pub min: Step,
    pub max: Step,
    pub value: Option<i64>,
    pub hide_labels: bool,
    pub label_precision: usize,
}

impl Props {
    /// The bounds must form a proper range.
    pub open spec fn wf(self) -> bool {
        self.min.value < self.max.value
    }
}

/// The width of the domain.
pub open spec fn spec_delta(props: Props) -> int {
    props.max.value - props.min.value
}

/// The domain value a thumb position maps to:
/// `min + position * (max - min)`, rounded down.
pub open spec fn spec_mapped_value(p: Fraction, min: int, max: int) -> int {
    min + p.num * (max - min) / (p.den as int)
}

/// The messages a slider reacts to: an explicit position, a pointer-down
/// at a document coordinate, a pointer-move, and a pointer-up.
#[derive(Clone, Copy, Debug, PartialEq, Eq, Structural)]
pub enum Msg {
    SetPercent(Fraction),
    Start(i64),
    Move(i64),
    Stop,
}

/// The rail's current geometry: the document coordinate of its left edge
/// and its width, in pixels.
#[derive(Clone, Copy, Debug, PartialEq, Eq, Structural)]
pub struct RailGeometry {
    pub left: i64,
    pub width: u64,
}

/// What the host must do with the document-wide listener pair.
#[derive(Clone, Copy, Debug, PartialEq, Eq, Structural)]
pub enum ListenerAction {
    Attach,
    Detach,
    Keep,
}

/// The outcome of one update: at most one change notification to emit,
/// and a listener action to perform.
#[derive(Clone, Copy, Debug)]
pub struct Effect {
    pub notification: Option<i64>,
    pub listeners: ListenerAction,
}

/// A slider: its normalized thumb position, and whether a drag session
/// (with the listener pair attached) is in progress.
#[derive(Clone, Copy, Debug, PartialEq, Eq, Structural)]
pub struct Slider {
    pub position: Fraction,
    pub dragging: bool,
}

impl Slider {
    pub open spec fn wf(self) -> bool {
        self.position.wf()
    }
}

/// The position a pointer coordinate maps to: its offset from the rail's
/// left edge, clamped into the rail, as a fraction of the rail width.
pub open spec fn spec_pointer_fraction(x: int, rail: RailGeometry) -> Fraction {
    Fraction { num: spec_clamp(x - rail.left, 0, rail.width as int) as u64, den: rail.width }
}

/// Whether a move event can take effect: a drag must be in progress and
/// the rail must be mounted with a positive width. A missing rail is a
/// no-op, and a zero-width rail means no movement.
pub open spec fn spec_moves(s: Slider, rail: Option<RailGeometry>) -> bool {
    s.dragging && match rail {
        Some(g) => g.width >= 1,
        None => false,
    }
}

/// The state transition of the drag-gesture machine.
pub open spec fn spec_step_state(s: Slider, msg: Msg, rail: Option<RailGeometry>) -> Slider {
    match msg {
        Msg::SetPercent(p) => Slider { position: p, dragging: s.dragging },
        Msg::Start(_) => Slider { position: s.position, dragging: true },
        Msg::Move(x) => if spec_moves(s, rail) {
            Slider { position: spec_pointer_fraction(x as int, rail->Some_0), dragging: true }
        } else {
            s
        },
        Msg::Stop => Slider { position: s.position, dragging: false },
    }
}

/// Whether an event emits a change notification: every accepted position
/// change does, once; entering and leaving the drag do not.
pub open spec fn spec_notifies(s: Slider, msg: Msg, rail: Option<RailGeometry>) -> bool {
    match msg {
        Msg::SetPercent(_) => true,
        Msg::Start(_) => false,
        Msg::Move(_) => spec_moves(s, rail),
        Msg::Stop => false,
    }
}

/// The listener action of an event: a pointer-down attaches the pair
/// unless a drag already owns it, a pointer-up releases it if held.
pub open spec fn spec_listener_action(s: Slider, msg: Msg) -> ListenerAction {
    match msg {
        Msg::SetPercent(_) => ListenerAction::Keep,
        Msg::Start(_) => if s.dragging {
            ListenerAction::Keep
        } else {
            ListenerAction::Attach
        },
        Msg::Move(_) => ListenerAction::Keep,
        Msg::Stop => if s.dragging {
            ListenerAction::Detach
        } else {
            ListenerAction::Keep
        },
    }
}

/// Map a pointer coordinate to a thumb position on the rail. A pointer
/// left of the rail lands exactly at zero, one right of it exactly at one.
pub fn pointer_fraction(x: i64, rail: RailGeometry) -> (r: Fraction)
    requires
        rail.width >= 1,
    ensures
        r.wf(),
        r == spec_pointer_fraction(x as int, rail),
        x <= rail.left ==> r.is_zero(),
        x >= rail.left + rail.width ==> r.is_one(),
{
    let off: i128 = x as i128 - rail.left as i128;
    let width: i128 = rail.width as i128;
    let num: u64 = if off <= 0 {
        0
    } else if off >= width {
        rail.width
    } else {
        off as u64
    };
    Fraction::new(num, rail.width)
}

impl Slider {
    /// Map a domain value to its position between the bounds:
    /// `(value - min) / (max - min)`, clamped into `[0, 1]`.
    pub fn calc_percent(value: i64, props: &Props) -> (r: Fraction)
        requires
            props.wf(),
        ensures
            r.wf(),
            r.den == spec_delta(*props),
            r.num == spec_clamp(value - props.min.value, 0, spec_delta(*props)),
    {
        let delta: i128 = props.max.value as i128 - props.min.value as i128;
        let off: i128 = value as i128 - props.min.value as i128;
        let num: u64 = if off <= 0 {
            0
        } else if off >= delta {
            delta as u64
        } else {
            off as u64
        };
        Fraction::new(num, delta as u64)
    }

    /// Map a thumb position back to the domain:
    /// `min + position * (max - min)`, rounded down. The result always
    /// lies between the bounds.
    pub fn calc_value(p: Fraction, props: &Props) -> (r: i64)
        requires
            p.wf(),
            props.wf(),
        ensures
            r == spec_mapped_value(p, props.min.value as int, props.max.value as int),
            props.min.value <= r <= props.max.value,
    {
        let delta: u128 = (props.max.value as i128 - props.min.value as i128) as u128;
        proof {
            assert((p.num as int) * (delta as int) <= (u64::MAX as int) * (u64::MAX as int))
                by (nonlinear_arith)
                requires
                    p.num <= u64::MAX,
                    delta <= u64::MAX,
            ;
            lemma_mul_inequality(p.num as int, p.den as int, delta as int);
            lemma_div_is_ordered(
                (p.num as int) * (delta as int),
                (p.den as int) * (delta as int),
                p.den as int,
            );
            lemma_div_multiples_vanish(delta as int, p.den as int);
        }
        let scaled: u128 = (p.num as u128) * delta;
        let q: u128 = scaled / (p.den as u128);
        let r128: i128 = props.min.value as i128 + q as i128;
        r128 as i64
    }

    /// Mount a slider. The externally supplied value, when present, sets
    /// the initial position; otherwise the thumb starts at the lower
    /// bound. Exactly one change notification is owed on mount, carrying
    /// the supplied value or, in its absence, the lower bound: the second
    /// component is that value.
    pub fn create(props: &Props) -> (r: (Slider, i64))
        requires
            props.wf(),
        ensures
            r.0.wf(),
            !r.0.dragging,
            r.0.position.den == spec_delta(*props),
            match props.value {
                Some(v) => r.0.position.num == spec_clamp(
                    v - props.min.value,
                    0,
                    spec_delta(*props),
                ) && r.1 == v,
                None => r.0.position.is_zero() && r.1 == props.min.value,
            },
    {
        let (position, value) = match props.value {
            Some(v) => (Self::calc_percent(v, props), v),
            None => (Self::calc_percent(props.min.value, props), props.min.value),
        };
        (Slider { position, dragging: false }, value)
    }

    /// One step of the drag-gesture machine: the state moves as
    /// `spec_step_state` says, the host is told what to do with the
    /// listener pair, and exactly the accepted position changes emit one
    /// notification each, carrying the mapped domain value.
    pub fn update(&mut self, msg: Msg, rail: Option<RailGeometry>, props: &Props) -> (e: Effect)
        requires
            old(self).wf(),
            props.wf(),
            msg matches Msg::SetPercent(p) ==> p.wf(),
        ensures
            final(self).wf(),
            *final(self) == spec_step_state(*old(self), msg, rail),
            e.listeners == spec_listener_action(*old(self), msg),
            (e.notification is Some) == spec_notifies(*old(self), msg, rail),
            e.notification matches Some(v) ==> v == spec_mapped_value(
                final(self).position,
                props.min.value as int,
                props.max.value as int,
            ) && props.min.value <= v <= props.max.value,
    {
        match msg {
            Msg::SetPercent(p) => {
                self.position = p;
                let v = Self::calc_value(p, props);
                Effect { notification: Some(v), listeners: ListenerAction::Keep }
            },
            Msg::Start(_x) => {
                let listeners = if self.dragging {
                    ListenerAction::Keep
                } else {
                    ListenerAction::Attach
                };
                self.dragging = true;
                Effect { notification: None, listeners }
            },
            Msg::Move(x) => {
                if self.dragging {
                    match rail {
                        Some(g) => {
                            if g.width >= 1 {
                                let p = pointer_fraction(x, g);
                                self.position = p;
                                let v = Self::calc_value(p, props);
                                Effect { notification: Some(v), listeners: ListenerAction::Keep }
                            } else {
                                Effect { notification: None, listeners: ListenerAction::Keep }
                            }
                        },
                        None => Effect { notification: None, listeners: ListenerAction::Keep },
                    }
                } else {
                    Effect { notification: None, listeners: ListenerAction::Keep }
                }
            },
            Msg::Stop => {
                let listeners = if self.dragging {
                    ListenerAction::Detach
                } else {
                    ListenerAction::Keep
                };
                self.dragging = false;
                Effect { notification: None, listeners }
            },
        }
    }

    /// On teardown any still-attached listener pair must be released:
    /// the pair never outlives the slider.
    pub fn teardown(&self) -> (r: ListenerAction)
        ensures
            r == (if self.dragging {
                ListenerAction::Detach
            } else {
                ListenerAction::Keep
            }),
    {
        if self.dragging {
            ListenerAction::Detach
        } else {
            ListenerAction::Keep
        }
    }
}

/// The placement of a step on the rail: its value as a fraction of the
/// domain width, clamped into `[0, 1]`.
pub open spec fn spec_step_fraction(step_value: int, props: Props) -> Fraction {
    Fraction {
        num: spec_clamp(step_value, 0, spec_delta(props)) as u64,
        den: spec_delta(props) as u64,
    }
}

/// Compute the placement of a step on the rail.
pub fn step_fraction(step_value: i64, props: &Props) -> (r: Fraction)
    requires
        props.wf(),
    ensures
        r.wf(),
        r == spec_step_fraction(step_value as int, *props),
{
    let delta: i128 = props.max.value as i128 - props.min.value as i128;
    let v: i128 = step_value as i128;
    let num: u64 = if v <= 0 {
        0
    } else if v >= delta {
        delta as u64
    } else {
        v as u64
    };
    Fraction::new(num, delta as u64)
}

/// What one step decoration renders: its placement in whole percent, the
/// active flag, and its label text.
pub struct StepView {
    pub percent: u64,
    pub active: bool,
    pub label: String,
}

/// What the slider renders: the thumb position in whole percent, the live
/// value text, the bounds' texts, and the two step decorations unless
/// labels are hidden.
pub struct SliderView {
    pub percent: u64,
    pub value_label: String,
    pub min_label: String,
    pub max_label: String,
    pub steps: Option<(StepView, StepView)>,
}

impl Slider {
    /// Compute one step decoration. The step is active exactly when its
    /// placement does not exceed the current thumb position.
    pub fn render_step(&self, step: &Step, props: &Props) -> (r: StepView)
        requires
            self.wf(),
            props.wf(),
        ensures
            r.percent == spec_step_fraction(step.value as int, *props).spec_percent(),
            r.active == spec_step_fraction(step.value as int, *props).spec_le(self.position),
            r.label@ == spec_step_display(*step),
    {
        let placement = step_fraction(step.value, props);
        StepView {
            percent: placement.percent(),
            active: placement.le(&self.position),
            label: step.display(),
        }
    }

    /// Compute everything the slider renders in its current state.
    pub fn view(&self, props: &Props) -> (r: SliderView)
        requires
            self.wf(),
            props.wf(),
        ensures
            r.percent == self.position.spec_percent(),
            r.value_label@ == spec_value_label(
                spec_mapped_value(self.position, props.min.value as int, props.max.value as int),
                props.label_precision as nat,
            ),
            r.min_label@ == spec_decimal(props.min.value as int),
            r.max_label@ == spec_decimal(props.max.value as int),
            (r.steps is Some) == !props.hide_labels,
            r.steps matches Some(steps) ==> {
                &&& steps.0.percent == spec_step_fraction(props.min.value as int, *props).spec_percent()
                &&& steps.0.active == spec_step_fraction(props.min.value as int, *props).spec_le(self.position)
                &&& steps.0.label@ == spec_step_display(props.min)
                &&& steps.1.percent == spec_step_fraction(props.max.value as int, *props).spec_percent()
                &&& steps.1.active == spec_step_fraction(props.max.value as int, *props).spec_le(self.position)
                &&& steps.1.label@ == spec_step_display(props.max)
            },
    {
        let value = Self::calc_value(self.position, props);
        let steps = if props.hide_labels {
            None
        } else {
            Some((self.render_step(&props.min, props), self.render_step(&props.max, props)))
        };
        SliderView {
            percent: self.position.percent(),
            value_label: value_label(value, props.label_precision),
            min_label: decimal_i64(props.min.value),
            max_label: decimal_i64(props.max.value),
            steps,
        }
    }
}

/// Mapping a domain value between the bounds to its fraction of the range
/// and back returns exactly the value.
pub proof fn lemma_value_round_trip(value: i64, props: Props, p: Fraction)
    requires
        props.wf(),
        props.min.value <= value <= props.max.value,
        p.den == spec_delta(props),
        p.num == spec_clamp(value - props.min.value, 0, spec_delta(props)),
    ensures
        spec_mapped_value(p, props.min.value as int, props.max.value as int) == value,
{
    let delta = spec_delta(props);
    assert(p.num == value - props.min.value);
    lemma_mul_is_commutative(p.num as int, delta);
    lemma_div_multiples_vanish(p.num as int, delta);
}

/// A full drag `[pointer-down, move(x1), move(x2), pointer-up]` emits
/// exactly two change notifications, one per move; the down and the up are
/// silent, the drag ends, and no move event after the pointer-up emits
/// another notification.
pub proof fn lemma_drag_sequence(s0: Slider, xd: i64, x1: i64, x2: i64, rail: RailGeometry)
    requires
        !s0.dragging,
        rail.width >= 1,
    ensures
        ({
            let s1 = spec_step_state(s0, Msg::Start(xd), Some(rail));
            let s2 = spec_step_state(s1, Msg::Move(x1), Some(rail));
            let s3 = spec_step_state(s2, Msg::Move(x2), Some(rail));
            let s4 = spec_step_state(s3, Msg::Stop, Some(rail));
            &&& !spec_notifies(s0, Msg::Start(xd), Some(rail))
            &&& spec_notifies(s1, Msg::Move(x1), Some(rail))
            &&& spec_notifies(s2, Msg::Move(x2), Some(rail))
            &&& !spec_notifies(s3, Msg::Stop, Some(rail))
            &&& !s4.dragging
            &&& forall|x: i64, g: Option<RailGeometry>| !spec_notifies(s4, Msg::Move(x), g)
        }),
{
}

} // verus!
