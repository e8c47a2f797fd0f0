//! What a tick does: the steps it takes for the actions that are held, and
//! what those steps add up to.

use vstd::prelude::*;
use crate::action::{Action, Axis, Quantity, Step};

verus! {

/// The step of `action` where it is held, and no step where it is not.
pub open spec fn step_if(held: Set<Action>, action: Action) -> Seq<Step> {
    if held.contains(action) {
        seq![action.step_spec()]
    } else {
        Seq::empty()
    }
}

/// The actions in the order in which a tick takes their steps: the
/// position first, sideways, then along the view, then up and down; then
/// the pitch; then the yaw; then the scale.
pub open spec fn tick_order() -> Seq<Action> {
    seq![
        Action::Left,
        Action::Right,
        Action::Backward,
        Action::Forward,
        Action::Down,
        Action::Up,
        Action::PitchDown,
        Action::PitchUp,
        Action::YawRight,
        Action::YawLeft,
        Action::ScaleUp,
        Action::ScaleDown,
    ]
}

/// The actions in the order in which a tick takes their steps.
pub fn tick_table() -> (table: [Action; 12])
    ensures
        table@ == tick_order(),
{
    let table = [
        Action::Left,
        Action::Right,
        Action::Backward,
        Action::Forward,
        Action::Down,
        Action::Up,
        Action::PitchDown,
        Action::PitchUp,
        Action::YawRight,
        Action::YawLeft,
        Action::ScaleUp,
        Action::ScaleDown,
    ];
    assert(table@ =~= tick_order());
    table
}

/// The steps of the actions of `order` that are held, in that order.
pub open spec fn steps_of(order: Seq<Action>, held: Set<Action>) -> Seq<Step>
    decreases order.len(),
{
    if order.len() == 0 {
        Seq::empty()
    } else {
        steps_of(order.drop_last(), held) + step_if(held, order.last())
    }
}

/// The steps of one tick while `held` are held, in the order in which the
/// tick takes them. Of two opposite actions that are both held, both steps
/// are taken.
pub open spec fn tick_steps(held: Set<Action>) -> Seq<Step> {
    steps_of(tick_order(), held)
}

/// The steps of `count` ticks in a row with the same actions held.
pub open spec fn ticks(held: Set<Action>, count: nat) -> Seq<Step>
    decreases count,
{
    if count == 0 {
        Seq::empty()
    } else {
        ticks(held, (count - 1) as nat) + tick_steps(held)
    }
}

/// By how many units `steps` change `quantity` in all. The units of an
/// angle and of the scale are the same in every tick; those of a position
/// are the same within one tick.
pub open spec fn net_change(steps: Seq<Step>, quantity: Quantity) -> int
    decreases steps.len(),
{
    if steps.len() == 0 {
        0
    } else {
        net_change(steps.drop_last(), quantity) + steps.last().change(quantity)
    }
}

impl Quantity {
    /// The action that adds a unit to this quantity.
    pub open spec fn raised_by(self) -> Action {
        match self {
            Quantity::Position(Axis::Lateral) => Action::Right,
            Quantity::Position(Axis::Vertical) => Action::Up,
            Quantity::Position(Axis::Longitudinal) => Action::Forward,
            Quantity::Pitch => Action::PitchUp,
            Quantity::Yaw => Action::YawLeft,
            Quantity::Scale => Action::ScaleUp,
        }
    }

    /// The action that takes a unit from this quantity.
    pub open spec fn lowered_by(self) -> Action {
        match self {
            Quantity::Position(Axis::Lateral) => Action::Left,
            Quantity::Position(Axis::Vertical) => Action::Down,
            Quantity::Position(Axis::Longitudinal) => Action::Backward,
            Quantity::Pitch => Action::PitchDown,
            Quantity::Yaw => Action::YawRight,
            Quantity::Scale => Action::ScaleDown,
        }
    }
}

/// One if `action` is held, zero if it is not.
pub open spec fn count_of(held: Set<Action>, action: Action) -> int {
    if held.contains(action) {
        1
    } else {
        0
    }
}

/// The change that two runs of steps make one after the other is the sum of
/// the changes that each makes.
pub proof fn lemma_net_change_concat(first: Seq<Step>, second: Seq<Step>, quantity: Quantity)
    ensures
        net_change(first + second, quantity) == net_change(first, quantity) + net_change(
            second,
            quantity,
        ),
    decreases second.len(),
{
    if second.len() == 0 {
        assert(first + second =~= first);
    } else {
        assert((first + second).drop_last() =~= first + second.drop_last());
        assert((first + second).last() == second.last());
        lemma_net_change_concat(first, second.drop_last(), quantity);
    }
}

/// The change that the step of one action makes, where the action is held.
proof fn lemma_net_change_step_if(held: Set<Action>, action: Action, quantity: Quantity)
    ensures
        net_change(step_if(held, action), quantity) == if held.contains(action) {
            action.step_spec().change(quantity)
        } else {
            0
        },
{
    if held.contains(action) {
        let one = seq![action.step_spec()];
        assert(one.drop_last() =~= Seq::<Step>::empty());
        assert(net_change(one.drop_last(), quantity) == 0);
        assert(one.last() == action.step_spec());
    }
}

/// A value is in two runs joined exactly if it is in one of them.
proof fn lemma_contains_concat(first: Seq<Step>, second: Seq<Step>, step: Step)
    ensures
        (first + second).contains(step) <==> first.contains(step) || second.contains(step),
{
    let joined = first + second;
    if first.contains(step) {
        let at = choose|at: int| 0 <= at < first.len() && first[at] == step;
        assert(joined[at] == step);
    }
    if second.contains(step) {
        let at = choose|at: int| 0 <= at < second.len() && second[at] == step;
        assert(joined[first.len() + at] == step);
    }
    if joined.contains(step) {
        let at = choose|at: int| 0 <= at < joined.len() && joined[at] == step;
        if at < first.len() {
            assert(first[at] == step);
        } else {
            assert(second[at - first.len()] == step);
        }
    }
}

/// The step of one action, where it is held, is the only step in its run.
proof fn lemma_contains_step_if(held: Set<Action>, action: Action, step: Step)
    ensures
        step_if(held, action).contains(step) <==> held.contains(action) && action.step_spec()
            == step,
{
    let run = step_if(held, action);
    if held.contains(action) && action.step_spec() == step {
        assert(run[0] == step);
    }
}

/// One more action at the end of the order puts its step, where it is
/// held, at the end of the steps.
pub proof fn lemma_steps_of_push(order: Seq<Action>, action: Action, held: Set<Action>)
    ensures
        steps_of(order.push(action), held) == steps_of(order, held) + step_if(held, action),
{
    assert(order.push(action).drop_last() =~= order);
}

/// The change that an action's step makes to a quantity: one unit up for
/// the action that raises it, one down for the action that lowers it, none
/// for any other action.
proof fn lemma_change_of_action(action: Action, quantity: Quantity)
    ensures
        action.step_spec().change(quantity) == if action == quantity.raised_by() {
            1int
        } else if action == quantity.lowered_by() {
            -1int
        } else {
            0int
        },
{
}

/// Every action has its place in the order of a tick, and only one.
proof fn lemma_tick_order_complete()
    ensures
        tick_order().no_duplicates(),
        forall|action: Action| tick_order().contains(action),
{
    let order = tick_order();
    assert forall|action: Action| order.contains(action) by {
        let place: int = match action {
            Action::Left => 0,
            Action::Right => 1,
            Action::Backward => 2,
            Action::Forward => 3,
            Action::Down => 4,
            Action::Up => 5,
            Action::PitchDown => 6,
            Action::PitchUp => 7,
            Action::YawRight => 8,
            Action::YawLeft => 9,
            Action::ScaleUp => 10,
            Action::ScaleDown => 11,
        };
        assert(order[place] == action);
    }
}

/// A step is among those of an order exactly if it is the step of an
/// action of the order that is held.
proof fn lemma_steps_of_contains(order: Seq<Action>, held: Set<Action>, step: Step)
    ensures
        steps_of(order, held).contains(step) <==> exists|at: int|
            0 <= at < order.len() && held.contains(#[trigger] order[at]) && order[at].step_spec()
                == step,
    decreases order.len(),
{
    if order.len() > 0 {
        let earlier = order.drop_last();
        lemma_steps_of_contains(earlier, held, step);
        lemma_contains_concat(steps_of(earlier, held), step_if(held, order.last()), step);
        lemma_contains_step_if(held, order.last(), step);
        if steps_of(order, held).contains(step) {
            if steps_of(earlier, held).contains(step) {
                let at = choose|at: int|
                    0 <= at < earlier.len() && held.contains(#[trigger] earlier[at])
                        && earlier[at].step_spec() == step;
                assert(order[at] == earlier[at]);
            } else {
                assert(order[order.len() - 1] == order.last());
            }
        }
        if exists|at: int|
            0 <= at < order.len() && held.contains(#[trigger] order[at]) && order[at].step_spec()
                == step {
            let at = choose|at: int|
                0 <= at < order.len() && held.contains(#[trigger] order[at])
                    && order[at].step_spec() == step;
            if at < earlier.len() {
                assert(earlier[at] == order[at]);
            }
        }
    }
}

/// The steps of an order in which no action comes twice change a quantity
/// by one unit if the action that raises it is in the order and held, less
/// one unit if the action that lowers it is in the order and held.
proof fn lemma_steps_of_net_change(order: Seq<Action>, held: Set<Action>, quantity: Quantity)
    requires
        order.no_duplicates(),
    ensures
        net_change(steps_of(order, held), quantity) == (if order.contains(quantity.raised_by()) {
            count_of(held, quantity.raised_by())
        } else {
            0
        }) - (if order.contains(quantity.lowered_by()) {
            count_of(held, quantity.lowered_by())
        } else {
            0
        }),
    decreases order.len(),
{
    if order.len() > 0 {
        let earlier = order.drop_last();
        let last = order.last();
        assert forall|action: Action| order.contains(action) <==> earlier.contains(action)
            || action == last by {
            if order.contains(action) {
                let at = choose|at: int| 0 <= at < order.len() && order[at] == action;
                if at < earlier.len() {
                    assert(earlier[at] == action);
                }
            }
            if earlier.contains(action) {
                let at = choose|at: int| 0 <= at < earlier.len() && earlier[at] == action;
                assert(order[at] == action);
            }
            if action == last {
                assert(order[order.len() - 1] == action);
            }
        }
        assert(!earlier.contains(last)) by {
            if earlier.contains(last) {
                let at = choose|at: int| 0 <= at < earlier.len() && earlier[at] == last;
                assert(order[at] == order[order.len() - 1]);
            }
        }
        assert(earlier.no_duplicates()) by {
            assert forall|i: int, j: int|
                0 <= i < earlier.len() && 0 <= j < earlier.len() && i != j implies earlier[i]
                != earlier[j] by {
                assert(earlier[i] == order[i] && earlier[j] == order[j]);
            }
        }
        lemma_steps_of_net_change(earlier, held, quantity);
        lemma_net_change_concat(steps_of(earlier, held), step_if(held, last), quantity);
        lemma_net_change_step_if(held, last, quantity);
        lemma_change_of_action(last, quantity);
    } else {
        assert(!order.contains(quantity.raised_by()));
        assert(!order.contains(quantity.lowered_by()));
    }
}

/// A tick changes each quantity by one unit if the action that raises it is
/// held, less one unit if the action that lowers it is held.
pub proof fn lemma_tick_net_change(held: Set<Action>, quantity: Quantity)
    ensures
        net_change(tick_steps(held), quantity) == count_of(held, quantity.raised_by()) - count_of(
            held,
            quantity.lowered_by(),
        ),
{
    lemma_tick_order_complete();
    lemma_steps_of_net_change(tick_order(), held, quantity);
}

/// Where the two opposite actions of a quantity are both held, the tick
/// takes both steps and they add up to no change of that quantity. This
/// holds of each direction of travel, of both angles and of the scale.
pub proof fn lemma_opposite_actions_cancel(held: Set<Action>, quantity: Quantity)
    requires
        held.contains(quantity.raised_by()),
        held.contains(quantity.lowered_by()),
    ensures
        tick_steps(held).contains(quantity.raised_by().step_spec()),
        tick_steps(held).contains(quantity.lowered_by().step_spec()),
        net_change(tick_steps(held), quantity) == 0,
{
    lemma_tick_net_change(held, quantity);
    lemma_tick_takes_held_steps(held, quantity.raised_by());
    lemma_tick_takes_held_steps(held, quantity.lowered_by());
}

/// A tick takes the step of an action exactly if the action is held.
pub proof fn lemma_tick_takes_held_steps(held: Set<Action>, action: Action)
    ensures
        tick_steps(held).contains(action.step_spec()) <==> held.contains(action),
{
    let order = tick_order();
    lemma_tick_order_complete();
    lemma_steps_of_contains(order, held, action.step_spec());
    if held.contains(action) {
        let at = choose|at: int| 0 <= at < order.len() && order[at] == action;
        assert(held.contains(order[at]) && order[at].step_spec() == action.step_spec());
    }
    if tick_steps(held).contains(action.step_spec()) {
        let at = choose|at: int|
            0 <= at < order.len() && held.contains(#[trigger] order[at]) && order[at].step_spec()
                == action.step_spec();
        lemma_change_of_action(order[at], action.step_spec().quantity);
        lemma_change_of_action(action, action.step_spec().quantity);
        assert(order[at] == action);
    }
}

/// With no action held a tick takes no step: it leaves the position, both
/// angles and the scale as they are.
pub proof fn lemma_idle_tick_takes_no_step(held: Set<Action>)
    requires
        forall|action: Action| !held.contains(action),
    ensures
        tick_steps(held) == Seq::<Step>::empty(),
{
    let steps = tick_steps(held);
    if steps.len() > 0 {
        assert(steps.contains(steps[0]));
        lemma_steps_of_contains(tick_order(), held, steps[0]);
    }
    assert(steps =~= Seq::<Step>::empty());
}

/// A tick that scales up and a tick that scales down, one right after the
/// other in either order, leave the scale where it was: the multiplier and
/// its reciprocal are applied once each.
pub proof fn lemma_scale_round_trip(up: Set<Action>, down: Set<Action>)
    requires
        up.contains(Action::ScaleUp),
        !up.contains(Action::ScaleDown),
        down.contains(Action::ScaleDown),
        !down.contains(Action::ScaleUp),
    ensures
        net_change(tick_steps(up) + tick_steps(down), Quantity::Scale) == 0,
        net_change(tick_steps(down) + tick_steps(up), Quantity::Scale) == 0,
{
    lemma_tick_net_change(up, Quantity::Scale);
    lemma_tick_net_change(down, Quantity::Scale);
    lemma_net_change_concat(tick_steps(up), tick_steps(down), Quantity::Scale);
    lemma_net_change_concat(tick_steps(down), tick_steps(up), Quantity::Scale);
}

/// Over any number of ticks in a row with the same actions held, an angle
/// or the scale changes by that number of times its change in one tick:
/// the changes add up and nothing bounds them. The position is left out:
/// its unit is that of one tick, taken along the rotation row and at the
/// scale which that tick finds, so the steps of different ticks do not
/// count the same thing.
pub proof fn lemma_ticks_accumulate(held: Set<Action>, count: nat, quantity: Quantity)
    requires
        !(quantity is Position),
    ensures
        net_change(ticks(held, count), quantity) == count * (count_of(held, quantity.raised_by())
            - count_of(held, quantity.lowered_by())),
    decreases count,
{
    let per_tick = count_of(held, quantity.raised_by()) - count_of(held, quantity.lowered_by());
    if count == 0 {
        assert(count * per_tick == 0) by (nonlinear_arith)
            requires
                count == 0,
        ;
    } else {
        let earlier = (count - 1) as nat;
        lemma_ticks_accumulate(held, earlier, quantity);
        lemma_tick_net_change(held, quantity);
        lemma_net_change_concat(ticks(held, earlier), tick_steps(held), quantity);
        assert(count * per_tick == earlier * per_tick + per_tick) by (nonlinear_arith)
            requires
                count == earlier + 1,
        ;
    }
}

/// With yaw-left held and yaw-right not, the yaw after `count` ticks in a
/// row is `count` units above where it began.
pub proof fn lemma_yaw_left_accumulates(held: Set<Action>, count: nat)
    requires
        held.contains(Action::YawLeft),
        !held.contains(Action::YawRight),
    ensures
        net_change(ticks(held, count), Quantity::Yaw) == count,
{
    lemma_ticks_accumulate(held, count, Quantity::Yaw);
    assert(count * 1 == count) by (nonlinear_arith);
}

} // verus!
