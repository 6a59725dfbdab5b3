//! What holds of every update, proved from the definitions of
//! [`moved`](crate::player::movement::moved) and
//! [`animated`](crate::player::state::PlayerAnimation::animated).

use crate::control::Direction;
use crate::player::animation::{escalated, next_frame, JUMPING_AFTER, RESTLESS_AFTER, TICK_LIMIT};
use crate::player::frames::{atlas_index, row, shows, AnimMode, Facing};
use crate::player::movement::{facing_toward, magnitude, moved};
use crate::player::state::{AnimationState, PlayerAnimation};
use vstd::arithmetic::div_mod::lemma_basic_div;
use vstd::prelude::*;

verus! {

/// The movement update sets `moving` exactly when a direction was given,
/// touches nothing but `moving` and `facing`, and keeps the facing of a
/// player that stands still.
pub proof fn lemma_moving_follows_input(state: AnimationState, direction: Direction)
    ensures
        moved(state, direction).moving == !direction.is_zero(),
        moved(state, direction).mode == state.mode,
        moved(state, direction).was_moving == state.was_moving,
        moved(state, direction).tick == state.tick,
        direction.is_zero() ==> moved(state, direction).facing == state.facing,
{
}

/// A direction that is as much sideways as it is up or down faces up or
/// down, never sideways; a direction that is more sideways never faces up
/// or down.
pub proof fn lemma_diagonal_faces_vertically(direction: Direction)
    requires
        !direction.is_zero(),
    ensures
        magnitude(direction.x as int) == magnitude(direction.y as int) ==> facing_toward(direction)
            == (if direction.y > 0 {
            Facing::Up
        } else {
            Facing::Down
        }),
        magnitude(direction.x as int) <= magnitude(direction.y as int) <==> (facing_toward(
            direction,
        ) == Facing::Up || facing_toward(direction) == Facing::Down),
        facing_toward(direction) == Facing::Up ==> direction.y > 0,
        facing_toward(direction) == Facing::Down ==> direction.y < 0,
        facing_toward(direction) == Facing::Right ==> direction.x > 0,
        facing_toward(direction) == Facing::Left ==> direction.x < 0,
{
}

/// Where the cell on display is not of the row of the current mode and
/// facing, the first cell an update computes is the first picture of that
/// row, and the timer starts over. The rest of the update goes on from
/// there: a tick that only counts shows that picture, and so does a third
/// tick unless the timer, starting from zero, completes a period within
/// this one tick. A start or stop of movement moves one picture on from it,
/// in the row of the mode that begins.
pub proof fn lemma_row_change_snaps(before: PlayerAnimation, delta_nanos: u64)
    requires
        before.off_row(),
    ensures
        before.snapped().index == atlas_index(before.state.mode, before.state.facing, 0),
        before.snapped().index == 9 * row(before.state.mode, before.state.facing),
        before.snapped().timer.elapsed_nanos == 0,
        before.throttled() ==> before.animated(delta_nanos).index == atlas_index(
            before.state.mode,
            before.state.facing,
            0,
        ),
        !before.state.just_started() && !before.state.just_stopped() && delta_nanos
            < before.timer.period_nanos ==> before.animated(delta_nanos).index == atlas_index(
            before.state.mode,
            before.state.facing,
            0,
        ),
        before.state.just_started() ==> before.animated(delta_nanos).index == atlas_index(
            AnimMode::Walking,
            before.state.facing,
            1,
        ),
        before.state.just_stopped() ==> before.animated(delta_nanos).index == atlas_index(
            AnimMode::Idle,
            before.state.facing,
            1,
        ),
{
    let on_row = before.snapped();
    assert(on_row.index % 9 == 0);
    assert(next_frame(on_row.index, AnimMode::Idle, before.state.facing) == 9 * row(
        AnimMode::Idle,
        before.state.facing,
    ) + 1) by {
        assert(1int % 2int == 1int);
    }
    if delta_nanos < before.timer.period_nanos {
        assert(!on_row.timer.completes(delta_nanos)) by {
            lemma_basic_div(delta_nanos as int, before.timer.period_nanos as int);
        }
    }
}

/// A player that turns while it keeps moving shows the first picture of the
/// row of its new facing after the update of the same tick, whatever the
/// counter says, as long as less than a timer period passes in that tick.
pub proof fn lemma_turn_shows_first_picture(
    before: PlayerAnimation,
    direction: Direction,
    delta_nanos: u64,
)
    requires
        shows(before.index as nat, before.state.mode, before.state.facing),
        before.state.was_moving,
        !direction.is_zero(),
        facing_toward(direction) != before.state.facing,
        delta_nanos < before.timer.period_nanos,
    ensures
        ({
            let turned = PlayerAnimation { state: moved(before.state, direction), ..before };
            &&& turned.off_row()
            &&& turned.animated(delta_nanos).index == atlas_index(
                before.state.mode,
                facing_toward(direction),
                0,
            )
            &&& turned.animated(delta_nanos).state.facing == facing_toward(direction)
        }),
{
    let turned = PlayerAnimation { state: moved(before.state, direction), ..before };
    lemma_row_change_snaps(turned, delta_nanos);
}

/// The counter stays at or below its limit through every update that looks
/// at it: a count that would pass the limit is set to zero within the same
/// update. The one way past the limit is a tick that only counts.
pub proof fn lemma_tick_within_limit(before: PlayerAnimation, delta_nanos: u64)
    requires
        !(before.throttled() && before.state.tick >= TICK_LIMIT),
    ensures
        before.animated(delta_nanos).state.tick <= TICK_LIMIT,
        !before.throttled() && before.state.tick >= TICK_LIMIT ==> before.animated(
            delta_nanos,
        ).state.tick == 0,
{
}

/// A counter that has come no further than one past its limit never comes
/// further than that.
pub proof fn lemma_tick_bounded(before: PlayerAnimation, delta_nanos: u64)
    requires
        before.state.tick <= TICK_LIMIT + 1,
    ensures
        before.animated(delta_nanos).state.tick <= TICK_LIMIT + 1,
{
}

/// An update adds one to the counter or sets it to zero, and it sets it to
/// zero exactly on a start or stop of movement and on a third tick that
/// would pass the limit. Facing and `moving` are left alone, and
/// `was_moving` has caught up with `moving` afterwards.
pub proof fn lemma_tick_counts_or_restarts(before: PlayerAnimation, delta_nanos: u64)
    requires
        before.state.countable(),
    ensures
        ({
            let after = before.animated(delta_nanos);
            let restarts = before.state.just_started() || before.state.just_stopped() || (
            !before.throttled() && before.state.tick >= TICK_LIMIT);
            &&& restarts ==> after.state.tick == 0
            &&& !restarts ==> after.state.tick == before.state.tick + 1
            &&& after.state.facing == before.state.facing
            &&& after.state.moving == before.state.moving
            &&& after.state.was_moving == before.state.moving
        }),
{
}

/// What an update does to the mode. A start of movement gives walking and a
/// stop gives idling. Otherwise a tick that only counts keeps the mode, and
/// a third tick lets it grow by the new count: idling becomes thrusting and
/// walking becomes running above the first threshold, thrusting becomes
/// jumping above the second, and running and jumping last until movement
/// starts or stops.
pub proof fn lemma_mode_after_update(before: PlayerAnimation, delta_nanos: u64)
    ensures
        ({
            let after = before.animated(delta_nanos);
            let steady = !before.state.just_started() && !before.state.just_stopped();
            &&& before.state.just_started() ==> after.state.mode == AnimMode::Walking
            &&& before.state.just_stopped() ==> after.state.mode == AnimMode::Idle
            &&& before.throttled() ==> after.state.mode == before.state.mode
            &&& steady && !before.throttled() ==> after.state.mode == escalated(
                before.state.mode,
                after.state.tick,
            )
            &&& steady && (before.state.mode == AnimMode::Running || before.state.mode
                == AnimMode::Jumping) ==> after.state.mode == before.state.mode
        }),
{
}

/// The thresholds of growth: idling and walking grow exactly above the
/// first, thrusting exactly above the second, running and jumping never.
pub proof fn lemma_escalation_thresholds(tick: u16)
    ensures
        escalated(AnimMode::Idle, tick) == (if tick > RESTLESS_AFTER {
            AnimMode::Thrusting
        } else {
            AnimMode::Idle
        }),
        escalated(AnimMode::Walking, tick) == (if tick > RESTLESS_AFTER {
            AnimMode::Running
        } else {
            AnimMode::Walking
        }),
        escalated(AnimMode::Thrusting, tick) == (if tick > JUMPING_AFTER {
            AnimMode::Jumping
        } else {
            AnimMode::Thrusting
        }),
        escalated(AnimMode::Running, tick) == AnimMode::Running,
        escalated(AnimMode::Jumping, tick) == AnimMode::Jumping,
{
}

/// One picture on stays in the row and among its pictures, and is the
/// neighbouring column, or the first after the last.
pub proof fn lemma_next_frame_in_row(index: usize, mode: AnimMode, facing: Facing)
    ensures
        shows(next_frame(index, mode, facing) as nat, mode, facing),
        next_frame(index, mode, facing) % 9 == (index % 9 + 1) % (mode.width() as int),
        next_frame(index, mode, facing) <= 179,
{
}

/// No update ever puts a blank cell on display. After an update the cell is
/// a picture of the row of the mode and facing then current, or, where the
/// mode has just grown on a tick at which the timer completed no period, a
/// picture of the row it grew out of. All this needs is that the cell
/// before the update was not a blank cell of the row then current.
pub proof fn lemma_never_blank(before: PlayerAnimation, delta_nanos: u64)
    requires
        before.off_row() || shows(before.index as nat, before.state.mode, before.state.facing),
    ensures
        ({
            let after = before.animated(delta_nanos);
            let grown = after.state.mode != before.state.mode && !before.state.just_started()
                && !before.state.just_stopped();
            &&& after.index <= 179
            &&& !grown ==> shows(after.index as nat, after.state.mode, after.state.facing)
            &&& grown ==> shows(after.index as nat, after.state.mode, after.state.facing)
                || shows(after.index as nat, before.state.mode, before.state.facing)
        }),
{
    let on_row = before.snapped();
    lemma_next_frame_in_row(on_row.index, AnimMode::Walking, before.state.facing);
    lemma_next_frame_in_row(on_row.index, AnimMode::Idle, before.state.facing);
    let after = before.animated(delta_nanos);
    lemma_next_frame_in_row(on_row.index, after.state.mode, before.state.facing);
}

/// A start of movement shows at once: the mode is walking, the picture has
/// moved on by exactly one column of the nine of a walking row, and counter
/// and timer stand at zero.
pub proof fn lemma_start_shows_at_once(
    before: PlayerAnimation,
    direction: Direction,
    delta_nanos: u64,
)
    requires
        !before.state.was_moving,
        !direction.is_zero(),
    ensures
        ({
            let started = PlayerAnimation { state: moved(before.state, direction), ..before };
            let after = started.animated(delta_nanos);
            &&& after.state.mode == AnimMode::Walking
            &&& after.state.tick == 0
            &&& after.timer.elapsed_nanos == 0
            &&& after.state.was_moving
            &&& after.index / 9 == row(AnimMode::Walking, facing_toward(direction))
            &&& after.index % 9 == (started.snapped().index % 9 + 1) % 9
        }),
{
}

/// The animation after one update for each entry of `deltas`, in order, with
/// no movement update in between.
pub open spec fn after_updates(start: PlayerAnimation, deltas: Seq<u64>) -> PlayerAnimation
    decreases deltas.len(),
{
    if deltas.len() == 0 {
        start
    } else {
        after_updates(start, deltas.drop_last()).animated(deltas.last())
    }
}

/// The mode of a player that has stood still for `ticks` updates since it
/// last stopped.
pub open spec fn mode_at_rest(ticks: nat) -> AnimMode {
    if ticks <= RESTLESS_AFTER {
        AnimMode::Idle
    } else if ticks <= JUMPING_AFTER {
        AnimMode::Thrusting
    } else {
        AnimMode::Jumping
    }
}

/// A player at rest counts every update, whatever time passes in each. It
/// idles through the first 500 of them, turns to thrusting with update 501,
/// the first at which the counter is above 500, and to jumping with update
/// 801. Each change happens once.
pub proof fn lemma_rest_grows_restless(start: PlayerAnimation, deltas: Seq<u64>)
    requires
        start.state.mode == AnimMode::Idle,
        !start.state.moving,
        !start.state.was_moving,
        start.state.tick == 0,
        deltas.len() <= TICK_LIMIT + 1,
    ensures
        after_updates(start, deltas).state.tick == deltas.len(),
        after_updates(start, deltas).state.mode == mode_at_rest(deltas.len()),
        !after_updates(start, deltas).state.moving,
        !after_updates(start, deltas).state.was_moving,
    decreases deltas.len(),
{
    if deltas.len() > 0 {
        lemma_rest_grows_restless(start, deltas.drop_last());
    }
}

/// A player that keeps walking counts every update too, and breaks into a
/// run with update 501. It runs from then on.
pub proof fn lemma_walk_breaks_into_run(start: PlayerAnimation, deltas: Seq<u64>)
    requires
        start.state.mode == AnimMode::Walking,
        start.state.moving,
        start.state.was_moving,
        start.state.tick == 0,
        deltas.len() <= TICK_LIMIT + 1,
    ensures
        after_updates(start, deltas).state.tick == deltas.len(),
        after_updates(start, deltas).state.mode == (if deltas.len() <= RESTLESS_AFTER {
            AnimMode::Walking
        } else {
            AnimMode::Running
        }),
        after_updates(start, deltas).state.moving,
        after_updates(start, deltas).state.was_moving,
    decreases deltas.len(),
{
    if deltas.len() > 0 {
        lemma_walk_breaks_into_run(start, deltas.drop_last());
    }
}

/// Running and jumping last: however many updates follow, and however often
/// the counter starts over, the mode stays until movement starts or stops.
pub proof fn lemma_running_and_jumping_last(start: PlayerAnimation, deltas: Seq<u64>)
    requires
        start.state.mode == AnimMode::Running || start.state.mode == AnimMode::Jumping,
        start.state.moving == start.state.was_moving,
        start.state.tick <= TICK_LIMIT + 1,
    ensures
        after_updates(start, deltas).state.mode == start.state.mode,
        after_updates(start, deltas).state.tick <= TICK_LIMIT + 1,
        after_updates(start, deltas).state.moving == start.state.moving,
        after_updates(start, deltas).state.was_moving == start.state.was_moving,
    decreases deltas.len(),
{
    if deltas.len() > 0 {
        lemma_running_and_jumping_last(start, deltas.drop_last());
    }
}

/// Thrusting turns to jumping with the first update that is looked at while
/// the counter is above 800, and not before.
pub proof fn lemma_thrust_ends_in_jump(before: PlayerAnimation, delta_nanos: u64)
    requires
        before.state.mode == AnimMode::Thrusting,
        before.state.moving == before.state.was_moving,
        before.state.tick <= TICK_LIMIT,
    ensures
        before.animated(delta_nanos).state.mode == (if !before.throttled() && JUMPING_AFTER
            <= before.state.tick < TICK_LIMIT {
            AnimMode::Jumping
        } else {
            AnimMode::Thrusting
        }),
{
}

} // verus!
