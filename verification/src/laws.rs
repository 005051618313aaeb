//! Properties of the flip state machine that span several operations.

use vstd::prelude::*;
use crate::state::{frame_nanos, past_midpoint, FlipModel};

verus! {

/// Starting a flip from rest and ticking once the flip's duration has
/// passed finalises it: the other face rests in front and nothing is in
/// flight.
pub proof fn lemma_flip_then_tick_swaps(m: FlipModel, elapsed: nat)
    requires
        !m.animating,
        elapsed >= m.duration,
    ensures
        m.started().completes(elapsed),
        m.started().ticked(elapsed) == (FlipModel {
            back: !m.back,
            animating: false,
            duration: m.duration,
        }),
{
}

/// Two completed flips bring the state back to where it started.
pub proof fn lemma_two_flips_restore(m: FlipModel, first: nat, second: nat)
    requires
        !m.animating,
        first >= m.duration,
        second >= m.duration,
    ensures
        m.started().ticked(first).started().ticked(second) == m,
{
}

/// A tick changes nothing unless a flip is in flight and its window is
/// over; in particular a tick after finalisation is a no-op.
pub proof fn lemma_tick_only_completes(m: FlipModel, elapsed: nat)
    ensures
        !m.completes(elapsed) ==> m.ticked(elapsed) == m,
        !m.ticked(elapsed).animating || m.ticked(elapsed) == m,
        m.completes(elapsed) ==> forall|later: nat|
            #[trigger] m.ticked(elapsed).ticked(later) == m.ticked(elapsed),
{
}

/// The suggested delay is zero exactly when a tick at that moment
/// finalises the flip.
pub proof fn lemma_zero_delay_iff_tick_completes(m: FlipModel, elapsed: nat)
    ensures
        (m.next_tick(elapsed) == Some(0nat)) == m.completes(elapsed),
{
}

/// Waiting for a nonzero suggested delay never passes the end of the
/// flip's window, and the delay is at most one frame.
pub proof fn lemma_delay_within_window(m: FlipModel, elapsed: nat)
    ensures
        m.next_tick(elapsed) matches Some(d) ==> d <= crate::state::frame_nanos(),
        m.next_tick(elapsed) matches Some(d) ==> (d > 0 ==> elapsed + d <= m.duration),
        m.next_tick(elapsed) is Some <==> m.animating,
{
}

/// While a flip is in flight, being within its wall-clock window and a
/// tick finalising it are exact opposites.
pub proof fn lemma_window_excludes_completion(m: FlipModel, elapsed: nat)
    requires
        m.animating,
    ensures
        m.in_visual_window(elapsed) <==> !m.completes(elapsed),
{
}

/// At the start of a flip the resting face is on view.
pub proof fn lemma_starts_on_resting_face(m: FlipModel)
    ensures
        m.visible_back(0) == m.back,
{
}

/// Once the other face has come into view it stays in view for the rest
/// of the flip.
pub proof fn lemma_face_swap_is_monotone(m: FlipModel, earlier: nat, later: nat)
    requires
        earlier <= later,
        m.visible_back(earlier) != m.back,
    ensures
        m.visible_back(later) != m.back,
{
    assert(earlier / 1000 <= later / 1000) by (nonlinear_arith)
        requires
            earlier <= later,
    ;
}

/// Finalising a flip does not change the face on view: the face shown
/// when the window is over is the one that rests in front after the tick.
/// This needs at least a microsecond to have elapsed; a flip of zero
/// length ticked at zero elapsed time still shows its old face.
pub proof fn lemma_finalising_keeps_visible_face(m: FlipModel, elapsed: nat)
    requires
        m.completes(elapsed),
        elapsed >= 1000,
    ensures
        m.visible_back(elapsed) == m.ticked(elapsed).back,
        forall|later: nat| #[trigger] m.ticked(elapsed).visible_back(later) == m.ticked(elapsed).back,
{
    assert(elapsed / 1000 >= m.duration / 1000) by (nonlinear_arith)
        requires
            elapsed >= m.duration,
    ;
    assert(elapsed / 1000 >= 1) by (nonlinear_arith)
        requires
            elapsed >= 1000,
    ;
    assert(past_midpoint(elapsed, m.duration));
}

/// A tick finalises a flip in flight exactly when the flip's duration has
/// passed: then the other face rests in front and nothing is in flight;
/// before that the state is left as it is.
pub proof fn lemma_tick_finalises_after_duration(m: FlipModel, elapsed: nat)
    requires
        m.animating,
    ensures
        elapsed >= m.duration ==> m.completes(elapsed) && m.ticked(elapsed) == (FlipModel {
            back: !m.back,
            animating: false,
            duration: m.duration,
        }),
        elapsed < m.duration ==> !m.completes(elapsed) && m.ticked(elapsed) == m,
{
}

/// While a flip is in flight, the other face is on view once half the
/// duration (give or take a microsecond of rounding) has elapsed, and the
/// resting face before that.
pub proof fn lemma_face_swaps_at_half(m: FlipModel, elapsed: nat)
    requires
        m.animating,
    ensures
        2 * elapsed >= m.duration + 2000 ==> m.visible_back(elapsed) == !m.back,
        2 * elapsed + 2000 <= m.duration ==> m.visible_back(elapsed) == m.back,
{
    let e = elapsed as int;
    let d = m.duration as int;
    if 2 * e >= d + 2000 {
        assert(2 * (e / 1000) >= d / 1000 && e / 1000 > 0) by (nonlinear_arith)
            requires
                2 * e >= d + 2000,
                d >= 0,
        ;
    }
    if 2 * e + 2000 <= d {
        assert(2 * (e / 1000) < d / 1000 && d / 1000 > 0) by (nonlinear_arith)
            requires
                2 * e + 2000 <= d,
                e >= 0,
        ;
    }
}

/// While a flip is in flight and its duration has not yet passed, the
/// suggested delay is nonzero: a whole frame, or what is left of the flip
/// when that is shorter. Once the duration has passed it is zero.
pub proof fn lemma_delay_is_a_frame_or_the_rest(m: FlipModel, elapsed: nat)
    requires
        m.animating,
    ensures
        elapsed < m.duration ==> (m.next_tick(elapsed) matches Some(d) && 0 < d && d
            <= frame_nanos() && elapsed + d <= m.duration && (d == frame_nanos() || elapsed + d
            == m.duration)),
        elapsed >= m.duration ==> m.next_tick(elapsed) == Some(0nat),
{
}

/// A flip in flight is within its wall-clock window until its duration
/// has passed, and outside it from then on; with no flip in flight it is
/// never within a window.
pub proof fn lemma_window_ends_at_duration(m: FlipModel, elapsed: nat)
    ensures
        m.animating && elapsed < m.duration ==> m.in_visual_window(elapsed),
        elapsed >= m.duration ==> !m.in_visual_window(elapsed),
        !m.animating ==> !m.in_visual_window(elapsed),
{
}

} // verus!
