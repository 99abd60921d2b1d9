//! What holds of whole sequences of key presses.

use vstd::prelude::*;
use crate::player::{
    next, response, run, lowered, raised, toggled, Action, Input, Player, VOLUME_CEILING,
    VOLUME_FLOOR,
};

verus! {

/// Every input of `s` is a press of key `k`.
pub open spec fn all_pressed(k: char, s: Seq<Input>) -> bool {
    forall|i: int| 0 <= i < s.len() ==> s[i] == Input::Key(k)
}

/// The volume after `n` volume-down presses from volume `v`.
pub open spec fn volume_after_downs(v: u32, n: nat) -> int {
    if v > VOLUME_FLOOR {
        if v - n >= VOLUME_FLOOR {
            v - n
        } else {
            VOLUME_FLOOR as int
        }
    } else {
        v as int
    }
}

/// The volume after `n` volume-up presses from volume `v`.
pub open spec fn volume_after_ups(v: u32, n: nat) -> int {
    if v < VOLUME_CEILING {
        if v + n <= VOLUME_CEILING {
            v + n
        } else {
            VOLUME_CEILING as int
        }
    } else {
        v as int
    }
}

/// Running two sequences one after the other is running their concatenation.
pub proof fn lemma_run_concat(p: Player, a: Seq<Input>, b: Seq<Input>)
    ensures
        run(p, a + b) == run(run(p, a), b),
    decreases b.len(),
{
    if b.len() == 0 {
        assert(a + b =~= a);
    } else {
        lemma_run_concat(p, a, b.drop_last());
        assert((a + b).drop_last() =~= a + b.drop_last());
        assert((a + b).last() == b.last());
    }
}

/// The player after a prefix one longer is the next state of the shorter one.
proof fn lemma_run_step(p: Player, s: Seq<Input>, k: int)
    requires
        0 <= k < s.len(),
    ensures
        run(p, s.take(k + 1)) == next(run(p, s.take(k)), s[k]),
{
    assert(s.take(k + 1).drop_last() =~= s.take(k));
}

proof fn lemma_downs(p: Player, s: Seq<Input>)
    requires
        !(p.mode is Quit),
        all_pressed('-', s),
    ensures
        run(p, s).mode == p.mode,
        run(p, s).volume == volume_after_downs(p.volume, s.len()),
    decreases s.len(),
{
    if s.len() > 0 {
        lemma_downs(p, s.drop_last());
    }
}

proof fn lemma_ups(p: Player, s: Seq<Input>)
    requires
        !(p.mode is Quit),
        all_pressed('+', s),
    ensures
        run(p, s).mode == p.mode,
        run(p, s).volume == volume_after_ups(p.volume, s.len()),
    decreases s.len(),
{
    if s.len() > 0 {
        lemma_ups(p, s.drop_last());
    }
}

proof fn lemma_toggles(p: Player, s: Seq<Input>)
    requires
        !(p.mode is Quit),
        all_pressed('c', s),
    ensures
        run(p, s).volume == p.volume,
        run(p, s).mode == (if s.len() % 2 == 0 {
            p.mode
        } else {
            toggled(p.mode)
        }),
    decreases s.len(),
{
    if s.len() > 0 {
        lemma_toggles(p, s.drop_last());
    }
}

proof fn lemma_quit_absorbs(p: Player, s: Seq<Input>)
    requires
        p.mode is Quit,
    ensures
        run(p, s) == p,
    decreases s.len(),
{
    if s.len() > 0 {
        lemma_quit_absorbs(p, s.drop_last());
    }
}

/// Volume-down presses in a live session: each press lowers the volume by
/// exactly one tenth while it is above the floor, and does nothing once it is
/// not. So the volume never rises, and from the floor or above it never falls
/// below the floor. The play/pause state is left alone.
pub proof fn volume_down_presses(p: Player, presses: Seq<Input>)
    requires
        !(p.mode is Quit),
        all_pressed('-', presses),
    ensures
        forall|k: int|
            0 <= k < presses.len() ==> #[trigger] run(p, presses.take(k + 1)).volume == lowered(
                run(p, presses.take(k)).volume,
            ),
        forall|k: int|
            0 <= k <= presses.len() ==> #[trigger] run(p, presses.take(k)).volume
                == volume_after_downs(p.volume, k as nat),
        forall|j: int, k: int|
            #![trigger run(p, presses.take(j)), run(p, presses.take(k))]
            0 <= j <= k <= presses.len() ==> run(p, presses.take(k)).volume <= run(
                p,
                presses.take(j),
            ).volume,
        forall|k: int|
            0 <= k <= presses.len() && p.volume >= VOLUME_FLOOR ==> #[trigger] run(
                p,
                presses.take(k),
            ).volume >= VOLUME_FLOOR,
        run(p, presses).mode == p.mode,
{
    assert forall|k: int| 0 <= k <= presses.len() implies #[trigger] run(p, presses.take(k)).volume
        == volume_after_downs(p.volume, k as nat) && run(p, presses.take(k)).mode == p.mode by {
        lemma_downs(p, presses.take(k));
    }
    assert forall|k: int| 0 <= k < presses.len() implies #[trigger] run(
        p,
        presses.take(k + 1),
    ).volume == lowered(run(p, presses.take(k)).volume) by {
        lemma_run_step(p, presses, k);
    }
    lemma_downs(p, presses);
}

/// Volume-up presses in a live session: each press raises the volume by
/// exactly one tenth while it is below the ceiling, and does nothing once it is
/// not. So the volume never falls, and from the ceiling or below it never
/// rises above the ceiling. The play/pause state is left alone.
pub proof fn volume_up_presses(p: Player, presses: Seq<Input>)
    requires
        !(p.mode is Quit),
        all_pressed('+', presses),
    ensures
        forall|k: int|
            0 <= k < presses.len() ==> #[trigger] run(p, presses.take(k + 1)).volume == raised(
                run(p, presses.take(k)).volume,
            ),
        forall|k: int|
            0 <= k <= presses.len() ==> #[trigger] run(p, presses.take(k)).volume
                == volume_after_ups(p.volume, k as nat),
        forall|j: int, k: int|
            #![trigger run(p, presses.take(j)), run(p, presses.take(k))]
            0 <= j <= k <= presses.len() ==> run(p, presses.take(j)).volume <= run(
                p,
                presses.take(k),
            ).volume,
        forall|k: int|
            0 <= k <= presses.len() && p.volume <= VOLUME_CEILING ==> #[trigger] run(
                p,
                presses.take(k),
            ).volume <= VOLUME_CEILING,
        run(p, presses).mode == p.mode,
{
    assert forall|k: int| 0 <= k <= presses.len() implies #[trigger] run(p, presses.take(k)).volume
        == volume_after_ups(p.volume, k as nat) && run(p, presses.take(k)).mode == p.mode by {
        lemma_ups(p, presses.take(k));
    }
    assert forall|k: int| 0 <= k < presses.len() implies #[trigger] run(
        p,
        presses.take(k + 1),
    ).volume == raised(run(p, presses.take(k)).volume) by {
        lemma_run_step(p, presses, k);
    }
    lemma_ups(p, presses);
}

/// Pause/resume presses in a live session: an even number of them leaves the
/// session as paused or as playing as it was, an odd number flips it. The
/// volume is left alone.
pub proof fn pause_presses(p: Player, presses: Seq<Input>)
    requires
        !(p.mode is Quit),
        all_pressed('c', presses),
    ensures
        run(p, presses).volume == p.volume,
        presses.len() % 2 == 0 ==> run(p, presses).mode == p.mode,
        presses.len() % 2 == 1 ==> run(p, presses).mode == toggled(p.mode),
        presses.len() % 2 == 1 ==> (run(p, presses).mode is Paused <==> p.mode is Playing),
{
    lemma_toggles(p, presses);
}

/// A quit press, whatever came before it, ends the session: the player is in
/// `Quit` and every later input changes nothing and asks nothing of the audio
/// output.
pub proof fn quit_ends_input(p: Player, before: Seq<Input>, after: Seq<Input>)
    ensures
        run(p, before.push(Input::Key('q'))).mode is Quit,
        run(p, before.push(Input::Key('q')) + after) == run(p, before.push(Input::Key('q'))),
        run(p, before.push(Input::Key('q')) + after).volume == run(p, before).volume,
        forall|k: int|
            0 <= k < after.len() ==> #[trigger] response(
                run(p, before.push(Input::Key('q')) + after.take(k)),
                after[k],
            ) == Action::Nothing,
{
    let s = before.push(Input::Key('q'));
    assert(s.drop_last() =~= before);
    let q = run(p, s);
    lemma_run_concat(p, s, after);
    lemma_quit_absorbs(q, after);
    assert forall|k: int| 0 <= k < after.len() implies #[trigger] response(
        run(p, s + after.take(k)),
        after[k],
    ) == Action::Nothing by {
        lemma_run_concat(p, s, after.take(k));
        lemma_quit_absorbs(q, after.take(k));
    }
}

} // verus!
