//! The library-wide laws: what holds of every surface, every reload and
//! every draw pass, proved once and for all over the step functions that
//! the executable methods are contracted to perform.

use vstd::prelude::*;

use crate::scheduler::{
    draw_pass, first_arm_step, reload_pass, reload_reschedules, steady_iteration,
};
use crate::surface::{
    arm_step, configure_step, deadline, draw_step, duration_changes, reload_step, tick_step,
    update_info_step, SurfaceV, TimerEntry,
};
use crate::wallpaper_config::{lookup, reload_decision, ReloadOutcome};
use crate::wallpaper_info::WallpaperInfoV;

verus! {

/// A reload whose parse result is structurally equal to the current
/// configuration is silent end to end: the watcher's compare-and-replace
/// keeps the value and leaves the flag down, so the scheduler pass that
/// follows changes no surface and re-arms no timer; and any entry equal
/// to a surface's snapshot neither fires its settings-change flag nor
/// obliges a reschedule.
pub proof fn lemma_equal_reload_silent(
    cur: Seq<(Seq<char>, WallpaperInfoV)>,
    new: Seq<(Seq<char>, WallpaperInfoV)>,
    ss: Seq<SurfaceV>,
    now: u64,
)
    requires
        new == cur,
    ensures
        reload_decision(cur, Some(new)) == ReloadOutcome::Unchanged,
        reload_pass(ss, false, cur, now) == ss,
        forall|i: int|
            0 <= i < ss.len() && lookup(cur, ss[i].name) == Some(ss[i].wallpaper_info)
                ==> #[trigger] reload_step(ss[i], lookup(cur, ss[i].name), now) == ss[i]
                && !reload_reschedules(ss[i], cur),
{
    assert forall|i: int|
        0 <= i < ss.len() && lookup(cur, ss[i].name) == Some(
            ss[i].wallpaper_info,
        ) implies #[trigger] reload_step(ss[i], lookup(cur, ss[i].name), now) == ss[i]
        && !reload_reschedules(ss[i], cur) by {
        lemma_update_same_settings(ss[i], now);
    }
}

/// `configured` is monotone: the configure acknowledgment only raises it,
/// and no other step of the scheduler ever touches it — so a surface goes
/// from unconfigured to configured at most once and never back.
pub proof fn lemma_configured_monotone(
    s: SurfaceV,
    now: u64,
    paint_ok: bool,
    new: WallpaperInfoV,
    entry: Option<WallpaperInfoV>,
)
    ensures
        configure_step(s).configured,
        configure_step(configure_step(s)) == configure_step(s),
        arm_step(s, now).configured == s.configured,
        first_arm_step(s, now).configured == s.configured,
        update_info_step(s, new).configured == s.configured,
        tick_step(s, now).configured == s.configured,
        draw_step(s, now, paint_ok).configured == s.configured,
        reload_step(s, entry, now).configured == s.configured,
{
}

/// The handshake arms only a surface that carries no timer yet: once one
/// is armed, further handshake iterations leave the surface alone — each
/// surface's first timer is armed exactly once, however long the
/// handshake loop keeps running.
pub proof fn lemma_first_timer_armed_once(s: SurfaceV, now1: u64, now2: u64)
    ensures
        s.timer is Some ==> first_arm_step(s, now1) == s,
        first_arm_step(first_arm_step(s, now1), now2) == first_arm_step(s, now1),
{
}

/// A reload that changes a surface's rotation duration while a timer is
/// pending supersedes that timer: afterwards exactly one timer is armed,
/// at the instant of the reload, for the new duration alone — no double
/// fire from the old one, no missed shortened deadline.
pub proof fn lemma_reload_supersedes_timer(s: SurfaceV, new: WallpaperInfoV, now: u64)
    requires
        duration_changes(s, new),
    ensures
        reload_step(s, Some(new), now).timer == Some(
            TimerEntry { armed_at: now, duration_secs: new.duration_secs },
        ),
        deadline(TimerEntry { armed_at: now, duration_secs: new.duration_secs }) == now
            + new.duration_secs,
{
}

/// One surface's paint failure is isolated: a failed draw leaves that
/// surface exactly as it was — settings, timer and configured state
/// included — and position `j` of a whole draw pass depends on surface
/// `j` and its own outcome alone, never on a sibling's failure.
pub proof fn lemma_draw_failure_isolated(
    ss: Seq<SurfaceV>,
    ok1: Seq<bool>,
    ok2: Seq<bool>,
    now: u64,
    j: int,
)
    requires
        ok1.len() == ss.len(),
        ok2.len() == ss.len(),
        0 <= j < ss.len(),
        ok1[j] == ok2[j],
    ensures
        draw_step(ss[j], now, false) == ss[j],
        draw_pass(ss, now, ok1)[j] == draw_pass(ss, now, ok2)[j],
{
}

/// Reload-then-draw ordering is strict per iteration: a surface whose
/// name the reloaded mapping covers holds exactly the mapping's settings
/// once the iteration is over — whatever its paint outcome was, the draw
/// of that same iteration already observed the new settings, never the
/// stale ones.
pub proof fn lemma_reload_applied_before_draw(
    ss: Seq<SurfaceV>,
    ev: Seq<(Seq<char>, WallpaperInfoV)>,
    now: u64,
    ok: Seq<bool>,
    i: int,
    new: WallpaperInfoV,
)
    requires
        ok.len() == ss.len(),
        0 <= i < ss.len(),
        lookup(ev, ss[i].name) == Some(new),
    ensures
        steady_iteration(ss, true, ev, now, ok)[i].wallpaper_info == new,
{
}

/// Idempotence of a settings update: pushing the very settings a surface
/// already holds reports no change and leaves the surface — its due mark
/// and its pending timer included — exactly as it was, so no timer
/// reschedule follows.
pub proof fn lemma_update_same_settings(s: SurfaceV, now: u64)
    ensures
        !duration_changes(s, s.wallpaper_info),
        update_info_step(s, s.wallpaper_info) == s,
        reload_step(s, Some(s.wallpaper_info), now) == s,
{
    assert(update_info_step(s, s.wallpaper_info) =~= s);
}

} // verus!
