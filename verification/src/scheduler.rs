//! The core loop controller: owns the surfaces, drives the initial
//! handshake, applies configuration reloads before any draw of the same
//! iteration, and performs the per-tick duration and draw passes.
//!
//! Each pass is written down twice: as a spec-level function over the
//! sequence of surface values, and as an executable method whose contract
//! says that it performs exactly that pass. The blocking dispatch call,
//! the paint routine and the timer sources live outside; the methods
//! return, per surface, what the caller must arm or paint.

use vstd::prelude::*;

use crate::surface::{
    arm_step, configure_step, draw_step, fresh_surface, needs_paint, reload_step,
    rotation_elapsed, tick_step, Surface, SurfaceV,
};
use crate::wallpaper_config::{lookup, WallpaperConfig};
use crate::wallpaper_info::{WallpaperInfo, WallpaperInfoV};

verus! {

/// The values of a sequence of surfaces.
pub open spec fn surface_views(ss: Seq<Surface>) -> Seq<SurfaceV> {
    Seq::new(ss.len(), |i: int| ss[i]@)
}

/// Arming the first timer of a surface that has just completed its
/// handshake: only a configured surface that was never armed gets one, so
/// each surface's first timer is armed exactly once.
pub open spec fn first_arm_step(s: SurfaceV, now: u64) -> SurfaceV {
    if s.configured && s.timer is None {
        arm_step(s, now)
    } else {
        s
    }
}

/// One handshake-phase timer pass over every surface.
pub open spec fn first_arm_pass(ss: Seq<SurfaceV>, now: u64) -> Seq<SurfaceV> {
    Seq::new(ss.len(), |i: int| first_arm_step(ss[i], now))
}

/// One duration-check pass over every surface.
pub open spec fn tick_pass(ss: Seq<SurfaceV>, now: u64) -> Seq<SurfaceV> {
    Seq::new(ss.len(), |i: int| tick_step(ss[i], now))
}

/// One draw pass over every surface, given each surface's own paint
/// outcome. Position `i` of the result is a function of surface `i` and
/// outcome `i` alone.
pub open spec fn draw_pass(ss: Seq<SurfaceV>, now: u64, ok: Seq<bool>) -> Seq<SurfaceV> {
    Seq::new(ss.len(), |i: int| draw_step(ss[i], now, ok[i]))
}

/// One reload pass: with the flag down nothing moves; with it up, every
/// surface takes its entry from the new mapping, looked up by output name.
pub open spec fn reload_pass(
    ss: Seq<SurfaceV>,
    reloaded: bool,
    ev: Seq<(Seq<char>, WallpaperInfoV)>,
    now: u64,
) -> Seq<SurfaceV> {
    if reloaded {
        Seq::new(ss.len(), |i: int| reload_step(ss[i], lookup(ev, ss[i].name), now))
    } else {
        ss
    }
}

/// One whole steady-state iteration, in its strict order: the reload is
/// applied to every surface first, then the elapsed durations are
/// checked, and only then does the draw pass run — so every draw of the
/// iteration observes the reloaded settings, never the stale ones.
pub open spec fn steady_iteration(
    ss: Seq<SurfaceV>,
    reloaded: bool,
    ev: Seq<(Seq<char>, WallpaperInfoV)>,
    now: u64,
    ok: Seq<bool>,
) -> Seq<SurfaceV> {
    draw_pass(tick_pass(reload_pass(ss, reloaded, ev, now), now), now, ok)
}

/// Whether a reload pass re-arms a surface's timer: only an entry of its
/// name whose rotation duration differs from the snapshot's obliges one.
pub open spec fn reload_reschedules(s: SurfaceV, ev: Seq<(Seq<char>, WallpaperInfoV)>) -> bool {
    match lookup(ev, s.name) {
        Some(new) => s.wallpaper_info.duration_secs != new.duration_secs,
        None => false,
    }
}

/// The core loop controller: the collection of surfaces, one per known
/// output, in a fixed traversal order.
#[derive(Debug)]
pub struct Scheduler {
    /// One surface per output discovered by the protocol registry.
    pub surfaces: Vec<Surface>,
}

impl Scheduler {
    /// The surfaces are in one-to-one correspondence with known outputs:
    /// output names are unique.
    pub open spec fn wf(&self) -> bool {
        forall|i: int, j: int|
            0 <= i < j < self.surfaces@.len() ==> self.surfaces@[i]@.name != self.surfaces@[j]@.name
    }

    /// A scheduler that knows no output yet.
    pub fn new() -> (s: Scheduler)
        ensures
            s.surfaces@.len() == 0,
            s.wf(),
    {
        Scheduler { surfaces: Vec::new() }
    }

    /// Registers a newly discovered output: appends a fresh, unconfigured
    /// surface for it. An output already known is not added twice.
    pub fn add_surface(&mut self, name: String, info: WallpaperInfo) -> (added: bool)
        requires
            old(self).wf(),
        ensures
            final(self).wf(),
            added == !(exists|i: int|
                0 <= i < old(self).surfaces@.len() && old(self).surfaces@[i]@.name == name@),
            added ==> {
                &&& final(self).surfaces@.len() == old(self).surfaces@.len() + 1
                &&& forall|j: int|
                    0 <= j < old(self).surfaces@.len() ==> final(self).surfaces@[j] == old(
                        self,
                    ).surfaces@[j]
                &&& final(self).surfaces@[old(self).surfaces@.len() as int]@ == fresh_surface(
                    name@,
                    info@,
                )
            },
            !added ==> *final(self) == *old(self),
    {
        let n = self.surfaces.len();
        let mut i: usize = 0;
        while i < n
            invariant
                n == self.surfaces@.len(),
                i <= n,
                *self == *old(self),
                old(self).wf(),
                forall|j: int| 0 <= j < i ==> self.surfaces@[j]@.name != name@,
            decreases n - i,
        {
            if self.surfaces[i].name == name {
                return false;
            }
            i += 1;
        }
        self.surfaces.push(Surface::new(name, info));
        true
    }

    /// Delivers the protocol's configure acknowledgment for the output of
    /// the given name: that surface — and no other — becomes configured.
    pub fn configure_surface(&mut self, name: &String) -> (found: bool)
        requires
            old(self).wf(),
        ensures
            final(self).wf(),
            final(self).surfaces@.len() == old(self).surfaces@.len(),
            found == (exists|i: int|
                0 <= i < old(self).surfaces@.len() && old(self).surfaces@[i]@.name == name@),
            forall|j: int|
                0 <= j < old(self).surfaces@.len() ==> final(self).surfaces@[j]@ == (
                if old(self).surfaces@[j]@.name == name@ {
                    configure_step(old(self).surfaces@[j]@)
                } else {
                    old(self).surfaces@[j]@
                }),
    {
        let n = self.surfaces.len();
        let mut i: usize = 0;
        while i < n
            invariant
                n == self.surfaces@.len(),
                i <= n,
                *self == *old(self),
                old(self).wf(),
                forall|j: int| 0 <= j < i ==> self.surfaces@[j]@.name != name@,
            decreases n - i,
        {
            if self.surfaces[i].name == *name {
                self.surfaces[i].configure();
                proof {
                    assert(forall|j: int|
                        0 <= j < old(self).surfaces@.len() && j != i ==> final(self).surfaces@[j]
                            == old(self).surfaces@[j]);
                }
                return true;
            }
            i += 1;
        }
        false
    }

    /// Whether the initial handshake has converged: every known surface
    /// is configured, and at least one output is known at all.
    pub fn all_configured(&self) -> (r: bool)
        ensures
            r == (self.surfaces@.len() > 0 && forall|i: int|
                0 <= i < self.surfaces@.len() ==> self.surfaces@[i]@.configured),
    {
        let n = self.surfaces.len();
        if n == 0 {
            return false;
        }
        let mut i: usize = 0;
        while i < n
            invariant
                n == self.surfaces@.len(),
                i <= n,
                forall|j: int| 0 <= j < i ==> self.surfaces@[j]@.configured,
            decreases n - i,
        {
            if !self.surfaces[i].configured {
                return false;
            }
            i += 1;
        }
        true
    }

    /// The handshake-phase timer pass: arms the first rotation timer of
    /// every surface that just became configured. `armed[i]` tells the
    /// caller to install a concrete wake-up timer for surface `i`, for its
    /// configured interval.
    pub fn arm_initial_timers(&mut self, now: u64) -> (armed: Vec<bool>)
        requires
            old(self).wf(),
        ensures
            final(self).wf(),
            final(self).surfaces@.len() == old(self).surfaces@.len(),
            surface_views(final(self).surfaces@) == first_arm_pass(
                surface_views(old(self).surfaces@),
                now,
            ),
            armed@.len() == old(self).surfaces@.len(),
            forall|i: int|
                0 <= i < armed@.len() ==> armed@[i] == (old(self).surfaces@[i]@.configured && old(
                    self,
                ).surfaces@[i]@.timer is None),
    {
        let n = self.surfaces.len();
        let mut armed: Vec<bool> = Vec::new();
        let mut i: usize = 0;
        while i < n
            invariant
                n == self.surfaces@.len(),
                n == old(self).surfaces@.len(),
                i <= n,
                armed@.len() == i,
                forall|j: int| i <= j < n ==> self.surfaces@[j] == old(self).surfaces@[j],
                forall|j: int|
                    0 <= j < i ==> self.surfaces@[j]@ == first_arm_step(
                        old(self).surfaces@[j]@,
                        now,
                    ),
                forall|j: int|
                    0 <= j < i ==> armed@[j] == (old(self).surfaces@[j]@.configured && old(
                        self,
                    ).surfaces@[j]@.timer is None),
            decreases n - i,
        {
            let mut flag = false;
            if self.surfaces[i].configured && self.surfaces[i].timer.is_none() {
                self.surfaces[i].set_next_duration(now);
                flag = true;
            }
            armed.push(flag);
            i += 1;
        }
        proof {
            assert(surface_views(self.surfaces@) =~= first_arm_pass(
                surface_views(old(self).surfaces@),
                now,
            ));
            assert(final(self).wf());
        }
        armed
    }

    /// The reload pass, step one of a steady-state iteration. With the
    /// shared `reloaded` flag down it does nothing. With it up, every
    /// surface takes the entry of its name from the new mapping — one
    /// whose name is absent keeps its previous settings — and every
    /// surface whose rotation duration changed gets its timer re-armed;
    /// then, and only then, the flag is cleared: no surface misses the
    /// change. `rescheduled[i]` tells the caller to replace surface `i`'s
    /// concrete wake-up timer.
    pub fn apply_config(&mut self, cfg: &mut WallpaperConfig, now: u64) -> (rescheduled: Vec<bool>)
        requires
            old(cfg).wf(),
        ensures
            final(cfg).entries@ == old(cfg).entries@,
            final(cfg).wf(),
            !final(cfg).reloaded,
            final(self).surfaces@.len() == old(self).surfaces@.len(),
            surface_views(final(self).surfaces@) == reload_pass(
                surface_views(old(self).surfaces@),
                old(cfg).reloaded,
                old(cfg).ev(),
                now,
            ),
            rescheduled@.len() == old(self).surfaces@.len(),
            forall|i: int|
                0 <= i < rescheduled@.len() ==> rescheduled@[i] == (old(cfg).reloaded
                    && reload_reschedules(old(self).surfaces@[i]@, old(cfg).ev())),
    {
        let n = self.surfaces.len();
        let mut rescheduled: Vec<bool> = Vec::new();
        if !cfg.reloaded {
            let mut i: usize = 0;
            while i < n
                invariant
                    i <= n,
                    rescheduled@.len() == i,
                    forall|j: int| 0 <= j < i ==> rescheduled@[j] == false,
                decreases n - i,
            {
                rescheduled.push(false);
                i += 1;
            }
            return rescheduled;
        }
        let mut i: usize = 0;
        while i < n
            invariant
                n == self.surfaces@.len(),
                n == old(self).surfaces@.len(),
                i <= n,
                rescheduled@.len() == i,
                cfg.entries@ == old(cfg).entries@,
                cfg.reloaded == old(cfg).reloaded,
                old(cfg).reloaded,
                old(cfg).wf(),
                forall|j: int| i <= j < n ==> self.surfaces@[j] == old(self).surfaces@[j],
                forall|j: int|
                    0 <= j < i ==> self.surfaces@[j]@ == reload_step(
                        old(self).surfaces@[j]@,
                        lookup(old(cfg).ev(), old(self).surfaces@[j]@.name),
                        now,
                    ),
                forall|j: int|
                    0 <= j < i ==> rescheduled@[j] == reload_reschedules(
                        old(self).surfaces@[j]@,
                        old(cfg).ev(),
                    ),
            decreases n - i,
        {
            proof {
                assert(cfg.ev() =~= old(cfg).ev());
            }
            let entry = cfg.get_output_by_name(&self.surfaces[i].name);
            let mut flag = false;
            match entry {
                Some(new) => {
                    if self.surfaces[i].update_wallpaper_info(new) {
                        self.surfaces[i].set_next_duration(now);
                        flag = true;
                    }
                },
                None => {},
            }
            rescheduled.push(flag);
            i += 1;
        }
        cfg.reloaded = false;
        proof {
            assert(surface_views(self.surfaces@) =~= reload_pass(
                surface_views(old(self).surfaces@),
                old(cfg).reloaded,
                old(cfg).ev(),
                now,
            ));
        }
        rescheduled
    }

    /// The duration pass, step two of a steady-state iteration: every
    /// surface whose rotation interval has elapsed since its last draw is
    /// marked due and its timer re-armed. `rearmed[i]` tells the caller to
    /// replace surface `i`'s concrete wake-up timer.
    pub fn update_durations(&mut self, now: u64) -> (rearmed: Vec<bool>)
        requires
            old(self).wf(),
        ensures
            final(self).wf(),
            final(self).surfaces@.len() == old(self).surfaces@.len(),
            surface_views(final(self).surfaces@) == tick_pass(
                surface_views(old(self).surfaces@),
                now,
            ),
            rearmed@.len() == old(self).surfaces@.len(),
            forall|i: int|
                0 <= i < rearmed@.len() ==> rearmed@[i] == rotation_elapsed(
                    old(self).surfaces@[i]@,
                    now,
                ),
    {
        let n = self.surfaces.len();
        let mut rearmed: Vec<bool> = Vec::new();
        let mut i: usize = 0;
        while i < n
            invariant
                n == self.surfaces@.len(),
                n == old(self).surfaces@.len(),
                i <= n,
                rearmed@.len() == i,
                forall|j: int| i <= j < n ==> self.surfaces@[j] == old(self).surfaces@[j],
                forall|j: int|
                    0 <= j < i ==> self.surfaces@[j]@ == tick_step(old(self).surfaces@[j]@, now),
                forall|j: int|
                    0 <= j < i ==> rearmed@[j] == rotation_elapsed(old(self).surfaces@[j]@, now),
            decreases n - i,
        {
            let flag = self.surfaces[i].update_duration(now);
            rearmed.push(flag);
            i += 1;
        }
        proof {
            assert(surface_views(self.surfaces@) =~= tick_pass(
                surface_views(old(self).surfaces@),
                now,
            ));
            assert(final(self).wf());
        }
        rearmed
    }

    /// The decision half of a draw pass: for each surface, the settings to
    /// paint it with, or `None` where this draw is a no-op — the surface
    /// is still unconfigured, or nothing is due. The caller runs the
    /// external paint routine on each `Some` entry and reports the
    /// outcomes to [`Scheduler::record_draws`].
    pub fn paint_plan(&self) -> (plan: Vec<Option<WallpaperInfo>>)
        ensures
            plan@.len() == self.surfaces@.len(),
            forall|i: int|
                0 <= i < plan@.len() ==> (plan@[i] is Some) == needs_paint(self.surfaces@[i]@),
            forall|i: int|
                0 <= i < plan@.len() ==> ((#[trigger] plan@[i]) matches Some(w) ==> w@
                    == self.surfaces@[i]@.wallpaper_info),
    {
        let n = self.surfaces.len();
        let mut plan: Vec<Option<WallpaperInfo>> = Vec::new();
        let mut i: usize = 0;
        while i < n
            invariant
                n == self.surfaces@.len(),
                i <= n,
                plan@.len() == i,
                forall|j: int|
                    0 <= j < i ==> (plan@[j] is Some) == needs_paint(self.surfaces@[j]@),
                forall|j: int|
                    0 <= j < i ==> ((#[trigger] plan@[j]) matches Some(w) ==> w@
                        == self.surfaces@[j]@.wallpaper_info),
            decreases n - i,
        {
            match self.surfaces[i].draw_needed() {
                Some(info) => {
                    let snap = info.snapshot();
                    plan.push(Some(snap));
                },
                None => {
                    plan.push(None);
                },
            }
            i += 1;
        }
        plan
    }

    /// The bookkeeping half of a draw pass: records, surface by surface,
    /// the outcome of the paints the plan asked for. `ok[i]` is surface
    /// `i`'s own outcome and touches surface `i` alone: one output's
    /// failure is logged by the caller and never aborts the pass or
    /// reaches a sibling. An entry of `ok` is ignored where the plan asked
    /// for no paint.
    pub fn record_draws(&mut self, now: u64, ok: &Vec<bool>)
        requires
            old(self).wf(),
            ok@.len() == old(self).surfaces@.len(),
        ensures
            final(self).wf(),
            final(self).surfaces@.len() == old(self).surfaces@.len(),
            surface_views(final(self).surfaces@) == draw_pass(
                surface_views(old(self).surfaces@),
                now,
                ok@,
            ),
    {
        let n = self.surfaces.len();
        let mut i: usize = 0;
        while i < n
            invariant
                n == self.surfaces@.len(),
                n == old(self).surfaces@.len(),
                i <= n,
                ok@.len() == n,
                forall|j: int| i <= j < n ==> self.surfaces@[j] == old(self).surfaces@[j],
                forall|j: int|
                    0 <= j < i ==> self.surfaces@[j]@ == draw_step(
                        old(self).surfaces@[j]@,
                        now,
                        ok@[j],
                    ),
            decreases n - i,
        {
            let okv = ok[i];
            self.surfaces[i].record_draw(now, okv);
            i += 1;
        }
        proof {
            assert(surface_views(self.surfaces@) =~= draw_pass(
                surface_views(old(self).surfaces@),
                now,
                ok@,
            ));
            assert forall|j: int| 0 <= j < n implies self.surfaces@[j]@.name == old(
                self,
            ).surfaces@[j]@.name by {
                assert(self.surfaces@[j]@ == draw_step(old(self).surfaces@[j]@, now, ok@[j]));
            }
            assert(final(self).wf());
        }
    }
}

} // verus!
