//! Per-output surface state: the handshake state machine, the settings
//! snapshot, the rotation timer and the draw bookkeeping.
//!
//! Every observable transition of a surface is written down twice: as a
//! spec-level step function over [`SurfaceV`], and as an executable method
//! whose contract says that it performs exactly that step.

use vstd::prelude::*;

use crate::wallpaper_info::{WallpaperInfo, WallpaperInfoV};

verus! {

/// The one-shot rotation timer armed for a surface: when it was armed and
/// for how many seconds. At most one timer is pending per surface; arming
/// a new one replaces the old one.
#[derive(Clone, Copy, PartialEq, Eq, Structural, Debug)]
pub struct TimerEntry {
    /// The instant (seconds of monotonic process time) the timer was armed.
    pub armed_at: u64,
    /// The interval after which it fires.
    pub duration_secs: u64,
}

/// The instant a pending timer fires.
pub open spec fn deadline(t: TimerEntry) -> int {
    t.armed_at + t.duration_secs
}

/// The rendering and scheduling state of one output.
#[derive(Debug)]
pub struct Surface {
    /// The stable name of the output this surface belongs to.
    pub name: String,
    /// Whether the protocol handshake (size and scale negotiation) is done.
    /// Raised exactly once, by the configure acknowledgment; never reset.
    pub configured: bool,
    /// The settings this surface currently draws with.
    pub wallpaper_info: WallpaperInfo,
    /// The instant of the last successful paint, if any.
    pub last_draw: Option<u64>,
    /// The pending rotation timer, if any.
    pub timer: Option<TimerEntry>,
    /// Whether the next draw pass must actually repaint this surface.
    pub due: bool,
}

/// The mathematical value of a `Surface`.
#[verifier::ext_equal]
pub ghost struct SurfaceV {
    pub name: Seq<char>,
    pub configured: bool,
    pub wallpaper_info: WallpaperInfoV,
    pub last_draw: Option<u64>,
    pub timer: Option<TimerEntry>,
    pub due: bool,
}

impl View for Surface {
    type V = SurfaceV;

    open spec fn view(&self) -> SurfaceV {
        SurfaceV {
            name: self.name@,
            configured: self.configured,
            wallpaper_info: self.wallpaper_info@,
            last_draw: self.last_draw,
            timer: self.timer,
            due: self.due,
        }
    }
}

/// A freshly discovered output: unconfigured, never drawn, no timer, and
/// due for its first paint as soon as the handshake completes.
pub open spec fn fresh_surface(name: Seq<char>, info: WallpaperInfoV) -> SurfaceV {
    SurfaceV {
        name: name,
        configured: false,
        wallpaper_info: info,
        last_draw: None,
        timer: None,
        due: true,
    }
}

/// The configure acknowledgment: the only transition that touches
/// `configured`, and it only raises it.
pub open spec fn configure_step(s: SurfaceV) -> SurfaceV {
    SurfaceV { configured: true, ..s }
}

/// Arming the rotation timer at instant `now`: the previously pending
/// timer, if any, is replaced; nothing else changes.
pub open spec fn arm_step(s: SurfaceV, now: u64) -> SurfaceV {
    SurfaceV {
        timer: Some(TimerEntry { armed_at: now, duration_secs: s.wallpaper_info.duration_secs }),
        ..s
    }
}

/// Whether replacing the snapshot by `new` changes the effective rotation
/// duration, which is what obliges the caller to reschedule the timer.
pub open spec fn duration_changes(s: SurfaceV, new: WallpaperInfoV) -> bool {
    s.wallpaper_info.duration_secs != new.duration_secs
}

/// Replacing the settings snapshot. A genuinely different value marks the
/// surface due, so the next draw observes it; an identical value changes
/// nothing at all.
pub open spec fn update_info_step(s: SurfaceV, new: WallpaperInfoV) -> SurfaceV {
    SurfaceV {
        wallpaper_info: new,
        due: s.due || s.wallpaper_info != new,
        ..s
    }
}

/// Whether the configured rotation interval has elapsed since the last
/// successful draw. A surface that never drew is already due; an
/// unconfigured surface never rotates.
pub open spec fn rotation_elapsed(s: SurfaceV, now: u64) -> bool {
    &&& s.configured
    &&& match s.last_draw {
        Some(t) => now >= t + s.wallpaper_info.duration_secs,
        None => false,
    }
}

/// One duration check at instant `now`: if the interval has elapsed, the
/// surface becomes due and its one-shot timer is re-armed for the next
/// rotation; otherwise nothing changes.
pub open spec fn tick_step(s: SurfaceV, now: u64) -> SurfaceV {
    if rotation_elapsed(s, now) {
        arm_step(SurfaceV { due: true, ..s }, now)
    } else {
        s
    }
}

/// Whether a draw at this point performs actual paint work. Before the
/// handshake completes, and while nothing is due, a draw is a no-op.
pub open spec fn needs_paint(s: SurfaceV) -> bool {
    s.configured && s.due
}

/// The outcome of one draw: a successful paint records the timestamp and
/// clears the due mark; a failed paint — or a draw that needed no paint —
/// leaves the surface exactly as it was.
pub open spec fn draw_step(s: SurfaceV, now: u64, paint_ok: bool) -> SurfaceV {
    if needs_paint(s) && paint_ok {
        SurfaceV { last_draw: Some(now), due: false, ..s }
    } else {
        s
    }
}

/// One surface's share of a configuration reload: an entry found under its
/// name replaces the snapshot, and a changed duration supersedes the
/// pending timer; a surface absent from the new mapping keeps its previous
/// settings.
pub open spec fn reload_step(s: SurfaceV, entry: Option<WallpaperInfoV>, now: u64) -> SurfaceV {
    match entry {
        None => s,
        Some(new) => {
            if duration_changes(s, new) {
                arm_step(update_info_step(s, new), now)
            } else {
                update_info_step(s, new)
            }
        }
    }
}

impl Surface {
    /// A surface for a newly discovered output.
    pub fn new(name: String, info: WallpaperInfo) -> (s: Surface)
        ensures
            s@ == fresh_surface(name@, info@),
    {
        Surface {
            name,
            configured: false,
            wallpaper_info: info,
            last_draw: None,
            timer: None,
            due: true,
        }
    }

    /// Acknowledges the protocol's configure event for this surface.
    pub fn configure(&mut self)
        ensures
            final(self)@ == configure_step(old(self)@),
    {
        self.configured = true;
        proof {
            assert(final(self)@ =~= configure_step(old(self)@));
        }
    }

    /// Replaces the settings snapshot and reports whether the effective
    /// rotation duration changed — in which case the caller must
    /// reschedule the timer, since a shorter interval invalidates the one
    /// already in flight.
    pub fn update_wallpaper_info(&mut self, new: WallpaperInfo) -> (changed: bool)
        ensures
            changed == duration_changes(old(self)@, new@),
            final(self)@ == update_info_step(old(self)@, new@),
    {
        let changed = self.wallpaper_info.duration_secs != new.duration_secs;
        if !self.wallpaper_info.same_as(&new) {
            self.due = true;
        }
        self.wallpaper_info = new;
        proof {
            assert(final(self)@ =~= update_info_step(old(self)@, new@));
        }
        changed
    }

    /// Installs or replaces the one-shot rotation timer, to fire after
    /// this surface's configured interval. Returns that interval, so the
    /// caller can arm the concrete wake-up source of the dispatch loop.
    pub fn set_next_duration(&mut self, now: u64) -> (d: u64)
        ensures
            final(self)@ == arm_step(old(self)@, now),
            d == old(self)@.wallpaper_info.duration_secs,
    {
        let d = self.wallpaper_info.duration_secs;
        self.timer = Some(TimerEntry { armed_at: now, duration_secs: d });
        proof {
            assert(final(self)@ =~= arm_step(old(self)@, now));
        }
        d
    }

    /// Checks whether the rotation interval has elapsed since the last
    /// successful draw; if so, marks the surface due for a repaint in the
    /// current tick and re-arms its timer. Returns whether it did, so the
    /// caller can re-arm the concrete wake-up source as well.
    pub fn update_duration(&mut self, now: u64) -> (rearmed: bool)
        ensures
            rearmed == rotation_elapsed(old(self)@, now),
            final(self)@ == tick_step(old(self)@, now),
    {
        let elapsed = self.configured && match self.last_draw {
            Some(t) => now >= t && now - t >= self.wallpaper_info.duration_secs,
            None => false,
        };
        if elapsed {
            self.due = true;
            self.timer = Some(TimerEntry {
                armed_at: now,
                duration_secs: self.wallpaper_info.duration_secs,
            });
        }
        proof {
            assert(final(self)@ =~= tick_step(old(self)@, now));
        }
        elapsed
    }

    /// The decision half of a draw: the settings to paint with, if this
    /// draw must actually repaint. `None` means the draw is a no-op — the
    /// surface is not configured yet, or nothing is due. The external
    /// paint routine runs between this call and [`Surface::record_draw`].
    pub fn draw_needed(&self) -> (r: Option<&WallpaperInfo>)
        ensures
            r is Some == needs_paint(self@),
            r matches Some(info) ==> info@ == self@.wallpaper_info,
    {
        if self.configured && self.due {
            Some(&self.wallpaper_info)
        } else {
            None
        }
    }

    /// The bookkeeping half of a draw: records the outcome of the paint
    /// the decision half asked for. A failure leaves every field as it
    /// was — the error is the caller's to log, never this surface's
    /// siblings' to suffer.
    pub fn record_draw(&mut self, now: u64, paint_ok: bool)
        ensures
            final(self)@ == draw_step(old(self)@, now, paint_ok),
    {
        if self.configured && self.due && paint_ok {
            self.last_draw = Some(now);
            self.due = false;
        }
        proof {
            assert(final(self)@ =~= draw_step(old(self)@, now, paint_ok));
        }
    }
}

} // verus!
