//! Per-output wallpaper settings and their mathematical value.

use vstd::prelude::*;

verus! {

/// How an image is fitted to the dimensions of an output.
#[derive(Clone, Copy, PartialEq, Eq, Structural, Debug)]
pub enum ScalingMode {
    Fill,
    Fit,
    Center,
    Tile,
}

/// The settings of one output: image source, rotation interval, scaling.
#[derive(Debug)]
pub struct WallpaperInfo {
    /// Path of the image to show, or of a directory to rotate through.
    pub path: String,
    /// Seconds between two wallpaper rotations of this output.
    pub duration_secs: u64,
    /// How the image is fitted to the output.
    pub mode: ScalingMode,
}

/// The mathematical value of a `WallpaperInfo`.
#[verifier::ext_equal]
pub ghost struct WallpaperInfoV {
    pub path: Seq<char>,
    pub duration_secs: u64,
    pub mode: ScalingMode,
}

impl View for WallpaperInfo {
    type V = WallpaperInfoV;

    open spec fn view(&self) -> WallpaperInfoV {
        WallpaperInfoV {
            path: self.path@,
            duration_secs: self.duration_secs,
            mode: self.mode,
        }
    }
}

impl WallpaperInfo {
    /// Structural equality of two settings values.
    pub fn same_as(&self, other: &WallpaperInfo) -> (r: bool)
        ensures
            r == (self@ == other@),
    {
        let r = self.path == other.path && self.duration_secs == other.duration_secs
            && self.mode == other.mode;
        proof {
            if self@.path == other@.path && self@.duration_secs == other@.duration_secs
                && self@.mode == other@.mode {
                assert(self@ =~= other@);
            }
        }
        r
    }

    /// An owned copy with the same value, used to hand out snapshots.
    pub fn snapshot(&self) -> (r: WallpaperInfo)
        ensures
            r@ == self@,
    {
        WallpaperInfo {
            path: self.path.clone(),
            duration_secs: self.duration_secs,
            mode: self.mode,
        }
    }
}

} // verus!
