//! Runtime configuration: frame-rate targets, feature toggles and
//! compatibility flags, together with the plain file image they are loaded
//! from and saved to. Reading and writing the configuration file itself is
//! the embedding program's business; this module defines the values and the
//! exact mapping between them and the file image.

use vstd::prelude::*;

verus! {

/// Frames per second of the host's fixed simulation rate.
pub const GAME_FPS: u32 = 25;

/// A frame-rate target as a rational number of frames per second.
#[derive(Clone, Copy, PartialEq, Eq, Structural, Debug)]
pub struct Ratio {
    pub num: u32,
    pub den: u32,
}

impl Ratio {
    /// The denominator is never zero.
    pub open spec fn wf(self) -> bool {
        self.den >= 1
    }

    /// Build a ratio from a numerator and a non-zero denominator.
    pub fn new(num: u32, den: u32) -> (r: Ratio)
        requires
            den >= 1,
        ensures
            r == (Ratio { num, den }),
    {
        Ratio { num, den }
    }
}

/// Which optional features are enabled.
#[derive(Clone, Copy, PartialEq, Eq, Structural, Debug)]
pub struct Features {
    pub menu_fps: bool,
    pub game_fps: bool,
    pub motion_smoothing: bool,
    pub weather_smoothing: bool,
    pub arcane_bg: bool,
    pub anim_rate: bool,
}

impl Features {
    /// Every feature enabled.
    pub fn all() -> (r: Features)
        ensures
            r == (Features {
                menu_fps: true,
                game_fps: true,
                motion_smoothing: true,
                weather_smoothing: true,
                arcane_bg: true,
                anim_rate: true,
            }),
    {
        Features {
            menu_fps: true,
            game_fps: true,
            motion_smoothing: true,
            weather_smoothing: true,
            arcane_bg: true,
            anim_rate: true,
        }
    }
}

/// Frame-rate section of the configuration file image.
#[derive(Clone, Copy, PartialEq, Eq, Structural, Debug)]
pub struct ConfigFramerate {
    pub foreground: u32,
    pub background: u32,
}

/// Feature section of the configuration file image.
#[derive(Clone, Copy, PartialEq, Eq, Structural, Debug)]
pub struct ConfigFeatures {
    pub menu_fps: bool,
    pub game_fps: bool,
    pub motion_smoothing: bool,
    pub weather_smoothing: bool,
    pub arcane_bg: bool,
    pub anim_rate: bool,
}

/// Compatibility section of the configuration file image.
#[derive(Clone, Copy, PartialEq, Eq, Structural, Debug)]
pub struct ConfigCompatibility {
    pub reapply_patches: bool,
    pub integrity_checks: bool,
}

/// The whole configuration file image, as plain values.
#[derive(Clone, Copy, PartialEq, Eq, Structural, Debug)]
pub struct ConfigFile {
    pub framerate: ConfigFramerate,
    pub features: ConfigFeatures,
    pub compatibility: ConfigCompatibility,
}

/// The live configuration.
#[derive(Clone, Copy, PartialEq, Eq, Structural, Debug)]
pub struct Config {
    pub fps: Ratio,
    pub bg_fps: Ratio,
    pub features: Features,
    pub reapply_patches: bool,
    pub integrity_checks: bool,
}

/// The configuration that results from applying a file image to `c`:
/// frame-rate targets become whole numbers of frames per second, and every
/// toggle is taken from the file.
pub open spec fn applied(c: Config, file: ConfigFile) -> Config {
    Config {
        fps: Ratio { num: file.framerate.foreground, den: 1 },
        bg_fps: Ratio { num: file.framerate.background, den: 1 },
        features: Features {
            menu_fps: file.features.menu_fps,
            game_fps: file.features.game_fps,
            motion_smoothing: file.features.motion_smoothing,
            weather_smoothing: file.features.weather_smoothing,
            arcane_bg: file.features.arcane_bg,
            anim_rate: file.features.anim_rate,
        },
        reapply_patches: file.compatibility.reapply_patches,
        integrity_checks: file.compatibility.integrity_checks,
    }
}

/// The file image that snapshots configuration `c`.
pub open spec fn snapshot_of(c: Config) -> ConfigFile {
    ConfigFile {
        framerate: ConfigFramerate { foreground: c.fps.num, background: c.bg_fps.num },
        features: ConfigFeatures {
            menu_fps: c.features.menu_fps,
            game_fps: c.features.game_fps,
            motion_smoothing: c.features.motion_smoothing,
            weather_smoothing: c.features.weather_smoothing,
            arcane_bg: c.features.arcane_bg,
            anim_rate: c.features.anim_rate,
        },
        compatibility: ConfigCompatibility {
            reapply_patches: c.reapply_patches,
            integrity_checks: c.integrity_checks,
        },
    }
}

impl Config {
    /// Both frame-rate targets are well formed.
    pub open spec fn wf(self) -> bool {
        self.fps.wf() && self.bg_fps.wf()
    }

    /// The default configuration: no foreground cap, background at the
    /// host's fixed rate, every feature on, both compatibility flags set.
    pub fn new() -> (r: Config)
        ensures
            r == (Config {
                fps: Ratio { num: 0, den: 1 },
                bg_fps: Ratio { num: GAME_FPS, den: 1 },
                features: Features {
                    menu_fps: true,
                    game_fps: true,
                    motion_smoothing: true,
                    weather_smoothing: true,
                    arcane_bg: true,
                    anim_rate: true,
                },
                reapply_patches: true,
                integrity_checks: true,
            }),
            r.wf(),
    {
        Config {
            fps: Ratio::new(0, 1),
            bg_fps: Ratio::new(GAME_FPS, 1),
            features: Features::all(),
            reapply_patches: true,
            integrity_checks: true,
        }
    }

    /// Apply a loaded file image to the live configuration.
    pub fn apply_file(&mut self, file: &ConfigFile)
        ensures
            *final(self) == applied(*old(self), *file),
            final(self).wf(),
    {
        self.fps = Ratio::new(file.framerate.foreground, 1);
        self.bg_fps = Ratio::new(file.framerate.background, 1);
        self.features = Features {
            menu_fps: file.features.menu_fps,
            game_fps: file.features.game_fps,
            motion_smoothing: file.features.motion_smoothing,
            weather_smoothing: file.features.weather_smoothing,
            arcane_bg: file.features.arcane_bg,
            anim_rate: file.features.anim_rate,
        };
        self.reapply_patches = file.compatibility.reapply_patches;
        self.integrity_checks = file.compatibility.integrity_checks;
    }

    /// Snapshot the live configuration as a file image, ready to be written
    /// out.
    pub fn to_file(&self) -> (r: ConfigFile)
        ensures
            r == snapshot_of(*self),
    {
        ConfigFile {
            framerate: ConfigFramerate {
                foreground: self.fps.num,
                background: self.bg_fps.num,
            },
            features: ConfigFeatures {
                menu_fps: self.features.menu_fps,
                game_fps: self.features.game_fps,
                motion_smoothing: self.features.motion_smoothing,
                weather_smoothing: self.features.weather_smoothing,
                arcane_bg: self.features.arcane_bg,
                anim_rate: self.features.anim_rate,
            },
            compatibility: ConfigCompatibility {
                reapply_patches: self.reapply_patches,
                integrity_checks: self.integrity_checks,
            },
        }
    }
}

/// Law: snapshotting right after applying a file image gives that file image
/// back — nothing in it is lost or rounded.
pub proof fn lemma_snapshot_restores_file(c: Config, file: ConfigFile)
    ensures
        snapshot_of(applied(c, file)) == file,
{
}

} // verus!
