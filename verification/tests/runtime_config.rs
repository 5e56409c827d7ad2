use d2interface::config::{
    Config, ConfigCompatibility, ConfigFeatures, ConfigFile, ConfigFramerate, Features, GAME_FPS,
    Ratio,
};
use d2interface::measure::Measure;

fn sample_file() -> ConfigFile {
    ConfigFile {
        framerate: ConfigFramerate { foreground: 144, background: 30 },
        features: ConfigFeatures {
            menu_fps: true,
            game_fps: false,
            motion_smoothing: true,
            weather_smoothing: false,
            arcane_bg: true,
            anim_rate: false,
        },
        compatibility: ConfigCompatibility { reapply_patches: false, integrity_checks: true },
    }
}

#[test]
fn defaults_enable_everything_and_cap_background_at_game_rate() {
    let c = Config::new();
    assert_eq!(c.fps, Ratio { num: 0, den: 1 });
    assert_eq!(c.bg_fps, Ratio { num: GAME_FPS, den: 1 });
    assert_eq!(GAME_FPS, 25);
    assert_eq!(
        c.features,
        Features {
            menu_fps: true,
            game_fps: true,
            motion_smoothing: true,
            weather_smoothing: true,
            arcane_bg: true,
            anim_rate: true,
        }
    );
    assert!(c.reapply_patches);
    assert!(c.integrity_checks);
}

#[test]
fn applying_a_file_takes_every_setting_from_it() {
    let mut c = Config::new();
    let file = sample_file();
    c.apply_file(&file);
    assert_eq!(c.fps, Ratio { num: 144, den: 1 });
    assert_eq!(c.bg_fps, Ratio { num: 30, den: 1 });
    assert!(c.features.menu_fps);
    assert!(!c.features.game_fps);
    assert!(c.features.motion_smoothing);
    assert!(!c.features.weather_smoothing);
    assert!(c.features.arcane_bg);
    assert!(!c.features.anim_rate);
    assert!(!c.reapply_patches);
    assert!(c.integrity_checks);
}

#[test]
fn snapshot_after_apply_restores_the_file() {
    let mut c = Config::new();
    let file = sample_file();
    c.apply_file(&file);
    assert_eq!(c.to_file(), file);
}

#[test]
fn snapshot_of_defaults() {
    let c = Config::new();
    let file = c.to_file();
    assert_eq!(file.framerate.foreground, 0);
    assert_eq!(file.framerate.background, GAME_FPS);
    assert!(file.features.menu_fps);
    assert!(file.compatibility.reapply_patches);
    assert!(file.compatibility.integrity_checks);
}

struct ScreenSpace;
struct WorldSpace;

#[test]
fn measure_wraps_and_maps_values() {
    let m: Measure<u32, ScreenSpace> = Measure::new(640);
    assert_eq!(m.0, 640);
    let doubled = m.map(|v| v * 2);
    assert_eq!(doubled.0, 1280);
}

#[test]
fn measure_with_sys_keeps_the_value() {
    let m: Measure<u32, ScreenSpace> = Measure::new(25);
    let w: Measure<u32, WorldSpace> = m.with_sys();
    assert_eq!(w.0, 25);
}

#[test]
fn ratio_new_keeps_numerator_and_denominator() {
    let r = Ratio::new(60, 1);
    assert_eq!(r.num, 60);
    assert_eq!(r.den, 1);
}
