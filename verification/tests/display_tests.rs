use viewarr::colormap::Colormap;
use viewarr::stretch::{DisplaySettings, LimitsReset, StretchMode, StretchType};

#[test]
fn stretch_mode_names_parse_exactly() {
    assert_eq!(StretchMode::from_name("linear"), Some(StretchMode::Linear));
    assert_eq!(StretchMode::from_name("log"), Some(StretchMode::Log));
    assert_eq!(StretchMode::from_name("symmetric"), Some(StretchMode::Symmetric));
    assert_eq!(StretchMode::from_name("Linear"), None);
    assert_eq!(StretchMode::from_name(" log"), None);
    assert_eq!(StretchMode::from_name("diverging"), None);
    assert_eq!(StretchMode::Linear.name(), "linear");
    assert_eq!(StretchMode::Log.name(), "log");
    assert_eq!(StretchMode::Symmetric.name(), "symmetric");
}

#[test]
fn default_settings() {
    let s = DisplaySettings::new();
    assert_eq!(s.stretch_type(), StretchType::Linear);
    assert_eq!(StretchType::default(), StretchType::Linear);
    assert_eq!(s.stretch_mode(), StretchMode::Linear);
    assert_eq!(s.colormap(), Colormap::Grayscale);
    assert!(!s.is_symmetric());
    assert!(!s.is_reversed());
    assert!(!s.is_colorbar_locked());
    assert!(!s.is_adjusting_stretch());
}

#[test]
fn set_stretch_mode_reads_back() {
    let mut s = DisplaySettings::new();
    for m in [
        StretchMode::Symmetric,
        StretchMode::Log,
        StretchMode::Linear,
        StretchMode::Symmetric,
        StretchMode::Linear,
        StretchMode::Log,
        StretchMode::Symmetric,
    ] {
        s.set_stretch_mode(m);
        assert_eq!(s.stretch_mode(), m);
    }
}

#[test]
fn symmetric_mode_uses_a_linear_stretch() {
    let mut s = DisplaySettings::new();
    s.set_stretch_mode(StretchMode::Log);
    s.set_stretch_mode(StretchMode::Symmetric);
    assert_eq!(s.stretch_type(), StretchType::Linear);
    assert!(s.is_symmetric());
}

#[test]
fn switching_to_log_leaves_symmetric_mode() {
    let mut s = DisplaySettings::new();
    s.set_symmetric(true);
    s.set_stretch_type(StretchType::Log);
    assert!(!s.is_symmetric());
    assert_eq!(s.stretch_mode(), StretchMode::Log);
}

#[test]
fn toggle_symmetric_keeps_a_log_stretch() {
    let mut s = DisplaySettings::new();
    s.set_stretch_type(StretchType::Log);
    s.toggle_symmetric();
    assert!(s.is_symmetric());
    assert_eq!(s.stretch_type(), StretchType::Log);
    assert_eq!(s.stretch_mode(), StretchMode::Symmetric);
}

#[test]
fn colormap_follows_the_mode() {
    let mut s = DisplaySettings::new();
    s.set_colormap(Colormap::Magma);
    assert_eq!(s.colormap(), Colormap::Magma);
    s.set_colormap(Colormap::RdYlBu);
    // Diverging choice is stored but not shown outside symmetric mode.
    assert_eq!(s.colormap(), Colormap::Magma);
    s.set_symmetric(true);
    assert_eq!(s.colormap(), Colormap::RdYlBu);
    s.set_colormap(Colormap::Inferno);
    assert_eq!(s.colormap(), Colormap::RdYlBu);
    s.set_symmetric(false);
    assert_eq!(s.colormap(), Colormap::Inferno);
}

#[test]
fn symmetric_mode_defaults_to_rdbu() {
    let mut s = DisplaySettings::new();
    s.set_stretch_mode(StretchMode::Symmetric);
    assert_eq!(s.colormap(), Colormap::RdBu);
}

#[test]
fn toggles_are_involutions() {
    let mut s = DisplaySettings::new();
    s.toggle_reverse();
    assert!(s.is_reversed());
    s.toggle_reverse();
    assert!(!s.is_reversed());
    s.toggle_stretch_type();
    assert_eq!(s.stretch_type(), StretchType::Log);
    s.toggle_stretch_type();
    assert_eq!(s.stretch_type(), StretchType::Linear);
    s.toggle_colorbar_lock();
    assert!(s.is_colorbar_locked());
    s.toggle_colorbar_lock();
    assert!(!s.is_colorbar_locked());
}

#[test]
fn texture_goes_stale_only_on_render_changes() {
    let mut s = DisplaySettings::new();
    assert!(!s.take_texture_dirty());
    s.set_reversed(false);
    assert!(!s.take_texture_dirty());
    s.set_reversed(true);
    assert!(s.is_reversed());
    assert!(s.take_texture_dirty());
    assert!(!s.take_texture_dirty());
    s.set_stretch_type(StretchType::Linear);
    assert!(!s.take_texture_dirty());
    s.set_stretch_type(StretchType::Log);
    assert!(s.take_texture_dirty());
    s.set_symmetric(false);
    assert!(!s.take_texture_dirty());
    s.set_colormap(Colormap::Grayscale);
    assert!(s.take_texture_dirty());
    s.toggle_colorbar_lock();
    assert!(!s.take_texture_dirty());
    s.mark_texture_dirty();
    assert!(s.take_texture_dirty());
}

#[test]
fn reset_all_stretch_returns_to_linear() {
    let mut s = DisplaySettings::new();
    s.set_stretch_type(StretchType::Log);
    s.take_texture_dirty();
    s.reset_all_stretch();
    assert_eq!(s.stretch_type(), StretchType::Linear);
    assert!(s.take_texture_dirty());
}

#[test]
fn adjusting_flag_is_recorded() {
    let mut s = DisplaySettings::new();
    s.set_adjusting_stretch(true);
    assert!(s.is_adjusting_stretch());
    s.set_adjusting_stretch(false);
    assert!(!s.is_adjusting_stretch());
}

#[test]
fn reset_display_unlocks_the_colorbar() {
    let mut s = DisplaySettings::new();
    assert_eq!(s.reset_display(true), LimitsReset::Restore);
    assert!(s.take_texture_dirty());
    s.toggle_colorbar_lock();
    assert_eq!(s.reset_display(false), LimitsReset::Restore);
    assert!(!s.is_colorbar_locked());
    s.toggle_colorbar_lock();
    assert_eq!(s.reset_display(true), LimitsReset::Recompute);
    assert!(!s.is_colorbar_locked());
    assert!(s.take_texture_dirty());
}
