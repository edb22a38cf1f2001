//! Tests for the startup banners.

use voxterm::banner::BannerConfig;
use voxterm::banner::Theme;
use voxterm::banner::format_ascii_banner;
use voxterm::banner::format_minimal_banner;
use voxterm::banner::format_startup_banner;
use voxterm::banner::purple_gradient;
use voxterm::banner::rgb_fg;
use voxterm::version;

#[test]
fn version_defined() {
    assert!(!version().is_empty());
}

#[test]
fn format_startup_banner_contains_version() {
    let config = BannerConfig::default();
    let banner = format_startup_banner(&config, Theme::Coral);
    assert!(banner.contains(&version()));
    assert!(banner.contains("VoxTerm"));
}

#[test]
fn format_startup_banner_shows_config() {
    let config = BannerConfig {
        auto_voice: true,
        theme: "catppuccin".to_string(),
        pipeline: "Rust".to_string(),
        sensitivity_db: -40,
        backend: "gemini".to_string(),
    };
    let banner = format_startup_banner(&config, Theme::Coral);
    assert!(banner.contains("Rust"));
    assert!(banner.contains("-40dB"));
    assert!(banner.contains("on"));
    assert!(banner.contains("gemini"));
}

#[test]
fn format_minimal_banner_contains_shortcuts() {
    let banner = format_minimal_banner(Theme::Coral);
    assert!(banner.contains("Ctrl+R"));
    assert!(banner.contains("Ctrl+V"));
    assert!(banner.contains("Ctrl+Q"));
}

#[test]
fn banner_no_color() {
    let config = BannerConfig::default();
    let banner = format_startup_banner(&config, Theme::Plain);
    assert!(banner.contains("VoxTerm"));
    assert!(!banner.contains("\x1b[9"));
    assert!(!banner.contains("\x1b["));
}

#[test]
fn ascii_banner_contains_logo() {
    let banner = format_ascii_banner(false);
    assert!(banner.contains("██╗"));
    assert!(banner.contains("╚═╝"));
}

#[test]
fn ascii_banner_with_color_has_ansi_codes() {
    let banner = format_ascii_banner(true);
    assert!(banner.contains("\x1b[38;2;"));
    assert!(banner.contains("\x1b[0m"));
}

#[test]
fn ascii_banner_no_color_is_plain() {
    let banner = format_ascii_banner(false);
    assert!(!banner.contains("\x1b["));
}

#[test]
fn purple_gradient_has_six_colors() {
    assert_eq!(purple_gradient().len(), 6);
}

#[test]
fn rgb_fg_formats_truecolor_codes() {
    assert_eq!(rgb_fg(224, 176, 255), "\x1b[38;2;224;176;255m");
    assert_eq!(rgb_fg(0, 0, 0), "\x1b[38;2;0;0;0m");
}
