use vmlaunch::config::{config_path, parse, serialize, WindowState, MAX_DIM, MIN_DIM};

#[test]
fn parses_a_well_formed_config() {
    let state = parse("width=1920\nheight=1080\nfullscreen=true\n");
    assert_eq!(state.width, 1920);
    assert_eq!(state.height, 1080);
    assert!(state.fullscreen);
}

#[test]
fn missing_keys_fall_back_to_defaults() {
    let defaults = WindowState::default();
    let state = parse("width=1600\n");
    assert_eq!(state.width, 1600);
    assert_eq!(state.height, defaults.height);
    assert!(!state.fullscreen);
}

#[test]
fn unparseable_numbers_fall_back_to_defaults() {
    let defaults = WindowState::default();
    let state = parse("width=abc\nheight=\nfullscreen=maybe\n");
    assert_eq!(state.width, defaults.width);
    assert_eq!(state.height, defaults.height);
    assert!(!state.fullscreen, "only the exact string \"true\" enables fullscreen");
}

/// A zero or negative dimension would be handed to GTK as a size request.
/// These must be rejected rather than restored.
#[test]
fn non_positive_dimensions_are_rejected() {
    let defaults = WindowState::default();
    for contents in ["width=0\nheight=0\n", "width=-1\nheight=-800\n"] {
        let state = parse(contents);
        assert_eq!(state.width, defaults.width, "{contents:?}");
        assert_eq!(state.height, defaults.height, "{contents:?}");
    }
}

/// A corrupt config must not resurrect a window larger than any display.
#[test]
fn absurd_dimensions_are_rejected() {
    let defaults = WindowState::default();
    let state = parse("width=99999\nheight=2147483647\n");
    assert_eq!(state.width, defaults.width);
    assert_eq!(state.height, defaults.height);
}

#[test]
fn accepts_dimensions_at_the_range_boundaries() {
    let state = parse(&format!("width={MIN_DIM}\nheight={MAX_DIM}\n"));
    assert_eq!(state.width, MIN_DIM);
    assert_eq!(state.height, MAX_DIM);
}

#[test]
fn ignores_unknown_keys_and_junk_lines() {
    let state = parse("garbage\n\n# comment\nmonitor=DP-1\nwidth=1400\n");
    assert_eq!(state.width, 1400);
}

/// Each line is trimmed before the key is split off, so padding on either
/// side of a `key=value` pair is harmless.
#[test]
fn tolerates_surrounding_whitespace() {
    let state = parse("  width=1400\n\theight=900\n  fullscreen=true  \n");
    assert_eq!(state.width, 1400);
    assert_eq!(state.height, 900);
    assert!(state.fullscreen);
}

/// A carriage return left at the end of a CRLF line is whitespace, so
/// `"true\r"` still reads as `"true"`.
#[test]
fn tolerates_crlf_line_endings() {
    let state = parse("width=1400\r\nheight=900\r\nfullscreen=true\r\n");
    assert_eq!(state.width, 1400);
    assert_eq!(state.height, 900);
    assert!(state.fullscreen);
}

#[test]
fn empty_input_yields_defaults() {
    let defaults = WindowState::default();
    let state = parse("");
    assert_eq!(state.width, defaults.width);
    assert_eq!(state.height, defaults.height);
    assert!(!state.fullscreen);
}

#[test]
fn serialize_emits_every_key() {
    let out = serialize(&WindowState { width: 1368, height: 806, fullscreen: false });
    assert_eq!(out, "width=1368\nheight=806\nfullscreen=false\n");
}

#[test]
fn parse_and_serialize_round_trip() {
    for saved in [
        WindowState { width: 1920, height: 1080, fullscreen: true },
        WindowState { width: 1368, height: 806, fullscreen: false },
        WindowState::default(),
    ] {
        let restored = parse(&serialize(&saved));
        assert_eq!(restored.width, saved.width);
        assert_eq!(restored.height, saved.height);
        assert_eq!(restored.fullscreen, saved.fullscreen);
    }
}

#[test]
fn defaults_are_1280_by_800_windowed() {
    let defaults = WindowState::default();
    assert_eq!(defaults.width, 1280);
    assert_eq!(defaults.height, 800);
    assert!(!defaults.fullscreen);
}

#[test]
fn round_trip_replaces_out_of_range_dimensions_with_defaults() {
    let restored = parse(&serialize(&WindowState { width: 100, height: 20000, fullscreen: true }));
    assert_eq!(restored.width, 1280);
    assert_eq!(restored.height, 800);
    assert!(restored.fullscreen);
}

#[test]
fn serialize_writes_negative_and_extreme_values() {
    let out = serialize(&WindowState { width: i32::MIN, height: -7, fullscreen: true });
    assert_eq!(out, "width=-2147483648\nheight=-7\nfullscreen=true\n");
    let out = serialize(&WindowState { width: i32::MAX, height: 0, fullscreen: false });
    assert_eq!(out, "width=2147483647\nheight=0\nfullscreen=false\n");
}

#[test]
fn later_lines_override_earlier_ones() {
    let state = parse("width=400\nwidth=500\nfullscreen=true\nfullscreen=no\n");
    assert_eq!(state.width, 500);
    assert!(!state.fullscreen);
}

#[test]
fn numbers_follow_integer_parsing_rules() {
    assert_eq!(parse("width=+640").width, 640);
    assert_eq!(parse("width=00640").width, 640);
    assert_eq!(parse("width=-").width, 1280);
    assert_eq!(parse("width=+").width, 1280);
    assert_eq!(parse("width= 640").width, 1280);
    assert_eq!(parse("width=6 40").width, 1280);
    assert_eq!(parse("width=640px").width, 1280);
    assert_eq!(parse("width=99999999999999999999").width, 1280);
    assert_eq!(parse("WIDTH=640").width, 1280);
}

#[test]
fn last_line_needs_no_newline_and_unicode_space_is_trimmed() {
    let state = parse("height=900\u{3000}\n\u{a0}width=700");
    assert_eq!(state.height, 900);
    assert_eq!(state.width, 700);
}

#[test]
fn fullscreen_value_must_be_exactly_true() {
    assert!(parse("fullscreen=true").fullscreen);
    assert!(!parse("fullscreen=True").fullscreen);
    assert!(!parse("fullscreen=truee").fullscreen);
    assert!(!parse("fullscreen = true").fullscreen);
}

#[test]
fn config_path_prefers_the_xdg_directory() {
    assert_eq!(config_path(Some("/x/cfg"), Some("/home/u")), "/x/cfg/vmlaunch/state.conf");
    assert_eq!(config_path(Some("/x/cfg/"), None), "/x/cfg/vmlaunch/state.conf");
}

#[test]
fn empty_or_relative_xdg_directory_is_ignored() {
    assert_eq!(config_path(Some(""), Some("/home/u")), "/home/u/.config/vmlaunch/state.conf");
    assert_eq!(config_path(Some("cfg"), Some("/home/u")), "/home/u/.config/vmlaunch/state.conf");
    assert_eq!(config_path(Some("./cfg"), None), "./.config/vmlaunch/state.conf");
}

#[test]
fn config_path_lands_under_the_xdg_directory() {
    for xdg in [None, Some(""), Some("rel/dir"), Some("/x/cfg"), Some("/")] {
        let path = config_path(xdg, Some("/home/u"));
        assert!(path.ends_with("vmlaunch/state.conf"), "unexpected path: {}", path);
        assert!(path.starts_with('/'), "unexpected path: {}", path);
    }
    assert!(config_path(None, None).ends_with("vmlaunch/state.conf"));
}

#[test]
fn config_path_falls_back_to_home_then_the_current_directory() {
    assert_eq!(config_path(None, Some("/home/u")), "/home/u/.config/vmlaunch/state.conf");
    assert_eq!(config_path(None, Some("/")), "/.config/vmlaunch/state.conf");
    assert_eq!(config_path(None, None), "./.config/vmlaunch/state.conf");
    assert!(config_path(None, Some("/home/u")).ends_with("vmlaunch/state.conf"));
}

#[test]
fn round_trip_config() {
    let state = parse("width=1920\nheight=1080\nfullscreen=true\n");
    assert_eq!(state.width, 1920);
    assert_eq!(state.height, 1080);
    assert!(state.fullscreen);
}

#[test]
fn handles_malformed_config() {
    let state = parse("garbage\nwidth=abc\nfullscreen=maybe\n");
    assert_eq!(state.width, 1280); // falls back to default
    assert!(!state.fullscreen); // "maybe" != "true"
}

#[test]
fn reloading_a_saved_load_changes_nothing() {
    for contents in ["width=99999\nfullscreen=true", "height=640\r\nwidth=-3", "", "junk"] {
        let loaded = parse(contents);
        let reloaded = parse(&serialize(&loaded));
        assert_eq!(reloaded.width, loaded.width, "{contents:?}");
        assert_eq!(reloaded.height, loaded.height, "{contents:?}");
        assert_eq!(reloaded.fullscreen, loaded.fullscreen, "{contents:?}");
    }
}
