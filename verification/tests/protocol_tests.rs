use playback_panel::protocol::{select_protocol, should_disable_block_fallback, EnvSignals, ProtocolChoice};

fn env(tmux: bool, term_program: &str, term: &str, ghostty_res: bool) -> EnvSignals {
    EnvSignals {
        in_tmux: tmux,
        term_program: String::from(term_program),
        term: String::from(term),
        ghostty_resources: ghostty_res,
    }
}

#[test]
fn override_wins_case_insensitively_over_environment() {
    let sixel_env = env(true, "", "xterm-256color", false);
    let choice = select_protocol(&Some(String::from("KITTY")), &sixel_env, true);
    assert_eq!(choice, ProtocolChoice::Kitty);
    let choice = select_protocol(&Some(String::from("iTerm")), &sixel_env, true);
    assert_eq!(choice, ProtocolChoice::ITerm);
}

#[test]
fn sixel_override_honored_only_when_supported() {
    let plain = env(false, "", "dumb", false);
    let choice = select_protocol(&Some(String::from("sixel")), &plain, true);
    assert_eq!(choice, ProtocolChoice::Sixel);
    let choice = select_protocol(&Some(String::from("sixel")), &plain, false);
    assert_eq!(choice, ProtocolChoice::NoneSelected);
}

#[test]
fn unrecognised_override_falls_through_to_auto_detection() {
    let ghostty = env(false, "ghostty", "xterm-ghostty", false);
    let choice = select_protocol(&Some(String::from("fancy")), &ghostty, false);
    assert_eq!(choice, ProtocolChoice::Kitty);
}

#[test]
fn auto_detection_prefers_sixel_on_known_terminals() {
    let choice = select_protocol(&None, &env(false, "", "xterm-256color", false), true);
    assert_eq!(choice, ProtocolChoice::Sixel);
    let choice = select_protocol(&None, &env(false, "wezterm", "", false), true);
    assert_eq!(choice, ProtocolChoice::Sixel);
}

#[test]
fn auto_detection_uses_kitty_for_ghostty_and_multiplexers() {
    let choice = select_protocol(&None, &env(false, "ghostty", "", false), false);
    assert_eq!(choice, ProtocolChoice::Kitty);
    let choice = select_protocol(&None, &env(false, "", "", true), false);
    assert_eq!(choice, ProtocolChoice::Kitty);
    let choice = select_protocol(&None, &env(true, "", "dumb", false), false);
    assert_eq!(choice, ProtocolChoice::Kitty);
}

#[test]
fn auto_detection_selects_nothing_on_plain_terminals() {
    let choice = select_protocol(&None, &env(false, "", "dumb", false), false);
    assert_eq!(choice, ProtocolChoice::NoneSelected);
    let choice = select_protocol(&None, &env(false, "", "xterm-256color", false), false);
    assert_eq!(choice, ProtocolChoice::NoneSelected);
}

#[test]
fn selection_is_deterministic_across_identical_inputs() {
    let a = select_protocol(&Some(String::from("Sixel")), &env(true, "x", "foot", false), true);
    let b = select_protocol(&Some(String::from("Sixel")), &env(true, "x", "foot", false), true);
    assert_eq!(a, b);
    let c = select_protocol(&None, &env(false, "ghostty", "", false), false);
    let d = select_protocol(&None, &env(false, "ghostty", "", false), false);
    assert_eq!(c, d);
}

#[test]
fn block_fallback_disabled_exactly_for_cell_pixel_protocols() {
    assert!(should_disable_block_fallback(ProtocolChoice::Kitty));
    assert!(should_disable_block_fallback(ProtocolChoice::ITerm));
    assert!(!should_disable_block_fallback(ProtocolChoice::Sixel));
    assert!(!should_disable_block_fallback(ProtocolChoice::NoneSelected));
    assert!(!should_disable_block_fallback(ProtocolChoice::BlockFallback));
}
