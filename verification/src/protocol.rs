//! Choosing the terminal graphics protocol: an explicit, recognised
//! user override wins; otherwise capability signals collected from the
//! environment decide, and under ambiguity (multiplexers, Ghostty)
//! Kitty is the safer default. When nothing fits, no protocol is
//! selected and the image is omitted.

use vstd::prelude::*;

use crate::shaping::{lower_of, lowercase};
use crate::text::{spec_contains_sub, str_contains};

verus! {

/// The graphics protocol the panel paints the cover image with.
#[derive(Clone, Copy, Debug, PartialEq, Eq, Structural)]
pub enum ProtocolChoice {
    Kitty,
    ITerm,
    Sixel,
    /// Character-cell approximation; never chosen here, kept for
    /// completeness of the protocol space.
    BlockFallback,
    /// No protocol: the image is omitted entirely.
    NoneSelected,
}

/// Capability signals probed from the environment once, outside this
/// core, so the decision itself is a pure function.
pub struct EnvSignals {
    /// A terminal-multiplexer session is active.
    pub in_tmux: bool,
    /// The terminal program's self-reported name.
    pub term_program: String,
    /// The terminal type identifier.
    pub term: String,
    /// A Ghostty-specific resource path is present.
    pub ghostty_resources: bool,
}

/// Terminals known to speak sixel, recognised by their identifiers.
pub open spec fn spec_sixel_capable(env: EnvSignals) -> bool {
    ||| spec_contains_sub(env.term@, "xterm"@)
    ||| spec_contains_sub(env.term@, "mlterm"@)
    ||| spec_contains_sub(env.term@, "foot"@)
    ||| spec_contains_sub(env.term@, "wezterm"@)
    ||| spec_contains_sub(env.term_program@, "wezterm"@)
    ||| spec_contains_sub(env.term@, "contour"@)
    ||| spec_contains_sub(env.term@, "mintty"@)
}

/// The terminal is a Ghostty variant.
pub open spec fn spec_is_ghostty(env: EnvSignals) -> bool {
    ||| env.term_program@ == "ghostty"@
    ||| spec_contains_sub(env.term@, "ghostty"@)
    ||| env.ghostty_resources
}

/// Auto-detection: sixel where supported and recognised, else Kitty
/// for Ghostty or inside a multiplexer, else no protocol.
pub open spec fn spec_auto_protocol(env: EnvSignals, sixel_supported: bool) -> ProtocolChoice {
    if sixel_supported && spec_sixel_capable(env) {
        ProtocolChoice::Sixel
    } else if spec_is_ghostty(env) || env.in_tmux {
        ProtocolChoice::Kitty
    } else {
        ProtocolChoice::NoneSelected
    }
}

/// Selection given the override already lowercased: a recognised name
/// is honored exactly, anything else falls through to auto-detection.
pub open spec fn spec_select_lowered(
    lowered: Seq<char>,
    env: EnvSignals,
    sixel_supported: bool,
) -> ProtocolChoice {
    if lowered == "kitty"@ {
        ProtocolChoice::Kitty
    } else if lowered == "iterm"@ {
        ProtocolChoice::ITerm
    } else if sixel_supported && lowered == "sixel"@ {
        ProtocolChoice::Sixel
    } else {
        spec_auto_protocol(env, sixel_supported)
    }
}

/// The whole selection: override (case-insensitively) first, else
/// auto-detection.
pub open spec fn spec_select(
    override_name: Option<String>,
    env: EnvSignals,
    sixel_supported: bool,
) -> ProtocolChoice {
    match override_name {
        Some(o) => spec_select_lowered(lower_of(o@), env, sixel_supported),
        None => spec_auto_protocol(env, sixel_supported),
    }
}

/// String equality against a literal.
fn str_eq_lit(a: &String, lit: &str) -> (r: bool)
    ensures
        r == (a@ == lit@),
{
    a.eq(&lit.to_owned())
}

/// Auto-detect a protocol from the capability signals.
fn auto_detect(env: &EnvSignals, sixel_supported: bool) -> (r: ProtocolChoice)
    ensures
        r == spec_auto_protocol(*env, sixel_supported),
{
    if sixel_supported && (str_contains(env.term.as_str(), "xterm") || str_contains(
        env.term.as_str(),
        "mlterm",
    ) || str_contains(env.term.as_str(), "foot") || str_contains(env.term.as_str(), "wezterm")
        || str_contains(env.term_program.as_str(), "wezterm") || str_contains(
        env.term.as_str(),
        "contour",
    ) || str_contains(env.term.as_str(), "mintty")) {
        ProtocolChoice::Sixel
    } else if str_eq_lit(&env.term_program, "ghostty") || str_contains(
        env.term.as_str(),
        "ghostty",
    ) || env.ghostty_resources || env.in_tmux {
        ProtocolChoice::Kitty
    } else {
        ProtocolChoice::NoneSelected
    }
}

/// Pick the protocol for this frame from the user override and the
/// environment signals.
pub fn select_protocol(
    override_name: &Option<String>,
    env: &EnvSignals,
    sixel_supported: bool,
) -> (r: ProtocolChoice)
    ensures
        r == spec_select(*override_name, *env, sixel_supported),
{
    match override_name {
        Some(o) => {
            let lowered = lowercase(o.as_str());
            if str_eq_lit(&lowered, "kitty") {
                ProtocolChoice::Kitty
            } else if str_eq_lit(&lowered, "iterm") {
                ProtocolChoice::ITerm
            } else if sixel_supported && str_eq_lit(&lowered, "sixel") {
                ProtocolChoice::Sixel
            } else {
                auto_detect(env, sixel_supported)
            }
        },
        None => auto_detect(env, sixel_supported),
    }
}

/// Whether the block-glyph fallback must be disabled: exactly when a
/// cell-embedded pixel protocol is actively used.
pub fn should_disable_block_fallback(choice: ProtocolChoice) -> (r: bool)
    ensures
        r == (choice == ProtocolChoice::Kitty || choice == ProtocolChoice::ITerm),
{
    match choice {
        ProtocolChoice::Kitty => true,
        ProtocolChoice::ITerm => true,
        _ => false,
    }
}

/// The selector is deterministic: two calls whose inputs carry the
/// same values (the same override text, the same signals) pick the
/// same protocol, whatever process or frame they run in.
pub proof fn lemma_selector_deterministic(
    o1: Option<String>,
    o2: Option<String>,
    e1: EnvSignals,
    e2: EnvSignals,
    sixel_supported: bool,
)
    requires
        match (o1, o2) {
            (Some(a), Some(b)) => a@ == b@,
            (None, None) => true,
            _ => false,
        },
        e1.in_tmux == e2.in_tmux,
        e1.term_program@ == e2.term_program@,
        e1.term@ == e2.term@,
        e1.ghostty_resources == e2.ghostty_resources,
    ensures
        spec_select(o1, e1, sixel_supported) == spec_select(o2, e2, sixel_supported),
{
}

/// An explicit, recognised override always wins: whatever the
/// environment signals say, the selection is the named protocol.
pub proof fn lemma_override_wins(
    lowered: Seq<char>,
    e1: EnvSignals,
    e2: EnvSignals,
    sixel_supported: bool,
)
    requires
        lowered == "kitty"@ || lowered == "iterm"@ || (sixel_supported && lowered == "sixel"@),
    ensures
        spec_select_lowered(lowered, e1, sixel_supported) == spec_select_lowered(
            lowered,
            e2,
            sixel_supported,
        ),
        lowered == "kitty"@ ==> spec_select_lowered(lowered, e1, sixel_supported)
            == ProtocolChoice::Kitty,
        lowered == "iterm"@ ==> spec_select_lowered(lowered, e1, sixel_supported)
            == ProtocolChoice::ITerm,
        (sixel_supported && lowered == "sixel"@) ==> spec_select_lowered(
            lowered,
            e1,
            sixel_supported,
        ) == ProtocolChoice::Sixel,
{
    reveal_strlit("kitty");
    reveal_strlit("iterm");
    reveal_strlit("sixel");
    assert("kitty"@[0] == 'k' && "iterm"@[0] == 'i' && "sixel"@[0] == 's');
    assert("iterm"@ != "kitty"@);
    assert("sixel"@ != "kitty"@ && "sixel"@ != "iterm"@);
}

} // verus!
