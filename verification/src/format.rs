//! The format compiler: scans the user's format string into literal,
//! placeholder and line-break tokens, then resolves each placeholder
//! against the current playback into styled spans grouped into lines.
//!
//! The scanner recognises, leftmost first, either a literal newline or
//! a brace pair `{...}` whose closing brace comes before any newline;
//! everything between matches is literal text, flushed as one span per
//! gap.

use vstd::prelude::*;

use crate::config::PanelConfig;
use crate::shaping::{bidi_of, to_bidi_string};
use crate::snapshot::{repeat_text, PlayableItem, PlaybackMetadata};
use crate::style::SpanStyle;
use crate::text::{bool_text, dec_digits, u64_to_string};

verus! {

/// One token of the format string.
pub enum FormatToken {
    /// A run of literal text between matches.
    Literal(String),
    /// The content between a brace pair, braces not included.
    Placeholder(String),
    /// A literal newline.
    LineBreak,
}

/// The mathematical shape of a token.
pub enum TokenV {
    Literal(Seq<char>),
    Placeholder(Seq<char>),
    LineBreak,
}

impl View for FormatToken {
    type V = TokenV;

    open spec fn view(&self) -> TokenV {
        match self {
            FormatToken::Literal(s) => TokenV::Literal(s@),
            FormatToken::Placeholder(s) => TokenV::Placeholder(s@),
            FormatToken::LineBreak => TokenV::LineBreak,
        }
    }
}

/// The views of a token sequence.
pub open spec fn views_of_tokens(ts: Seq<FormatToken>) -> Seq<TokenV> {
    ts.map_values(|t: FormatToken| t@)
}

/// The position of the closing brace for a placeholder opened before
/// `j`: the first `}` at or after `j`, unless a newline or the end of
/// the string comes first.
pub open spec fn find_close(s: Seq<char>, j: nat) -> Option<nat>
    decreases s.len() - j,
{
    if j >= s.len() {
        None
    } else if s[j as int] == '}' {
        Some(j)
    } else if s[j as int] == '\n' {
        None
    } else {
        find_close(s, (j + 1) as nat)
    }
}

proof fn lemma_find_close_bounds(s: Seq<char>, j: nat)
    ensures
        match find_close(s, j) {
            Some(k) => j <= k < s.len() && s[k as int] == '}',
            None => true,
        },
    decreases s.len() - j,
{
    if j < s.len() && s[j as int] != '}' && s[j as int] != '\n' {
        lemma_find_close_bounds(s, (j + 1) as nat);
    }
}

/// The end (exclusive) of the match starting exactly at `i`, if any:
/// a newline is a one-character match, and an opening brace matches up
/// to its closing brace.
pub open spec fn match_at(s: Seq<char>, i: nat) -> Option<nat>
    recommends
        i < s.len(),
{
    if s[i as int] == '\n' {
        Some((i + 1) as nat)
    } else if s[i as int] == '{' {
        match find_close(s, (i + 1) as nat) {
            Some(j) => Some((j + 1) as nat),
            None => None,
        }
    } else {
        None
    }
}

/// The token a match denotes.
pub open spec fn token_of(s: Seq<char>, i: nat, end: nat) -> TokenV {
    if s[i as int] == '\n' {
        TokenV::LineBreak
    } else {
        TokenV::Placeholder(s.subrange(i + 1 as int, end - 1 as int))
    }
}

/// The tokens of `s` from position `i` on, with the current literal
/// run having started at `lit_start`.
pub open spec fn spec_scan(s: Seq<char>, i: nat, lit_start: nat) -> Seq<TokenV>
    recommends
        lit_start <= i <= s.len(),
    decreases s.len() - i,
    when lit_start <= i <= s.len()
    via spec_scan_decreases
{
    if i >= s.len() {
        if lit_start < s.len() {
            seq![TokenV::Literal(s.subrange(lit_start as int, s.len() as int))]
        } else {
            Seq::empty()
        }
    } else {
        match match_at(s, i) {
            Some(end) => {
                let pre: Seq<TokenV> = if lit_start < i {
                    seq![TokenV::Literal(s.subrange(lit_start as int, i as int))]
                } else {
                    Seq::empty()
                };
                pre + seq![token_of(s, i, end)] + spec_scan(s, end, end)
            },
            None => spec_scan(s, (i + 1) as nat, lit_start),
        }
    }
}

#[via_fn]
proof fn spec_scan_decreases(s: Seq<char>, i: nat, lit_start: nat) {
    if i < s.len() {
        lemma_find_close_bounds(s, (i + 1) as nat);
    }
}

/// The tokenisation of the whole format string.
pub open spec fn spec_tokens(s: Seq<char>) -> Seq<TokenV> {
    spec_scan(s, 0, 0)
}

/// Find the closing brace for a placeholder whose `{` stands just
/// before `start`.
fn find_close_exec(s: &str, start: usize, n: usize) -> (r: Option<usize>)
    requires
        n == s@.len(),
        start <= n,
    ensures
        match r {
            Some(k) => find_close(s@, start as nat) == Some(k as nat) && start <= k < n,
            None => find_close(s@, start as nat) is None,
        },
{
    let mut j = start;
    while j < n
        invariant
            start <= j <= n,
            n == s@.len(),
            find_close(s@, start as nat) == find_close(s@, j as nat),
        decreases n - j,
    {
        let c = s.get_char(j);
        if c == '}' {
            return Some(j);
        }
        if c == '\n' {
            return None;
        }
        j = j + 1;
    }
    None
}

/// Scan the format string into its tokens.
pub fn scan_format(s: &str) -> (r: Vec<FormatToken>)
    ensures
        views_of_tokens(r@) == spec_tokens(s@),
{
    let n = s.unicode_len();
    let mut tokens: Vec<FormatToken> = Vec::new();
    let mut i: usize = 0;
    let mut lit_start: usize = 0;
    while i < n
        invariant
            lit_start <= i <= n,
            n == s@.len(),
            views_of_tokens(tokens@) + spec_scan(s@, i as nat, lit_start as nat) == spec_tokens(
                s@,
            ),
        decreases n - i,
    {
        let ghost prev_tokens = tokens@;
        let ghost i0 = i as nat;
        let ghost l0 = lit_start as nat;
        let c = s.get_char(i);
        if c == '\n' {
            if lit_start < i {
                let lit = s.substring_char(lit_start, i).to_owned();
                tokens.push(FormatToken::Literal(lit));
            }
            tokens.push(FormatToken::LineBreak);
            i = i + 1;
            lit_start = i;
            proof {
                assert(match_at(s@, i0) == Some(i0 + 1));
                assert(token_of(s@, i0, i0 + 1) == TokenV::LineBreak);
                assert(views_of_tokens(tokens@) =~= views_of_tokens(prev_tokens) + (if l0 < i0 {
                    seq![TokenV::Literal(s@.subrange(l0 as int, i0 as int))]
                } else {
                    Seq::<TokenV>::empty()
                }) + seq![TokenV::LineBreak]);
                assert(views_of_tokens(tokens@) + spec_scan(s@, i as nat, lit_start as nat)
                    =~= views_of_tokens(prev_tokens) + spec_scan(s@, i0, l0));
            }
        } else if c == '{' {
            let close = find_close_exec(s, i + 1, n);
            match close {
                Some(j) => {
                    proof {
                        lemma_find_close_bounds(s@, (i + 1) as nat);
                    }
                    if lit_start < i {
                        let lit = s.substring_char(lit_start, i).to_owned();
                        tokens.push(FormatToken::Literal(lit));
                    }
                    let name = s.substring_char(i + 1, j).to_owned();
                    tokens.push(FormatToken::Placeholder(name));
                    i = j + 1;
                    lit_start = i;
                    proof {
                        assert(match_at(s@, i0) == Some(i as nat));
                        assert(token_of(s@, i0, i as nat) == TokenV::Placeholder(
                            s@.subrange(i0 + 1 as int, i - 1 as int),
                        ));
                        assert(views_of_tokens(tokens@) =~= views_of_tokens(prev_tokens) + (if l0
                            < i0 {
                            seq![TokenV::Literal(s@.subrange(l0 as int, i0 as int))]
                        } else {
                            Seq::<TokenV>::empty()
                        }) + seq![TokenV::Placeholder(s@.subrange(i0 + 1 as int, i - 1 as int))]);
                        assert(views_of_tokens(tokens@) + spec_scan(s@, i as nat, lit_start as nat)
                            =~= views_of_tokens(prev_tokens) + spec_scan(s@, i0, l0));
                    }
                },
                None => {
                    i = i + 1;
                    proof {
                        assert(match_at(s@, i0) is None);
                    }
                },
            }
        } else {
            i = i + 1;
            proof {
                assert(match_at(s@, i0) is None);
            }
        }
    }
    if lit_start < n {
        let lit = s.substring_char(lit_start, n).to_owned();
        tokens.push(FormatToken::Literal(lit));
    }
    proof {
        assert(views_of_tokens(tokens@) =~= spec_tokens(s@));
    }
    tokens
}

/// A styled piece of one line.
pub struct StyledSpan {
    pub text: String,
    pub style: SpanStyle,
}

/// The mathematical shape of a span.
pub struct SpanV {
    pub text: Seq<char>,
    pub style: SpanStyle,
}

impl View for StyledSpan {
    type V = SpanV;

    open spec fn view(&self) -> SpanV {
        SpanV { text: self.text@, style: self.style }
    }
}

/// One line of styled spans; insertion order is rendering order.
pub struct StyledLine {
    pub spans: Vec<StyledSpan>,
}

impl View for StyledLine {
    type V = Seq<SpanV>;

    open spec fn view(&self) -> Seq<SpanV> {
        self.spans@.map_values(|sp: StyledSpan| sp@)
    }
}

/// The views of a line sequence.
pub open spec fn views_of_lines(ls: Seq<StyledLine>) -> Seq<Seq<SpanV>> {
    ls.map_values(|l: StyledLine| l@)
}

/// `parts` joined with `sep` between consecutive parts.
pub open spec fn join_with(parts: Seq<Seq<char>>, sep: Seq<char>) -> Seq<char>
    decreases parts.len(),
{
    if parts.len() == 0 {
        Seq::empty()
    } else if parts.len() == 1 {
        parts[0]
    } else {
        parts[0] + sep + join_with(parts.drop_first(), sep)
    }
}

proof fn lemma_join_push(parts: Seq<Seq<char>>, p: Seq<char>, sep: Seq<char>)
    ensures
        join_with(parts.push(p), sep) == if parts.len() == 0 {
            p
        } else {
            join_with(parts, sep) + sep + p
        },
    decreases parts.len(),
{
    if parts.len() == 0 {
        assert(parts.push(p)[0] == p);
        assert(join_with(parts.push(p), sep) == p);
    } else {
        lemma_join_push(parts.drop_first(), p, sep);
        assert(parts.push(p).drop_first() =~= parts.drop_first().push(p));
        if parts.len() == 1 {
            assert(join_with(parts.push(p), sep) == parts[0] + sep + join_with(
                parts.drop_first().push(p),
                sep,
            ));
        }
    }
}

/// Whether some string of `v` reads `k`.
pub open spec fn contains_str(v: Seq<String>, k: Seq<char>) -> bool {
    exists|idx: int| 0 <= idx < v.len() && v[idx]@ == k
}

/// The text the repeat field shows.
pub open spec fn repeat_value(meta: PlaybackMetadata) -> Seq<char> {
    if meta.fake_track_repeat_state {
        "track (fake)"@
    } else {
        repeat_text(meta.repeat_state)
    }
}

/// The text the volume field shows: the restore volume and a muted
/// marker while muted, else the current volume (0 when absent).
pub open spec fn volume_value(meta: PlaybackMetadata) -> Seq<char> {
    match meta.mute_state {
        Some(v) => dec_digits(v as nat) + "% (muted)"@,
        None => dec_digits(
            (match meta.volume {
                Some(v) => v,
                None => 0,
            }) as nat,
        ) + "%"@,
    }
}

/// The parts the first `upto` configured metadata fields contribute,
/// in configuration order; unknown field names contribute nothing.
pub open spec fn metadata_parts_upto(
    fields: Seq<String>,
    meta: PlaybackMetadata,
    upto: int,
) -> Seq<Seq<char>>
    decreases upto,
{
    if upto <= 0 {
        Seq::empty()
    } else {
        let init = metadata_parts_upto(fields, meta, upto - 1);
        let f = fields[upto - 1]@;
        if f == "repeat"@ {
            init.push("repeat: "@ + repeat_value(meta))
        } else if f == "shuffle"@ {
            init.push("shuffle: "@ + bool_text(meta.shuffle_state))
        } else if f == "volume"@ {
            init.push("volume: "@ + volume_value(meta))
        } else if f == "device"@ {
            init.push("device: "@ + meta.device_name@)
        } else {
            init
        }
    }
}

/// The whole `{metadata}` text.
pub open spec fn metadata_text(fields: Seq<String>, meta: PlaybackMetadata) -> Seq<char> {
    join_with(metadata_parts_upto(fields, meta, fields.len() as int), " | "@)
}

/// The suffix an explicit item's title carries.
pub open spec fn explicit_suffix(explicit: bool) -> Seq<char> {
    if explicit {
        " (E)"@
    } else {
        Seq::empty()
    }
}

/// The title text of the playing item: its name in display order,
/// with the explicit marker appended when set.
pub open spec fn title_text(item: PlayableItem) -> Seq<char> {
    match item {
        PlayableItem::Track(t) => bidi_of(t.name@) + explicit_suffix(t.explicit),
        PlayableItem::Episode(e) => bidi_of(e.name@) + explicit_suffix(e.explicit),
    }
}

/// The artists text: the track's artist names joined with a comma, in
/// display order, or the episode's publisher as it stands.
pub open spec fn artists_text(item: PlayableItem) -> Seq<char> {
    match item {
        PlayableItem::Track(t) => bidi_of(
            join_with(t.artists@.map_values(|a: String| a@), ", "@),
        ),
        PlayableItem::Episode(e) => e.publisher@,
    }
}

/// The album text: the track's album or the episode's show, in
/// display order.
pub open spec fn album_text(item: PlayableItem) -> Seq<char> {
    match item {
        PlayableItem::Track(t) => bidi_of(t.album@),
        PlayableItem::Episode(e) => bidi_of(e.show_name@),
    }
}

/// What a placeholder resolves to, if anything. An unrecognised name
/// resolves to nothing and is dropped; `liked` resolves to nothing
/// unless the playing item is a track whose key is in the liked set.
pub open spec fn spec_resolve(
    name: Seq<char>,
    item: PlayableItem,
    meta: PlaybackMetadata,
    cfg: PanelConfig,
    liked: Seq<String>,
) -> Option<SpanV> {
    if name == "status"@ {
        Some(
            SpanV {
                text: if meta.is_playing {
                    cfg.play_icon@
                } else {
                    cfg.pause_icon@
                },
                style: SpanStyle::PlaybackStatus,
            },
        )
    } else if name == "liked"@ {
        match item {
            PlayableItem::Track(t) => match t.liked_key {
                Some(k) => if contains_str(liked, k@) {
                    Some(SpanV { text: cfg.liked_icon@, style: SpanStyle::Like })
                } else {
                    None
                },
                None => None,
            },
            PlayableItem::Episode(_) => None,
        }
    } else if name == "track"@ {
        Some(SpanV { text: title_text(item), style: SpanStyle::Track })
    } else if name == "artists"@ {
        Some(SpanV { text: artists_text(item), style: SpanStyle::Artists })
    } else if name == "album"@ {
        Some(SpanV { text: album_text(item), style: SpanStyle::Album })
    } else if name == "metadata"@ {
        Some(
            SpanV {
                text: metadata_text(cfg.playback_metadata_fields@, meta),
                style: SpanStyle::Metadata,
            },
        )
    } else {
        None
    }
}

/// Folding the tokens into lines: literals become plain spans,
/// placeholders what they resolve to (or nothing), and each line break
/// finishes the current line, empty or not. A trailing non-empty span
/// list is flushed as a final line.
pub open spec fn build_lines(
    tokens: Seq<TokenV>,
    lines: Seq<Seq<SpanV>>,
    pending: Seq<SpanV>,
    item: PlayableItem,
    meta: PlaybackMetadata,
    cfg: PanelConfig,
    liked: Seq<String>,
) -> Seq<Seq<SpanV>>
    decreases tokens.len(),
{
    if tokens.len() == 0 {
        if pending.len() > 0 {
            lines.push(pending)
        } else {
            lines
        }
    } else {
        match tokens[0] {
            TokenV::Literal(t) => build_lines(
                tokens.drop_first(),
                lines,
                pending.push(SpanV { text: t, style: SpanStyle::Plain }),
                item,
                meta,
                cfg,
                liked,
            ),
            TokenV::LineBreak => build_lines(
                tokens.drop_first(),
                lines.push(pending),
                Seq::empty(),
                item,
                meta,
                cfg,
                liked,
            ),
            TokenV::Placeholder(name) => match spec_resolve(name, item, meta, cfg, liked) {
                Some(sp) => build_lines(
                    tokens.drop_first(),
                    lines,
                    pending.push(sp),
                    item,
                    meta,
                    cfg,
                    liked,
                ),
                None => build_lines(tokens.drop_first(), lines, pending, item, meta, cfg, liked),
            },
        }
    }
}

/// The styled text the whole format string compiles to.
pub open spec fn spec_playback_text(
    fmt: Seq<char>,
    item: PlayableItem,
    meta: PlaybackMetadata,
    cfg: PanelConfig,
    liked: Seq<String>,
) -> Seq<Seq<SpanV>> {
    build_lines(spec_tokens(fmt), Seq::empty(), Seq::empty(), item, meta, cfg, liked)
}

/// String equality against a literal.
fn str_eq_lit(a: &String, lit: &str) -> (r: bool)
    ensures
        r == (a@ == lit@),
{
    a.eq(&lit.to_owned())
}

/// Whether some string of `v` reads `k`.
fn contains_string(v: &Vec<String>, k: &String) -> (r: bool)
    ensures
        r == contains_str(v@, k@),
{
    let mut i: usize = 0;
    while i < v.len()
        invariant
            i <= v@.len(),
            forall|j: int| 0 <= j < i ==> (#[trigger] v@[j])@ != k@,
        decreases v@.len() - i,
    {
        if v[i].eq(k) {
            return true;
        }
        i = i + 1;
    }
    false
}

/// Join strings with a separator.
fn join_strings(parts: &Vec<String>, sep: &str) -> (r: String)
    ensures
        r@ == join_with(parts@.map_values(|p: String| p@), sep@),
{
    let ghost views = parts@.map_values(|p: String| p@);
    let mut acc = String::new();
    let mut i: usize = 0;
    while i < parts.len()
        invariant
            i <= parts@.len(),
            views == parts@.map_values(|p: String| p@),
            acc@ == join_with(views.take(i as int), sep@),
        decreases parts@.len() - i,
    {
        if i > 0 {
            acc.append(sep);
        }
        acc.append(parts[i].as_str());
        proof {
            lemma_join_push(views.take(i as int), views[i as int], sep@);
            assert(views.take(i + 1 as int) =~= views.take(i as int).push(views[i as int]));
        }
        i = i + 1;
    }
    proof {
        assert(views.take(parts@.len() as int) =~= views);
    }
    acc
}

/// Resolve one placeholder name against the playback.
fn resolve_placeholder(
    name: &String,
    item: &PlayableItem,
    meta: &PlaybackMetadata,
    cfg: &PanelConfig,
    liked: &Vec<String>,
) -> (r: Option<StyledSpan>)
    ensures
        match r {
            Some(sp) => spec_resolve(name@, *item, *meta, *cfg, liked@) == Some(sp@),
            None => spec_resolve(name@, *item, *meta, *cfg, liked@) is None,
        },
{
    if str_eq_lit(name, "status") {
        let text = if meta.is_playing {
            cfg.play_icon.clone()
        } else {
            cfg.pause_icon.clone()
        };
        Some(StyledSpan { text, style: SpanStyle::PlaybackStatus })
    } else if str_eq_lit(name, "liked") {
        match item {
            PlayableItem::Track(t) => match &t.liked_key {
                Some(k) => if contains_string(liked, k) {
                    Some(StyledSpan { text: cfg.liked_icon.clone(), style: SpanStyle::Like })
                } else {
                    None
                },
                None => None,
            },
            PlayableItem::Episode(_) => None,
        }
    } else if str_eq_lit(name, "track") {
        let mut text = match item {
            PlayableItem::Track(t) => to_bidi_string(t.name.as_str()),
            PlayableItem::Episode(e) => to_bidi_string(e.name.as_str()),
        };
        let explicit = match item {
            PlayableItem::Track(t) => t.explicit,
            PlayableItem::Episode(e) => e.explicit,
        };
        if explicit {
            text.append(" (E)");
        }
        Some(StyledSpan { text, style: SpanStyle::Track })
    } else if str_eq_lit(name, "artists") {
        match item {
            PlayableItem::Track(t) => {
                let joined = join_strings(&t.artists, ", ");
                Some(
                    StyledSpan {
                        text: to_bidi_string(joined.as_str()),
                        style: SpanStyle::Artists,
                    },
                )
            },
            PlayableItem::Episode(e) => Some(
                StyledSpan { text: e.publisher.clone(), style: SpanStyle::Artists },
            ),
        }
    } else if str_eq_lit(name, "album") {
        match item {
            PlayableItem::Track(t) => Some(
                StyledSpan { text: to_bidi_string(t.album.as_str()), style: SpanStyle::Album },
            ),
            PlayableItem::Episode(e) => Some(
                StyledSpan {
                    text: to_bidi_string(e.show_name.as_str()),
                    style: SpanStyle::Album,
                },
            ),
        }
    } else if str_eq_lit(name, "metadata") {
        let mut parts: Vec<String> = Vec::new();
        let fields = &cfg.playback_metadata_fields;
        let mut i: usize = 0;
        while i < fields.len()
            invariant
                i <= fields@.len(),
                parts@.map_values(|p: String| p@) == metadata_parts_upto(
                    fields@,
                    *meta,
                    i as int,
                ),
            decreases fields@.len() - i,
        {
            let ghost prev = parts@;
            let f = &fields[i];
            if str_eq_lit(f, "repeat") {
                let mut part = String::new();
                part.append("repeat: ");
                if meta.fake_track_repeat_state {
                    part.append("track (fake)");
                } else {
                    part.append(meta.repeat_state.name());
                }
                proof {
                    assert(part@ =~= "repeat: "@ + repeat_value(*meta));
                }
                parts.push(part);
            } else if str_eq_lit(f, "shuffle") {
                let mut part = String::new();
                part.append("shuffle: ");
                part.append(crate::text::bool_to_str(meta.shuffle_state));
                proof {
                    assert(part@ =~= "shuffle: "@ + bool_text(meta.shuffle_state));
                }
                parts.push(part);
            } else if str_eq_lit(f, "volume") {
                let mut part = String::new();
                part.append("volume: ");
                match meta.mute_state {
                    Some(v) => {
                        let num = u64_to_string(v as u64);
                        part.append(num.as_str());
                        part.append("% (muted)");
                    },
                    None => {
                        let vol: u32 = match meta.volume {
                            Some(v) => v,
                            None => 0,
                        };
                        let num = u64_to_string(vol as u64);
                        part.append(num.as_str());
                        part.append("%");
                    },
                }
                proof {
                    assert(part@ =~= "volume: "@ + volume_value(*meta));
                }
                parts.push(part);
            } else if str_eq_lit(f, "device") {
                let mut part = String::new();
                part.append("device: ");
                part.append(meta.device_name.as_str());
                proof {
                    assert(part@ =~= "device: "@ + meta.device_name@);
                }
                parts.push(part);
            }
            proof {
                assert(parts@.map_values(|p: String| p@) =~= metadata_parts_upto(
                    fields@,
                    *meta,
                    i + 1,
                ));
            }
            i = i + 1;
        }
        let joined = join_strings(&parts, " | ");
        proof {
            assert(joined@ == metadata_text(cfg.playback_metadata_fields@, *meta));
        }
        Some(StyledSpan { text: joined, style: SpanStyle::Metadata })
    } else {
        None
    }
}

/// Compile the configured format string against the current playback
/// into styled lines.
pub fn construct_playback_text(
    playable: &PlayableItem,
    playback: &PlaybackMetadata,
    cfg: &PanelConfig,
    liked_track_uris: &Vec<String>,
) -> (r: Vec<StyledLine>)
    ensures
        views_of_lines(r@) == spec_playback_text(
            cfg.playback_format@,
            *playable,
            *playback,
            *cfg,
            liked_track_uris@,
        ),
{
    let tokens = scan_format(cfg.playback_format.as_str());
    let ghost tvs = views_of_tokens(tokens@);
    let mut lines: Vec<StyledLine> = Vec::new();
    let mut spans: Vec<StyledSpan> = Vec::new();
    let mut i: usize = 0;
    proof {
        assert(tvs.skip(0) =~= tvs);
        assert(views_of_lines(lines@) =~= Seq::<Seq<SpanV>>::empty());
        assert(spans@.map_values(|sp: StyledSpan| sp@) =~= Seq::<SpanV>::empty());
    }
    while i < tokens.len()
        invariant
            i <= tokens@.len(),
            tvs == views_of_tokens(tokens@),
            build_lines(
                tvs.skip(i as int),
                views_of_lines(lines@),
                spans@.map_values(|sp: StyledSpan| sp@),
                *playable,
                *playback,
                *cfg,
                liked_track_uris@,
            ) == spec_playback_text(
                cfg.playback_format@,
                *playable,
                *playback,
                *cfg,
                liked_track_uris@,
            ),
        decreases tokens@.len() - i,
    {
        let ghost pre_lines = views_of_lines(lines@);
        let ghost pre_spans = spans@.map_values(|sp: StyledSpan| sp@);
        proof {
            assert(tvs.skip(i as int)[0] == tvs[i as int]);
            assert(tvs.skip(i as int).drop_first() =~= tvs.skip(i + 1));
        }
        match &tokens[i] {
            FormatToken::Literal(txt) => {
                spans.push(StyledSpan { text: txt.clone(), style: SpanStyle::Plain });
                proof {
                    assert(spans@.map_values(|sp: StyledSpan| sp@) =~= pre_spans.push(
                        SpanV { text: txt@, style: SpanStyle::Plain },
                    ));
                }
            },
            FormatToken::LineBreak => {
                let done = StyledLine { spans };
                lines.push(done);
                spans = Vec::new();
                proof {
                    assert(views_of_lines(lines@) =~= pre_lines.push(pre_spans));
                    assert(spans@.map_values(|sp: StyledSpan| sp@) =~= Seq::<SpanV>::empty());
                }
            },
            FormatToken::Placeholder(name) => {
                match resolve_placeholder(name, playable, playback, cfg, liked_track_uris) {
                    Some(sp) => {
                        let ghost spv = sp@;
                        spans.push(sp);
                        proof {
                            assert(spans@.map_values(|sp: StyledSpan| sp@) =~= pre_spans.push(
                                spv,
                            ));
                        }
                    },
                    None => {},
                }
            },
        }
        i = i + 1;
    }
    proof {
        assert(tvs.skip(i as int) =~= Seq::<TokenV>::empty());
    }
    if spans.len() > 0 {
        let done = StyledLine { spans };
        lines.push(done);
    }
    lines
}


/// An unrecognised placeholder contributes nothing: a name that is
/// none of the six known ones resolves to no span, so the token adds
/// neither a span nor any literal text to the line being built.
pub proof fn lemma_unknown_placeholder(
    name: Seq<char>,
    tokens: Seq<TokenV>,
    lines: Seq<Seq<SpanV>>,
    pending: Seq<SpanV>,
    item: PlayableItem,
    meta: PlaybackMetadata,
    cfg: PanelConfig,
    liked: Seq<String>,
)
    requires
        name != "status"@,
        name != "liked"@,
        name != "track"@,
        name != "artists"@,
        name != "album"@,
        name != "metadata"@,
    ensures
        spec_resolve(name, item, meta, cfg, liked) is None,
        build_lines(
            seq![TokenV::Placeholder(name)] + tokens,
            lines,
            pending,
            item,
            meta,
            cfg,
            liked,
        ) == build_lines(tokens, lines, pending, item, meta, cfg, liked),
{
    let full = seq![TokenV::Placeholder(name)] + tokens;
    assert(full[0] == TokenV::Placeholder(name));
    assert(full.drop_first() =~= tokens);
}


} // verus!
