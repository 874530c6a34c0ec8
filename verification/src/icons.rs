//! Terminal-icon fallback. Decorative emoji glyphs render double-width on
//! some SSH and legacy terminals; the icon mode decides whether labels keep
//! their leading emoji. `Auto` keeps emoji unless the locale is clearly not
//! UTF-8; absent locale information stays emoji.
//!
//! Reading the environment and the persisted settings is the caller's part:
//! these functions take the values that were read.

use vstd::prelude::*;
use crate::text::{
    ascii_lower_code, ascii_lowercase, lemma_ascii_lower_char, lemma_trim_idempotent,
    lemma_trim_lowercase, ascii_lower_contains, ascii_lower_eq, contains_ascii_lowercase, eq_ascii_lowercase, trim,
    trim_str,
};

verus! {

/// User-selectable icon rendering.
#[derive(Debug, Clone, Copy, PartialEq, Eq, Structural)]
pub enum IconMode {
    Auto,
    Emoji,
    Ascii,
}

impl Default for IconMode {
    fn default() -> (m: Self)
        ensures
            m == IconMode::Auto,
    {
        IconMode::Auto
    }
}

pub open spec fn auto_word() -> Seq<char> {
    seq!['a', 'u', 't', 'o']
}

pub open spec fn emoji_word() -> Seq<char> {
    seq!['e', 'm', 'o', 'j', 'i']
}

pub open spec fn ascii_word() -> Seq<char> {
    seq!['a', 's', 'c', 'i', 'i']
}

pub open spec fn text_word() -> Seq<char> {
    seq!['t', 'e', 'x', 't']
}

/// The mode a setting value names: trimmed, ASCII-lowercased, then one of
/// `auto`, `emoji`, `ascii` or `text`.
pub open spec fn spec_parse_icon_mode(value: Seq<char>) -> Option<IconMode> {
    let t = trim(value);
    if ascii_lower_eq(t, auto_word()) {
        Some(IconMode::Auto)
    } else if ascii_lower_eq(t, emoji_word()) {
        Some(IconMode::Emoji)
    } else if ascii_lower_eq(t, ascii_word()) || ascii_lower_eq(t, text_word()) {
        Some(IconMode::Ascii)
    } else {
        None
    }
}

impl IconMode {
    pub fn parse(value: &str) -> (m: Option<Self>)
        ensures
            m == spec_parse_icon_mode(value@),
    {
        let t = trim_str(value);
        let auto_w: [char; 4] = ['a', 'u', 't', 'o'];
        let emoji_w: [char; 5] = ['e', 'm', 'o', 'j', 'i'];
        let ascii_w: [char; 5] = ['a', 's', 'c', 'i', 'i'];
        let text_w: [char; 4] = ['t', 'e', 'x', 't'];
        assert(auto_w@ =~= auto_word());
        assert(emoji_w@ =~= emoji_word());
        assert(ascii_w@ =~= ascii_word());
        assert(text_w@ =~= text_word());
        if eq_ascii_lowercase(t, &auto_w) {
            Some(IconMode::Auto)
        } else if eq_ascii_lowercase(t, &emoji_w) {
            Some(IconMode::Emoji)
        } else if eq_ascii_lowercase(t, &ascii_w) || eq_ascii_lowercase(t, &text_w) {
            Some(IconMode::Ascii)
        } else {
            None
        }
    }
}

pub open spec fn parse_opt(value: Option<Seq<char>>) -> Option<IconMode> {
    match value {
        Some(v) => spec_parse_icon_mode(v),
        None => None,
    }
}

pub open spec fn opt_view(value: Option<&str>) -> Option<Seq<char>> {
    match value {
        Some(v) => Some(v@),
        None => None,
    }
}

/// The configured mode: a valid environment override wins, then a valid
/// persisted setting, else `Auto`.
pub open spec fn spec_configured_icon_mode(
    env_override: Option<Seq<char>>,
    setting: Option<Seq<char>>,
) -> IconMode {
    match parse_opt(env_override) {
        Some(m) => m,
        None => match parse_opt(setting) {
            Some(m) => m,
            None => IconMode::Auto,
        },
    }
}

/// The configured icon mode from the `CC_SWITCH_ICONS` value (if the
/// variable is set) and the persisted Settings value (if any).
pub fn configured_icon_mode(env_override: Option<&str>, setting: Option<&str>) -> (m: IconMode)
    ensures
        m == spec_configured_icon_mode(opt_view(env_override), opt_view(setting)),
{
    if let Some(v) = env_override {
        if let Some(mode) = IconMode::parse(v) {
            return mode;
        }
    }
    match setting {
        Some(v) => match IconMode::parse(v) {
            Some(mode) => mode,
            None => IconMode::default(),
        },
        None => IconMode::default(),
    }
}

/// Whether emoji glyphs are emitted: forced by `Emoji`/`Ascii`, and under
/// `Auto` decided by the locale.
pub open spec fn spec_use_emoji(mode: IconMode, locale_utf8: bool) -> bool {
    match mode {
        IconMode::Emoji => true,
        IconMode::Ascii => false,
        IconMode::Auto => locale_utf8,
    }
}

pub fn use_emoji(mode: IconMode, locale_utf8: bool) -> (b: bool)
    ensures
        b == spec_use_emoji(mode, locale_utf8),
{
    match mode {
        IconMode::Emoji => true,
        IconMode::Ascii => false,
        IconMode::Auto => locale_utf8,
    }
}

pub open spec fn utf_dash_8() -> Seq<char> {
    seq!['u', 't', 'f', '-', '8']
}

pub open spec fn utf8_word() -> Seq<char> {
    seq!['u', 't', 'f', '8']
}

/// A locale value advertises UTF-8 when, ASCII-lowercased, it contains
/// `utf-8` or `utf8`.
pub open spec fn advertises_utf8(value: Seq<char>) -> bool {
    ascii_lower_contains(value, utf_dash_8()) || ascii_lower_contains(value, utf8_word())
}

/// The first of `LC_ALL`, `LC_CTYPE`, `LANG` that is set and non-empty
/// decides; without one the locale counts as UTF-8.
pub open spec fn spec_locale_is_utf8(
    lc_all: Option<Seq<char>>,
    lc_ctype: Option<Seq<char>>,
    lang: Option<Seq<char>>,
) -> bool {
    if lc_all is Some && lc_all->0.len() > 0 {
        advertises_utf8(lc_all->0)
    } else if lc_ctype is Some && lc_ctype->0.len() > 0 {
        advertises_utf8(lc_ctype->0)
    } else if lang is Some && lang->0.len() > 0 {
        advertises_utf8(lang->0)
    } else {
        true
    }
}

fn value_advertises_utf8(value: &str) -> (b: bool)
    ensures
        b == advertises_utf8(value@),
{
    let dash: [char; 5] = ['u', 't', 'f', '-', '8'];
    let plain: [char; 4] = ['u', 't', 'f', '8'];
    assert(dash@ =~= utf_dash_8());
    assert(plain@ =~= utf8_word());
    contains_ascii_lowercase(value, &dash) || contains_ascii_lowercase(value, &plain)
}

/// Whether the locale (the values of `LC_ALL`, `LC_CTYPE` and `LANG`, each
/// `None` when unset or not Unicode) advertises UTF-8.
pub fn locale_is_utf8(lc_all: Option<&str>, lc_ctype: Option<&str>, lang: Option<&str>) -> (b:
    bool)
    ensures
        b == spec_locale_is_utf8(opt_view(lc_all), opt_view(lc_ctype), opt_view(lang)),
{
    if let Some(v) = lc_all {
        if v.unicode_len() > 0 {
            return value_advertises_utf8(v);
        }
    }
    if let Some(v) = lc_ctype {
        if v.unicode_len() > 0 {
            return value_advertises_utf8(v);
        }
    }
    if let Some(v) = lang {
        if v.unicode_len() > 0 {
            return value_advertises_utf8(v);
        }
    }
    true
}

/// The decorative emoji glyphs used as label icons: the pictograph planes,
/// the dingbats/symbols blocks and the variation selectors, but not CJK text.
pub open spec fn spec_is_emoji(c: char) -> bool {
    let u = c as u32;
    ||| 0x2600 <= u <= 0x27BF
    ||| 0x2B00 <= u <= 0x2BFF
    ||| 0xFE00 <= u <= 0xFE0F
    ||| 0x1F000 <= u <= 0x1FAFF
}

pub fn is_emoji(c: char) -> (b: bool)
    ensures
        b == spec_is_emoji(c),
{
    let u = c as u32;
    (0x2600 <= u && u <= 0x27BF) || (0x2B00 <= u && u <= 0x2BFF) || (0xFE00 <= u && u <= 0xFE0F)
        || (0x1F000 <= u && u <= 0x1FAFF)
}

/// The end (exclusive) of the run of emoji characters of `s` that starts
/// at `i`.
pub open spec fn emoji_run_end(s: Seq<char>, i: int) -> int
    decreases s.len() - i,
{
    if i < 0 || i >= s.len() {
        s.len() as int
    } else if spec_is_emoji(s[i]) {
        emoji_run_end(s, i + 1)
    } else {
        i
    }
}

pub proof fn lemma_emoji_run_end(s: Seq<char>, i: int)
    requires
        0 <= i <= s.len(),
    ensures
        i <= emoji_run_end(s, i) <= s.len(),
        forall|j: int| i <= j < emoji_run_end(s, i) ==> spec_is_emoji(#[trigger] s[j]),
        emoji_run_end(s, i) < s.len() ==> !spec_is_emoji(s[emoji_run_end(s, i)]),
    decreases s.len() - i,
{
    if i < s.len() && spec_is_emoji(s[i]) {
        lemma_emoji_run_end(s, i + 1);
    }
}

/// Where the label text starts after its leading emoji marker: past the run
/// of emoji characters at the start, and past one space right after it.
pub open spec fn marker_end(label: Seq<char>) -> int {
    let e = emoji_run_end(label, 0);
    if 0 < e < label.len() && label[e] == ' ' {
        e + 1
    } else {
        e
    }
}

/// A label without its leading emoji marker: the run of emoji characters
/// it starts with and one space right after that run are removed; a label
/// that does not start with an emoji is unchanged.
pub open spec fn spec_strip_leading_emoji(label: Seq<char>) -> Seq<char> {
    label.subrange(marker_end(label), label.len() as int)
}

/// Always removes a leading emoji and its trailing space.
pub fn strip_leading_emoji<'a>(label: &'a str) -> (r: &'a str)
    ensures
        r@ == spec_strip_leading_emoji(label@),
{
    let n = label.unicode_len();
    let mut k: usize = 0;
    while k < n && is_emoji(label.get_char(k))
        invariant
            n == label@.len(),
            k <= n,
            emoji_run_end(label@, 0) == emoji_run_end(label@, k as int),
        decreases n - k,
    {
        k = k + 1;
    }
    assert(emoji_run_end(label@, k as int) == k);
    if k > 0 && k < n && label.get_char(k) == ' ' {
        k = k + 1;
    }
    if k == 0 {
        assert(label@.subrange(0, n as int) =~= label@);
        return label;
    }
    label.substring_char(k, n)
}

/// Strips the leading emoji of a label when icons are disabled; with
/// `emoji` on, the label is returned as it is.
pub fn strip_icon<'a>(label: &'a str, emoji: bool) -> (r: &'a str)
    ensures
        r@ == (if emoji {
            label@
        } else {
            spec_strip_leading_emoji(label@)
        }),
{
    if emoji {
        return label;
    }
    strip_leading_emoji(label)
}

/// Parsing ignores surrounding whitespace and ASCII case: two values whose
/// trimmed forms agree after ASCII lower-casing name the same mode.
pub proof fn lemma_parse_ignores_case_and_padding(a: Seq<char>, b: Seq<char>)
    requires
        trim(a).len() == trim(b).len(),
        forall|i: int|
            0 <= i < trim(a).len() ==> ascii_lower_code(#[trigger] trim(a)[i]) == ascii_lower_code(
                trim(b)[i],
            ),
    ensures
        spec_parse_icon_mode(a) == spec_parse_icon_mode(b),
{
    let ta = trim(a);
    let tb = trim(b);
    assert forall|p: Seq<char>| ascii_lower_eq(ta, p) == ascii_lower_eq(tb, p) by {
        if ascii_lower_eq(ta, p) {
            assert forall|i: int| 0 <= i < tb.len() implies ascii_lower_code(#[trigger] tb[i])
                == p[i] as u32 by {
                assert(ascii_lower_code(ta[i]) == p[i] as u32);
            }
        }
        if ascii_lower_eq(tb, p) {
            assert forall|i: int| 0 <= i < ta.len() implies ascii_lower_code(#[trigger] ta[i])
                == p[i] as u32 by {
                assert(ascii_lower_code(tb[i]) == p[i] as u32);
            }
        }
    }
    assert(ascii_lower_eq(ta, auto_word()) == ascii_lower_eq(tb, auto_word()));
    assert(ascii_lower_eq(ta, emoji_word()) == ascii_lower_eq(tb, emoji_word()));
    assert(ascii_lower_eq(ta, ascii_word()) == ascii_lower_eq(tb, ascii_word()));
    assert(ascii_lower_eq(ta, text_word()) == ascii_lower_eq(tb, text_word()));
}

/// A value parses as its trimmed, ASCII-lowercased form does.
pub proof fn lemma_parse_lowercased(value: Seq<char>)
    ensures
        spec_parse_icon_mode(value) == spec_parse_icon_mode(ascii_lowercase(trim(value))),
{
    let t = trim(value);
    let l = ascii_lowercase(t);
    lemma_trim_lowercase(t);
    lemma_trim_idempotent(value);
    assert(trim(l) == l);
    assert forall|i: int| 0 <= i < t.len() implies ascii_lower_code(#[trigger] t[i])
        == ascii_lower_code(trim(l)[i]) by {
        lemma_ascii_lower_char(t[i]);
    }
    lemma_parse_ignores_case_and_padding(value, l);
}

/// A valid `CC_SWITCH_ICONS` value decides the mode whatever the persisted
/// setting says, and a forced mode ignores the locale.
pub proof fn lemma_override_wins(
    env_override: Seq<char>,
    setting: Option<Seq<char>>,
    locale_utf8: bool,
)
    requires
        spec_parse_icon_mode(env_override) is Some,
    ensures
        spec_configured_icon_mode(Some(env_override), setting) == spec_parse_icon_mode(
            env_override,
        )->0,
        spec_parse_icon_mode(env_override) == Some(IconMode::Emoji) ==> spec_use_emoji(
            spec_configured_icon_mode(Some(env_override), setting),
            locale_utf8,
        ),
        spec_parse_icon_mode(env_override) == Some(IconMode::Ascii) ==> !spec_use_emoji(
            spec_configured_icon_mode(Some(env_override), setting),
            locale_utf8,
        ),
{
}

/// `Auto` never flips the default blindly: without locale information emoji
/// stay on, and only a locale that does not advertise UTF-8 turns them off.
pub proof fn lemma_auto_without_locale_keeps_emoji(
    lc_all: Option<Seq<char>>,
    lc_ctype: Option<Seq<char>>,
    lang: Option<Seq<char>>,
)
    requires
        lc_all is None || lc_all->0.len() == 0,
        lc_ctype is None || lc_ctype->0.len() == 0,
        lang is None || lang->0.len() == 0,
    ensures
        spec_use_emoji(IconMode::Auto, spec_locale_is_utf8(lc_all, lc_ctype, lang)),
{
}

/// CJK ideographs, kana and Hangul are text, not emoji, so stripping never
/// removes them.
pub proof fn lemma_cjk_is_not_emoji(c: char)
    requires
        0x2E80 <= c as u32 <= 0xD7FF || 0xF900 <= c as u32 <= 0xFAFF || 0x20000 <= c as u32
            <= 0x3FFFF,
    ensures
        !spec_is_emoji(c),
        spec_strip_leading_emoji(seq![c]) == seq![c],
{
    assert(seq![c].subrange(0, 1) =~= seq![c]);
}

/// Stripping is safe on any label: one that does not start with an emoji
/// comes back unchanged, and what remains is a suffix of the label from
/// which only emoji characters and at most one space after them were cut.
pub proof fn lemma_strip_keeps_a_suffix(label: Seq<char>)
    ensures
        !(label.len() > 0 && spec_is_emoji(label[0])) ==> spec_strip_leading_emoji(label)
            == label,
        0 <= marker_end(label) <= label.len(),
        spec_strip_leading_emoji(label) == label.subrange(marker_end(label), label.len() as int),
        forall|j: int|
            0 <= j < marker_end(label) ==> spec_is_emoji(#[trigger] label[j]) || (label[j] == ' '
                && j == marker_end(label) - 1),
{
    lemma_emoji_run_end(label, 0);
    if !(label.len() > 0 && spec_is_emoji(label[0])) {
        assert(emoji_run_end(label, 0) == 0);
        if label.len() > 0 {
            assert(!spec_is_emoji(' '));
        }
        assert(label.subrange(0, label.len() as int) =~= label);
    }
}

/// A label made of an emoji marker, a space and text loses exactly the
/// marker and that space: `🛠️ MCP` gives `MCP`, and an emoji followed
/// directly by text keeps the whole text.
pub proof fn lemma_strip_marker(marker: Seq<char>, rest: Seq<char>)
    requires
        marker.len() > 0,
        forall|j: int| 0 <= j < marker.len() ==> spec_is_emoji(#[trigger] marker[j]),
    ensures
        spec_strip_leading_emoji(marker + seq![' '] + rest) == rest,
        rest.len() > 0 && !spec_is_emoji(rest[0]) && rest[0] != ' ' ==> spec_strip_leading_emoji(
            marker + rest,
        ) == rest,
{
    let a = marker + seq![' '] + rest;
    lemma_run_over_marker(marker, seq![' '] + rest, 0);
    assert(!spec_is_emoji(' '));
    assert(a =~= marker + (seq![' '] + rest));
    assert((seq![' '] + rest)[0] == ' ');
    assert(emoji_run_end(a, marker.len() as int) == marker.len());
    assert(a.subrange(marker.len() + 1 as int, a.len() as int) =~= rest);
    if rest.len() > 0 && !spec_is_emoji(rest[0]) && rest[0] != ' ' {
        let b = marker + rest;
        lemma_run_over_marker(marker, rest, 0);
        assert(emoji_run_end(b, marker.len() as int) == marker.len());
        assert(b.subrange(marker.len() as int, b.len() as int) =~= rest);
    }
}

proof fn lemma_run_over_marker(marker: Seq<char>, tail: Seq<char>, i: int)
    requires
        0 <= i <= marker.len(),
        forall|j: int| 0 <= j < marker.len() ==> spec_is_emoji(#[trigger] marker[j]),
    ensures
        emoji_run_end(marker + tail, i) == emoji_run_end(marker + tail, marker.len() as int),
    decreases marker.len() - i,
{
    if i < marker.len() {
        assert((marker + tail)[i] == marker[i]);
        lemma_run_over_marker(marker, tail, i + 1);
    }
}

} // verus!
