//! Theme settings: parsing of theme objects and selection of the current
//! theme.

use vstd::prelude::*;
use crate::json::{
    array_member, bool_member, matching_delimiter, matching_delimiter_at, member,
    lemma_delimiter_end_bounds, parse_quoted, spec_array_member, spec_bool_member, spec_member,
    spec_parse_quoted, spec_string_member, spec_top_level_objects, string_member,
    top_level_objects, JsonError, Member, MemberView,
};
use crate::keyed::{
    chars_eq, entries_map, keys_unique, lemma_entries_map_contains, lemma_entries_map_index,
    lemma_entries_map_push, lemma_entries_map_update, str_eq,
};
use crate::text::chars_of;
use vstd::string::StrSliceExecFns;

verus! {

broadcast use vstd::string::group_string_axioms;

/// RGBA color of a theme.
#[derive(Debug, Clone, Copy, PartialEq, Eq, Structural)]
pub struct Color {
    pub r: u8,
    pub g: u8,
    pub b: u8,
    pub a: u8,
}

impl Color {
    pub fn rgb(r: u8, g: u8, b: u8) -> (c: Self)
        ensures
            c == (Color { r, g, b, a: 255 }),
    {
        Color { r, g, b, a: 255 }
    }

    pub fn rgba(r: u8, g: u8, b: u8, a: u8) -> (c: Self)
        ensures
            c == (Color { r, g, b, a }),
    {
        Color { r, g, b, a }
    }
}

/// Requested light/dark appearance of the window.
#[derive(Debug, Clone, Copy, PartialEq, Eq, Structural)]
pub enum ElementTheme {
    Default,
    Light,
    Dark,
}

impl Default for ElementTheme {
    fn default() -> (r: Self)
        ensures
            r == ElementTheme::Default,
    {
        ElementTheme::Default
    }
}

/// Where a theme color comes from.
#[derive(Debug, Clone, Copy, PartialEq, Eq, Structural)]
pub enum ThemeColorType {
    Color,
    Accent,
    TerminalBackground,
}

/// A theme color together with its source kind.
#[derive(Debug, Clone, Copy, PartialEq, Eq)]
pub struct ThemeColor {
    color_type: ThemeColorType,
    color: Option<Color>,
}

pub struct ThemeColorView {
    pub color_type: ThemeColorType,
    pub color: Option<Color>,
}

impl View for ThemeColor {
    type V = ThemeColorView;

    closed spec fn view(&self) -> ThemeColorView {
        ThemeColorView { color_type: self.color_type, color: self.color }
    }
}

pub open spec fn opt_color_view(c: Option<ThemeColor>) -> Option<ThemeColorView> {
    match c {
        Some(t) => Some(t@),
        None => None,
    }
}

impl ThemeColor {
    pub fn color_type(&self) -> (r: ThemeColorType)
        ensures
            r == self@.color_type,
    {
        self.color_type
    }

    pub fn color(&self) -> (r: Option<Color>)
        ensures
            r == self@.color,
    {
        self.color
    }
}

/// Theme settings of the tab row.
#[derive(Debug, Clone, PartialEq, Eq)]
pub struct TabRowTheme {
    background: Option<ThemeColor>,
    unfocused_background: Option<ThemeColor>,
}

pub struct TabRowThemeView {
    pub background: Option<ThemeColorView>,
    pub unfocused_background: Option<ThemeColorView>,
}

impl View for TabRowTheme {
    type V = TabRowThemeView;

    closed spec fn view(&self) -> TabRowThemeView {
        TabRowThemeView {
            background: opt_color_view(self.background),
            unfocused_background: opt_color_view(self.unfocused_background),
        }
    }
}

impl TabRowTheme {
    pub fn background(&self) -> (r: Option<ThemeColor>)
        ensures
            opt_color_view(r) == self@.background,
    {
        self.background
    }

    pub fn unfocused_background(&self) -> (r: Option<ThemeColor>)
        ensures
            opt_color_view(r) == self@.unfocused_background,
    {
        self.unfocused_background
    }
}

impl Default for TabRowTheme {
    fn default() -> (r: Self)
        ensures
            r@ == (TabRowThemeView { background: None, unfocused_background: None }),
    {
        TabRowTheme { background: None, unfocused_background: None }
    }
}

/// Theme settings of the window surface.
#[derive(Debug, Clone, PartialEq, Eq)]
pub struct WindowTheme {
    requested_theme: ElementTheme,
    use_mica: bool,
}

pub struct WindowThemeView {
    pub requested_theme: ElementTheme,
    pub use_mica: bool,
}

impl View for WindowTheme {
    type V = WindowThemeView;

    closed spec fn view(&self) -> WindowThemeView {
        WindowThemeView { requested_theme: self.requested_theme, use_mica: self.use_mica }
    }
}

impl WindowTheme {
    pub fn requested_theme(&self) -> (r: ElementTheme)
        ensures
            r == self@.requested_theme,
    {
        self.requested_theme
    }

    pub fn use_mica(&self) -> (r: bool)
        ensures
            r == self@.use_mica,
    {
        self.use_mica
    }
}

impl Default for WindowTheme {
    fn default() -> (r: Self)
        ensures
            r@ == (WindowThemeView { requested_theme: ElementTheme::Default, use_mica: false }),
    {
        WindowTheme { requested_theme: ElementTheme::Default, use_mica: false }
    }
}

/// A named theme.
#[derive(Debug, PartialEq, Eq)]
pub struct Theme {
    name: String,
    tab_row: Option<TabRowTheme>,
    window: Option<WindowTheme>,
}

pub struct ThemeView {
    pub name: Seq<char>,
    pub tab_row: Option<TabRowThemeView>,
    pub window: Option<WindowThemeView>,
}

impl View for Theme {
    type V = ThemeView;

    closed spec fn view(&self) -> ThemeView {
        ThemeView {
            name: self.name@,
            tab_row: match self.tab_row {
                Some(t) => Some(t@),
                None => None,
            },
            window: match self.window {
                Some(w) => Some(w@),
                None => None,
            },
        }
    }
}

/// Failures while parsing theme settings.
#[derive(Debug, Clone, Copy, PartialEq, Eq, Structural)]
pub enum ThemeParseError {
    MissingName,
    InvalidString,
    InvalidObject,
    InvalidArray,
    InvalidBoolean,
    InvalidColor,
    InvalidElementTheme,
}

/// Warning produced while selecting the current theme.
#[derive(Debug, Clone, Copy, PartialEq, Eq, Structural)]
pub enum SettingsLoadWarning {
    UnknownTheme,
}

pub open spec fn spec_theme_error(e: JsonError) -> ThemeParseError {
    match e {
        JsonError::InvalidString => ThemeParseError::InvalidString,
        JsonError::InvalidBoolean => ThemeParseError::InvalidBoolean,
        JsonError::InvalidObject => ThemeParseError::InvalidObject,
        JsonError::InvalidArray => ThemeParseError::InvalidArray,
    }
}

fn theme_error(e: JsonError) -> (r: ThemeParseError)
    ensures
        r == spec_theme_error(e),
{
    match e {
        JsonError::InvalidString => ThemeParseError::InvalidString,
        JsonError::InvalidBoolean => ThemeParseError::InvalidBoolean,
        JsonError::InvalidObject => ThemeParseError::InvalidObject,
        JsonError::InvalidArray => ThemeParseError::InvalidArray,
    }
}

/// Value of a hexadecimal digit (`char::to_digit(16)`).
pub open spec fn hex_value(c: char) -> Option<u8> {
    if '0' <= c && c <= '9' {
        Some(((c as u32) - 48) as u8)
    } else if 'a' <= c && c <= 'f' {
        Some(((c as u32) - 87) as u8)
    } else if 'A' <= c && c <= 'F' {
        Some(((c as u32) - 55) as u8)
    } else {
        None
    }
}

pub(crate) fn hex_digit(c: char) -> (r: Option<u8>)
    ensures
        r == hex_value(c),
{
    let v = c as u32;
    if '0' <= c && c <= '9' {
        Some((v - 48) as u8)
    } else if 'a' <= c && c <= 'f' {
        Some((v - 87) as u8)
    } else if 'A' <= c && c <= 'F' {
        Some((v - 55) as u8)
    } else {
        None
    }
}

/// A byte written as two hexadecimal digits, high digit first; anything
/// else, a sign included, is no byte.
pub open spec fn spec_hex_byte(hi: char, lo: char) -> Option<u8> {
    match (hex_value(hi), hex_value(lo)) {
        (Some(h), Some(l)) => Some((h * 16 + l) as u8),
        _ => None,
    }
}

fn parse_hex_byte(hi: char, lo: char) -> (r: Result<u8, ThemeParseError>)
    ensures
        r == match spec_hex_byte(hi, lo) {
            Some(v) => Ok(v),
            None => Err(ThemeParseError::InvalidColor),
        },
{
    match (hex_digit(hi), hex_digit(lo)) {
        (Some(h), Some(l)) => Ok(h * 16 + l),
        _ => Err(ThemeParseError::InvalidColor),
    }
}

pub open spec fn all_ascii(s: Seq<char>) -> bool {
    forall|i: int| 0 <= i < s.len() ==> (#[trigger] s[i] as u32) < 0x80
}

/// `#RRGGBB` or `#RRGGBBAA`.
pub open spec fn spec_parse_hex_color(v: Seq<char>) -> Result<Color, ThemeParseError> {
    if v.len() == 0 || v[0] != '#' || !all_ascii(v.subrange(1, v.len() as int)) {
        Err(ThemeParseError::InvalidColor)
    } else if v.len() == 7 {
        match (spec_hex_byte(v[1], v[2]), spec_hex_byte(v[3], v[4]), spec_hex_byte(v[5], v[6])) {
            (Some(r), Some(g), Some(b)) => Ok(Color { r, g, b, a: 255 }),
            _ => Err(ThemeParseError::InvalidColor),
        }
    } else if v.len() == 9 {
        match (
            spec_hex_byte(v[1], v[2]),
            spec_hex_byte(v[3], v[4]),
            spec_hex_byte(v[5], v[6]),
            spec_hex_byte(v[7], v[8]),
        ) {
            (Some(r), Some(g), Some(b), Some(a)) => Ok(Color { r, g, b, a }),
            _ => Err(ThemeParseError::InvalidColor),
        }
    } else {
        Err(ThemeParseError::InvalidColor)
    }
}

fn parse_hex_color(v: &[char]) -> (r: Result<Color, ThemeParseError>)
    ensures
        r == spec_parse_hex_color(v@),
{
    let n = v.len();
    if n == 0 || v[0] != '#' {
        return Err(ThemeParseError::InvalidColor);
    }
    let mut i: usize = 1;
    while i < n
        invariant
            1 <= i <= n,
            n == v@.len(),
            forall|j: int| 1 <= j < i ==> (#[trigger] v@[j] as u32) < 0x80,
        decreases n - i,
    {
        if v[i] as u32 >= 0x80 {
            assert(v@.subrange(1, n as int)[i - 1] == v@[i as int]);
            return Err(ThemeParseError::InvalidColor);
        }
        i = i + 1;
    }
    assert(all_ascii(v@.subrange(1, n as int))) by {
        assert forall|j: int| 0 <= j < n - 1 implies (#[trigger] v@.subrange(1, n as int)[j] as u32)
            < 0x80 by {
            assert(v@.subrange(1, n as int)[j] == v@[j + 1]);
        }
    }
    if n == 7 {
        let r = parse_hex_byte(v[1], v[2])?;
        let g = parse_hex_byte(v[3], v[4])?;
        let b = parse_hex_byte(v[5], v[6])?;
        Ok(Color::rgb(r, g, b))
    } else if n == 9 {
        let r = parse_hex_byte(v[1], v[2])?;
        let g = parse_hex_byte(v[3], v[4])?;
        let b = parse_hex_byte(v[5], v[6])?;
        let a = parse_hex_byte(v[7], v[8])?;
        Ok(Color::rgba(r, g, b, a))
    } else {
        Err(ThemeParseError::InvalidColor)
    }
}

pub open spec fn accent_word() -> Seq<char> {
    seq!['a', 'c', 'c', 'e', 'n', 't']
}

pub open spec fn terminal_background_word() -> Seq<char> {
    seq![
        't', 'e', 'r', 'm', 'i', 'n', 'a', 'l', 'B', 'a', 'c', 'k', 'g', 'r', 'o', 'u', 'n', 'd',
    ]
}

/// A theme color written as `"accent"`, `"terminalBackground"` or a hex color.
pub open spec fn spec_theme_color_value(v: Seq<char>) -> Result<ThemeColorView, ThemeParseError> {
    if v == accent_word() {
        Ok(ThemeColorView { color_type: ThemeColorType::Accent, color: None })
    } else if v == terminal_background_word() {
        Ok(ThemeColorView { color_type: ThemeColorType::TerminalBackground, color: None })
    } else {
        match spec_parse_hex_color(v) {
            Ok(c) => Ok(ThemeColorView { color_type: ThemeColorType::Color, color: Some(c) }),
            Err(e) => Err(e),
        }
    }
}

pub open spec fn spec_theme_color_member(s: Seq<char>, key: Seq<char>) -> Result<
    Option<ThemeColorView>,
    ThemeParseError,
> {
    match spec_member(s, key) {
        MemberView::Value(t) => match spec_parse_quoted(t) {
            None => Err(ThemeParseError::InvalidColor),
            Some(v) => match spec_theme_color_value(v) {
                Ok(c) => Ok(Some(c)),
                Err(e) => Err(e),
            },
        },
        _ => Ok(None),
    }
}

fn theme_color_member(input: &str, key: &str) -> (r: Result<Option<ThemeColor>, ThemeParseError>)
    ensures
        match (r, spec_theme_color_member(input@, key@)) {
            (Ok(a), Ok(b)) => opt_color_view(a) == b,
            (Err(e), Err(f)) => e == f,
            _ => false,
        },
{
    let rest = match member(input, key) {
        Member::Missing => return Ok(None),
        Member::Null => return Ok(None),
        Member::Value(rest) => rest,
    };
    let value = match parse_quoted(rest) {
        Some(value) => value,
        None => return Err(ThemeParseError::InvalidColor),
    };
    let v = chars_of(value.as_str());
    let accent = vec!['a', 'c', 'c', 'e', 'n', 't'];
    let terminal_background = vec![
        't', 'e', 'r', 'm', 'i', 'n', 'a', 'l', 'B', 'a', 'c', 'k', 'g', 'r', 'o', 'u', 'n', 'd',
    ];
    assert(accent@ == accent_word());
    assert(terminal_background@ == terminal_background_word());
    let color = if chars_eq(v.as_slice(), accent.as_slice()) {
        ThemeColor { color_type: ThemeColorType::Accent, color: None }
    } else if chars_eq(v.as_slice(), terminal_background.as_slice()) {
        ThemeColor { color_type: ThemeColorType::TerminalBackground, color: None }
    } else {
        ThemeColor { color_type: ThemeColorType::Color, color: Some(parse_hex_color(v.as_slice())?) }
    };
    Ok(Some(color))
}

/// The balanced object that starts the value of `key`; unlike
/// [`crate::json::object_member`], the value need not begin with `{`.
pub open spec fn spec_theme_object_member(s: Seq<char>, key: Seq<char>) -> Result<
    Option<Seq<char>>,
    ThemeParseError,
> {
    match spec_member(s, key) {
        MemberView::Value(t) => match matching_delimiter(t, 0, '{', '}') {
            None => Err(ThemeParseError::InvalidObject),
            Some(e) => Ok(Some(t.subrange(0, e + 1))),
        },
        _ => Ok(None),
    }
}

fn theme_object_member<'a>(input: &'a str, key: &str) -> (r: Result<Option<&'a str>, ThemeParseError>)
    ensures
        match (r, spec_theme_object_member(input@, key@)) {
            (Ok(Some(a)), Ok(Some(b))) => a@ == b,
            (Ok(None), Ok(None)) => true,
            (Err(e), Err(f)) => e == f,
            _ => false,
        },
{
    let rest = match member(input, key) {
        Member::Missing => return Ok(None),
        Member::Null => return Ok(None),
        Member::Value(rest) => rest,
    };
    let t = chars_of(rest);
    let n = t.len();
    proof {
        lemma_delimiter_end_bounds(t@, 0, 0, false, false, '{', '}');
    }
    match matching_delimiter_at(t.as_slice(), 0, '{', '}') {
        None => Err(ThemeParseError::InvalidObject),
        Some(end) => {
            assert(end < n);
            Ok(Some(rest.substring_char(0, end + 1)))
        },
    }
}

/// ASCII lower-casing of a character code.
pub open spec fn ascii_lower(c: char) -> int {
    if 'A' <= c && c <= 'Z' {
        (c as u32) + 32
    } else {
        c as u32 as int
    }
}

/// `str::eq_ignore_ascii_case`.
pub open spec fn eq_ignore_ascii_case(a: Seq<char>, b: Seq<char>) -> bool {
    a.len() == b.len() && forall|i: int| 0 <= i < a.len() ==> #[trigger] ascii_lower(a[i])
        == ascii_lower(b[i])
}

fn lower_code(c: char) -> (r: u32)
    ensures
        r == ascii_lower(c),
{
    if 'A' <= c && c <= 'Z' {
        c as u32 + 32
    } else {
        c as u32
    }
}

fn chars_eq_ignore_ascii_case(a: &[char], b: &[char]) -> (r: bool)
    ensures
        r == eq_ignore_ascii_case(a@, b@),
{
    if a.len() != b.len() {
        return false;
    }
    let mut i: usize = 0;
    while i < a.len()
        invariant
            i <= a@.len(),
            a@.len() == b@.len(),
            forall|j: int| 0 <= j < i ==> #[trigger] ascii_lower(a@[j]) == ascii_lower(b@[j]),
        decreases a@.len() - i,
    {
        if lower_code(a[i]) != lower_code(b[i]) {
            return false;
        }
        i = i + 1;
    }
    true
}

pub open spec fn light_word() -> Seq<char> {
    seq!['l', 'i', 'g', 'h', 't']
}

pub open spec fn dark_word() -> Seq<char> {
    seq!['d', 'a', 'r', 'k']
}

pub open spec fn system_word() -> Seq<char> {
    seq!['s', 'y', 's', 't', 'e', 'm']
}

/// The window's `applicationTheme`, compared without regard to ASCII case.
pub open spec fn spec_element_theme(value: Option<Seq<char>>) -> Result<
    ElementTheme,
    ThemeParseError,
> {
    match value {
        None => Ok(ElementTheme::Default),
        Some(v) => if eq_ignore_ascii_case(v, light_word()) {
            Ok(ElementTheme::Light)
        } else if eq_ignore_ascii_case(v, dark_word()) {
            Ok(ElementTheme::Dark)
        } else if eq_ignore_ascii_case(v, system_word()) {
            Ok(ElementTheme::Default)
        } else {
            Err(ThemeParseError::InvalidElementTheme)
        },
    }
}

fn element_theme(value: Option<String>) -> (r: Result<ElementTheme, ThemeParseError>)
    ensures
        r == spec_element_theme(
            match value {
                Some(v) => Some(v@),
                None => None,
            },
        ),
{
    match value {
        None => Ok(ElementTheme::Default),
        Some(v) => {
            let c = chars_of(v.as_str());
            let light = vec!['l', 'i', 'g', 'h', 't'];
            let dark = vec!['d', 'a', 'r', 'k'];
            let system = vec!['s', 'y', 's', 't', 'e', 'm'];
            assert(light@ == light_word());
            assert(dark@ == dark_word());
            assert(system@ == system_word());
            if chars_eq_ignore_ascii_case(c.as_slice(), light.as_slice()) {
                Ok(ElementTheme::Light)
            } else if chars_eq_ignore_ascii_case(c.as_slice(), dark.as_slice()) {
                Ok(ElementTheme::Dark)
            } else if chars_eq_ignore_ascii_case(c.as_slice(), system.as_slice()) {
                Ok(ElementTheme::Default)
            } else {
                Err(ThemeParseError::InvalidElementTheme)
            }
        },
    }
}

pub open spec fn spec_tab_row(o: Seq<char>) -> Result<TabRowThemeView, ThemeParseError> {
    match spec_theme_color_member(o, "background"@) {
        Err(e) => Err(e),
        Ok(background) => match spec_theme_color_member(o, "unfocusedBackground"@) {
            Err(e) => Err(e),
            Ok(unfocused_background) => Ok(TabRowThemeView { background, unfocused_background }),
        },
    }
}

pub open spec fn spec_window(o: Seq<char>) -> Result<WindowThemeView, ThemeParseError> {
    match spec_string_member(o, "applicationTheme"@) {
        Err(e) => Err(spec_theme_error(e)),
        Ok(value) => match spec_element_theme(value) {
            Err(e) => Err(e),
            Ok(requested_theme) => match spec_bool_member(o, "useMica"@) {
                Err(e) => Err(spec_theme_error(e)),
                Ok(use_mica) => Ok(
                    WindowThemeView {
                        requested_theme,
                        use_mica: match use_mica {
                            Some(b) => b,
                            None => false,
                        },
                    },
                ),
            },
        },
    }
}

/// A serialized theme object: its required `name`, then the optional
/// `tabRow` and `window` objects (missing or `null` stays absent).
pub open spec fn spec_theme(s: Seq<char>) -> Result<ThemeView, ThemeParseError> {
    match spec_string_member(s, "name"@) {
        Err(e) => Err(spec_theme_error(e)),
        Ok(None) => Err(ThemeParseError::MissingName),
        Ok(Some(name)) => match spec_theme_object_member(s, "tabRow"@) {
            Err(e) => Err(e),
            Ok(tab_row_object) => match (match tab_row_object {
                None => Ok(None),
                Some(o) => match spec_tab_row(o) {
                    Ok(t) => Ok(Some(t)),
                    Err(e) => Err(e),
                },
            }) {
                Err(e) => Err(e),
                Ok(tab_row) => match spec_theme_object_member(s, "window"@) {
                    Err(e) => Err(e),
                    Ok(window_object) => match (match window_object {
                        None => Ok(None),
                        Some(o) => match spec_window(o) {
                            Ok(w) => Ok(Some(w)),
                            Err(e) => Err(e),
                        },
                    }) {
                        Err(e) => Err(e),
                        Ok(window) => Ok(ThemeView { name, tab_row, window }),
                    },
                },
            },
        },
    }
}

pub open spec fn system_theme_view() -> ThemeView {
    ThemeView { name: system_word(), tab_row: None, window: None }
}

impl Theme {
    /// Parses a serialized theme object.
    pub fn from_json(input: &str) -> (r: Result<Self, ThemeParseError>)
        ensures
            match (r, spec_theme(input@)) {
                (Ok(t), Ok(v)) => t@ == v,
                (Err(e), Err(f)) => e == f,
                _ => false,
            },
    {
        let name = match string_member(input, "name") {
            Err(e) => return Err(theme_error(e)),
            Ok(None) => return Err(ThemeParseError::MissingName),
            Ok(Some(name)) => name,
        };
        let tab_row = match theme_object_member(input, "tabRow")? {
            None => None,
            Some(tab_row) => {
                let background = theme_color_member(tab_row, "background")?;
                let unfocused_background = theme_color_member(tab_row, "unfocusedBackground")?;
                Some(TabRowTheme { background, unfocused_background })
            },
        };
        let window = match theme_object_member(input, "window")? {
            None => None,
            Some(window) => {
                let value = match string_member(window, "applicationTheme") {
                    Err(e) => return Err(theme_error(e)),
                    Ok(value) => value,
                };
                let requested_theme = element_theme(value)?;
                let use_mica = match bool_member(window, "useMica") {
                    Err(e) => return Err(theme_error(e)),
                    Ok(Some(b)) => b,
                    Ok(None) => false,
                };
                Some(WindowTheme { requested_theme, use_mica })
            },
        };
        Ok(Theme { name, tab_row, window })
    }

    pub fn name(&self) -> (r: &str)
        ensures
            r@ == self@.name,
    {
        self.name.as_str()
    }

    pub fn tab_row(&self) -> (r: Option<&TabRowTheme>)
        ensures
            match r {
                Some(t) => self@.tab_row == Some(t@),
                None => self@.tab_row is None,
            },
    {
        match &self.tab_row {
            Some(t) => Some(t),
            None => None,
        }
    }

    pub fn window(&self) -> (r: Option<&WindowTheme>)
        ensures
            match r {
                Some(w) => self@.window == Some(w@),
                None => self@.window is None,
            },
    {
        match &self.window {
            Some(w) => Some(w),
            None => None,
        }
    }

    /// The window's requested theme, `Default` when the theme has no window
    /// settings.
    pub fn requested_theme(&self) -> (r: ElementTheme)
        ensures
            r == match self@.window {
                Some(w) => w.requested_theme,
                None => ElementTheme::Default,
            },
    {
        match &self.window {
            Some(w) => w.requested_theme,
            None => ElementTheme::Default,
        }
    }

    /// The built-in `system` theme.
    fn system() -> (r: Self)
        ensures
            r@ == system_theme_view(),
    {
        let name = "system".to_owned();
        proof {
            reveal_strlit("system");
            assert(name@ =~= system_word());
        }
        Theme { name, tab_row: None, window: None }
    }
}

impl Clone for Theme {
    fn clone(&self) -> (r: Self)
        ensures
            r@ == self@,
    {
        let tab_row = match &self.tab_row {
            Some(t) => Some(
                TabRowTheme {
                    background: t.background,
                    unfocused_background: t.unfocused_background,
                },
            ),
            None => None,
        };
        let window = match &self.window {
            Some(w) => Some(WindowTheme { requested_theme: w.requested_theme, use_mica: w.use_mica }),
            None => None,
        };
        Theme { name: self.name.clone(), tab_row, window }
    }
}

/// The themes of `objs`, parsed in order; a later theme replaces an earlier
/// one of the same name, and the first failure is reported.
pub open spec fn spec_themes_map(objs: Seq<Seq<char>>) -> Result<
    Map<Seq<char>, ThemeView>,
    ThemeParseError,
>
    decreases objs.len(),
{
    if objs.len() == 0 {
        Ok(Map::empty())
    } else {
        match spec_themes_map(objs.drop_last()) {
            Err(e) => Err(e),
            Ok(m) => match spec_theme(objs.last()) {
                Err(e) => Err(e),
                Ok(t) => Ok(m.insert(t.name, t)),
            },
        }
    }
}

/// The themes defined by the `themes` array of a user settings object.
pub open spec fn spec_defined_themes(s: Seq<char>) -> Result<
    Map<Seq<char>, ThemeView>,
    ThemeParseError,
> {
    match spec_array_member(s, "themes"@) {
        Err(e) => Err(spec_theme_error(e)),
        Ok(None) => Ok(Map::empty()),
        Ok(Some(a)) => match spec_top_level_objects(a) {
            None => Err(ThemeParseError::InvalidObject),
            Some(objs) => spec_themes_map(objs),
        },
    }
}

/// A failure among the first `k` objects is the failure of them all.
pub proof fn lemma_themes_map_error_prefix(objs: Seq<Seq<char>>, k: int)
    requires
        0 <= k <= objs.len(),
        spec_themes_map(objs.take(k)) is Err,
    ensures
        spec_themes_map(objs) == spec_themes_map(objs.take(k)),
    decreases objs.len() - k,
{
    if k == objs.len() {
        assert(objs.take(k) =~= objs);
    } else {
        assert(objs.take(k + 1).drop_last() =~= objs.take(k));
        lemma_themes_map_error_prefix(objs, k + 1);
    }
}

pub struct ThemeSettingsView {
    pub themes: Map<Seq<char>, ThemeView>,
    pub current_theme_name: Seq<char>,
    pub warnings: Seq<SettingsLoadWarning>,
}

/// The theme subset of a user settings object: the `themes` array, then the
/// requested `theme`, which falls back to `system` with a warning when it
/// names neither a built-in nor a defined theme.
pub open spec fn spec_theme_settings(s: Seq<char>) -> Result<ThemeSettingsView, ThemeParseError> {
    match spec_defined_themes(s) {
        Err(e) => Err(e),
        Ok(m) => match spec_string_member(s, "theme"@) {
            Err(e) => Err(spec_theme_error(e)),
            Ok(requested) => {
                let name = match requested {
                    Some(n) => n,
                    None => system_word(),
                };
                let valid = name == system_word() || name == light_word() || name == dark_word()
                    || m.dom().contains(name);
                Ok(
                    ThemeSettingsView {
                        themes: m,
                        current_theme_name: if valid {
                            name
                        } else {
                            system_word()
                        },
                        warnings: if valid {
                            Seq::empty()
                        } else {
                            seq![SettingsLoadWarning::UnknownTheme]
                        },
                    },
                )
            },
        },
    }
}

pub open spec fn theme_entry(t: Theme) -> (Seq<char>, ThemeView) {
    (t@.name, t@)
}

pub open spec fn theme_entries(v: Seq<Theme>) -> Seq<(Seq<char>, ThemeView)> {
    v.map_values(|t: Theme| theme_entry(t))
}

/// Defined themes by name, the selected theme and the selection warnings.
#[derive(Debug, Eq)]
pub struct ThemeSettings {
    themes: Vec<Theme>,
    current_theme_name: String,
    warnings: Vec<SettingsLoadWarning>,
}

impl ThemeSettings {
    #[verifier::type_invariant]
    closed spec fn well_formed(&self) -> bool {
        keys_unique(theme_entries(self.themes@))
    }
}

impl View for ThemeSettings {
    type V = ThemeSettingsView;

    closed spec fn view(&self) -> ThemeSettingsView {
        ThemeSettingsView {
            themes: entries_map(theme_entries(self.themes@)),
            current_theme_name: self.current_theme_name@,
            warnings: self.warnings@,
        }
    }
}

/// Index of the theme named `name`.
fn find_theme(themes: &Vec<Theme>, name: &str) -> (r: Option<usize>)
    ensures
        match r {
            Some(i) => i < themes@.len() && themes@[i as int]@.name == name@,
            None => !entries_map(theme_entries(themes@)).dom().contains(name@),
        },
{
    let mut i: usize = 0;
    while i < themes.len()
        invariant
            i <= themes@.len(),
            forall|j: int| 0 <= j < i ==> (#[trigger] themes@[j])@.name != name@,
        decreases themes@.len() - i,
    {
        if str_eq(themes[i].name.as_str(), name) {
            return Some(i);
        }
        i = i + 1;
    }
    proof {
        lemma_entries_map_contains(theme_entries(themes@), name@);
        if entries_map(theme_entries(themes@)).dom().contains(name@) {
            let j = choose|j: int|
                0 <= j < theme_entries(themes@).len() && #[trigger] theme_entries(themes@)[j].0
                    == name@;
            assert(themes@[j]@.name == name@);
        }
    }
    None
}

/// Adds `theme`, replacing a theme of the same name.
fn insert_theme(themes: &mut Vec<Theme>, theme: Theme)
    requires
        keys_unique(theme_entries(old(themes)@)),
    ensures
        keys_unique(theme_entries(final(themes)@)),
        entries_map(theme_entries(final(themes)@)) == entries_map(theme_entries(old(themes)@)).insert(
            theme@.name,
            theme@,
        ),
{
    let ghost before = theme_entries(themes@);
    let ghost tv = theme@;
    match find_theme(themes, theme.name.as_str()) {
        Some(i) => {
            proof {
                lemma_entries_map_update(before, i as int, tv);
            }
            themes.set(i, theme);
            assert(theme_entries(themes@) =~= before.update(i as int, (before[i as int].0, tv)));
        },
        None => {
            proof {
                lemma_entries_map_push(before, tv.name, tv);
            }
            themes.push(theme);
            assert(theme_entries(themes@) =~= before.push((tv.name, tv)));
        },
    }
}

/// Parses the `themes` array of a user settings object.
fn defined_themes(input: &str) -> (r: Result<Vec<Theme>, ThemeParseError>)
    ensures
        match (r, spec_defined_themes(input@)) {
            (Ok(v), Ok(m)) => keys_unique(theme_entries(v@)) && entries_map(theme_entries(v@)) == m,
            (Err(e), Err(f)) => e == f,
            _ => false,
        },
{
        let mut themes: Vec<Theme> = Vec::new();
        proof {
            assert(theme_entries(themes@) =~= Seq::empty());
        }
        let array = match array_member(input, "themes") {
            Err(e) => return Err(theme_error(e)),
            Ok(array) => array,
        };
        let ghost objs: Seq<Seq<char>> = Seq::empty();
        match array {
            None => {},
            Some(array) => {
                let objects = match top_level_objects(array) {
                    Err(e) => return Err(theme_error(e)),
                    Ok(objects) => objects,
                };
                proof {
                    objs = spec_top_level_objects(array@).unwrap();
                }
                assert(spec_defined_themes(input@) == spec_themes_map(objs));
                let mut i: usize = 0;
                while i < objects.len()
                    invariant
                        i <= objects@.len(),
                        objects@.len() == objs.len(),
                        forall|j: int| 0 <= j < objs.len() ==> (#[trigger] objects@[j])@ == objs[j],
                        keys_unique(theme_entries(themes@)),
                        spec_defined_themes(input@) == spec_themes_map(objs),
                        spec_themes_map(objs.take(i as int)) == Ok::<
                            Map<Seq<char>, ThemeView>,
                            ThemeParseError,
                        >(entries_map(theme_entries(themes@))),
                    decreases objects@.len() - i,
                {
                    assert(objs.take(i + 1).drop_last() =~= objs.take(i as int));
                    assert(objs.take(i + 1).last() == objs[i as int]);
                    let theme = match Theme::from_json(objects[i]) {
                        Ok(theme) => theme,
                        Err(e) => {
                            proof {
                                lemma_themes_map_error_prefix(objs, i + 1);
                            }
                            return Err(e);
                        },
                    };
                    insert_theme(&mut themes, theme);
                    i = i + 1;
                }
                assert(objs.take(objs.len() as int) =~= objs);
            },
        }
        Ok(themes)
}

impl ThemeSettings {
    /// Parses the theme subset of a user settings object.
    pub fn from_user_settings_json(input: &str) -> (r: Result<Self, ThemeParseError>)
        ensures
            match (r, spec_theme_settings(input@)) {
                (Ok(t), Ok(v)) => t@ == v,
                (Err(e), Err(f)) => e == f,
                _ => false,
            },
    {
        let themes = defined_themes(input)?;
        let requested = match string_member(input, "theme") {
            Err(e) => return Err(theme_error(e)),
            Ok(Some(requested)) => requested,
            Ok(None) => {
                let name = "system".to_owned();
                proof {
                    reveal_strlit("system");
                    assert(name@ =~= system_word());
                }
                name
            },
        };
        let r = chars_of(requested.as_str());
        let system = vec!['s', 'y', 's', 't', 'e', 'm'];
        let light = vec!['l', 'i', 'g', 'h', 't'];
        let dark = vec!['d', 'a', 'r', 'k'];
        assert(system@ == system_word());
        assert(light@ == light_word());
        assert(dark@ == dark_word());
        let known_builtin = chars_eq(r.as_slice(), system.as_slice()) || chars_eq(
            r.as_slice(),
            light.as_slice(),
        ) || chars_eq(r.as_slice(), dark.as_slice());
        let found = find_theme(&themes, requested.as_str());
        proof {
            match found {
                Some(i) => {
                    lemma_entries_map_index(theme_entries(themes@), i as int);
                },
                None => {},
            }
        }
        let valid = known_builtin || found.is_some();
        let warnings = if valid {
            Vec::new()
        } else {
            vec![SettingsLoadWarning::UnknownTheme]
        };
        let current_theme_name = if valid {
            requested
        } else {
            let name = "system".to_owned();
            proof {
                reveal_strlit("system");
                assert(name@ =~= system_word());
            }
            name
        };
        let result = ThemeSettings { themes, current_theme_name, warnings };
        assert(result@.warnings =~= (if valid {
            Seq::<SettingsLoadWarning>::empty()
        } else {
            seq![SettingsLoadWarning::UnknownTheme]
        }));
        Ok(result)
    }

    /// The defined theme named `name`.
    pub fn theme(&self, name: &str) -> (r: Option<&Theme>)
        ensures
            match r {
                Some(t) => self@.themes.dom().contains(name@) && t@ == self@.themes[name@],
                None => !self@.themes.dom().contains(name@),
            },
    {
        proof {
            use_type_invariant(self);
        }
        match find_theme(&self.themes, name) {
            Some(i) => {
                proof {
                    lemma_entries_map_index(theme_entries(self.themes@), i as int);
                }
                Some(&self.themes[i])
            },
            None => None,
        }
    }

    pub fn warnings(&self) -> (r: &[SettingsLoadWarning])
        ensures
            r@ == self@.warnings,
    {
        self.warnings.as_slice()
    }

    /// The selected theme; the built-in `system` theme when it is not one of
    /// the defined themes.
    pub fn current_theme(&self) -> (r: Theme)
        ensures
            r@ == if self@.themes.dom().contains(self@.current_theme_name) {
                self@.themes[self@.current_theme_name]
            } else {
                system_theme_view()
            },
    {
        proof {
            use_type_invariant(self);
        }
        match find_theme(&self.themes, self.current_theme_name.as_str()) {
            Some(i) => {
                proof {
                    lemma_entries_map_index(theme_entries(self.themes@), i as int);
                }
                self.themes[i].clone()
            },
            None => Theme::system(),
        }
    }
}

/// A theme color of kind `Color` carries a color; `accent` and
/// `terminalBackground` carry none.
pub proof fn law_theme_color_carries_color_iff_explicit(v: Seq<char>)
    ensures
        spec_theme_color_value(v) matches Ok(c) ==> (c.color_type == ThemeColorType::Color
            <==> c.color is Some),
{
}

/// Every theme in the map is stored under its own name.
pub proof fn law_themes_keyed_by_name(objs: Seq<Seq<char>>)
    ensures
        spec_themes_map(objs) matches Ok(m) ==> forall|k: Seq<char>|
            #[trigger] m.dom().contains(k) ==> m[k].name == k,
    decreases objs.len(),
{
    if objs.len() > 0 {
        law_themes_keyed_by_name(objs.drop_last());
    }
}

/// The selected theme is always a built-in theme or a defined one, and a
/// warning is reported only when the selection fell back to `system`.
pub proof fn law_selected_theme_is_known(s: Seq<char>)
    ensures
        spec_theme_settings(s) matches Ok(v) ==> (v.current_theme_name == system_word()
            || v.current_theme_name == light_word() || v.current_theme_name == dark_word()
            || v.themes.dom().contains(v.current_theme_name)) && (v.warnings.len() > 0
            ==> v.current_theme_name == system_word() && v.warnings == seq![
            SettingsLoadWarning::UnknownTheme,
        ]),
{
}

/// A requested theme that is built in or defined is selected without a
/// warning.
pub proof fn law_known_request_is_selected(s: Seq<char>, requested: Seq<char>)
    requires
        spec_string_member(s, "theme"@) == Ok::<Option<Seq<char>>, JsonError>(Some(requested)),
    ensures
        spec_theme_settings(s) matches Ok(v) ==> ((requested == system_word() || requested
            == light_word() || requested == dark_word() || v.themes.dom().contains(requested))
            ==> v.current_theme_name == requested && v.warnings.len() == 0),
{
}

fn same_color_value(a: Option<Color>, b: Option<Color>) -> (r: bool)
    ensures
        r == (a == b),
{
    match (a, b) {
        (None, None) => true,
        (Some(x), Some(y)) => x.r == y.r && x.g == y.g && x.b == y.b && x.a == y.a,
        _ => false,
    }
}

fn same_theme_color(a: Option<ThemeColor>, b: Option<ThemeColor>) -> (r: bool)
    ensures
        r == (opt_color_view(a) == opt_color_view(b)),
{
    match (a, b) {
        (None, None) => true,
        (Some(x), Some(y)) => x.color_type == y.color_type && same_color_value(x.color, y.color),
        _ => false,
    }
}

/// Whether two themes agree in every setting.
fn same_theme(a: &Theme, b: &Theme) -> (r: bool)
    ensures
        r == (a@ == b@),
{
    if a.name != b.name {
        return false;
    }
    let tab_rows = match (&a.tab_row, &b.tab_row) {
        (None, None) => true,
        (Some(x), Some(y)) => same_theme_color(x.background, y.background) && same_theme_color(
            x.unfocused_background,
            y.unfocused_background,
        ),
        _ => false,
    };
    let windows = match (&a.window, &b.window) {
        (None, None) => true,
        (Some(x), Some(y)) => x.requested_theme == y.requested_theme && x.use_mica == y.use_mica,
        _ => false,
    };
    tab_rows && windows
}

impl ThemeSettings {
    /// Whether every theme of `self` is defined in `other` with the same
    /// settings.
    fn themes_within(&self, other: &ThemeSettings) -> (r: bool)
        ensures
            r == forall|k: Seq<char>|
                #[trigger] self@.themes.dom().contains(k) ==> other@.themes.dom().contains(k)
                    && other@.themes[k] == self@.themes[k],
    {
        proof {
            use_type_invariant(self);
            use_type_invariant(other);
        }
        let ghost es = theme_entries(self.themes@);
        let ghost eo = theme_entries(other.themes@);
        let mut i: usize = 0;
        while i < self.themes.len()
            invariant
                i <= self.themes@.len(),
                es == theme_entries(self.themes@),
                eo == theme_entries(other.themes@),
                keys_unique(es),
                keys_unique(eo),
                forall|j: int|
                    0 <= j < i ==> entries_map(eo).dom().contains(#[trigger] es[j].0)
                        && entries_map(eo)[es[j].0] == es[j].1,
            decreases self.themes@.len() - i,
        {
            proof {
                lemma_entries_map_index(es, i as int);
            }
            let found = match find_theme(&other.themes, self.themes[i].name.as_str()) {
                None => false,
                Some(j) => {
                    proof {
                        lemma_entries_map_index(eo, j as int);
                    }
                    same_theme(&other.themes[j], &self.themes[i])
                },
            };
            if !found {
                proof {
                    let k = es[i as int].0;
                    assert(self@.themes.dom().contains(k));
                    assert(!(other@.themes.dom().contains(k) && other@.themes[k] == self@.themes[k]));
                }
                return false;
            }
            i = i + 1;
        }
        proof {
            assert forall|k: Seq<char>| #[trigger] self@.themes.dom().contains(k) implies other@.themes.dom().contains(k)
                && other@.themes[k] == self@.themes[k] by {
                lemma_entries_map_contains(es, k);
                let j = choose|j: int| 0 <= j < es.len() && #[trigger] es[j].0 == k;
                lemma_entries_map_index(es, j);
            }
        }
        true
    }
}

fn same_warnings(a: &Vec<SettingsLoadWarning>, b: &Vec<SettingsLoadWarning>) -> (r: bool)
    ensures
        r == (a@ == b@),
{
    if a.len() != b.len() {
        return false;
    }
    let mut i: usize = 0;
    while i < a.len()
        invariant
            i <= a@.len(),
            a@.len() == b@.len(),
            forall|j: int| 0 <= j < i ==> a@[j] == b@[j],
        decreases a@.len() - i,
    {
        if a[i] != b[i] {
            return false;
        }
        i = i + 1;
    }
    assert(a@ =~= b@);
    true
}

impl PartialEq for ThemeSettings {
    /// The same defined themes, selection and warnings, whatever the order
    /// in which the themes were defined.
    fn eq(&self, other: &Self) -> (r: bool) {
        let r = self.current_theme_name == other.current_theme_name && same_warnings(
            &self.warnings,
            &other.warnings,
        ) && self.themes_within(other) && other.themes_within(self);
        proof {
            if r {
                assert(self@.themes =~= other@.themes);
            }
        }
        r
    }
}

impl vstd::std_specs::cmp::PartialEqSpecImpl for ThemeSettings {
    open spec fn obeys_eq_spec() -> bool {
        true
    }

    open spec fn eq_spec(&self, other: &ThemeSettings) -> bool {
        self@ == other@
    }
}

/// Hexadecimal digits have the values `char::to_digit(16)` gives: `0`-`9`
/// are 0-9, `a`-`f` are 10-15 and read as their upper-case forms do, and no
/// other character is a digit.
pub proof fn law_hex_digit_values(c: char)
    ensures
        '0' <= c <= '9' ==> hex_value(c) == Some(((c as u32) - ('0' as u32)) as u8),
        'a' <= c <= 'f' ==> hex_value(c) == Some(((c as u32) - ('a' as u32) + 10) as u8),
        'a' <= c <= 'f' ==> hex_value(c) == hex_value((((c as u32) - 32) as u32) as char),
        'A' <= c <= 'F' ==> hex_value(c) == Some(((c as u32) - ('A' as u32) + 10) as u8),
        !('0' <= c <= '9' || 'a' <= c <= 'f' || 'A' <= c <= 'F') ==> hex_value(c) is None,
{
}

/// Characters that agree up to ASCII case have the same digit value, and
/// only `#` agrees with `#`.
pub proof fn lemma_same_up_to_case(a: char, b: char)
    requires
        ascii_lower(a) == ascii_lower(b),
    ensures
        hex_value(a) == hex_value(b),
        (a == '#') == (b == '#'),
        ((a as u32) < 0x80) == ((b as u32) < 0x80),
{
}

/// Colors are read without regard to the ASCII case of their digits.
pub proof fn law_hex_color_ignores_case(v: Seq<char>, w: Seq<char>)
    requires
        v.len() == w.len(),
        forall|i: int| 0 <= i < v.len() ==> #[trigger] ascii_lower(v[i]) == ascii_lower(w[i]),
    ensures
        spec_parse_hex_color(v) == spec_parse_hex_color(w),
{
    assert forall|i: int| 0 <= i < v.len() implies hex_value(v[i]) == hex_value(w[i]) && (v[i]
        == '#') == (w[i] == '#') && ((v[i] as u32) < 0x80) == ((w[i] as u32) < 0x80) by {
        assert(ascii_lower(v[i]) == ascii_lower(w[i]));
        lemma_same_up_to_case(v[i], w[i]);
    }
    if v.len() > 0 {
        let sv = v.subrange(1, v.len() as int);
        let sw = w.subrange(1, w.len() as int);
        assert forall|j: int| 0 <= j < sv.len() implies ((sv[j] as u32) < 0x80) == ((sw[j] as u32)
            < 0x80) by {
            assert(sv[j] == v[j + 1] && sw[j] == w[j + 1]);
        }
        assert(all_ascii(sv) == all_ascii(sw));
    }
}

/// The window's `applicationTheme` is read without regard to ASCII case;
/// `system` means the same as no value at all, the default appearance;
/// `light` and `dark` select those appearances.
pub proof fn law_application_theme(v: Seq<char>, w: Seq<char>)
    ensures
        spec_element_theme(None) == Ok::<ElementTheme, ThemeParseError>(ElementTheme::Default),
        eq_ignore_ascii_case(v, system_word()) ==> spec_element_theme(Some(v)) == spec_element_theme(
            None,
        ),
        eq_ignore_ascii_case(v, light_word()) ==> spec_element_theme(Some(v)) == Ok::<
            ElementTheme,
            ThemeParseError,
        >(ElementTheme::Light),
        eq_ignore_ascii_case(v, dark_word()) ==> spec_element_theme(Some(v)) == Ok::<
            ElementTheme,
            ThemeParseError,
        >(ElementTheme::Dark),
        eq_ignore_ascii_case(v, w) ==> spec_element_theme(Some(v)) == spec_element_theme(Some(w)),
{
    if eq_ignore_ascii_case(v, w) {
        assert forall|t: Seq<char>| eq_ignore_ascii_case(v, t) == eq_ignore_ascii_case(w, t) by {
            if v.len() == t.len() {
                assert forall|i: int| 0 <= i < v.len() implies (ascii_lower(v[i]) == ascii_lower(t[i]))
                    == (ascii_lower(w[i]) == ascii_lower(t[i])) by {
                    assert(ascii_lower(v[i]) == ascii_lower(w[i]));
                }
            }
        }
        assert(eq_ignore_ascii_case(v, light_word()) == eq_ignore_ascii_case(w, light_word()));
        assert(eq_ignore_ascii_case(v, dark_word()) == eq_ignore_ascii_case(w, dark_word()));
        assert(eq_ignore_ascii_case(v, system_word()) == eq_ignore_ascii_case(w, system_word()));
    }
    if eq_ignore_ascii_case(v, system_word()) {
        assert(!eq_ignore_ascii_case(v, light_word()));
        assert(!eq_ignore_ascii_case(v, dark_word()));
    }
    if eq_ignore_ascii_case(v, dark_word()) {
        assert(!eq_ignore_ascii_case(v, light_word()));
    }
}

impl Clone for ThemeSettings {
    fn clone(&self) -> (r: Self)
        ensures
            r@ == self@,
    {
        proof {
            use_type_invariant(self);
        }
        let mut themes: Vec<Theme> = Vec::new();
        let mut i: usize = 0;
        while i < self.themes.len()
            invariant
                i <= self.themes@.len(),
                themes@.len() == i,
                forall|j: int| 0 <= j < i ==> (#[trigger] themes@[j])@ == self.themes@[j]@,
            decreases self.themes@.len() - i,
        {
            themes.push(self.themes[i].clone());
            i = i + 1;
        }
        assert(theme_entries(themes@) =~= theme_entries(self.themes@));
        let mut warnings: Vec<SettingsLoadWarning> = Vec::new();
        let mut j: usize = 0;
        while j < self.warnings.len()
            invariant
                j <= self.warnings@.len(),
                warnings@ == self.warnings@.subrange(0, j as int),
            decreases self.warnings@.len() - j,
        {
            warnings.push(self.warnings[j]);
            assert(self.warnings@.subrange(0, j + 1) =~= self.warnings@.subrange(0, j as int).push(
                self.warnings@[j as int],
            ));
            j = j + 1;
        }
        assert(self.warnings@.subrange(0, self.warnings@.len() as int) =~= self.warnings@);
        ThemeSettings { themes, current_theme_name: self.current_theme_name.clone(), warnings }
    }
}

} // verus!
