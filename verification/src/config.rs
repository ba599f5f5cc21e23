//! The colour and shell settings that the settings panel edits.

use crate::text::chars_of;
use vstd::prelude::*;

verus! {

/// The settings of the shell: its five colours and a number of optional
/// preferences, absent until one is chosen.
#[derive(Debug, Clone)]
pub struct ColorConfig {
    pub background: String,
    pub primary: String,
    pub secondary: String,
    pub text: String,
    pub accent: String,
    pub last_wallpaper: Option<String>,
    pub color_preset: Option<String>,
    pub sidebar_position: Option<String>,
    pub notifications_enabled: Option<bool>,
    pub notification_sounds_enabled: Option<bool>,
    pub sidebar_visible: Option<bool>,
    pub rounding: Option<String>,
    pub show_hidden_files: Option<bool>,
}

/// What a `ColorConfig` holds, with each text as its characters.
pub struct ColorSettings {
    pub background: Seq<char>,
    pub primary: Seq<char>,
    pub secondary: Seq<char>,
    pub text: Seq<char>,
    pub accent: Seq<char>,
    pub last_wallpaper: Option<Seq<char>>,
    pub color_preset: Option<Seq<char>>,
    pub sidebar_position: Option<Seq<char>>,
    pub notifications_enabled: Option<bool>,
    pub notification_sounds_enabled: Option<bool>,
    pub sidebar_visible: Option<bool>,
    pub rounding: Option<Seq<char>>,
    pub show_hidden_files: Option<bool>,
}

/// The characters of an optional text.
pub open spec fn text_of(text: Option<String>) -> Option<Seq<char>> {
    match text {
        Some(t) => Some(t@),
        None => None,
    }
}

/// The settings of a shell that nobody has configured yet.
pub open spec fn default_settings() -> ColorSettings {
    ColorSettings {
        background: "#0a0a0a"@,
        primary: "#1a1a1a"@,
        secondary: "#121212"@,
        text: "#ffffff"@,
        accent: "#4a9eff"@,
        last_wallpaper: None,
        color_preset: None,
        sidebar_position: Some("left"@),
        notifications_enabled: Some(true),
        notification_sounds_enabled: Some(true),
        sidebar_visible: Some(true),
        rounding: Some("rounded"@),
        show_hidden_files: Some(false),
    }
}

/// `s` without the hash signs it starts with.
pub open spec fn strip_hashes(s: Seq<char>) -> Seq<char>
    decreases s.len(),
{
    if s.len() > 0 && s.first() == '#' {
        strip_hashes(s.drop_first())
    } else {
        s
    }
}

/// The value of the hexadecimal digit `c`, if it is one.
pub open spec fn hex_value(c: char) -> Option<u8> {
    let n = c as u32;
    if 0x30 <= n <= 0x39 {
        Some((n - 0x30) as u8)
    } else if 0x61 <= n <= 0x66 {
        Some((n - 0x61 + 10) as u8)
    } else if 0x41 <= n <= 0x46 {
        Some((n - 0x41 + 10) as u8)
    } else {
        None
    }
}

/// The colour channel that the two characters `high` and `low` write: two
/// hexadecimal digits, or a plus sign and one digit.
pub open spec fn channel(high: char, low: char) -> Option<u8> {
    match (hex_value(high), hex_value(low)) {
        (Some(h), Some(l)) => Some((16 * h + l) as u8),
        (None, Some(l)) => if high == '+' {
            Some(l)
        } else {
            None
        },
        _ => None,
    }
}

/// The red, green and blue of the colour that `hex` writes: after any hash
/// signs, exactly three channels. Anything else writes no colour.
pub open spec fn rgb_of(hex: Seq<char>) -> Option<(u8, u8, u8)> {
    let digits = strip_hashes(hex);
    if digits.len() != 6 {
        None
    } else {
        match (
            channel(digits[0], digits[1]),
            channel(digits[2], digits[3]),
            channel(digits[4], digits[5]),
        ) {
            (Some(r), Some(g), Some(b)) => Some((r, g, b)),
            _ => None,
        }
    }
}

/// The value of the hexadecimal digit `c`, if it is one.
pub fn hex_digit(c: char) -> (value: Option<u8>)
    ensures
        value == hex_value(c),
{
    let n: u32 = c as u32;
    if 0x30 <= n && n <= 0x39 {
        Some((n - 0x30) as u8)
    } else if 0x61 <= n && n <= 0x66 {
        Some((n - 0x61 + 10) as u8)
    } else if 0x41 <= n && n <= 0x46 {
        Some((n - 0x41 + 10) as u8)
    } else {
        None
    }
}

/// The colour channel that `high` and `low` write.
pub fn parse_channel(high: char, low: char) -> (value: Option<u8>)
    ensures
        value == channel(high, low),
{
    match (hex_digit(high), hex_digit(low)) {
        (Some(h), Some(l)) => Some(16 * h + l),
        (None, Some(l)) => if high == '+' {
            Some(l)
        } else {
            None
        },
        _ => None,
    }
}

/// An optional text as a command-line argument: empty where it is absent.
pub open spec fn text_argument(text: Option<Seq<char>>) -> Seq<char> {
    match text {
        Some(t) => t,
        None => Seq::empty(),
    }
}

/// An optional switch as a command-line argument: `true`, `false`, or empty
/// where it is absent.
pub open spec fn flag_argument(flag: Option<bool>) -> Seq<char> {
    match flag {
        Some(true) => "true"@,
        Some(false) => "false"@,
        None => Seq::empty(),
    }
}

/// The arguments with which the script at `script` writes `settings` to the
/// file at `path`.
pub open spec fn script_arguments(
    settings: ColorSettings,
    script: Seq<char>,
    path: Seq<char>,
) -> Seq<Seq<char>> {
    seq![
        script,
        settings.background,
        settings.primary,
        settings.secondary,
        settings.text,
        settings.accent,
        path,
        text_argument(settings.last_wallpaper),
        text_argument(settings.color_preset),
        text_argument(settings.sidebar_position),
        flag_argument(settings.notifications_enabled),
        flag_argument(settings.notification_sounds_enabled),
        flag_argument(settings.sidebar_visible),
        text_argument(settings.rounding),
        flag_argument(settings.show_hidden_files),
    ]
}

/// The characters of each of `texts`.
pub open spec fn texts_of(texts: Seq<String>) -> Seq<Seq<char>> {
    Seq::new(texts.len(), |i: int| texts[i]@)
}

/// An optional text as a command-line argument.
fn text_arg(text: &Option<String>) -> (arg: String)
    ensures
        arg@ == text_argument(text_of(*text)),
{
    match text {
        Some(t) => t.clone(),
        None => String::new(),
    }
}

/// An optional switch as a command-line argument.
fn flag_arg(flag: Option<bool>) -> (arg: String)
    ensures
        arg@ == flag_argument(flag),
{
    match flag {
        Some(true) => "true".to_owned(),
        Some(false) => "false".to_owned(),
        None => String::new(),
    }
}

impl View for ColorConfig {
    type V = ColorSettings;

    open spec fn view(&self) -> ColorSettings {
        ColorSettings {
            background: self.background@,
            primary: self.primary@,
            secondary: self.secondary@,
            text: self.text@,
            accent: self.accent@,
            last_wallpaper: text_of(self.last_wallpaper),
            color_preset: text_of(self.color_preset),
            sidebar_position: text_of(self.sidebar_position),
            notifications_enabled: self.notifications_enabled,
            notification_sounds_enabled: self.notification_sounds_enabled,
            sidebar_visible: self.sidebar_visible,
            rounding: text_of(self.rounding),
            show_hidden_files: self.show_hidden_files,
        }
    }
}

impl Default for ColorConfig {
    fn default() -> (config: Self)
        ensures
            config@ == default_settings(),
    {
        ColorConfig {
            background: "#0a0a0a".to_owned(),
            primary: "#1a1a1a".to_owned(),
            secondary: "#121212".to_owned(),
            text: "#ffffff".to_owned(),
            accent: "#4a9eff".to_owned(),
            last_wallpaper: None,
            color_preset: None,
            sidebar_position: Some("left".to_owned()),
            notifications_enabled: Some(true),
            notification_sounds_enabled: Some(true),
            sidebar_visible: Some(true),
            rounding: Some("rounded".to_owned()),
            show_hidden_files: Some(false),
        }
    }
}

impl ColorConfig {
    /// Reads a colour written as `#rrggbb` into its red, green and blue,
    /// each from 0 to 255; gives nothing for a text that writes no colour.
    pub fn hex_to_rgb(hex: &str) -> (rgb: Option<(u8, u8, u8)>)
        ensures
            rgb == rgb_of(hex@),
    {
        let chars = chars_of(hex);
        let n: usize = chars.len();
        let mut start: usize = 0;
        assert(chars@.subrange(0, n as int) =~= chars@);
        while start < n && chars[start] == '#'
            invariant
                n == chars@.len(),
                start <= n,
                strip_hashes(chars@) == strip_hashes(chars@.subrange(start as int, n as int)),
            decreases n - start,
        {
            assert(chars@.subrange(start as int, n as int).drop_first() =~= chars@.subrange(
                start + 1,
                n as int,
            ));
            start += 1;
        }
        if n - start != 6 {
            return None;
        }
        let red = parse_channel(chars[start], chars[start + 1]);
        let green = parse_channel(chars[start + 2], chars[start + 3]);
        let blue = parse_channel(chars[start + 4], chars[start + 5]);
        match (red, green, blue) {
            (Some(r), Some(g), Some(b)) => Some((r, g, b)),
            _ => None,
        }
    }

    /// The accent colour as red, green and blue.
    pub fn accent_rgb(&self) -> (rgb: Option<(u8, u8, u8)>)
        ensures
            rgb == rgb_of(self@.accent),
    {
        Self::hex_to_rgb(self.accent.as_str())
    }

    /// The primary colour as red, green and blue.
    pub fn primary_rgb(&self) -> (rgb: Option<(u8, u8, u8)>)
        ensures
            rgb == rgb_of(self@.primary),
    {
        Self::hex_to_rgb(self.primary.as_str())
    }

    /// The secondary colour as red, green and blue.
    pub fn secondary_rgb(&self) -> (rgb: Option<(u8, u8, u8)>)
        ensures
            rgb == rgb_of(self@.secondary),
    {
        Self::hex_to_rgb(self.secondary.as_str())
    }

    /// The arguments for the script that saves the settings: the script, the
    /// five colours, the file to write, and then each preference, empty
    /// where it is absent.
    pub fn save_arguments(&self, script_path: &str, config_path: &str) -> (args: Vec<String>)
        ensures
            texts_of(args@) == script_arguments(self@, script_path@, config_path@),
    {
        let mut args: Vec<String> = Vec::new();
        args.push(script_path.to_owned());
        args.push(self.background.clone());
        args.push(self.primary.clone());
        args.push(self.secondary.clone());
        args.push(self.text.clone());
        args.push(self.accent.clone());
        args.push(config_path.to_owned());
        args.push(text_arg(&self.last_wallpaper));
        args.push(text_arg(&self.color_preset));
        args.push(text_arg(&self.sidebar_position));
        args.push(flag_arg(self.notifications_enabled));
        args.push(flag_arg(self.notification_sounds_enabled));
        args.push(flag_arg(self.sidebar_visible));
        args.push(text_arg(&self.rounding));
        args.push(flag_arg(self.show_hidden_files));
        assert(texts_of(args@) =~= script_arguments(self@, script_path@, config_path@));
        args
    }

    /// Replaces the five colours and leaves the preferences as they are.
    pub fn update_colors(
        &mut self,
        background: &str,
        primary: &str,
        secondary: &str,
        text: &str,
        accent: &str,
    )
        ensures
            final(self)@ == (ColorSettings {
                background: background@,
                primary: primary@,
                secondary: secondary@,
                text: text@,
                accent: accent@,
                ..old(self)@
            }),
    {
        self.background = background.to_owned();
        self.primary = primary.to_owned();
        self.secondary = secondary.to_owned();
        self.text = text.to_owned();
        self.accent = accent.to_owned();
    }

    /// Records `wallpaper_path` as the wallpaper last chosen.
    pub fn set_wallpaper(&mut self, wallpaper_path: &str)
        ensures
            final(self)@ == (ColorSettings { last_wallpaper: Some(wallpaper_path@), ..old(self)@ }),
    {
        self.last_wallpaper = Some(wallpaper_path.to_owned());
    }

    /// Records `preset_name` as the colour preset in use.
    pub fn set_preset(&mut self, preset_name: &str)
        ensures
            final(self)@ == (ColorSettings { color_preset: Some(preset_name@), ..old(self)@ }),
    {
        self.color_preset = Some(preset_name.to_owned());
    }

    /// Records on which side the sidebar stands.
    pub fn set_sidebar_position(&mut self, position: &str)
        ensures
            final(self)@ == (ColorSettings { sidebar_position: Some(position@), ..old(self)@ }),
    {
        self.sidebar_position = Some(position.to_owned());
    }

    /// Records whether notifications are shown.
    pub fn set_notifications_enabled(&mut self, enabled: bool)
        ensures
            final(self)@ == (ColorSettings { notifications_enabled: Some(enabled), ..old(self)@ }),
    {
        self.notifications_enabled = Some(enabled);
    }

    /// Records whether notifications make a sound.
    pub fn set_notification_sounds_enabled(&mut self, enabled: bool)
        ensures
            final(self)@ == (ColorSettings {
                notification_sounds_enabled: Some(enabled),
                ..old(self)@
            }),
    {
        self.notification_sounds_enabled = Some(enabled);
    }

    /// Records whether the sidebar is shown.
    pub fn set_sidebar_visible(&mut self, visible: bool)
        ensures
            final(self)@ == (ColorSettings { sidebar_visible: Some(visible), ..old(self)@ }),
    {
        self.sidebar_visible = Some(visible);
    }

    /// Records the corner style.
    pub fn set_rounding(&mut self, rounding: &str)
        ensures
            final(self)@ == (ColorSettings { rounding: Some(rounding@), ..old(self)@ }),
    {
        self.rounding = Some(rounding.to_owned());
    }

    /// Records whether the file manager lists hidden files.
    pub fn set_show_hidden_files(&mut self, show_hidden: bool)
        ensures
            final(self)@ == (ColorSettings { show_hidden_files: Some(show_hidden), ..old(self)@ }),
    {
        self.show_hidden_files = Some(show_hidden);
    }
}

} // verus!
