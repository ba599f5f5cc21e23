//! The style sheet of the file manager, recoloured from the settings.

use crate::config::{ColorConfig, ColorSettings};
use vstd::prelude::*;
use vstd::string::StringExecFns;

verus! {

/// What `str::replace` gives: `text` with every occurrence of `from`, found
/// from left to right, replaced by `to`.
pub uninterp spec fn replaced(text: Seq<char>, from: Seq<char>, to: Seq<char>) -> Seq<char>;

/// What `Regex::replace_all` gives for the regular expression `pattern`:
/// `text` with every match replaced by `replacement`; nothing where `pattern`
/// is no regular expression.
pub uninterp spec fn regex_replaced(
    pattern: Seq<char>,
    text: Seq<char>,
    replacement: Seq<char>,
) -> Option<Seq<char>>;

/// Calls `str::replace` of the standard library. The contract only names the
/// result: it is the text that `replace` returns for these three arguments.
#[verifier::external_body]
fn replace_text(text: &str, from: &str, to: &str) -> (out: String)
    ensures
        out@ == replaced(text@, from@, to@),
{
    text.replace(from, to)
}

/// Compiles `pattern` with `regex::Regex::new` and calls
/// `regex::Regex::replace_all` on `text`. The contract only names the result:
/// the text that `replace_all` returns, and nothing where `Regex::new`
/// refuses the pattern.
#[verifier::external_body]
fn replace_matches(pattern: &str, text: &str, replacement: &str) -> (out: Option<String>)
    ensures
        out is Some == regex_replaced(pattern@, text@, replacement@) is Some,
        out is Some ==> out->0@ == regex_replaced(pattern@, text@, replacement@)->0,
{
    match regex::Regex::new(pattern) {
        Ok(re) => Some(re.replace_all(text, replacement).into_owned()),
        Err(_) => None,
    }
}

/// The definition of the colour variable `variable` as `colour`, as a style
/// sheet writes it.
pub open spec fn definition(variable: Seq<char>, colour: Seq<char>) -> Seq<char> {
    "@define-color "@ + variable + " "@ + colour
}

/// `css` with the definition of `variable` changed from the stock colour to
/// `colour`.
pub open spec fn recoloured(
    css: Seq<char>,
    variable: Seq<char>,
    stock: Seq<char>,
    colour: Seq<char>,
) -> Seq<char> {
    replaced(css, definition(variable, stock), definition(variable, colour))
}

/// `css` with every colour variable set from `settings`: window and view take
/// the background, text colours the text, the header bar the primary, cards
/// and sidebar the secondary, and accents the accent colour.
pub open spec fn themed(css: Seq<char>, settings: ColorSettings) -> Seq<char> {
    let css = recoloured(css, "window_bg_color"@, "#242424"@, settings.background);
    let css = recoloured(css, "window_fg_color"@, "#ffffff"@, settings.text);
    let css = recoloured(css, "headerbar_bg_color"@, "#303030"@, settings.primary);
    let css = recoloured(css, "headerbar_fg_color"@, "#ffffff"@, settings.text);
    let css = recoloured(css, "card_bg_color"@, "#383838"@, settings.secondary);
    let css = recoloured(css, "card_fg_color"@, "#ffffff"@, settings.text);
    let css = recoloured(css, "accent_bg_color"@, "#3584e4"@, settings.accent);
    let css = recoloured(css, "accent_color"@, "#3584e4"@, settings.accent);
    let css = recoloured(css, "sidebar_bg_color"@, "#2a2a2a"@, settings.secondary);
    recoloured(css, "view_bg_color"@, "#1e1e1e"@, settings.background)
}

/// `css` as it stands once `squared` came back from the attempt to square its
/// corners: the squared text, or `css` itself where there is none.
pub open spec fn squared_or_same(css: Seq<char>, squared: Option<Seq<char>>) -> Seq<char> {
    match squared {
        Some(s) => s,
        None => css,
    }
}

/// `css` with every `border-radius` declaration set to `0px`.
pub open spec fn squared(css: Seq<char>) -> Seq<char> {
    squared_or_same(css, regex_replaced("border-radius:\\s*[^;]+;"@, css, "border-radius: 0px;"@))
}

/// The style sheet that the settings ask for: the base sheet recoloured,
/// and with square corners where the rounding is set to "sharp".
pub open spec fn styled(base_css: Seq<char>, settings: ColorSettings) -> Seq<char> {
    if settings.rounding == Some("sharp"@) {
        squared(themed(base_css, settings))
    } else {
        themed(base_css, settings)
    }
}

/// Sets the colour variable `variable`, which `css` defines as `stock`, to
/// `colour`.
pub fn recolour(css: &str, variable: &str, stock: &str, colour: &str) -> (out: String)
    ensures
        out@ == recoloured(css@, variable@, stock@, colour@),
{
    let head = "@define-color ".to_owned().concat(variable).concat(" ");
    let from = head.clone().concat(stock);
    let to = head.concat(colour);
    replace_text(css, from.as_str(), to.as_str())
}

/// Sets every colour variable of `base_css` from `config`.
pub fn apply_colors(base_css: &str, config: &ColorConfig) -> (out: String)
    ensures
        out@ == themed(base_css@, config@),
{
    let css = recolour(base_css, "window_bg_color", "#242424", config.background.as_str());
    let css = recolour(css.as_str(), "window_fg_color", "#ffffff", config.text.as_str());
    let css = recolour(css.as_str(), "headerbar_bg_color", "#303030", config.primary.as_str());
    let css = recolour(css.as_str(), "headerbar_fg_color", "#ffffff", config.text.as_str());
    let css = recolour(css.as_str(), "card_bg_color", "#383838", config.secondary.as_str());
    let css = recolour(css.as_str(), "card_fg_color", "#ffffff", config.text.as_str());
    let css = recolour(css.as_str(), "accent_bg_color", "#3584e4", config.accent.as_str());
    let css = recolour(css.as_str(), "accent_color", "#3584e4", config.accent.as_str());
    let css = recolour(css.as_str(), "sidebar_bg_color", "#2a2a2a", config.secondary.as_str());
    recolour(css.as_str(), "view_bg_color", "#1e1e1e", config.background.as_str())
}

/// Settles what an attempt to square the corners of `css` gave: the squared
/// sheet where there is one, else `css` as it was.
pub fn keep_or_replace(css: String, squared: Option<String>) -> (out: String)
    ensures
        out@ == squared_or_same(
            css@,
            match squared {
                Some(s) => Some(s@),
                None => None,
            },
        ),
{
    match squared {
        Some(s) => s,
        None => css,
    }
}

/// Sets every `border-radius` declaration of `css` to `0px`.
pub fn square_corners(css: String) -> (out: String)
    ensures
        out@ == squared(css@),
{
    let result = replace_matches(
        "border-radius:\\s*[^;]+;",
        css.as_str(),
        "border-radius: 0px;",
    );
    keep_or_replace(css, result)
}

/// Whether `config` asks for square corners.
pub fn wants_square_corners(config: &ColorConfig) -> (sharp: bool)
    ensures
        sharp == (config@.rounding == Some("sharp"@)),
{
    match &config.rounding {
        Some(rounding) => *rounding == "sharp".to_owned(),
        None => false,
    }
}

/// The style sheet for `config`: `base_css` with its colours, and with
/// square corners where `config` asks for them.
pub fn dynamic_css(base_css: &str, config: &ColorConfig) -> (out: String)
    ensures
        out@ == styled(base_css@, config@),
{
    let css = apply_colors(base_css, config);
    if wants_square_corners(config) {
        square_corners(css)
    } else {
        css
    }
}

} // verus!
