use vitals::config::ColorConfig;
use vitals::theme::{
    apply_colors, dynamic_css, keep_or_replace, recolour, square_corners, wants_square_corners,
};

const BASE: &str = "@define-color window_bg_color #242424;\n\
@define-color window_fg_color #ffffff;\n\
@define-color headerbar_bg_color #303030;\n\
@define-color headerbar_fg_color #ffffff;\n\
@define-color card_bg_color #383838;\n\
@define-color card_fg_color #ffffff;\n\
@define-color accent_bg_color #3584e4;\n\
@define-color accent_color #3584e4;\n\
@define-color sidebar_bg_color #2a2a2a;\n\
@define-color view_bg_color #1e1e1e;\n\
.card { border-radius: 12px; padding: 4px; }\n\
.pill { border-radius:9999px ; }\n";

fn config() -> ColorConfig {
    let mut c = ColorConfig::default();
    c.update_colors("#000001", "#000002", "#000003", "#000004", "#000005");
    c
}

#[test]
fn recolour_changes_the_named_variable_only() {
    let css = "@define-color a #111111;\n@define-color b #111111;\n";
    assert_eq!(
        recolour(css, "b", "#111111", "#abcdef"),
        "@define-color a #111111;\n@define-color b #abcdef;\n"
    );
    assert_eq!(recolour(css, "b", "#222222", "#abcdef"), css);
    assert_eq!(
        recolour("@define-color a #1;@define-color a #1;", "a", "#1", "#2"),
        "@define-color a #2;@define-color a #2;"
    );
}

#[test]
fn apply_colors_sets_every_variable() {
    let expected = "@define-color window_bg_color #000001;\n\
@define-color window_fg_color #000004;\n\
@define-color headerbar_bg_color #000002;\n\
@define-color headerbar_fg_color #000004;\n\
@define-color card_bg_color #000003;\n\
@define-color card_fg_color #000004;\n\
@define-color accent_bg_color #000005;\n\
@define-color accent_color #000005;\n\
@define-color sidebar_bg_color #000003;\n\
@define-color view_bg_color #000001;\n\
.card { border-radius: 12px; padding: 4px; }\n\
.pill { border-radius:9999px ; }\n";
    assert_eq!(apply_colors(BASE, &config()), expected);
}

#[test]
fn square_corners_flattens_every_radius() {
    assert_eq!(
        square_corners(".card { border-radius: 12px; padding: 4px; }".to_string()),
        ".card { border-radius: 0px; padding: 4px; }"
    );
    assert_eq!(
        square_corners("a{border-radius:1px 2px;}b{border-radius:\n50%;}".to_string()),
        "a{border-radius: 0px;}b{border-radius: 0px;}"
    );
    assert_eq!(square_corners("a{border-radius:;}".to_string()), "a{border-radius:;}");
    assert_eq!(square_corners("a{color: red;}".to_string()), "a{color: red;}");
}

#[test]
fn keep_or_replace_prefers_the_squared_sheet() {
    assert_eq!(keep_or_replace("a".to_string(), Some("b".to_string())), "b");
    assert_eq!(keep_or_replace("a".to_string(), None), "a");
}

#[test]
fn rounding_decides_on_square_corners() {
    let mut c = config();
    assert!(!wants_square_corners(&c));
    let rounded = dynamic_css(BASE, &c);
    assert!(rounded.contains("border-radius: 12px;"));
    assert!(rounded.contains("@define-color view_bg_color #000001;"));
    c.set_rounding("sharp");
    assert!(wants_square_corners(&c));
    let sharp = dynamic_css(BASE, &c);
    assert!(sharp.contains(".card { border-radius: 0px; padding: 4px; }"));
    assert!(sharp.contains(".pill { border-radius: 0px; }"));
    assert!(sharp.contains("@define-color accent_color #000005;"));
    c.rounding = None;
    assert!(!wants_square_corners(&c));
    assert_eq!(dynamic_css(BASE, &c), rounded);
}
