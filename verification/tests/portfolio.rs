use portfolio::fonts::planned_fonts;
use portfolio::fonts::font_family_name;
use portfolio::fonts::FontFallbacks;
use portfolio::frame::debug_label;
use portfolio::frame::name_label;
use portfolio::frame::BAR_SPACING_POINTS;
use portfolio::frame::HEADING_FONT_POINTS;
use portfolio::frame::NAME_FONT_POINTS;
use portfolio::frame::TOGGLE_ICON_POINTS;
use portfolio::theme::theme_after_click;
use portfolio::theme::toggle_glyph;
use portfolio::Portfolio;

#[test]
fn toggle_flips_once() {
    assert_eq!(theme_after_click(false), true);
    assert_eq!(theme_after_click(true), false);
}

#[test]
fn toggle_even_times_restores_odd_times_flips() {
    for start in [false, true] {
        let mut mode = start;
        for clicks in 1..=8 {
            mode = theme_after_click(mode);
            if clicks % 2 == 0 {
                assert_eq!(mode, start);
            } else {
                assert_eq!(mode, !start);
            }
        }
    }
}

#[test]
fn glyph_is_sun_in_dark_mode_and_moon_in_light_mode() {
    assert_eq!(toggle_glyph(true), '\u{1F505}');
    assert_eq!(toggle_glyph(false), '\u{1F319}');
}

#[test]
fn debug_label_spells_out_the_theme_boolean() {
    assert_eq!(debug_label(true), "true");
    assert_eq!(debug_label(false), "false");
}

#[test]
fn update_plan_without_click_keeps_theme() {
    let app = Portfolio::default();
    let plan = app.update_plan(true, false);
    assert_eq!(plan.glyph, '\u{1F505}');
    assert_eq!(plan.next_dark_mode, true);
    assert_eq!(plan.debug_label, "true");

    let plan = app.update_plan(false, false);
    assert_eq!(plan.glyph, '\u{1F319}');
    assert_eq!(plan.next_dark_mode, false);
    assert_eq!(plan.debug_label, "false");
}

#[test]
fn update_plan_with_click_flips_theme_and_label_follows() {
    let app = Portfolio::default();
    let plan = app.update_plan(true, true);
    assert_eq!(plan.glyph, '\u{1F505}');
    assert_eq!(plan.next_dark_mode, false);
    assert_eq!(plan.debug_label, "false");

    let plan = app.update_plan(false, true);
    assert_eq!(plan.glyph, '\u{1F319}');
    assert_eq!(plan.next_dark_mode, true);
    assert_eq!(plan.debug_label, "true");
}

#[test]
fn two_clicked_frames_restore_the_starting_theme() {
    let app = Portfolio::default();
    let first = app.update_plan(false, true);
    let second = app.update_plan(first.next_dark_mode, true);
    assert_eq!(second.next_dark_mode, false);
}

#[test]
fn font_name_is_fixed() {
    assert_eq!(font_family_name(), "MesloLGS");
}

fn sample_defaults() -> FontFallbacks {
    FontFallbacks {
        proportional: vec!["Ubuntu-Light".to_string(), "emoji-icon-font".to_string()],
        monospace: vec!["Hack".to_string()],
    }
}

#[test]
fn bootstrap_puts_custom_family_first_proportional_and_last_monospace() {
    let planned = planned_fonts(sample_defaults());
    assert_eq!(
        planned.proportional,
        vec![
            "MesloLGS".to_string(),
            "Ubuntu-Light".to_string(),
            "emoji-icon-font".to_string(),
        ]
    );
    assert_eq!(
        planned.monospace,
        vec!["Hack".to_string(), "MesloLGS".to_string()]
    );
}

#[test]
fn bootstrap_from_empty_defaults() {
    let planned = planned_fonts(FontFallbacks { proportional: vec![], monospace: vec![] });
    assert_eq!(planned.proportional, vec!["MesloLGS".to_string()]);
    assert_eq!(planned.monospace, vec!["MesloLGS".to_string()]);
}

#[test]
fn bootstrap_twice_installs_the_same_ordering_without_duplicates() {
    let first = planned_fonts(sample_defaults());
    let second = planned_fonts(sample_defaults());
    assert_eq!(first.proportional, second.proportional);
    assert_eq!(first.monospace, second.monospace);
    let dup = |names: &Vec<String>| names.iter().filter(|n| n.as_str() == "MesloLGS").count();
    assert_eq!(dup(&second.proportional), 1);
    assert_eq!(dup(&second.monospace), 1);
}

#[test]
fn name_label_is_the_owner_name() {
    assert_eq!(name_label(), "I'M JORGE ALEJANDRO JIM\u{c9}NEZ LUNA");
}

#[test]
fn style_constants_match_the_window_design() {
    assert_eq!(HEADING_FONT_POINTS, 35);
    assert_eq!(TOGGLE_ICON_POINTS, 30);
    assert_eq!(NAME_FONT_POINTS, 32);
    assert_eq!(BAR_SPACING_POINTS, 5);
}
