use egui_material::scroll::clamp_scroll_offset;
use egui_material::theme::{ColorMode, MaterialTheme};
use egui_material::widgets::{
    button_visuals, checkbox_toggle, checkbox_visuals, interaction_state, text_field_colors,
    ButtonPalette, CheckboxPalette, InteractionState, TextFieldPalette, OPAQUE,
};

const SEED: u32 = 0xff6750a4;

#[test]
fn theme_derives_distinct_light_and_dark_schemes() {
    let theme = MaterialTheme::from_argb(SEED, ColorMode::Light);
    let light = theme.get_light_scheme();
    let dark = theme.get_dark_scheme();
    assert_ne!(light.primary, dark.primary);
    assert_ne!(light.surface, dark.surface);
}

#[test]
fn theme_derivation_is_deterministic() {
    let a = MaterialTheme::from_argb(SEED, ColorMode::Light);
    let b = MaterialTheme::from_argb(SEED, ColorMode::Dark);
    assert_eq!(a.get_light_scheme().primary, b.get_light_scheme().primary);
    assert_eq!(a.get_dark_scheme().on_surface, b.get_dark_scheme().on_surface);
}

#[test]
fn mode_selects_the_scheme() {
    let mut theme = MaterialTheme::from_argb(SEED, ColorMode::Light);
    assert!(!theme.get_dark_mode());
    assert_eq!(theme.get().primary, theme.get_light_scheme().primary);
    theme.set_dark_mode(true);
    assert!(theme.get_dark_mode());
    assert_eq!(theme.get().primary, theme.get_dark_scheme().primary);
    let light_primary = theme.get_light_scheme().primary;
    theme.set_dark_mode(false);
    assert_eq!(theme.get_light_scheme().primary, light_primary);
}

#[test]
fn apply_maps_roles_onto_visual_slots() {
    let theme = MaterialTheme::from_argb(SEED, ColorMode::Dark);
    let v = theme.apply();
    let s = theme.get_dark_scheme();
    assert_eq!(v.window_fill, s.surface);
    assert_eq!(v.faint_bg_color, s.surface_container);
    assert_eq!(v.extreme_bg_color, s.surface_variant);
    assert_eq!(v.code_bg_color, s.surface_dim);
    assert_eq!(v.panel_fill, s.surface_container_high);
    assert_eq!(v.warn_fg_color, s.error_container);
    assert_eq!(v.error_fg_color, s.error);
    assert_eq!(v.override_text_color, s.on_surface);
    assert_eq!(v.hyperlink_color, s.primary);
    assert!(v.dark_mode);
}

#[test]
fn interaction_state_priority_order() {
    assert_eq!(interaction_state(true, true, true), InteractionState::Disabled);
    assert_eq!(interaction_state(false, true, true), InteractionState::Pressed);
    assert_eq!(interaction_state(false, false, true), InteractionState::Hovered);
    assert_eq!(interaction_state(false, false, false), InteractionState::Idle);
}

#[test]
fn checkbox_click_toggles_before_paint() {
    let mut checked = false;
    checkbox_toggle(&mut checked, true, false);
    assert!(checked);
    checkbox_toggle(&mut checked, true, false);
    assert!(!checked);
    checkbox_toggle(&mut checked, true, true);
    assert!(!checked);
    checkbox_toggle(&mut checked, false, false);
    assert!(!checked);
}

#[test]
fn button_visual_resolution() {
    let theme = MaterialTheme::from_argb(SEED, ColorMode::Light);
    let p = ButtonPalette::normal(theme.get());
    assert_eq!(p.container_color, theme.get().primary);
    assert_eq!(p.label_color, theme.get().on_primary);

    let pressed = button_visuals(&p, true, true, false);
    assert!(pressed.pressed_rounding);
    let layer = pressed.layer.expect("pressed paints a state layer");
    assert_eq!(layer.color, p.pressed_container_layer_color);
    assert_eq!(layer.opacity, p.pressed_container_layer_opacity);

    let hovered = button_visuals(&p, false, true, false);
    assert!(!hovered.pressed_rounding);
    assert_eq!(hovered.layer.expect("hover paints a state layer").color, p.hovered_container_layer_color);

    let displayed = button_visuals(&p, false, false, true);
    assert_eq!(displayed.base_color, p.displayed_container_color);
    assert_eq!(displayed.fade, Some(p.displayed_container_opacity));

    let idle = button_visuals(&p, false, false, false);
    assert_eq!(idle.base_color, p.container_color);
    assert!(idle.layer.is_none() && idle.fade.is_none());
}

#[test]
fn checkbox_visual_resolution() {
    let theme = MaterialTheme::from_argb(SEED, ColorMode::Light);
    let s = theme.get();
    let p = CheckboxPalette::normal(s);

    let plain = checkbox_visuals(&p, false, false, false, false, false);
    assert!(plain.fill.is_none());
    assert_eq!(plain.outline_color, s.on_surface_variant);
    assert_eq!(plain.outline_width, 2);
    assert!(plain.icon_color.is_none());
    assert!(plain.layer.is_none());

    let checked = checkbox_visuals(&p, true, false, false, false, false);
    assert_eq!(checked.fill.expect("checked box is filled").color, s.primary);
    assert_eq!(checked.outline_width, 0);
    assert_eq!(checked.icon_color, Some(s.on_primary));

    let error = checkbox_visuals(&p, true, false, true, false, false);
    assert_eq!(error.fill.expect("error box is filled").color, s.error);
    assert_eq!(error.icon_color, Some(s.on_error));

    let disabled = checkbox_visuals(&p, true, true, false, true, true);
    assert_eq!(disabled.fill.expect("disabled checked box is filled").color, s.on_surface);
    assert_eq!(disabled.fill.unwrap().opacity, 380);
    assert!(disabled.layer.is_none());

    let hovered = checkbox_visuals(&p, false, false, false, false, true);
    let layer = hovered.layer.expect("hover paints a state layer");
    assert_eq!(layer.color, s.on_surface);
    assert_eq!(layer.opacity, 80);
    assert_eq!(hovered.outline_color, s.on_surface);

    let pressed = checkbox_visuals(&p, true, false, false, true, false);
    let layer = pressed.layer.expect("press paints a state layer");
    assert_eq!(layer.color, s.on_surface);
    assert_eq!(layer.opacity, 100);
    assert_eq!(pressed.icon_color, Some(s.on_primary));
}

#[test]
fn text_field_color_resolution() {
    let theme = MaterialTheme::from_argb(SEED, ColorMode::Light);
    let s = theme.get();
    let p = TextFieldPalette::normal(s);

    let plain = text_field_colors(&p, false, false, false);
    assert_eq!(plain.container_color, s.surface_container_highest);
    assert_eq!(plain.outline_color, s.on_surface_variant);
    assert_eq!(plain.input_color, s.on_surface);
    assert_eq!(plain.container_opacity, OPAQUE);

    let focused = text_field_colors(&p, false, false, true);
    assert_eq!(focused.outline_color, s.primary);

    let error = text_field_colors(&p, false, true, false);
    assert_eq!(error.container_color, s.error_container);
    assert_eq!(error.label_color, s.error);
    assert_eq!(error.input_color, s.on_error_container);

    // Disabled wins over error, and focus does not override its outline.
    let disabled = text_field_colors(&p, true, true, true);
    assert_eq!(disabled.container_color, s.on_surface);
    assert_eq!(disabled.container_opacity, 40);
    assert_eq!(disabled.outline_color, s.on_surface_variant);
    assert_eq!(disabled.label_opacity, 380);
}

#[test]
fn scroll_snaps_right_edge_to_caret() {
    // Content wider than the window; caret beyond the right edge.
    let r = clamp_scroll_offset(0, 250, 100, 300);
    assert_eq!(r, 150);
    assert_eq!(r + 100, 250);
}

#[test]
fn scroll_snaps_window_start_to_caret_on_the_left() {
    let r = clamp_scroll_offset(120, 40, 100, 300);
    assert_eq!(r, 40);
}

#[test]
fn scroll_keeps_offset_when_caret_is_visible() {
    let r = clamp_scroll_offset(50, 100, 100, 300);
    assert_eq!(r, 50);
}

#[test]
fn scroll_clamps_into_content() {
    // Narrow content: the window never starts past zero.
    assert_eq!(clamp_scroll_offset(80, 30, 100, 60), 0);
    // Offset beyond the content end is pulled back.
    assert_eq!(clamp_scroll_offset(500, 500, 100, 300), 200);
}
