//! Widget styling logic: which scheme roles each widget part wears, and how
//! the interaction state picks the colors of a frame.
//!
//! Colors are `0xAARRGGBB` role colors; opacities are in per-mille, applied
//! by the paint layer. Geometry in layout points stays with the paint layer.

use vstd::prelude::*;

use crate::theme::Scheme;

verus! {

/// Full opacity, in per-mille.
pub const OPAQUE: u32 = 1000;

/// A color together with the per-mille opacity the paint layer applies.
#[derive(Clone, Copy, PartialEq, Eq, Structural, Debug)]
pub struct Tint {
    pub color: u32,
    pub opacity: u32,
}

/// The visual state a widget resolves each frame. Disabled wins over
/// pressed, pressed over hovered, hovered over idle.
#[derive(Clone, Copy, PartialEq, Eq, Structural, Debug)]
pub enum InteractionState {
    Disabled,
    Pressed,
    Hovered,
    Idle,
}

/// The visual state for the given input signals.
pub open spec fn spec_interaction_state(disabled: bool, pressed: bool, hovered: bool) -> InteractionState {
    if disabled {
        InteractionState::Disabled
    } else if pressed {
        InteractionState::Pressed
    } else if hovered {
        InteractionState::Hovered
    } else {
        InteractionState::Idle
    }
}

/// Resolve the visual state: disabled > pressed > hovered > idle.
pub fn interaction_state(disabled: bool, pressed: bool, hovered: bool) -> (r: InteractionState)
    ensures
        r == spec_interaction_state(disabled, pressed, hovered),
{
    if disabled {
        InteractionState::Disabled
    } else if pressed {
        InteractionState::Pressed
    } else if hovered {
        InteractionState::Hovered
    } else {
        InteractionState::Idle
    }
}

/// A completed click on an enabled checkbox flips its value, synchronously,
/// so the same frame paints the new value.
pub fn checkbox_toggle(checked: &mut bool, clicked: bool, disabled: bool)
    ensures
        *final(checked) == if clicked && !disabled {
            !*old(checked)
        } else {
            *old(checked)
        },
{
    if !disabled && clicked {
        *checked = !*checked;
    }
}

/// The role colors and opacities of a button.
#[derive(Clone, Copy, PartialEq, Eq, Structural, Debug)]
pub struct ButtonPalette {
    pub container_color: u32,
    pub shadow_color: u32,
    pub label_color: u32,
    pub icon_color: u32,
    pub displayed_container_color: u32,
    pub displayed_container_opacity: u32,
    pub displayed_label_color: u32,
    pub displayed_label_opacity: u32,
    pub displayed_icon_color: u32,
    pub displayed_icon_opacity: u32,
    pub hovered_container_layer_color: u32,
    pub hovered_container_layer_opacity: u32,
    pub hovered_label_color: u32,
    pub hovered_icon_color: u32,
    pub pressed_container_layer_color: u32,
    pub pressed_container_layer_opacity: u32,
    pub pressed_label_color: u32,
    pub pressed_icon_color: u32,
}

/// The default button palette for a scheme: a filled primary button.
pub open spec fn button_palette_normal(s: Scheme) -> ButtonPalette {
    ButtonPalette {
        container_color: s.primary,
        shadow_color: s.shadow,
        label_color: s.on_primary,
        icon_color: s.on_primary,
        displayed_container_color: s.on_surface,
        displayed_container_opacity: 100,
        displayed_label_color: s.on_surface,
        displayed_label_opacity: 380,
        displayed_icon_color: s.on_surface,
        displayed_icon_opacity: 380,
        hovered_container_layer_color: s.on_primary,
        hovered_container_layer_opacity: 80,
        hovered_label_color: s.on_primary,
        hovered_icon_color: s.on_primary,
        pressed_container_layer_color: s.on_primary,
        pressed_container_layer_opacity: 100,
        pressed_label_color: s.on_primary,
        pressed_icon_color: s.on_primary,
    }
}

impl ButtonPalette {
    /// Default button colors for a scheme.
    pub fn normal(scheme: &Scheme) -> (r: Self)
        ensures
            r == button_palette_normal(*scheme),
    {
        ButtonPalette {
            container_color: scheme.primary,
            shadow_color: scheme.shadow,
            label_color: scheme.on_primary,
            icon_color: scheme.on_primary,
            displayed_container_color: scheme.on_surface,
            displayed_container_opacity: 100,
            displayed_label_color: scheme.on_surface,
            displayed_label_opacity: 380,
            displayed_icon_color: scheme.on_surface,
            displayed_icon_opacity: 380,
            hovered_container_layer_color: scheme.on_primary,
            hovered_container_layer_opacity: 80,
            hovered_label_color: scheme.on_primary,
            hovered_icon_color: scheme.on_primary,
            pressed_container_layer_color: scheme.on_primary,
            pressed_container_layer_opacity: 100,
            pressed_label_color: scheme.on_primary,
            pressed_icon_color: scheme.on_primary,
        }
    }
}

/// The paint choices of one button frame: the base fill, an optional state
/// layer blended over it, an optional fade, and which corner rounding to
/// use.
#[derive(Clone, Copy, PartialEq, Eq, Structural, Debug)]
pub struct ButtonVisuals {
    pub base_color: u32,
    /// A state layer blended toward the base: color and per-mille strength.
    pub layer: Option<Tint>,
    /// A whole-button fade, per-mille, for the displayed (inactive) look.
    pub fade: Option<u32>,
    /// Pressed buttons use the tighter corner rounding.
    pub pressed_rounding: bool,
    pub label_color: u32,
}

/// The button's paint choices for the frame's input signals: pressed wins
/// over hovered, hovered over the displayed look, else the plain container.
pub open spec fn spec_button_visuals(p: ButtonPalette, pressed: bool, hovering: bool, display: bool) -> ButtonVisuals {
    ButtonVisuals {
        base_color: if pressed || hovering {
            p.container_color
        } else if display {
            p.displayed_container_color
        } else {
            p.container_color
        },
        layer: if pressed {
            Some(Tint { color: p.pressed_container_layer_color, opacity: p.pressed_container_layer_opacity })
        } else if hovering {
            Some(Tint { color: p.hovered_container_layer_color, opacity: p.hovered_container_layer_opacity })
        } else {
            None
        },
        fade: if !pressed && !hovering && display {
            Some(p.displayed_container_opacity)
        } else {
            None
        },
        pressed_rounding: pressed,
        label_color: p.label_color,
    }
}

/// Resolve a button's paint choices.
pub fn button_visuals(p: &ButtonPalette, pressed: bool, hovering: bool, display: bool) -> (r:
    ButtonVisuals)
    ensures
        r == spec_button_visuals(*p, pressed, hovering, display),
{
    if pressed {
        ButtonVisuals {
            base_color: p.container_color,
            layer: Some(Tint { color: p.pressed_container_layer_color, opacity: p.pressed_container_layer_opacity }),
            fade: None,
            pressed_rounding: true,
            label_color: p.label_color,
        }
    } else if hovering {
        ButtonVisuals {
            base_color: p.container_color,
            layer: Some(Tint { color: p.hovered_container_layer_color, opacity: p.hovered_container_layer_opacity }),
            fade: None,
            pressed_rounding: false,
            label_color: p.label_color,
        }
    } else if display {
        ButtonVisuals {
            base_color: p.displayed_container_color,
            layer: None,
            fade: Some(p.displayed_container_opacity),
            pressed_rounding: false,
            label_color: p.label_color,
        }
    } else {
        ButtonVisuals {
            base_color: p.container_color,
            layer: None,
            fade: None,
            pressed_rounding: false,
            label_color: p.label_color,
        }
    }
}

/// The role colors, widths and opacities of a checkbox.
#[derive(Clone, Copy, PartialEq, Eq, Structural, Debug)]
pub struct CheckboxPalette {
    pub unselected_outline_color: u32,
    pub unselected_outline_width: u32,
    pub selected_container_color: u32,
    pub selected_outline_width: u32,
    pub unselected_error_outline_color: u32,
    pub selected_error_container_color: u32,
    pub icon_selected_color: u32,
    pub icon_selected_error_color: u32,
    pub disabled_unselected_outline_color: u32,
    pub disabled_unselected_outline_width: u32,
    pub disabled_selected_container_color: u32,
    pub disabled_selected_container_opacity: u32,
    pub disabled_selected_outline_width: u32,
    pub disabled_selected_icon_color: u32,
    pub hovered_unselected_outline_color: u32,
    pub hovered_unselected_outline_width: u32,
    pub hovered_selected_outline_width: u32,
    pub hovered_selected_layer_color: u32,
    pub hovered_selected_layer_opacity: u32,
    pub hovered_unselected_layer_color: u32,
    pub hovered_unselected_layer_opacity: u32,
    pub hovered_selected_icon_color: u32,
    pub hovered_error_icon_color: u32,
    pub pressed_unselected_outline_color: u32,
    pub pressed_unselected_outline_width: u32,
    pub pressed_selected_outline_width: u32,
    pub pressed_unselected_layer_color: u32,
    pub pressed_unselected_layer_opacity: u32,
    pub pressed_selected_layer_color: u32,
    pub pressed_selected_layer_opacity: u32,
    pub pressed_selected_icon_color: u32,
    pub pressed_error_icon_color: u32,
}

/// The default checkbox palette for a scheme.
pub open spec fn checkbox_palette_normal(s: Scheme) -> CheckboxPalette {
    CheckboxPalette {
        unselected_outline_color: s.on_surface_variant,
        unselected_outline_width: 2,
        selected_container_color: s.primary,
        selected_outline_width: 0,
        unselected_error_outline_color: s.error,
        selected_error_container_color: s.error,
        icon_selected_color: s.on_primary,
        icon_selected_error_color: s.on_error,
        disabled_unselected_outline_color: s.on_surface,
        disabled_unselected_outline_width: 2,
        disabled_selected_container_color: s.on_surface,
        disabled_selected_container_opacity: 380,
        disabled_selected_outline_width: 0,
        disabled_selected_icon_color: s.on_surface,
        hovered_unselected_outline_color: s.on_surface,
        hovered_unselected_outline_width: 2,
        hovered_selected_outline_width: 0,
        hovered_selected_layer_color: s.primary,
        hovered_selected_layer_opacity: 80,
        hovered_unselected_layer_color: s.on_surface,
        hovered_unselected_layer_opacity: 80,
        hovered_selected_icon_color: s.on_primary,
        hovered_error_icon_color: s.on_error,
        pressed_unselected_outline_color: s.on_surface,
        pressed_unselected_outline_width: 2,
        pressed_selected_outline_width: 0,
        pressed_unselected_layer_color: s.primary,
        pressed_unselected_layer_opacity: 100,
        pressed_selected_layer_color: s.on_surface,
        pressed_selected_layer_opacity: 100,
        pressed_selected_icon_color: s.on_primary,
        pressed_error_icon_color: s.on_error,
    }
}

impl CheckboxPalette {
    /// Default checkbox colors for a scheme.
    pub fn normal(scheme: &Scheme) -> (r: Self)
        ensures
            r == checkbox_palette_normal(*scheme),
    {
        CheckboxPalette {
            unselected_outline_color: scheme.on_surface_variant,
            unselected_outline_width: 2,
            selected_container_color: scheme.primary,
            selected_outline_width: 0,
            unselected_error_outline_color: scheme.error,
            selected_error_container_color: scheme.error,
            icon_selected_color: scheme.on_primary,
            icon_selected_error_color: scheme.on_error,
            disabled_unselected_outline_color: scheme.on_surface,
            disabled_unselected_outline_width: 2,
            disabled_selected_container_color: scheme.on_surface,
            disabled_selected_container_opacity: 380,
            disabled_selected_outline_width: 0,
            disabled_selected_icon_color: scheme.on_surface,
            hovered_unselected_outline_color: scheme.on_surface,
            hovered_unselected_outline_width: 2,
            hovered_selected_outline_width: 0,
            hovered_selected_layer_color: scheme.primary,
            hovered_selected_layer_opacity: 80,
            hovered_unselected_layer_color: scheme.on_surface,
            hovered_unselected_layer_opacity: 80,
            hovered_selected_icon_color: scheme.on_primary,
            hovered_error_icon_color: scheme.on_error,
            pressed_unselected_outline_color: scheme.on_surface,
            pressed_unselected_outline_width: 2,
            pressed_selected_outline_width: 0,
            pressed_unselected_layer_color: scheme.primary,
            pressed_unselected_layer_opacity: 100,
            pressed_selected_layer_color: scheme.on_surface,
            pressed_selected_layer_opacity: 100,
            pressed_selected_icon_color: scheme.on_primary,
            pressed_error_icon_color: scheme.on_error,
        }
    }
}

/// The paint choices of one checkbox frame. Fills and the layer carry a
/// per-mille opacity the paint layer applies; `None` paints nothing.
#[derive(Clone, Copy, PartialEq, Eq, Structural, Debug)]
pub struct CheckboxVisuals {
    pub fill: Option<Tint>,
    pub outline_color: u32,
    pub outline_opacity: u32,
    pub outline_width: u32,
    pub icon_color: Option<u32>,
    pub layer: Option<Tint>,
}

/// The larger of two opacities.
pub open spec fn opacity_max(a: u32, b: u32) -> u32 {
    if a >= b {
        a
    } else {
        b
    }
}

/// The checkbox's paint choices: the disabled look ignores pointer state;
/// otherwise the base look follows checked and error, and a press or hover
/// adds its state layer and outline and icon overrides. The error flag picks
/// colors inside the active branch, never the branch itself.
pub open spec fn spec_checkbox_visuals(
    p: CheckboxPalette,
    checked: bool,
    disabled: bool,
    error: bool,
    pressed: bool,
    hovering: bool,
) -> CheckboxVisuals {
    if disabled {
        if checked {
            CheckboxVisuals {
                fill: Some(
                    Tint {
                        color: p.disabled_selected_container_color,
                        opacity: p.disabled_selected_container_opacity,
                    },
                ),
                outline_color: p.disabled_selected_container_color,
                outline_opacity: p.disabled_selected_container_opacity,
                outline_width: p.disabled_selected_outline_width,
                icon_color: Some(p.disabled_selected_icon_color),
                layer: None,
            }
        } else {
            CheckboxVisuals {
                fill: None,
                outline_color: p.disabled_unselected_outline_color,
                outline_opacity: OPAQUE,
                outline_width: p.disabled_unselected_outline_width,
                icon_color: None,
                layer: None,
            }
        }
    } else {
        let fill_color = if error {
            p.selected_error_container_color
        } else {
            p.selected_container_color
        };
        let base = if checked {
            CheckboxVisuals {
                fill: Some(Tint { color: fill_color, opacity: OPAQUE }),
                outline_color: fill_color,
                outline_opacity: OPAQUE,
                outline_width: p.selected_outline_width,
                icon_color: Some(
                    if error {
                        p.icon_selected_error_color
                    } else {
                        p.icon_selected_color
                    },
                ),
                layer: None,
            }
        } else {
            CheckboxVisuals {
                fill: None,
                outline_color: if error {
                    p.unselected_error_outline_color
                } else {
                    p.unselected_outline_color
                },
                outline_opacity: OPAQUE,
                outline_width: p.unselected_outline_width,
                icon_color: None,
                layer: None,
            }
        };
        if pressed {
            CheckboxVisuals {
                layer: Some(
                    Tint {
                        color: if checked {
                            p.pressed_selected_layer_color
                        } else {
                            p.pressed_unselected_layer_color
                        },
                        opacity: opacity_max(
                            p.pressed_selected_layer_opacity,
                            p.pressed_unselected_layer_opacity,
                        ),
                    },
                ),
                outline_color: if !checked {
                    p.pressed_unselected_outline_color
                } else {
                    base.outline_color
                },
                outline_opacity: base.outline_opacity,
                outline_width: if !checked {
                    p.pressed_unselected_outline_width
                } else {
                    p.pressed_selected_outline_width
                },
                icon_color: if checked {
                    Some(p.pressed_selected_icon_color)
                } else if error {
                    Some(p.pressed_error_icon_color)
                } else {
                    base.icon_color
                },
                ..base
            }
        } else if hovering {
            CheckboxVisuals {
                layer: Some(
                    Tint {
                        color: if checked {
                            p.hovered_selected_layer_color
                        } else {
                            p.hovered_unselected_layer_color
                        },
                        opacity: if checked {
                            p.hovered_selected_layer_opacity
                        } else {
                            p.hovered_unselected_layer_opacity
                        },
                    },
                ),
                outline_color: if !checked {
                    p.hovered_unselected_outline_color
                } else {
                    base.outline_color
                },
                outline_opacity: base.outline_opacity,
                outline_width: if !checked {
                    p.hovered_unselected_outline_width
                } else {
                    p.hovered_selected_outline_width
                },
                icon_color: if checked {
                    Some(p.hovered_selected_icon_color)
                } else if error {
                    Some(p.hovered_error_icon_color)
                } else {
                    base.icon_color
                },
                ..base
            }
        } else {
            base
        }
    }
}

/// Resolve a checkbox's paint choices.
pub fn checkbox_visuals(
    p: &CheckboxPalette,
    checked: bool,
    disabled: bool,
    error: bool,
    pressed: bool,
    hovering: bool,
) -> (r: CheckboxVisuals)
    ensures
        r == spec_checkbox_visuals(*p, checked, disabled, error, pressed, hovering),
{
    if disabled {
        if checked {
            return CheckboxVisuals {
                fill: Some(
                    Tint {
                        color: p.disabled_selected_container_color,
                        opacity: p.disabled_selected_container_opacity,
                    },
                ),
                outline_color: p.disabled_selected_container_color,
                outline_opacity: p.disabled_selected_container_opacity,
                outline_width: p.disabled_selected_outline_width,
                icon_color: Some(p.disabled_selected_icon_color),
                layer: None,
            };
        } else {
            return CheckboxVisuals {
                fill: None,
                outline_color: p.disabled_unselected_outline_color,
                outline_opacity: OPAQUE,
                outline_width: p.disabled_unselected_outline_width,
                icon_color: None,
                layer: None,
            };
        }
    }
    let fill_color = if error {
        p.selected_error_container_color
    } else {
        p.selected_container_color
    };
    let mut r = if checked {
        CheckboxVisuals {
            fill: Some(Tint { color: fill_color, opacity: OPAQUE }),
            outline_color: fill_color,
            outline_opacity: OPAQUE,
            outline_width: p.selected_outline_width,
            icon_color: Some(
                if error {
                    p.icon_selected_error_color
                } else {
                    p.icon_selected_color
                },
            ),
            layer: None,
        }
    } else {
        CheckboxVisuals {
            fill: None,
            outline_color: if error {
                p.unselected_error_outline_color
            } else {
                p.unselected_outline_color
            },
            outline_opacity: OPAQUE,
            outline_width: p.unselected_outline_width,
            icon_color: None,
            layer: None,
        }
    };
    if pressed {
        r.layer = Some(
            Tint {
                color: if checked {
                    p.pressed_selected_layer_color
                } else {
                    p.pressed_unselected_layer_color
                },
                opacity: if p.pressed_selected_layer_opacity
                    >= p.pressed_unselected_layer_opacity {
                    p.pressed_selected_layer_opacity
                } else {
                    p.pressed_unselected_layer_opacity
                },
            },
        );
        if !checked {
            r.outline_color = p.pressed_unselected_outline_color;
            r.outline_width = p.pressed_unselected_outline_width;
        } else {
            r.outline_width = p.pressed_selected_outline_width;
        }
        if checked {
            r.icon_color = Some(p.pressed_selected_icon_color);
        } else if error {
            r.icon_color = Some(p.pressed_error_icon_color);
        }
    } else if hovering {
        r.layer = Some(
            Tint {
                color: if checked {
                    p.hovered_selected_layer_color
                } else {
                    p.hovered_unselected_layer_color
                },
                opacity: if checked {
                    p.hovered_selected_layer_opacity
                } else {
                    p.hovered_unselected_layer_opacity
                },
            },
        );
        if !checked {
            r.outline_color = p.hovered_unselected_outline_color;
            r.outline_width = p.hovered_unselected_outline_width;
        } else {
            r.outline_width = p.hovered_selected_outline_width;
        }
        if checked {
            r.icon_color = Some(p.hovered_selected_icon_color);
        } else if error {
            r.icon_color = Some(p.hovered_error_icon_color);
        }
    }
    r
}

/// The role colors, widths and opacities of a text field.
#[derive(Clone, Copy, PartialEq, Eq, Structural, Debug)]
pub struct TextFieldPalette {
    pub container_color: u32,
    pub outline_color: u32,
    pub outline_width: u32,
    pub label_font_color: u32,
    pub input_font_color: u32,
    pub disabled_container_color: u32,
    pub disabled_container_opacity: u32,
    pub disabled_label_font_color: u32,
    pub disabled_label_font_opacity: u32,
    pub disabled_input_font_color: u32,
    pub disabled_input_font_opacity: u32,
    pub disabled_outline_color: u32,
    pub disabled_outline_width: u32,
    pub focused_label_font_color: u32,
    pub focused_input_font_color: u32,
    pub focused_outline_color: u32,
    pub focused_outline_width: u32,
    pub error_container_color: u32,
    pub error_label_font_color: u32,
    pub error_input_font_color: u32,
    pub error_outline_color: u32,
    pub error_outline_width: u32,
}

/// The default text-field palette for a scheme: a filled field.
pub open spec fn text_field_palette_normal(s: Scheme) -> TextFieldPalette {
    TextFieldPalette {
        container_color: s.surface_container_highest,
        outline_color: s.on_surface_variant,
        outline_width: 2,
        label_font_color: s.on_surface_variant,
        input_font_color: s.on_surface,
        disabled_container_color: s.on_surface,
        disabled_container_opacity: 40,
        disabled_label_font_color: s.on_surface_variant,
        disabled_label_font_opacity: 380,
        disabled_input_font_color: s.on_surface,
        disabled_input_font_opacity: 380,
        disabled_outline_color: s.on_surface_variant,
        disabled_outline_width: 2,
        focused_label_font_color: s.on_surface_variant,
        focused_input_font_color: s.on_surface,
        focused_outline_color: s.primary,
        focused_outline_width: 2,
        error_container_color: s.error_container,
        error_label_font_color: s.error,
        error_input_font_color: s.on_error_container,
        error_outline_color: s.error,
        error_outline_width: 2,
    }
}

impl TextFieldPalette {
    /// Default text-field colors for a scheme.
    pub fn normal(scheme: &Scheme) -> (r: Self)
        ensures
            r == text_field_palette_normal(*scheme),
    {
        TextFieldPalette {
            container_color: scheme.surface_container_highest,
            outline_color: scheme.on_surface_variant,
            outline_width: 2,
            label_font_color: scheme.on_surface_variant,
            input_font_color: scheme.on_surface,
            disabled_container_color: scheme.on_surface,
            disabled_container_opacity: 40,
            disabled_label_font_color: scheme.on_surface_variant,
            disabled_label_font_opacity: 380,
            disabled_input_font_color: scheme.on_surface,
            disabled_input_font_opacity: 380,
            disabled_outline_color: scheme.on_surface_variant,
            disabled_outline_width: 2,
            focused_label_font_color: scheme.on_surface_variant,
            focused_input_font_color: scheme.on_surface,
            focused_outline_color: scheme.primary,
            focused_outline_width: 2,
            error_container_color: scheme.error_container,
            error_label_font_color: scheme.error,
            error_input_font_color: scheme.on_error_container,
            error_outline_color: scheme.error,
            error_outline_width: 2,
        }
    }
}

/// The paint choices of one text-field frame; colors carry a per-mille
/// opacity the paint layer applies.
#[derive(Clone, Copy, PartialEq, Eq, Structural, Debug)]
pub struct TextFieldColors {
    pub container_color: u32,
    pub container_opacity: u32,
    pub outline_color: u32,
    pub outline_width: u32,
    pub label_color: u32,
    pub label_opacity: u32,
    pub input_color: u32,
    pub input_opacity: u32,
}

/// The text field's paint choices: disabled wins over error, error over the
/// plain look; a focused enabled field wears the focused outline.
pub open spec fn spec_text_field_colors(
    p: TextFieldPalette,
    disabled: bool,
    error: bool,
    focused: bool,
) -> TextFieldColors {
    let base = if disabled {
        TextFieldColors {
            container_color: p.disabled_container_color,
            container_opacity: p.disabled_container_opacity,
            outline_color: p.disabled_outline_color,
            outline_width: p.disabled_outline_width,
            label_color: p.disabled_label_font_color,
            label_opacity: p.disabled_label_font_opacity,
            input_color: p.disabled_input_font_color,
            input_opacity: p.disabled_input_font_opacity,
        }
    } else if error {
        TextFieldColors {
            container_color: p.error_container_color,
            container_opacity: OPAQUE,
            outline_color: p.error_outline_color,
            outline_width: p.error_outline_width,
            label_color: p.error_label_font_color,
            label_opacity: OPAQUE,
            input_color: p.error_input_font_color,
            input_opacity: OPAQUE,
        }
    } else {
        TextFieldColors {
            container_color: p.container_color,
            container_opacity: OPAQUE,
            outline_color: p.outline_color,
            outline_width: p.outline_width,
            label_color: p.label_font_color,
            label_opacity: OPAQUE,
            input_color: p.input_font_color,
            input_opacity: OPAQUE,
        }
    };
    if focused && !disabled {
        TextFieldColors {
            outline_color: p.focused_outline_color,
            outline_width: p.focused_outline_width,
            input_color: p.focused_input_font_color,
            input_opacity: OPAQUE,
            ..base
        }
    } else {
        base
    }
}

/// Resolve a text field's paint choices.
pub fn text_field_colors(p: &TextFieldPalette, disabled: bool, error: bool, focused: bool) -> (r:
    TextFieldColors)
    ensures
        r == spec_text_field_colors(*p, disabled, error, focused),
{
    let mut r = if disabled {
        TextFieldColors {
            container_color: p.disabled_container_color,
            container_opacity: p.disabled_container_opacity,
            outline_color: p.disabled_outline_color,
            outline_width: p.disabled_outline_width,
            label_color: p.disabled_label_font_color,
            label_opacity: p.disabled_label_font_opacity,
            input_color: p.disabled_input_font_color,
            input_opacity: p.disabled_input_font_opacity,
        }
    } else if error {
        TextFieldColors {
            container_color: p.error_container_color,
            container_opacity: OPAQUE,
            outline_color: p.error_outline_color,
            outline_width: p.error_outline_width,
            label_color: p.error_label_font_color,
            label_opacity: OPAQUE,
            input_color: p.error_input_font_color,
            input_opacity: OPAQUE,
        }
    } else {
        TextFieldColors {
            container_color: p.container_color,
            container_opacity: OPAQUE,
            outline_color: p.outline_color,
            outline_width: p.outline_width,
            label_color: p.label_font_color,
            label_opacity: OPAQUE,
            input_color: p.input_font_color,
            input_opacity: OPAQUE,
        }
    };
    if focused && !disabled {
        r.outline_color = p.focused_outline_color;
        r.outline_width = p.focused_outline_width;
        r.input_color = p.focused_input_font_color;
        r.input_opacity = OPAQUE;
    }
    r
}

} // verus!
