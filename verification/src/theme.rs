//! Material color theme: a seed color is expanded into a light and a dark
//! scheme of named role colors, and a mode flag selects between the two.

use vstd::prelude::*;

use material_colors::color::Argb;
use material_colors::theme::ThemeBuilder;

verus! {

/// Color mode for the Material theme.
#[derive(Clone, Copy, PartialEq, Eq, Structural, Debug)]
pub enum ColorMode {
    Light,
    Dark,
}

/// One derived Material color scheme: every role color as `0xAARRGGBB`.
#[derive(Clone, Copy, PartialEq, Eq, Structural, Debug)]
pub struct Scheme {
    pub primary: u32,
    pub on_primary: u32,
    pub primary_container: u32,
    pub on_primary_container: u32,
    pub inverse_primary: u32,
    pub primary_fixed: u32,
    pub primary_fixed_dim: u32,
    pub on_primary_fixed: u32,
    pub on_primary_fixed_variant: u32,
    pub secondary: u32,
    pub on_secondary: u32,
    pub secondary_container: u32,
    pub on_secondary_container: u32,
    pub secondary_fixed: u32,
    pub secondary_fixed_dim: u32,
    pub on_secondary_fixed: u32,
    pub on_secondary_fixed_variant: u32,
    pub tertiary: u32,
    pub on_tertiary: u32,
    pub tertiary_container: u32,
    pub on_tertiary_container: u32,
    pub tertiary_fixed: u32,
    pub tertiary_fixed_dim: u32,
    pub on_tertiary_fixed: u32,
    pub on_tertiary_fixed_variant: u32,
    pub error: u32,
    pub on_error: u32,
    pub error_container: u32,
    pub on_error_container: u32,
    pub surface_dim: u32,
    pub surface: u32,
    pub surface_tint: u32,
    pub surface_bright: u32,
    pub surface_container_lowest: u32,
    pub surface_container_low: u32,
    pub surface_container: u32,
    pub surface_container_high: u32,
    pub surface_container_highest: u32,
    pub on_surface: u32,
    pub on_surface_variant: u32,
    pub outline: u32,
    pub outline_variant: u32,
    pub inverse_surface: u32,
    pub inverse_on_surface: u32,
    pub surface_variant: u32,
    pub background: u32,
    pub on_background: u32,
    pub shadow: u32,
    pub scrim: u32,
}

/// The role colors that the palette derivation produces for a seed color and
/// a mode, in the fixed order in which the derivation crate lists them.
pub uninterp spec fn scheme_roles(argb: u32, dark: bool) -> Seq<u32>;

/// Relies on `material_colors::theme::ThemeBuilder::build`: derives the light
/// and the dark Material scheme from a seed color, a pure function of the
/// seed alone; each scheme yields its 49 role colors in a fixed, documented
/// order through `Scheme::into_iter`.
#[verifier::external_body]
fn derive_scheme_colors(argb: u32) -> (r: (Vec<u32>, Vec<u32>))
    ensures
        r.0@ == scheme_roles(argb, false),
        r.1@ == scheme_roles(argb, true),
        r.0@.len() == 49,
        r.1@.len() == 49,
{
    let theme = ThemeBuilder::with_source(Argb::from_u32(argb)).build();
    let pack = |(_, c): (String, Argb)| u32::from_be_bytes([c.alpha, c.red, c.green, c.blue]);
    (
        theme.schemes.light.into_iter().map(pack).collect(),
        theme.schemes.dark.into_iter().map(pack).collect(),
    )
}

/// The scheme assembled from the derivation's role list: one field per role,
/// in the order the derivation crate lists them.
pub open spec fn scheme_from_roles(roles: Seq<u32>) -> Scheme {
    Scheme {
        primary: roles[0],
        on_primary: roles[1],
        primary_container: roles[2],
        on_primary_container: roles[3],
        inverse_primary: roles[4],
        primary_fixed: roles[5],
        primary_fixed_dim: roles[6],
        on_primary_fixed: roles[7],
        on_primary_fixed_variant: roles[8],
        secondary: roles[9],
        on_secondary: roles[10],
        secondary_container: roles[11],
        on_secondary_container: roles[12],
        secondary_fixed: roles[13],
        secondary_fixed_dim: roles[14],
        on_secondary_fixed: roles[15],
        on_secondary_fixed_variant: roles[16],
        tertiary: roles[17],
        on_tertiary: roles[18],
        tertiary_container: roles[19],
        on_tertiary_container: roles[20],
        tertiary_fixed: roles[21],
        tertiary_fixed_dim: roles[22],
        on_tertiary_fixed: roles[23],
        on_tertiary_fixed_variant: roles[24],
        error: roles[25],
        on_error: roles[26],
        error_container: roles[27],
        on_error_container: roles[28],
        surface_dim: roles[29],
        surface: roles[30],
        surface_tint: roles[31],
        surface_bright: roles[32],
        surface_container_lowest: roles[33],
        surface_container_low: roles[34],
        surface_container: roles[35],
        surface_container_high: roles[36],
        surface_container_highest: roles[37],
        on_surface: roles[38],
        on_surface_variant: roles[39],
        outline: roles[40],
        outline_variant: roles[41],
        inverse_surface: roles[42],
        inverse_on_surface: roles[43],
        surface_variant: roles[44],
        background: roles[45],
        on_background: roles[46],
        shadow: roles[47],
        scrim: roles[48],
    }
}

fn scheme_from_vec(colors: &Vec<u32>) -> (s: Scheme)
    requires
        colors@.len() == 49,
    ensures
        s == scheme_from_roles(colors@),
{
    Scheme {
        primary: colors[0],
        on_primary: colors[1],
        primary_container: colors[2],
        on_primary_container: colors[3],
        inverse_primary: colors[4],
        primary_fixed: colors[5],
        primary_fixed_dim: colors[6],
        on_primary_fixed: colors[7],
        on_primary_fixed_variant: colors[8],
        secondary: colors[9],
        on_secondary: colors[10],
        secondary_container: colors[11],
        on_secondary_container: colors[12],
        secondary_fixed: colors[13],
        secondary_fixed_dim: colors[14],
        on_secondary_fixed: colors[15],
        on_secondary_fixed_variant: colors[16],
        tertiary: colors[17],
        on_tertiary: colors[18],
        tertiary_container: colors[19],
        on_tertiary_container: colors[20],
        tertiary_fixed: colors[21],
        tertiary_fixed_dim: colors[22],
        on_tertiary_fixed: colors[23],
        on_tertiary_fixed_variant: colors[24],
        error: colors[25],
        on_error: colors[26],
        error_container: colors[27],
        on_error_container: colors[28],
        surface_dim: colors[29],
        surface: colors[30],
        surface_tint: colors[31],
        surface_bright: colors[32],
        surface_container_lowest: colors[33],
        surface_container_low: colors[34],
        surface_container: colors[35],
        surface_container_high: colors[36],
        surface_container_highest: colors[37],
        on_surface: colors[38],
        on_surface_variant: colors[39],
        outline: colors[40],
        outline_variant: colors[41],
        inverse_surface: colors[42],
        inverse_on_surface: colors[43],
        surface_variant: colors[44],
        background: colors[45],
        on_background: colors[46],
        shadow: colors[47],
        scrim: colors[48],
    }
}

/// The subset of scheme roles that is pushed into the host toolkit's global
/// visual defaults, already resolved for the current mode.
#[derive(Clone, Copy, PartialEq, Eq, Structural, Debug)]
pub struct VisualOverrides {
    pub window_fill: u32,
    pub faint_bg_color: u32,
    pub extreme_bg_color: u32,
    pub code_bg_color: u32,
    pub panel_fill: u32,
    pub warn_fg_color: u32,
    pub error_fg_color: u32,
    pub override_text_color: u32,
    pub hyperlink_color: u32,
    pub dark_mode: bool,
}

/// Material color theme: the light and dark schemes derived from one seed
/// color, plus the active mode.
pub struct MaterialTheme {
    pub light: Scheme,
    pub dark: Scheme,
    pub mode: ColorMode,
}

impl MaterialTheme {
    /// The scheme that the current mode selects.
    pub open spec fn spec_scheme(self) -> Scheme {
        if self.mode == ColorMode::Dark {
            self.dark
        } else {
            self.light
        }
    }

    /// The visual defaults that `apply` hands to the host toolkit.
    pub open spec fn spec_apply(self) -> VisualOverrides {
        let s = self.spec_scheme();
        VisualOverrides {
            window_fill: s.surface,
            faint_bg_color: s.surface_container,
            extreme_bg_color: s.surface_variant,
            code_bg_color: s.surface_dim,
            panel_fill: s.surface_container_high,
            warn_fg_color: s.error_container,
            error_fg_color: s.error,
            override_text_color: s.on_surface,
            hyperlink_color: s.primary,
            dark_mode: self.mode == ColorMode::Dark,
        }
    }

    /// Build the theme from a seed color given as `0xAARRGGBB`.
    pub fn from_argb(argb: u32, color_mode: ColorMode) -> (t: Self)
        ensures
            t.light == scheme_from_roles(scheme_roles(argb, false)),
            t.dark == scheme_from_roles(scheme_roles(argb, true)),
            t.mode == color_mode,
    {
        let (light_colors, dark_colors) = derive_scheme_colors(argb);
        MaterialTheme {
            light: scheme_from_vec(&light_colors),
            dark: scheme_from_vec(&dark_colors),
            mode: color_mode,
        }
    }

    /// The light scheme, whatever the current mode.
    pub fn get_light_scheme(&self) -> (s: &Scheme)
        ensures
            *s == self.light,
    {
        &self.light
    }

    /// The dark scheme, whatever the current mode.
    pub fn get_dark_scheme(&self) -> (s: &Scheme)
        ensures
            *s == self.dark,
    {
        &self.dark
    }

    /// The scheme in the current color mode.
    pub fn get(&self) -> (s: &Scheme)
        ensures
            *s == self.spec_scheme(),
    {
        match self.mode {
            ColorMode::Light => self.get_light_scheme(),
            ColorMode::Dark => self.get_dark_scheme(),
        }
    }

    /// Whether the dark mode is active.
    pub fn get_dark_mode(&self) -> (dark: bool)
        ensures
            dark == (self.mode == ColorMode::Dark),
    {
        match self.mode {
            ColorMode::Dark => true,
            ColorMode::Light => false,
        }
    }

    /// Switch the mode; the derived schemes stay as they are.
    pub fn set_dark_mode(&mut self, dark: bool)
        ensures
            final(self).mode == if dark {
                ColorMode::Dark
            } else {
                ColorMode::Light
            },
            final(self).light == old(self).light,
            final(self).dark == old(self).dark,
    {
        if dark {
            self.mode = ColorMode::Dark;
        } else {
            self.mode = ColorMode::Light;
        }
    }

    /// Resolve the global visual defaults for the current mode. The caller
    /// pushes them into the host toolkit.
    pub fn apply(&self) -> (v: VisualOverrides)
        ensures
            v == self.spec_apply(),
    {
        let s = self.get();
        VisualOverrides {
            window_fill: s.surface,
            faint_bg_color: s.surface_container,
            extreme_bg_color: s.surface_variant,
            code_bg_color: s.surface_dim,
            panel_fill: s.surface_container_high,
            warn_fg_color: s.error_container,
            error_fg_color: s.error,
            override_text_color: s.on_surface,
            hyperlink_color: s.primary,
            dark_mode: self.get_dark_mode(),
        }
    }
}

} // verus!
