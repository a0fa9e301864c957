//! The control surface's theming rules as plain data: which palette each
//! widget gets under each theme.  Rendering belongs to the surrounding
//! application; here stand the decisions — the colors, radii and widths
//! themselves — so they are stated and checked once.  A `None` style means
//! the toolkit's own default look.

use vstd::prelude::*;

verus! {

/// A color, as 8-bit red, green and blue channels.
#[derive(Clone, Copy, Debug, PartialEq, Eq, Structural)]
pub struct Rgb {
    pub r: u8,
    pub g: u8,
    pub b: u8,
}

/// White, the theme's only text color.
pub open spec fn white() -> Rgb {
    Rgb { r: 0xFF, g: 0xFF, b: 0xFF }
}

/// A container's look: a background fill and a text color, each falling
/// back to the toolkit default when absent.
#[derive(Clone, Copy, Debug, PartialEq, Eq)]
pub struct ContainerStyle {
    pub background: Option<Rgb>,
    pub text_color: Option<Rgb>,
}

/// A button's look in one interaction state.
#[derive(Clone, Copy, Debug, PartialEq, Eq)]
pub struct ButtonStyle {
    pub background: Option<Rgb>,
    pub border_radius: u8,
    pub border_width: u8,
    pub border_color: Option<Rgb>,
    pub text_color: Rgb,
}

/// A button's look across its three interaction states.
#[derive(Clone, Copy, Debug, PartialEq, Eq)]
pub struct ButtonStyles {
    pub active: ButtonStyle,
    pub hovered: ButtonStyle,
    pub pressed: ButtonStyle,
}

/// The colors of an arc-drawn knob.
#[derive(Clone, Copy, Debug, PartialEq, Eq, Structural)]
pub struct KnobArcColors {
    pub empty_color: Rgb,
    pub filled_color: Rgb,
    pub notch_color: Rgb,
}

/// The control surface's theme.
#[derive(Debug, Clone, Copy, PartialEq, Eq, Structural)]
pub enum Theme {
    _Light,
    Dark,
}

/// The dark page background.
pub open spec fn dark_background() -> Rgb {
    Rgb { r: 0x20, g: 0x24, b: 0x2B }
}

/// The dark panel background.
pub open spec fn dark_panel_background() -> Rgb {
    Rgb { r: 0x40, g: 0x44, b: 0x4B }
}

/// The unfilled part of a knob arc.
pub open spec fn dark_empty() -> Rgb {
    Rgb { r: 0x70, g: 0x74, b: 0x7B }
}

/// The accent used for the filled knob arc and its notch.
pub open spec fn dark_accent() -> Rgb {
    Rgb { r: 0x6F, g: 0xFF, b: 0xE9 }
}

/// An active button.
pub open spec fn dark_active() -> Rgb {
    Rgb { r: 0x72, g: 0x89, b: 0xDA }
}

/// A hovered button.
pub open spec fn dark_hovered() -> Rgb {
    Rgb { r: 0x67, g: 0x7B, b: 0xC4 }
}

/// A disabled button.
pub open spec fn dark_disabled() -> Rgb {
    Rgb { r: 0x6B, g: 0x6E, b: 0x7C }
}

/// The bypass button while bypass is engaged.
pub open spec fn dark_bypass_active() -> Rgb {
    Rgb { r: 0xDA, g: 0x73, b: 0x72 }
}

/// The bypass button while bypass is engaged, hovered.
pub open spec fn dark_bypass_hovered() -> Rgb {
    Rgb { r: 0xC4, g: 0x67, b: 0x67 }
}

/// The three states of a dark-theme button over its active background:
/// hovering swaps the background, pressing adds a white border.
pub open spec fn dark_button_styles(active: Rgb, hovered: Rgb) -> ButtonStyles {
    ButtonStyles {
        active: ButtonStyle {
            background: Some(active),
            border_radius: 3,
            border_width: 0,
            border_color: None,
            text_color: white(),
        },
        hovered: ButtonStyle {
            background: Some(hovered),
            border_radius: 3,
            border_width: 0,
            border_color: None,
            text_color: white(),
        },
        pressed: ButtonStyle {
            background: Some(hovered),
            border_radius: 3,
            border_width: 1,
            border_color: Some(white()),
            text_color: white(),
        },
    }
}

/// The dark-theme disabled button: one dead look in every state.
pub open spec fn dark_disabled_button_styles() -> ButtonStyles {
    ButtonStyles {
        active: ButtonStyle {
            background: Some(dark_disabled()),
            border_radius: 3,
            border_width: 0,
            border_color: None,
            text_color: white(),
        },
        hovered: ButtonStyle {
            background: Some(dark_disabled()),
            border_radius: 3,
            border_width: 0,
            border_color: None,
            text_color: white(),
        },
        pressed: ButtonStyle {
            background: Some(dark_disabled()),
            border_radius: 3,
            border_width: 0,
            border_color: None,
            text_color: white(),
        },
    }
}

/// The dark page container's style.
pub open spec fn dark_page_container_style() -> ContainerStyle {
    ContainerStyle { background: Some(dark_background()), text_color: Some(white()) }
}

/// The dark top bar's style.
pub open spec fn dark_top_bar_style() -> ContainerStyle {
    ContainerStyle { background: Some(dark_panel_background()), text_color: Some(white()) }
}

/// The dark page container.
pub struct Container;

impl Container {
    /// Page background and white text.
    pub fn style(&self) -> (r: ContainerStyle)
        ensures
            r == dark_page_container_style(),
    {
        ContainerStyle {
            background: Some(Rgb { r: 0x20, g: 0x24, b: 0x2B }),
            text_color: Some(Rgb { r: 0xFF, g: 0xFF, b: 0xFF }),
        }
    }
}

/// The dark top-bar container.
pub struct TopBarContainer;

impl TopBarContainer {
    /// Panel background and white text.
    pub fn style(&self) -> (r: ContainerStyle)
        ensures
            r == dark_top_bar_style(),
    {
        ContainerStyle {
            background: Some(Rgb { r: 0x40, g: 0x44, b: 0x4B }),
            text_color: Some(Rgb { r: 0xFF, g: 0xFF, b: 0xFF }),
        }
    }
}

/// The dark ordinary button.
pub struct Button;

impl Button {
    /// Blue at rest, lighter when hovered, white border when pressed.
    pub fn styles(&self) -> (r: ButtonStyles)
        ensures
            r == dark_button_styles(dark_active(), dark_hovered()),
    {
        ButtonStyles {
            active: ButtonStyle {
                background: Some(Rgb { r: 0x72, g: 0x89, b: 0xDA }),
                border_radius: 3,
                border_width: 0,
                border_color: None,
                text_color: Rgb { r: 0xFF, g: 0xFF, b: 0xFF },
            },
            hovered: ButtonStyle {
                background: Some(Rgb { r: 0x67, g: 0x7B, b: 0xC4 }),
                border_radius: 3,
                border_width: 0,
                border_color: None,
                text_color: Rgb { r: 0xFF, g: 0xFF, b: 0xFF },
            },
            pressed: ButtonStyle {
                background: Some(Rgb { r: 0x67, g: 0x7B, b: 0xC4 }),
                border_radius: 3,
                border_width: 1,
                border_color: Some(Rgb { r: 0xFF, g: 0xFF, b: 0xFF }),
                text_color: Rgb { r: 0xFF, g: 0xFF, b: 0xFF },
            },
        }
    }
}

/// The dark disabled button.
pub struct DisabledButton;

impl DisabledButton {
    /// The same dead look whatever the pointer does.
    pub fn styles(&self) -> (r: ButtonStyles)
        ensures
            r == dark_disabled_button_styles(),
    {
        ButtonStyles {
            active: ButtonStyle {
                background: Some(Rgb { r: 0x6B, g: 0x6E, b: 0x7C }),
                border_radius: 3,
                border_width: 0,
                border_color: None,
                text_color: Rgb { r: 0xFF, g: 0xFF, b: 0xFF },
            },
            hovered: ButtonStyle {
                background: Some(Rgb { r: 0x6B, g: 0x6E, b: 0x7C }),
                border_radius: 3,
                border_width: 0,
                border_color: None,
                text_color: Rgb { r: 0xFF, g: 0xFF, b: 0xFF },
            },
            pressed: ButtonStyle {
                background: Some(Rgb { r: 0x6B, g: 0x6E, b: 0x7C }),
                border_radius: 3,
                border_width: 0,
                border_color: None,
                text_color: Rgb { r: 0xFF, g: 0xFF, b: 0xFF },
            },
        }
    }
}

/// The dark bypass button while bypass is engaged.
pub struct BypassedButton;

impl BypassedButton {
    /// Red, to say the signal is passing through untouched.
    pub fn styles(&self) -> (r: ButtonStyles)
        ensures
            r == dark_button_styles(dark_bypass_active(), dark_bypass_hovered()),
    {
        ButtonStyles {
            active: ButtonStyle {
                background: Some(Rgb { r: 0xDA, g: 0x73, b: 0x72 }),
                border_radius: 3,
                border_width: 0,
                border_color: None,
                text_color: Rgb { r: 0xFF, g: 0xFF, b: 0xFF },
            },
            hovered: ButtonStyle {
                background: Some(Rgb { r: 0xC4, g: 0x67, b: 0x67 }),
                border_radius: 3,
                border_width: 0,
                border_color: None,
                text_color: Rgb { r: 0xFF, g: 0xFF, b: 0xFF },
            },
            pressed: ButtonStyle {
                background: Some(Rgb { r: 0xC4, g: 0x67, b: 0x67 }),
                border_radius: 3,
                border_width: 1,
                border_color: Some(Rgb { r: 0xFF, g: 0xFF, b: 0xFF }),
                text_color: Rgb { r: 0xFF, g: 0xFF, b: 0xFF },
            },
        }
    }
}

impl Theme {
    /// The page container's style, if the theme overrides the default.
    pub fn page_container(&self) -> (r: Option<ContainerStyle>)
        ensures
            self is Dark <==> r == Some(dark_page_container_style()),
            self is _Light <==> r is None,
    {
        match self {
            Theme::_Light => None,
            Theme::Dark => Some(Container.style()),
        }
    }

    /// The top bar container's style, if the theme overrides the default.
    pub fn top_bar_container(&self) -> (r: Option<ContainerStyle>)
        ensures
            self is Dark <==> r == Some(dark_top_bar_style()),
            self is _Light <==> r is None,
    {
        match self {
            Theme::_Light => None,
            Theme::Dark => Some(TopBarContainer.style()),
        }
    }

    /// The ordinary button's styles, if the theme overrides the default.
    pub fn button(&self) -> (r: Option<ButtonStyles>)
        ensures
            self is Dark <==> r == Some(dark_button_styles(dark_active(), dark_hovered())),
            self is _Light <==> r is None,
    {
        match self {
            Theme::_Light => None,
            Theme::Dark => Some(Button.styles()),
        }
    }

    /// The disabled button's styles, if the theme overrides the default.
    pub fn disabled_button(&self) -> (r: Option<ButtonStyles>)
        ensures
            self is Dark <==> r == Some(dark_disabled_button_styles()),
            self is _Light <==> r is None,
    {
        match self {
            Theme::_Light => None,
            Theme::Dark => Some(DisabledButton.styles()),
        }
    }

    /// The engaged bypass button's styles, if the theme overrides the
    /// default.
    pub fn bypassed_button(&self) -> (r: Option<ButtonStyles>)
        ensures
            self is Dark <==> r == Some(
                dark_button_styles(dark_bypass_active(), dark_bypass_hovered()),
            ),
            self is _Light <==> r is None,
    {
        match self {
            Theme::_Light => None,
            Theme::Dark => Some(BypassedButton.styles()),
        }
    }

    /// The knob arc's colors, if the theme overrides the default look.
    pub fn knob(&self) -> (r: Option<KnobArcColors>)
        ensures
            self is Dark <==> r == Some(
                KnobArcColors {
                    empty_color: dark_empty(),
                    filled_color: dark_accent(),
                    notch_color: dark_accent(),
                },
            ),
            self is _Light <==> r is None,
    {
        match self {
            Theme::_Light => None,
            Theme::Dark => Some(
                KnobArcColors {
                    empty_color: Rgb { r: 0x70, g: 0x74, b: 0x7B },
                    filled_color: Rgb { r: 0x6F, g: 0xFF, b: 0xE9 },
                    notch_color: Rgb { r: 0x6F, g: 0xFF, b: 0xE9 },
                },
            ),
        }
    }
}

} // verus!
