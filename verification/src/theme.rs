//! The colour themes of the window and of the waveform.
use vstd::prelude::*;

verus! {

/// An opaque colour given by its red, green and blue channels.
#[derive(Clone, Copy, Debug, PartialEq, Eq, Structural)]
pub struct Rgb {
    pub r: u8,
    pub g: u8,
    pub b: u8,
}

/// The colour with the given channels.
pub open spec fn rgb(r: u8, g: u8, b: u8) -> Rgb {
    Rgb { r, g, b }
}

/// The background theme of the window.
#[derive(Clone, Copy, Debug, PartialEq, Eq, Structural)]
pub enum MuzikTheme {
    Dark,
    Light,
    Nightly,
}

/// The colour in which the visualisation is drawn.
#[derive(Clone, Copy, Debug, PartialEq, Eq, Structural)]
pub enum VisualizationTheme {
    Black,
    White,
    Lavender,
    Pink,
    Sky,
    Teal,
    Crust,
    Mauve,
}

/// How samples are drawn: as bars about the centre line, or as bars of
/// their magnitude standing on the bottom edge.
#[derive(Clone, Copy, Debug, PartialEq, Eq, Structural)]
pub enum VisualizationType {
    Type1,
    Type2,
}

impl MuzikTheme {
    /// The background colour of the theme.
    pub open spec fn spec_rgb(self) -> Rgb {
        match self {
            MuzikTheme::Dark => rgb(0, 0, 0),
            MuzikTheme::Light => rgb(255, 255, 255),
            MuzikTheme::Nightly => rgb(30, 32, 48),
        }
    }

    /// The colour of the status bar and of the settings dialog.
    pub open spec fn spec_secondary_rgb(self) -> Rgb {
        match self {
            MuzikTheme::Dark => rgb(20, 20, 20),
            MuzikTheme::Light => rgb(239, 241, 245),
            MuzikTheme::Nightly => rgb(48, 52, 70),
        }
    }

    /// The colour of the outlines of non-interactive widgets.
    pub open spec fn spec_noninteractive_rgb(self) -> Rgb {
        match self {
            MuzikTheme::Dark => rgb(108, 112, 134),
            MuzikTheme::Light => rgb(0, 0, 0),
            MuzikTheme::Nightly => rgb(108, 112, 134),
        }
    }

    /// The background colour of the theme.
    pub fn get_rgb(&self) -> (c: Rgb)
        ensures
            c == self.spec_rgb(),
    {
        match self {
            MuzikTheme::Dark => Rgb { r: 0, g: 0, b: 0 },
            MuzikTheme::Light => Rgb { r: 255, g: 255, b: 255 },
            MuzikTheme::Nightly => Rgb { r: 30, g: 32, b: 48 },
        }
    }

    /// The colour of the status bar and of the settings dialog.
    pub fn get_secondary_rgb(&self) -> (c: Rgb)
        ensures
            c == self.spec_secondary_rgb(),
    {
        match self {
            MuzikTheme::Dark => Rgb { r: 20, g: 20, b: 20 },
            MuzikTheme::Light => Rgb { r: 239, g: 241, b: 245 },
            MuzikTheme::Nightly => Rgb { r: 48, g: 52, b: 70 },
        }
    }

    /// The colour of the outlines of non-interactive widgets.
    pub fn get_noninteractive_rgb(&self) -> (c: Rgb)
        ensures
            c == self.spec_noninteractive_rgb(),
    {
        match self {
            MuzikTheme::Dark => Rgb { r: 108, g: 112, b: 134 },
            MuzikTheme::Light => Rgb { r: 0, g: 0, b: 0 },
            MuzikTheme::Nightly => Rgb { r: 108, g: 112, b: 134 },
        }
    }
}

impl VisualizationTheme {
    /// The colour of the visualisation.
    pub open spec fn spec_rgb(self) -> Rgb {
        match self {
            VisualizationTheme::Black => rgb(0, 0, 0),
            VisualizationTheme::White => rgb(255, 255, 255),
            VisualizationTheme::Lavender => rgb(183, 189, 248),
            VisualizationTheme::Pink => rgb(245, 194, 231),
            VisualizationTheme::Sky => rgb(4, 165, 229),
            VisualizationTheme::Teal => rgb(139, 213, 202),
            VisualizationTheme::Crust => rgb(220, 224, 232),
            VisualizationTheme::Mauve => rgb(198, 160, 246),
        }
    }

    /// The colour of the visualisation.
    pub fn get_rgb(&self) -> (c: Rgb)
        ensures
            c == self.spec_rgb(),
    {
        match self {
            VisualizationTheme::Black => Rgb { r: 0, g: 0, b: 0 },
            VisualizationTheme::White => Rgb { r: 255, g: 255, b: 255 },
            VisualizationTheme::Lavender => Rgb { r: 183, g: 189, b: 248 },
            VisualizationTheme::Pink => Rgb { r: 245, g: 194, b: 231 },
            VisualizationTheme::Sky => Rgb { r: 4, g: 165, b: 229 },
            VisualizationTheme::Teal => Rgb { r: 139, g: 213, b: 202 },
            VisualizationTheme::Crust => Rgb { r: 220, g: 224, b: 232 },
            VisualizationTheme::Mauve => Rgb { r: 198, g: 160, b: 246 },
        }
    }
}

/// The background, bar and outline colours of each theme: black, white
/// and a dark blue-grey backgrounds, each with a slightly lighter (or, for
/// white, slightly darker) bar.
pub proof fn lemma_theme_colours()
    ensures
        MuzikTheme::Dark.spec_rgb() == (Rgb { r: 0, g: 0, b: 0 }),
        MuzikTheme::Light.spec_rgb() == (Rgb { r: 255, g: 255, b: 255 }),
        MuzikTheme::Nightly.spec_rgb() == (Rgb { r: 30, g: 32, b: 48 }),
        MuzikTheme::Dark.spec_secondary_rgb() == (Rgb { r: 20, g: 20, b: 20 }),
        MuzikTheme::Light.spec_secondary_rgb() == (Rgb { r: 239, g: 241, b: 245 }),
        MuzikTheme::Nightly.spec_secondary_rgb() == (Rgb { r: 48, g: 52, b: 70 }),
        MuzikTheme::Dark.spec_noninteractive_rgb() == (Rgb { r: 108, g: 112, b: 134 }),
        MuzikTheme::Light.spec_noninteractive_rgb() == (Rgb { r: 0, g: 0, b: 0 }),
        MuzikTheme::Nightly.spec_noninteractive_rgb() == (Rgb { r: 108, g: 112, b: 134 }),
        forall|t: MuzikTheme| #[trigger] t.spec_secondary_rgb() != t.spec_rgb(),
{
}

/// The colours of the waveform.
pub proof fn lemma_visualisation_colours()
    ensures
        VisualizationTheme::Black.spec_rgb() == (Rgb { r: 0, g: 0, b: 0 }),
        VisualizationTheme::White.spec_rgb() == (Rgb { r: 255, g: 255, b: 255 }),
        VisualizationTheme::Lavender.spec_rgb() == (Rgb { r: 183, g: 189, b: 248 }),
        VisualizationTheme::Pink.spec_rgb() == (Rgb { r: 245, g: 194, b: 231 }),
        VisualizationTheme::Sky.spec_rgb() == (Rgb { r: 4, g: 165, b: 229 }),
        VisualizationTheme::Teal.spec_rgb() == (Rgb { r: 139, g: 213, b: 202 }),
        VisualizationTheme::Crust.spec_rgb() == (Rgb { r: 220, g: 224, b: 232 }),
        VisualizationTheme::Mauve.spec_rgb() == (Rgb { r: 198, g: 160, b: 246 }),
        forall|a: VisualizationTheme, b: VisualizationTheme|
            #[trigger] a.spec_rgb() == #[trigger] b.spec_rgb() ==> a == b,
{
}

} // verus!
