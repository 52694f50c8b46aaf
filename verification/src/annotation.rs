//! Annotation styling shared by the capture overlay and the editor, and the
//! enumerations used by annotation marks.

use vstd::prelude::*;

verus! {

/// Version of the annotation document format.
pub const ANNOTATION_SCHEMA_VERSION: u8 = 1;
/// Largest encoded annotation document, in bytes.
pub const MAX_ANNOTATION_DOCUMENT_BYTES: usize = 4194304;

/// Pixel size of the image an annotation document belongs to.
#[derive(Debug, Clone, Copy, PartialEq, Eq, Structural)]
pub struct AnnotationPixelSize {
    pub width: u32,
    pub height: u32,
}

/// Color presets of pens, shapes and text.
#[derive(Debug, Clone, Copy, PartialEq, Eq, Structural)]
pub enum AnnotationColor {
    Violet,
    Cherry,
    Orange,
    Yellow,
    Mint,
    Blue,
    White,
    Black,
}

/// Background drawn behind text marks.
#[derive(Debug, Clone, Copy, PartialEq, Eq, Structural)]
pub enum TextBackground {
    Transparent,
    Dark,
}

/// Strength of the mosaic brush.
#[derive(Debug, Clone, Copy, PartialEq, Eq, Structural)]
pub enum MosaicIntensity {
    Soft,
    Standard,
    Strong,
}

/// Look of the mosaic brush.
#[derive(Debug, Clone, Copy, PartialEq, Eq, Structural)]
pub enum MosaicStyle {
    Pixel,
    Blur,
}

/// Last-used annotation styling. The active tool is deliberately excluded so
/// every new surface opens in its predictable selection state.
#[derive(Debug, Clone, Copy, PartialEq, Eq, Structural)]
pub struct AnnotationAppearance {
    pub color_preset: AnnotationColor,
    pub text_background_style: TextBackground,
    pub mosaic_intensity: MosaicIntensity,
    pub mosaic_style: MosaicStyle,
    pub pen_width: u16,
    pub shape_width: u16,
    pub text_font_size: u16,
    pub mosaic_brush_diameter: u16,
}

/// The styling used before the user changes anything.
pub open spec fn default_appearance() -> AnnotationAppearance {
    AnnotationAppearance {
        color_preset: AnnotationColor::Violet,
        text_background_style: TextBackground::Transparent,
        mosaic_intensity: MosaicIntensity::Standard,
        mosaic_style: MosaicStyle::Pixel,
        pen_width: 3,
        shape_width: 3,
        text_font_size: 18,
        mosaic_brush_diameter: 20,
    }
}

impl Default for AnnotationAppearance {
    fn default() -> (appearance: Self)
        ensures
            appearance == default_appearance(),
    {
        AnnotationAppearance {
            color_preset: AnnotationColor::Violet,
            text_background_style: TextBackground::Transparent,
            mosaic_intensity: MosaicIntensity::Standard,
            mosaic_style: MosaicStyle::Pixel,
            pen_width: 3,
            shape_width: 3,
            text_font_size: 18,
            mosaic_brush_diameter: 20,
        }
    }
}

/// `value` clamped to `low..=high`.
pub open spec fn clamp_u16(value: u16, low: u16, high: u16) -> u16 {
    if value < low { low } else if value > high { high } else { value }
}

/// The styling with every visual size clamped to its supported range; the
/// presets are kept.
pub open spec fn normalized_appearance(a: AnnotationAppearance) -> AnnotationAppearance {
    AnnotationAppearance {
        pen_width: clamp_u16(a.pen_width, 1, 24),
        shape_width: clamp_u16(a.shape_width, 1, 16),
        text_font_size: clamp_u16(a.text_font_size, 12, 64),
        mosaic_brush_diameter: clamp_u16(a.mosaic_brush_diameter, 12, 120),
        ..a
    }
}

/// Whether every visual size lies in its supported range.
pub open spec fn appearance_in_range(a: AnnotationAppearance) -> bool {
    &&& 1 <= a.pen_width <= 24
    &&& 1 <= a.shape_width <= 16
    &&& 12 <= a.text_font_size <= 64
    &&& 12 <= a.mosaic_brush_diameter <= 120
}

fn clamp(value: u16, low: u16, high: u16) -> (clamped: u16)
    requires
        low <= high,
    ensures
        clamped == clamp_u16(value, low, high),
{
    if value < low {
        low
    } else if value > high {
        high
    } else {
        value
    }
}

impl AnnotationAppearance {
    /// Clamps the pen and shape widths, the font size and the mosaic brush
    /// diameter to their supported ranges.
    pub fn normalized(self) -> (normalized: Self)
        ensures
            normalized == normalized_appearance(self),
    {
        AnnotationAppearance {
            pen_width: clamp(self.pen_width, 1, 24),
            shape_width: clamp(self.shape_width, 1, 16),
            text_font_size: clamp(self.text_font_size, 12, 64),
            mosaic_brush_diameter: clamp(self.mosaic_brush_diameter, 12, 120),
            ..self
        }
    }
}

/// Normalizing yields sizes in range, changes nothing already in range, and
/// a second normalization changes nothing.
pub proof fn lemma_normalized_appearance(a: AnnotationAppearance)
    ensures
        appearance_in_range(normalized_appearance(a)),
        appearance_in_range(a) ==> normalized_appearance(a) == a,
        normalized_appearance(normalized_appearance(a)) == normalized_appearance(a),
{
}

/// The default styling is already normalized.
pub proof fn lemma_default_appearance_in_range()
    ensures
        appearance_in_range(default_appearance()),
        normalized_appearance(default_appearance()) == default_appearance(),
{
}

} // verus!
