use vstd::prelude::*;
use crate::geometry::{Rect, rect_is_empty, rects_intersect, rect_width, rect_height};
use crate::dpi::{RasterFormat, with_dpi, dpi_patched, dpi_patchable};
use crate::page::Page;
use crate::text::same_text;

verus! {

/// The output formats a page can be exported to.
#[derive(Clone, Copy, Debug, PartialEq, Eq, Structural)]
pub enum ExportFormat {
    Raster(RasterFormat),
    Pdf,
    Svg,
    Raw,
}

/// The format a name stands for: `png`, `jpg` or `jpeg`, `pdf`, `svg`, `raw`.
pub open spec fn format_named(name: Seq<char>) -> Option<ExportFormat> {
    if name == "jpg"@ || name == "jpeg"@ {
        Some(ExportFormat::Raster(RasterFormat::Jpeg))
    } else if name == "png"@ {
        Some(ExportFormat::Raster(RasterFormat::Png))
    } else if name == "pdf"@ {
        Some(ExportFormat::Pdf)
    } else if name == "svg"@ {
        Some(ExportFormat::Svg)
    } else if name == "raw"@ {
        Some(ExportFormat::Raw)
    } else {
        None
    }
}

pub fn parse_format(name: &str) -> (r: Option<ExportFormat>)
    ensures
        r == format_named(name@),
{
    if same_text(name, "jpg") || same_text(name, "jpeg") {
        Some(ExportFormat::Raster(RasterFormat::Jpeg))
    } else if same_text(name, "png") {
        Some(ExportFormat::Raster(RasterFormat::Png))
    } else if same_text(name, "pdf") {
        Some(ExportFormat::Pdf)
    } else if same_text(name, "svg") {
        Some(ExportFormat::Svg)
    } else if same_text(name, "raw") {
        Some(ExportFormat::Raw)
    } else {
        None
    }
}

/// The channel orders raw pixel data can be laid out in.
#[derive(Clone, Copy, Debug, PartialEq, Eq, Structural)]
pub enum ColorLayout {
    Rgba8888,
    Rgb888x,
    Bgra8888,
    Argb4444,
}

/// The layout a name stands for; an unknown name stands for `Rgba8888`.
pub open spec fn layout_named(name: Seq<char>) -> ColorLayout {
    if name == "rgba"@ {
        ColorLayout::Rgba8888
    } else if name == "rgb"@ {
        ColorLayout::Rgb888x
    } else if name == "bgra"@ {
        ColorLayout::Bgra8888
    } else if name == "argb"@ {
        ColorLayout::Argb4444
    } else {
        ColorLayout::Rgba8888
    }
}

pub open spec fn layout_bytes_per_pixel(c: ColorLayout) -> nat {
    match c {
        ColorLayout::Argb4444 => 2,
        _ => 4,
    }
}

/// The layout of raw exports when the caller names none: the platform's native order.
pub open spec fn default_layout() -> ColorLayout {
    ColorLayout::Bgra8888
}

impl ColorLayout {
    pub fn from_name(name: &str) -> (r: ColorLayout)
        ensures
            r == layout_named(name@),
    {
        if same_text(name, "rgba") {
            ColorLayout::Rgba8888
        } else if same_text(name, "rgb") {
            ColorLayout::Rgb888x
        } else if same_text(name, "bgra") {
            ColorLayout::Bgra8888
        } else if same_text(name, "argb") {
            ColorLayout::Argb4444
        } else {
            ColorLayout::Rgba8888
        }
    }

    pub fn bytes_per_pixel(&self) -> (r: u32)
        ensures
            r == layout_bytes_per_pixel(*self),
    {
        match self {
            ColorLayout::Argb4444 => 2,
            _ => 4,
        }
    }
}

/// The byte layout of a raw pixel buffer.
#[derive(Clone, Copy, Debug, PartialEq, Eq, Structural)]
pub struct RawLayout {
    pub width: u32,
    pub height: u32,
    pub color: ColorLayout,
    pub premultiplied: bool,
    /// Bytes per row, with no padding.
    pub row_bytes: u64,
    /// The size of the whole buffer.
    pub byte_size: u128,
}

pub open spec fn raw_layout_spec(width: u32, height: u32, color: Option<ColorLayout>, premultiplied: Option<bool>) -> RawLayout {
    let c = match color {
        Some(c) => c,
        None => default_layout(),
    };
    RawLayout {
        width,
        height,
        color: c,
        premultiplied: match premultiplied {
            Some(p) => p,
            None => true,
        },
        row_bytes: (width * layout_bytes_per_pixel(c)) as u64,
        byte_size: (width * layout_bytes_per_pixel(c) * height) as u128,
    }
}

/// The layout of a `width` by `height` raw buffer: the named channel order, or the
/// platform's when none is named, premultiplied unless told otherwise.
pub fn raw_layout(width: u32, height: u32, color: Option<ColorLayout>, premultiplied: Option<bool>) -> (r: RawLayout)
    ensures
        r == raw_layout_spec(width, height, color, premultiplied),
{
    let c = match color {
        Some(c) => c,
        None => ColorLayout::Bgra8888,
    };
    let bpp = c.bytes_per_pixel();
    proof {
        lemma_mul_bound(width as int, bpp as int, 0xffff_ffff, 4);
    }
    let row_bytes: u64 = width as u64 * bpp as u64;
    proof {
        lemma_mul_bound(row_bytes as int, height as int, 4 * 0xffff_ffff as int, 0xffff_ffff);
        assert(4 * 0xffff_ffff * 0xffff_ffff <= u128::MAX);
    }
    RawLayout {
        width,
        height,
        color: c,
        premultiplied: match premultiplied {
            Some(p) => p,
            None => true,
        },
        row_bytes,
        byte_size: row_bytes as u128 * height as u128,
    }
}

/// A rectangle in output pixels.
#[derive(Clone, Copy, Debug, PartialEq, Eq, Structural)]
pub struct PixelRect {
    pub left: i64,
    pub top: i64,
    pub right: i64,
    pub bottom: i64,
}

/// What exporting a page asks of the encoders.
#[derive(Clone, Copy, Debug, PartialEq, Eq, Structural)]
#[allow(inconsistent_fields)]
pub enum ExportPlan {
    /// Draw the composite scaled by `density` on a `width` by `height` surface, keep
    /// `crop` of it and encode at `quality` percent.
    Raster { format: RasterFormat, width: u64, height: u64, crop: PixelRect, quality: u32, density: u32 },
    /// A one-page document of the page's size.
    Pdf { width: u32, height: u32, quality: u32, raster_dpi: u64 },
    /// Vector markup of the page's size, text as paths when `outline` is set.
    Svg { width: u32, height: u32, outline: bool },
    /// Pixels of the crop area in the given layout.
    Raw { layout: RawLayout },
}

/// Why a page could not be exported.
#[derive(Clone, Debug, PartialEq, Eq)]
pub enum ExportError {
    /// The render bounds are empty or miss the page.
    BadBounds { render: Rect, page: Rect },
    /// The format name is none of the known ones.
    UnsupportedFormat(String),
    /// A document page would have no area.
    EmptyPage,
    /// No raster surface of this many pixels could be had.
    AllocationFailed { width: u64, height: u64 },
    /// The encoder produced nothing usable for the format.
    EncodeFailed(ExportFormat),
    /// The pixels could not be read back into a raw buffer.
    RawReadFailed,
}

pub open spec fn scaled(r: Rect, density: u32) -> PixelRect {
    PixelRect {
        left: (r.left * density) as i64,
        top: (r.top * density) as i64,
        right: (r.right * density) as i64,
        bottom: (r.bottom * density) as i64,
    }
}

pub open spec fn export_plan_spec(
    page: Rect,
    format: Option<ExportFormat>,
    quality: u32,
    density: u32,
    outline: bool,
    crop: Option<Rect>,
    premultiplied: Option<bool>,
    color: Option<ColorLayout>,
) -> Option<ExportPlan> {
    let render = match crop {
        Some(r) => r,
        None => page,
    };
    match format {
        Some(ExportFormat::Raster(f)) => Some(
            ExportPlan::Raster {
                format: f,
                width: (rect_width(page) * density) as u64,
                height: (rect_height(page) * density) as u64,
                crop: scaled(render, density),
                quality,
                density,
            },
        ),
        Some(ExportFormat::Pdf) => Some(
            ExportPlan::Pdf {
                width: rect_width(page) as u32,
                height: rect_height(page) as u32,
                quality,
                raster_dpi: (72 * density) as u64,
            },
        ),
        Some(ExportFormat::Svg) => Some(
            ExportPlan::Svg {
                width: rect_width(page) as u32,
                height: rect_height(page) as u32,
                outline,
            },
        ),
        Some(ExportFormat::Raw) => Some(
            ExportPlan::Raw {
                layout: raw_layout_spec(
                    rect_width(render) as u32,
                    rect_height(render) as u32,
                    color,
                    premultiplied,
                ),
            },
        ),
        None => None,
    }
}

proof fn lemma_mul_bound(a: int, b: int, ma: int, mb: int)
    requires
        0 <= a <= ma,
        0 <= b <= mb,
    ensures
        0 <= a * b <= ma * mb,
{
    assert(0 <= a * b <= ma * mb) by (nonlinear_arith)
        requires
            0 <= a <= ma,
            0 <= b <= mb,
    ;
}

fn scale_rect(r: Rect, density: u32) -> (p: PixelRect)
    ensures
        p == scaled(r, density),
{
    proof {
        assert(-0x8000_0000 * 0xffff_ffff <= r.left * density <= 0x7fff_ffff * 0xffff_ffff) by (nonlinear_arith)
            requires -0x8000_0000 <= r.left <= 0x7fff_ffff, 0 <= density <= 0xffff_ffff;
        assert(-0x8000_0000 * 0xffff_ffff <= r.top * density <= 0x7fff_ffff * 0xffff_ffff) by (nonlinear_arith)
            requires -0x8000_0000 <= r.top <= 0x7fff_ffff, 0 <= density <= 0xffff_ffff;
        assert(-0x8000_0000 * 0xffff_ffff <= r.right * density <= 0x7fff_ffff * 0xffff_ffff) by (nonlinear_arith)
            requires -0x8000_0000 <= r.right <= 0x7fff_ffff, 0 <= density <= 0xffff_ffff;
        assert(-0x8000_0000 * 0xffff_ffff <= r.bottom * density <= 0x7fff_ffff * 0xffff_ffff) by (nonlinear_arith)
            requires -0x8000_0000 <= r.bottom <= 0x7fff_ffff, 0 <= density <= 0xffff_ffff;
    }
    PixelRect {
        left: r.left as i64 * density as i64,
        top: r.top as i64 * density as i64,
        right: r.right as i64 * density as i64,
        bottom: r.bottom as i64 * density as i64,
    }
}

impl Page {
    /// Works out how to export the page. The render bounds are `crop`, or the page's
    /// own bounds; they must be non-empty and overlap the page, else `BadBounds`.
    /// Then an unknown format name gives `UnsupportedFormat`. Raster formats scale the
    /// page by `density` and keep the render bounds; PDF and SVG take the whole page;
    /// raw takes the render bounds at scale 1.
    pub fn export_plan(
        &self,
        format: &str,
        quality: u32,
        density: u32,
        outline: bool,
        crop: Option<Rect>,
        premultiplied: Option<bool>,
        color: Option<ColorLayout>,
    ) -> (r: Result<ExportPlan, ExportError>)
        ensures
            ({
                let render = match crop {
                    Some(c) => c,
                    None => self.bounds,
                };
                match r {
                    Err(ExportError::BadBounds { render: a, page: b }) => a == render && b
                        == self.bounds && (rect_is_empty(render) || !rects_intersect(
                        self.bounds,
                        render,
                    )),
                    Err(ExportError::UnsupportedFormat(name)) => name@ == format@ && !rect_is_empty(
                        render,
                    ) && rects_intersect(self.bounds, render) && format_named(format@) is None,
                    Err(_) => false,
                    Ok(plan) => !rect_is_empty(render) && rects_intersect(self.bounds, render)
                        && export_plan_spec(
                        self.bounds,
                        format_named(format@),
                        quality,
                        density,
                        outline,
                        crop,
                        premultiplied,
                        color,
                    ) == Some(plan),
                }
            }),
    {
        let render = match crop {
            Some(c) => c,
            None => self.bounds,
        };
        if render.is_empty() || !self.bounds.intersects(&render) {
            return Err(ExportError::BadBounds { render, page: self.bounds });
        }
        let kind = parse_format(format);
        match kind {
            Some(ExportFormat::Raster(f)) => {
                proof {
                    lemma_mul_bound(rect_width(self.bounds), density as int, 0xffff_ffff, 0xffff_ffff);
                    lemma_mul_bound(rect_height(self.bounds), density as int, 0xffff_ffff, 0xffff_ffff);
                }
                let w: u64 = self.bounds.width() as u64 * density as u64;
                let h: u64 = self.bounds.height() as u64 * density as u64;
                Ok(
                    ExportPlan::Raster {
                        format: f,
                        width: w,
                        height: h,
                        crop: scale_rect(render, density),
                        quality,
                        density,
                    },
                )
            },
            Some(ExportFormat::Pdf) => Ok(
                ExportPlan::Pdf {
                    width: self.bounds.width(),
                    height: self.bounds.height(),
                    quality,
                    raster_dpi: 72 * density as u64,
                },
            ),
            Some(ExportFormat::Svg) => Ok(
                ExportPlan::Svg { width: self.bounds.width(), height: self.bounds.height(), outline },
            ),
            Some(ExportFormat::Raw) => Ok(
                ExportPlan::Raw {
                    layout: raw_layout(render.width(), render.height(), color, premultiplied),
                },
            ),
            None => Err(ExportError::UnsupportedFormat(String::from_str(format))),
        }
    }
}

/// The bytes of an export, given what the encoder produced for `plan`: raster bytes
/// get their resolution recorded; a missing result is the error of its kind.
pub open spec fn finished_spec(plan: ExportPlan, output: Option<Seq<u8>>) -> Result<Seq<u8>, ExportError> {
    match output {
        None => match plan {
            ExportPlan::Raster { format, .. } => Err(ExportError::EncodeFailed(ExportFormat::Raster(format))),
            ExportPlan::Pdf { .. } => Err(ExportError::EncodeFailed(ExportFormat::Pdf)),
            ExportPlan::Svg { .. } => Err(ExportError::EncodeFailed(ExportFormat::Svg)),
            ExportPlan::Raw { .. } => Err(ExportError::RawReadFailed),
        },
        Some(bytes) => match plan {
            ExportPlan::Raster { format, density, .. } => if dpi_patchable(bytes.len() as int, format, density) {
                Ok(dpi_patched(bytes, format, density))
            } else {
                Err(ExportError::EncodeFailed(ExportFormat::Raster(format)))
            },
            _ => Ok(bytes),
        },
    }
}

/// Finishes an export from what the encoder produced for `plan` (`None` when it
/// failed). Raster output too short for its header counts as a failed encoding.
pub fn finish_export(plan: &ExportPlan, output: Option<Vec<u8>>) -> (r: Result<Vec<u8>, ExportError>)
    ensures
        match (r, finished_spec(*plan, match output { Some(b) => Some(b@), None => None })) {
            (Ok(a), Ok(b)) => a@ == b,
            (Err(a), Err(b)) => a == b,
            _ => false,
        },
{
    match output {
        None => match plan {
            ExportPlan::Raster { format, .. } => Err(ExportError::EncodeFailed(ExportFormat::Raster(*format))),
            ExportPlan::Pdf { .. } => Err(ExportError::EncodeFailed(ExportFormat::Pdf)),
            ExportPlan::Svg { .. } => Err(ExportError::EncodeFailed(ExportFormat::Svg)),
            ExportPlan::Raw { .. } => Err(ExportError::RawReadFailed),
        },
        Some(bytes) => match plan {
            ExportPlan::Raster { format, density, .. } => {
                let ok = if *density == 1 {
                    true
                } else {
                    match format {
                        RasterFormat::Png => bytes.len() >= 33 && (*density as u64 * 28346472 + 5000) / 10000 <= 0xffff_ffff,
                        RasterFormat::Jpeg => bytes.len() >= 18 && 72 * (*density as u64) <= 0xffff,
                    }
                };
                if ok {
                    Ok(with_dpi(bytes, *format, *density))
                } else {
                    Err(ExportError::EncodeFailed(ExportFormat::Raster(*format)))
                }
            },
            _ => Ok(bytes),
        },
    }
}

} // verus!
