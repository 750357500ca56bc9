//! Turning image files into the forms that clipboards and trays take.
use clipboard_rs::common::{RustImage, RustImageData};
use image::{ImageFormat, ImageReader};
use std::io::Cursor;
use vstd::prelude::*;

verus! {

/// An image as rows of pixels, four bytes each: red, green, blue, alpha.
#[derive(Debug)]
pub struct RgbaImage {
    pub width: u32,
    pub height: u32,
    pub pixels: Vec<u8>,
}

/// The contents of an [`RgbaImage`].
#[verifier::ext_equal]
pub struct ImageView {
    pub width: u32,
    pub height: u32,
    pub pixels: Seq<u8>,
}

impl View for RgbaImage {
    type V = ImageView;

    open spec fn view(&self) -> ImageView {
        ImageView { width: self.width, height: self.height, pixels: self.pixels@ }
    }
}

/// Why an image file could not be turned into a bitmap, with the decoder's own words.
#[derive(Debug)]
pub enum BitmapFault {
    /// Its format could not be looked for.
    Guess(String),
    /// It could not be decoded.
    Decode(String),
    /// It could not be written as a bitmap.
    Encode(String),
}

/// The contents of a [`BitmapFault`].
#[verifier::ext_equal]
pub enum FaultView {
    Guess(Seq<char>),
    Decode(Seq<char>),
    Encode(Seq<char>),
}

impl View for BitmapFault {
    type V = FaultView;

    open spec fn view(&self) -> FaultView {
        match *self {
            BitmapFault::Guess(cause) => FaultView::Guess(cause@),
            BitmapFault::Decode(cause) => FaultView::Decode(cause@),
            BitmapFault::Encode(cause) => FaultView::Encode(cause@),
        }
    }
}

/// The contents of the result of [`to_bitmap`].
pub open spec fn bitmap_view(r: Result<Vec<u8>, BitmapFault>) -> Result<Seq<u8>, FaultView> {
    match r {
        Ok(bytes) => Ok(bytes@),
        Err(fault) => Err(fault@),
    }
}

/// The contents of the result of [`to_rgba`] and [`icon_rgba`].
pub open spec fn rgba_view(r: Result<RgbaImage, String>) -> Result<ImageView, Seq<char>> {
    match r {
        Ok(image) => Ok(image@),
        Err(cause) => Err(cause@),
    }
}

/// The BMP file that the `image` crate writes for the image file `bytes`, or
/// the step that failed and its error text.
pub uninterp spec fn bitmap_of(bytes: Seq<u8>) -> Result<Seq<u8>, FaultView>;

/// The pixels that `clipboard_rs` reads in the image file `bytes`, or its error text.
pub uninterp spec fn clipboard_image(bytes: Seq<u8>) -> Result<ImageView, Seq<char>>;

/// The pixels that the `image` crate reads in the image file `bytes`, or its error text.
pub uninterp spec fn icon_image(bytes: Seq<u8>) -> Result<ImageView, Seq<char>>;

/// Calls `image::ImageReader::with_guessed_format` and `decode` on the bytes
/// and `DynamicImage::write_to` with the BMP format on what they give. The
/// outcome depends on the bytes alone; which BMP file it is, is left to the
/// name. An error is told with all its causes, as `anyhow` lists them.
#[verifier::external_body]
pub(crate) fn to_bitmap(bytes: &Vec<u8>) -> (r: Result<Vec<u8>, BitmapFault>)
    ensures
        bitmap_view(r) == bitmap_of(bytes@),
{
    let decoded = ImageReader::new(Cursor::new(bytes))
        .with_guessed_format()
        .map_err(|e| BitmapFault::Guess(format!("{:#}", anyhow::Error::new(e))))?
        .decode()
        .map_err(|e| BitmapFault::Decode(format!("{:#}", anyhow::Error::new(e))))?;
    let mut bitmap: Vec<u8> = Vec::new();
    decoded
        .write_to(&mut Cursor::new(&mut bitmap), ImageFormat::Bmp)
        .map_err(|e| BitmapFault::Encode(format!("{:#}", anyhow::Error::new(e))))?;
    Ok(bitmap)
}

/// Calls `clipboard_rs::common::RustImageData::from_bytes` and takes the
/// pixels of what it gives with `to_rgba8`. The outcome depends on the bytes
/// alone; which pixels they are, is left to the name.
#[verifier::external_body]
pub(crate) fn to_rgba(bytes: &Vec<u8>) -> (r: Result<RgbaImage, String>)
    ensures
        rgba_view(r) == clipboard_image(bytes@),
{
    let decoded = RustImageData::from_bytes(bytes).map_err(|e| e.to_string())?;
    let rgba = decoded.to_rgba8().map_err(|e| e.to_string())?;
    let (width, height) = rgba.dimensions();
    Ok(RgbaImage { width, height, pixels: rgba.into_raw() })
}

/// Calls `image::load_from_memory` and takes the pixels of what it gives with
/// `into_rgba8`. The outcome depends on the bytes alone; which pixels they
/// are, is left to the name. An error is told with all its causes, as `anyhow`
/// lists them.
#[verifier::external_body]
pub(crate) fn icon_rgba(bytes: &Vec<u8>) -> (r: Result<RgbaImage, String>)
    ensures
        rgba_view(r) == icon_image(bytes@),
{
    let decoded = image::load_from_memory(bytes)
        .map_err(|e| format!("{:#}", anyhow::Error::new(e)))?;
    let rgba = decoded.into_rgba8();
    let (width, height) = rgba.dimensions();
    Ok(RgbaImage { width, height, pixels: rgba.into_raw() })
}

} // verus!
