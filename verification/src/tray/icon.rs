//! The icon in the tray, and the program that opens what the menu names.
use crate::failure;
use crate::failure::{Failure, FailureView};
use crate::images;
use crate::images::{icon_rgba, ImageView, RgbaImage};
use crate::platform::Platform;
use vstd::prelude::*;
use vstd::string::*;

verus! {

/// The contents of a loaded icon.
pub open spec fn icon_view(r: Result<RgbaImage, Failure>) -> Result<ImageView, FailureView> {
    match r {
        Ok(image) => Ok(image@),
        Err(f) => Err(f@),
    }
}

/// An icon, or what is told when it could not be decoded.
pub open spec fn loaded_icon(
    decoded: Result<ImageView, Seq<char>>,
    context: Seq<char>,
) -> Result<ImageView, FailureView> {
    match decoded {
        Ok(image) => Ok(image),
        Err(cause) => Err(failure::caused_failure(context, cause)),
    }
}

/// An icon, given what decoding its file gave.
pub fn icon_or_failure(decoded: Result<RgbaImage, String>, context: &str) -> (r: Result<
    RgbaImage,
    Failure,
>)
    ensures
        icon_view(r) == loaded_icon(images::rgba_view(decoded), context@),
{
    match decoded {
        Ok(image) => Ok(image),
        Err(cause) => Err(Failure::caused(context.to_owned(), cause)),
    }
}

/// Decodes the icon in color.
pub fn load_icon_color(bytes: &Vec<u8>) -> (r: Result<RgbaImage, Failure>)
    ensures
        icon_view(r) == loaded_icon(
            images::icon_image(bytes@),
            "failed to decode embedded color icon"@,
        ),
{
    icon_or_failure(icon_rgba(bytes), "failed to decode embedded color icon")
}

/// Decodes the icon of which macOS uses the outline alone.
pub fn load_icon_template(bytes: &Vec<u8>) -> (r: Result<RgbaImage, Failure>)
    ensures
        icon_view(r) == loaded_icon(
            images::icon_image(bytes@),
            "failed to decode embedded template icon"@,
        ),
{
    icon_or_failure(icon_rgba(bytes), "failed to decode embedded template icon")
}

/// The icon to show, and whether the system may recolor it.
#[derive(Debug)]
pub struct TrayImage {
    pub image: RgbaImage,
    pub template: bool,
}

/// The icon to show: on macOS the outline if it could be decoded, else the one
/// in color, without which there is no tray.
pub fn choose_icon(
    platform: Platform,
    color: Result<RgbaImage, Failure>,
    template: Result<RgbaImage, Failure>,
) -> (r: Result<TrayImage, Failure>)
    ensures
        (match (r, icon_view(color), icon_view(template)) {
            (Err(e), Err(f), _) => e@ == f,
            (Ok(icon), Ok(_), Ok(outline)) if platform == Platform::MacOs => icon.template
                && icon.image@ == outline,
            (Ok(icon), Ok(image), _) => !icon.template && icon.image@ == image,
            _ => false,
        }),
{
    let image = match color {
        Ok(image) => image,
        Err(f) => {
            return Err(f);
        },
    };
    match (platform, template) {
        (Platform::MacOs, Ok(outline)) => Ok(TrayImage { image: outline, template: true }),
        _ => Ok(TrayImage { image, template: false }),
    }
}

/// The program that opens a folder, where there is one.
pub open spec fn file_manager(platform: Platform) -> Option<Seq<char>> {
    match platform {
        Platform::Windows => Some("explorer.exe"@),
        Platform::MacOs => Some("open"@),
        Platform::Linux => Some("xdg-open"@),
        Platform::Unsupported => None,
    }
}

/// The program that opens a folder.
pub fn open_in_file_manager(platform: Platform) -> (r: Option<String>)
    ensures
        r.deep_view() == file_manager(platform),
{
    match platform {
        Platform::Windows => Some("explorer.exe".to_owned()),
        Platform::MacOs => Some("open".to_owned()),
        Platform::Linux => Some("xdg-open".to_owned()),
        Platform::Unsupported => None,
    }
}

/// What to tell when that program did not start.
pub fn open_failure(program: &str, cause: String) -> (r: Failure)
    ensures
        r@ == failure::caused_failure("failed to spawn "@ + program@, cause@),
{
    Failure::caused("failed to spawn ".to_owned().concat(program), cause)
}

/// An icon is what its file decodes to, and one that does not decode is told.
pub proof fn law_icon_is_what_its_file_decodes_to(
    image: ImageView,
    cause: Seq<char>,
    context: Seq<char>,
)
    ensures
        loaded_icon(Ok(image), context) == Ok::<ImageView, FailureView>(image),
        loaded_icon(Err(cause), context) == Err::<ImageView, FailureView>(
            FailureView { context, cause: Some(cause) },
        ),
        file_manager(Platform::Windows) == Some("explorer.exe"@),
        file_manager(Platform::MacOs) == Some("open"@),
        file_manager(Platform::Linux) == Some("xdg-open"@),
        file_manager(Platform::Unsupported) is None,
{
}

} // verus!
