use vstd::prelude::*;
use vstd::string::StringExecFns;

verus! {

/// How every report of an icon that could not be decoded begins.
pub const ICON_FAILURE_PREFIX: &'static str = "Failed to decode tray icon: ";

/// A picture ready for the tray: its pixels as RGBA bytes, row by row, and its size in pixels.
#[derive(Debug, PartialEq, Eq)]
pub struct TrayIcon {
    pub rgba: Vec<u8>,
    pub width: u32,
    pub height: u32,
}

/// What a `TrayIcon` holds, as plain values.
pub struct Pixels {
    pub rgba: Seq<u8>,
    pub width: u32,
    pub height: u32,
}

impl View for TrayIcon {
    type V = Pixels;

    open spec fn view(&self) -> Pixels {
        Pixels { rgba: self.rgba@, width: self.width, height: self.height }
    }
}

impl TrayIcon {
    /// The bytes reach for every pixel of the stated size, four bytes to the pixel.
    pub open spec fn covers_its_size(&self) -> bool {
        4 * self.width * self.height <= self.rgba@.len()
    }
}

/// The plain values that stand for the outcome of a decoding or a loading.
pub open spec fn outcome_view(outcome: Result<TrayIcon, String>) -> Result<Pixels, Seq<char>> {
    match outcome {
        Ok(icon) => Ok(icon@),
        Err(message) => Err(message@),
    }
}

/// The report of an icon that could not be decoded, `detail` being the decoder's own words.
pub open spec fn icon_failure_message(detail: Seq<char>) -> Seq<char> {
    ICON_FAILURE_PREFIX@ + detail
}

/// Whether `message` reports an icon that could not be decoded.
pub open spec fn is_icon_failure(message: Seq<char>) -> bool {
    exists|detail: Seq<char>| message == icon_failure_message(detail)
}

/// What loading makes of a decoding: the picture as it is, or the failure put in words.
pub open spec fn loaded(decoded: Result<Pixels, Seq<char>>) -> Result<Pixels, Seq<char>> {
    match decoded {
        Ok(pixels) => Ok(pixels),
        Err(detail) => Err(icon_failure_message(detail)),
    }
}

/// Decodes with `image::load_from_memory`, which guesses the format from the bytes, and on
/// success takes the picture's `to_rgba8` rendering apart into its dimensions and raw bytes;
/// on failure gives the error's `Display` text. Which pixels or which words come back is not
/// stated: the decoders that a process has registered with the `image` crate have a say in it.
/// Stated is what the crate's `ImageBuffer` keeps true of every picture: its buffer is
/// never shorter than its dimensions need.
#[verifier::external_body]
fn decode_rgba8(bytes: &[u8]) -> (decoded: Result<TrayIcon, String>)
    ensures
        decoded matches Ok(icon) ==> icon.covers_its_size(),
{
    match image::load_from_memory(bytes) {
        Ok(picture) => {
            let rgba = picture.to_rgba8();
            let (width, height) = rgba.dimensions();
            Ok(TrayIcon { rgba: rgba.into_raw(), width, height })
        },
        Err(error) => Err(error.to_string()),
    }
}

/// Turns the outcome of a decoding into the tray icon, or into the report of the failure.
pub fn tray_icon_from(decoded: Result<TrayIcon, String>) -> (result: Result<TrayIcon, String>)
    ensures
        outcome_view(result) == loaded(outcome_view(decoded)),
{
    match decoded {
        Ok(icon) => Ok(icon),
        Err(detail) => {
            let mut message = String::from_str(ICON_FAILURE_PREFIX);
            message.append(detail.as_str());
            Err(message)
        },
    }
}

/// Loads the tray icon from the bytes of an encoded picture: decodes them and hands the
/// outcome to `tray_icon_from`. Without its icon the tray cannot be built, so a caller treats
/// the failure as fatal.
pub fn load_tray_icon(bytes: &[u8]) -> (result: Result<TrayIcon, String>)
    ensures
        result matches Ok(icon) ==> icon.covers_its_size(),
        result matches Err(message) ==> is_icon_failure(message@),
{
    tray_icon_from(decode_rgba8(bytes))
}

} // verus!
