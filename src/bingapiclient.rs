//! What the image source is asked, and what its answer means: the addresses of
//! the metadata and of the image, and the descriptor that is authoritative.

use vstd::prelude::*;

use crate::text::{decimal, push_decimal};

verus! {

/// Base address of the image-of-the-day service.
pub const API_ENDPOINT: &'static str = "https://www.bing.com";

/// Bing API "Images Archives": root object.
#[derive(Debug, PartialEq, Eq)]
pub struct BingAPIImagesArchive {
    /// Images found in the images archive.
    pub images: Vec<BingAPIImagesArchiveImage>,
}

/// Bing API "Images Archives": sub object "Image".
#[derive(Debug, PartialEq, Eq)]
pub struct BingAPIImagesArchiveImage {
    /// URL of the image without endpoint information (ie : /th?id=OHR...).
    pub url: String,
    /// Title of the image.
    pub title: String,
    /// Copyright information.
    pub copyright: String,
    /// Link (URL) to the copyright information page.
    pub copyrightlink: String,
    /// Date on which the image is proposed as wallpaper of the day (`YYYYMMDD`).
    pub startdate: String,
}

/// Address of the metadata of the latest image, in the requested dimensions;
/// `nc` carries the time in milliseconds so that no cache answers in place of
/// the service.
pub open spec fn archive_uri_text(endpoint: Seq<char>, time_ms: nat, width: nat, height: nat) -> Seq<
    char,
> {
    endpoint + "/HPImageArchive.aspx?format=js&idx=0&n=1&nc="@ + decimal(time_ms)
        + "&uhd=1&uhdwidth="@ + decimal(width) + "&uhdheight="@ + decimal(height)
}

/// Returns the address of the metadata of the latest image.
pub fn archive_uri(endpoint: &str, time_ms: u128, width: u32, height: u32) -> (r: String)
    ensures
        r@ == archive_uri_text(endpoint@, time_ms as nat, width as nat, height as nat),
{
    let mut uri = String::from_str(endpoint);
    uri.append("/HPImageArchive.aspx?format=js&idx=0&n=1&nc=");
    push_decimal(&mut uri, time_ms);
    uri.append("&uhd=1&uhdwidth=");
    push_decimal(&mut uri, width as u128);
    uri.append("&uhdheight=");
    push_decimal(&mut uri, height as u128);
    assert(uri@ =~= archive_uri_text(endpoint@, time_ms as nat, width as nat, height as nat));
    uri
}

/// Returns the address of the bytes of an image: the endpoint followed by the
/// image's relative URL `url`.
pub fn image_uri(endpoint: &str, url: &str) -> (r: String)
    ensures
        r@ == endpoint@ + url@,
{
    let mut uri = String::from_str(endpoint);
    uri.append(url);
    uri
}

impl BingAPIImagesArchive {
    /// Returns the authoritative image of the archive, its first one; an
    /// archive without images is a malformed answer.
    pub fn latest_image(self) -> (r: Result<BingAPIImagesArchiveImage, String>)
        ensures
            self.images.len() > 0 ==> r == Ok::<BingAPIImagesArchiveImage, String>(self.images[0]),
            self.images.len() == 0 ==> (r matches Err(e) && e@
                == "Can't parse JSON document: the archive holds no image"@),
    {
        let mut images = self.images;
        if images.len() > 0 {
            Ok(images.remove(0))
        } else {
            Err(String::from_str("Can't parse JSON document: the archive holds no image"))
        }
    }
}

} // verus!
