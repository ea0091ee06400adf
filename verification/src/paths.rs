//! Where generated media is stored on disk and where it is served from.
//!
//! Media lives under a directory per device. The storage path of a file is
//! built with `Path::join`, so its text is stated through
//! [`joined_text`](crate::outside::joined_text); the address it is served from
//! is plain text.

use vstd::prelude::*;
use std::path::PathBuf;
use crate::outside::{joined_text, path_from, path_join, path_text};
use crate::text::joined;

verus! {

/// The directory that holds every device's audio.
pub open spec fn audio_root() -> Seq<char> {
    "/tmp/qbot/audio"@
}

/// The directory that holds every device's images.
pub open spec fn image_root() -> Seq<char> {
    "/tmp/qbot/image"@
}

/// The text of the path of the audio file `name` of device `device_id`.
pub open spec fn audio_path_text(device_id: Seq<char>, name: Seq<char>) -> Seq<char> {
    joined_text(joined_text(audio_root(), device_id), name + ".mp3"@)
}

/// The text of the path of the image file `name` of device `device_id`.
pub open spec fn image_path_text(device_id: Seq<char>, name: Seq<char>) -> Seq<char> {
    joined_text(joined_text(image_root(), device_id), name + ".png"@)
}

/// The address of the audio file `name` of device `device_id`.
pub open spec fn audio_url_text(device_id: Seq<char>, name: Seq<char>) -> Seq<char> {
    "/assets/audio/"@ + device_id + "/"@ + name + ".mp3"@
}

/// The address of the image file `name` of device `device_id`.
pub open spec fn image_url_text(device_id: Seq<char>, name: Seq<char>) -> Seq<char> {
    "/assets/image/"@ + device_id + "/"@ + name + ".png"@
}

/// The path `root/device_id/file`.
fn media_path(root: &str, device_id: &str, file: &str) -> (path: PathBuf)
    ensures
        path_text(path) == joined_text(joined_text(root@, device_id@), file@),
{
    let base = path_from(root);
    let directory = path_join(&base, device_id);
    path_join(&directory, file)
}

/// The text `prefix device_id / name extension`.
fn media_url(prefix: &str, device_id: &str, name: &str, extension: &str) -> (url: String)
    ensures
        url@ == prefix@ + device_id@ + "/"@ + name@ + extension@,
{
    let mut url = joined(prefix, device_id);
    url.append("/");
    url.append(name);
    url.append(extension);
    url
}

/// Where the audio file `name` of device `device_id` is stored.
pub fn audio_path(device_id: &str, name: &str) -> (path: PathBuf)
    ensures
        path_text(path) == audio_path_text(device_id@, name@),
{
    let file = joined(name, ".mp3");
    media_path("/tmp/qbot/audio", device_id, file.as_str())
}

/// Where the audio file `name` of device `device_id` is served from.
pub fn audio_url(device_id: &str, name: &str) -> (url: String)
    ensures
        url@ == audio_url_text(device_id@, name@),
{
    media_url("/assets/audio/", device_id, name, ".mp3")
}

/// Where the image file `name` of device `device_id` is stored.
pub fn image_path(device_id: &str, name: &str) -> (path: PathBuf)
    ensures
        path_text(path) == image_path_text(device_id@, name@),
{
    let file = joined(name, ".png");
    media_path("/tmp/qbot/image", device_id, file.as_str())
}

/// Where the image file `name` of device `device_id` is served from.
pub fn image_url(device_id: &str, name: &str) -> (url: String)
    ensures
        url@ == image_url_text(device_id@, name@),
{
    media_url("/assets/image/", device_id, name, ".png")
}

/// An address is never empty, whatever the device and the name.
pub proof fn url_is_not_empty(device_id: Seq<char>, name: Seq<char>)
    ensures
        audio_url_text(device_id, name).len() > 0,
        image_url_text(device_id, name).len() > 0,
{
    reveal_strlit("/");
}

} // verus!
