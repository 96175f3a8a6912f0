//! Media devices and streams, as the front end is told of them.
//!
//! The front end opens devices itself. What is offered here is the
//! system-level view, which has no platform backend: it knows no device.
use vstd::prelude::*;

verus! {

/// A microphone, a loudspeaker or a camera. `kind` is `audioinput`,
/// `audiooutput` or `videoinput`.
#[derive(Debug, Clone, PartialEq, Eq)]
pub struct MediaDevice {
    pub device_id: String,
    pub label: String,
    pub kind: String,
}

/// What a stream is asked to carry, and from which devices.
#[derive(Debug, PartialEq, Eq)]
pub struct MediaStreamOptions {
    pub audio: bool,
    pub video: bool,
    pub audio_device_id: Option<String>,
    pub video_device_id: Option<String>,
}

/// A stream and its tracks.
#[derive(Debug, PartialEq, Eq)]
pub struct MediaStreamInfo {
    pub stream_id: String,
    pub audio_tracks: Vec<String>,
    pub video_tracks: Vec<String>,
}

/// `uuid::Uuid`, declared so that an identifier can be passed on. Nothing
/// inside one is visible here.
#[verifier::external_type_specification]
#[verifier::external_body]
pub struct ExUuid(uuid::Uuid);

/// Calls `uuid::Uuid::new_v4`. The identifier is drawn at random: nothing is
/// said of it.
#[verifier::external_body]
pub(crate) fn fresh_uuid() -> uuid::Uuid {
    uuid::Uuid::new_v4()
}

/// A lower-case hexadecimal digit.
pub open spec fn is_lower_hex(c: char) -> bool {
    ('0' <= c <= '9') || ('a' <= c <= 'f')
}

/// The written form of an identifier: 32 lower-case hexadecimal digits in
/// groups of 8, 4, 4, 4 and 12, with a hyphen between two groups.
pub open spec fn is_uuid_text(text: Seq<char>) -> bool {
    &&& text.len() == 36
    &&& forall|i: int|
        0 <= i < 36 ==> if i == 8 || i == 13 || i == 18 || i == 23 {
            #[trigger] text[i] == '-'
        } else {
            is_lower_hex(text[i])
        }
}

/// Writes an identifier out with `to_string`. Trusted: the crate writes
/// every identifier in its hyphenated lower-case form, which is what
/// `is_uuid_text` describes. Which digits come out depends on the
/// identifier, of which nothing is known.
#[verifier::external_body]
pub(crate) fn uuid_text(id: &uuid::Uuid) -> (r: String)
    ensures
        is_uuid_text(r@),
{
    id.to_string()
}

/// A new stream identifier: an identifier drawn at random, in its written
/// form.
pub(crate) fn fresh_stream_id() -> (text: String)
    ensures
        is_uuid_text(text@),
{
    let id = fresh_uuid();
    uuid_text(&id)
}

/// Adds the devices of the system to `devices`. There is no platform
/// backend, so none is added.
pub fn enumerate_devices(devices: &mut Vec<MediaDevice>) -> (r: Result<(), String>)
    ensures
        r is Ok,
        *final(devices) == *old(devices),
{
    Ok(())
}

/// The devices of the system.
pub fn get_system_media_devices() -> (r: Result<Vec<MediaDevice>, String>)
    ensures
        r matches Ok(devices) && devices@.len() == 0,
{
    let mut devices: Vec<MediaDevice> = Vec::new();
    match enumerate_devices(&mut devices) {
        Ok(()) => Ok(devices),
        Err(e) => Err(e),
    }
}

impl MediaStreamInfo {
    /// The stream `stream_id`, which has no tracks yet.
    pub fn new(stream_id: String) -> (r: MediaStreamInfo)
        ensures
            r.stream_id == stream_id,
            r.audio_tracks@.len() == 0,
            r.video_tracks@.len() == 0,
    {
        MediaStreamInfo { stream_id, audio_tracks: Vec::new(), video_tracks: Vec::new() }
    }
}

/// Opens a stream. Capture itself is the front end's; the stream gets a
/// fresh identifier and no tracks, whatever was asked for.
pub fn get_media_stream(_options: MediaStreamOptions) -> (r: Result<MediaStreamInfo, String>)
    ensures
        r matches Ok(info) && is_uuid_text(info.stream_id@) && info.audio_tracks@.len() == 0
            && info.video_tracks@.len() == 0,
{
    Ok(MediaStreamInfo::new(fresh_stream_id()))
}

} // verus!
