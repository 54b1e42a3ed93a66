use vstd::prelude::*;
use vstd::string::*;
use crate::settings::WallpaperSettings;

verus! {

/// The random-photo endpoint for a collection: the base query, plus a
/// collection filter when one is configured.
pub open spec fn random_image_url(collection_id: Seq<char>) -> Seq<char> {
    if collection_id.len() == 0 {
        "https://api.unsplash.com/photos/random?orientation=landscape"@
    } else {
        "https://api.unsplash.com/photos/random?orientation=landscape"@ + "&collections="@
            + collection_id
    }
}

/// The authorization header value for a credential key.
pub open spec fn auth_header_value(api_key: Seq<char>) -> Seq<char> {
    "Client-ID "@ + api_key
}

/// An authenticated request the caller is to send: the URL and the
/// authorization header value.
pub struct FetchRequest {
    pub url: String,
    pub auth_header: String,
}

/// Builds the random-photo request for the given settings. Fails
/// exactly when no credential is configured.
pub fn fetch_random_image_plan(settings: &WallpaperSettings) -> (r: Result<FetchRequest, String>)
    ensures
        r is Err <==> settings.api_key@.len() == 0,
        r is Err ==> r->Err_0@ == "API key not configured"@,
        r is Ok ==> r->Ok_0.url@ == random_image_url(settings.collection_id@),
        r is Ok ==> r->Ok_0.auth_header@ == auth_header_value(settings.api_key@),
{
    if settings.api_key.as_str().is_empty() {
        return Err(String::from_str("API key not configured"));
    }
    let mut url = String::from_str(
        "https://api.unsplash.com/photos/random?orientation=landscape",
    );
    if !settings.collection_id.as_str().is_empty() {
        url.append("&collections=");
        url.append(settings.collection_id.as_str());
    }
    let mut auth = String::from_str("Client-ID ");
    auth.append(settings.api_key.as_str());
    Ok(FetchRequest { url, auth_header: auth })
}

/// The error reported when the remote service answers with a
/// non-success status: the status text and the response body.
pub open spec fn api_error_text(status_text: Seq<char>, body: Seq<char>) -> Seq<char> {
    "API error: "@ + status_text + " - "@ + body
}

/// Builds the error message for a non-success response.
pub fn api_error_message(status_text: &str, body: &str) -> (r: String)
    ensures
        r@ == api_error_text(status_text@, body@),
{
    let mut msg = String::from_str("API error: ");
    msg.append(status_text);
    msg.append(" - ");
    msg.append(body);
    msg
}

/// The file name a downloaded image is stored under, derived from the
/// image's unique identifier.
pub open spec fn wallpaper_file_name(image_id: Seq<char>) -> Seq<char> {
    "wallpaper_"@ + image_id + ".jpg"@
}

/// Builds the file name for a downloaded image.
pub fn wallpaper_filename(image_id: &str) -> (r: String)
    ensures
        r@ == wallpaper_file_name(image_id@),
{
    let mut name = String::from_str("wallpaper_");
    name.append(image_id);
    name.append(".jpg");
    name
}

/// Whether a download-tracking request is to be sent: only when a
/// credential is configured; without one the tracking call is skipped
/// and that is not an error.
pub fn should_track_download(settings: &WallpaperSettings) -> (r: bool)
    ensures
        r == (settings.api_key@.len() != 0),
{
    !settings.api_key.as_str().is_empty()
}

} // verus!
