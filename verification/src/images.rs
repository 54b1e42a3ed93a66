use vstd::prelude::*;
use vstd::string::*;

verus! {

/// The set of image URLs a remote photo record carries, one per
/// resolution variant.
pub struct UnsplashUrls {
    pub raw: String,
    pub full: String,
    pub regular: String,
    pub small: String,
    pub thumb: String,
}

/// The author of a remote photo record.
pub struct UnsplashUser {
    pub name: String,
    pub username: String,
}

/// The link set of a remote photo record; `download_location` is the
/// endpoint hit to report a download.
pub struct UnsplashLinks {
    pub html: String,
    pub download: String,
    pub download_location: String,
}

/// One remote photo record as the rotation consumes it.
pub struct UnsplashImage {
    pub id: String,
    pub description: Option<String>,
    pub alt_description: Option<String>,
    pub urls: UnsplashUrls,
    pub user: UnsplashUser,
    pub links: UnsplashLinks,
}

/// The single desired wallpaper state: which image was last applied,
/// where its file lies, and when it was set.
pub struct CurrentWallpaper {
    pub image: Option<UnsplashImage>,
    pub local_path: Option<String>,
    pub set_at: Option<String>,
}

impl Default for CurrentWallpaper {
    fn default() -> (r: Self)
        ensures
            r.image is None,
            r.local_path is None,
            r.set_at is None,
    {
        CurrentWallpaper { image: None, local_path: None, set_at: None }
    }
}

fn clone_opt_string(o: &Option<String>) -> (r: Option<String>)
    ensures
        r is Some <==> o is Some,
        r is Some ==> r->Some_0@ == o->Some_0@,
{
    match o {
        Some(s) => Some(s.clone()),
        None => None,
    }
}

impl Clone for UnsplashUrls {
    fn clone(&self) -> (r: Self)
        ensures
            r.raw@ == self.raw@,
            r.full@ == self.full@,
            r.regular@ == self.regular@,
            r.small@ == self.small@,
            r.thumb@ == self.thumb@,
    {
        UnsplashUrls {
            raw: self.raw.clone(),
            full: self.full.clone(),
            regular: self.regular.clone(),
            small: self.small.clone(),
            thumb: self.thumb.clone(),
        }
    }
}

impl Clone for UnsplashUser {
    fn clone(&self) -> (r: Self)
        ensures
            r.name@ == self.name@,
            r.username@ == self.username@,
    {
        UnsplashUser { name: self.name.clone(), username: self.username.clone() }
    }
}

impl Clone for UnsplashLinks {
    fn clone(&self) -> (r: Self)
        ensures
            r.html@ == self.html@,
            r.download@ == self.download@,
            r.download_location@ == self.download_location@,
    {
        UnsplashLinks {
            html: self.html.clone(),
            download: self.download.clone(),
            download_location: self.download_location.clone(),
        }
    }
}

impl Clone for UnsplashImage {
    fn clone(&self) -> (r: Self)
        ensures
            r.id@ == self.id@,
            r.urls.full@ == self.urls.full@,
            r.links.download_location@ == self.links.download_location@,
    {
        UnsplashImage {
            id: self.id.clone(),
            description: clone_opt_string(&self.description),
            alt_description: clone_opt_string(&self.alt_description),
            urls: self.urls.clone(),
            user: self.user.clone(),
            links: self.links.clone(),
        }
    }
}

impl Clone for CurrentWallpaper {
    fn clone(&self) -> (r: Self)
        ensures
            r.image is Some <==> self.image is Some,
            r.image is Some ==> r.image->Some_0.id@ == self.image->Some_0.id@,
            r.local_path is Some <==> self.local_path is Some,
            r.local_path is Some ==> r.local_path->Some_0@ == self.local_path->Some_0@,
            r.set_at is Some <==> self.set_at is Some,
            r.set_at is Some ==> r.set_at->Some_0@ == self.set_at->Some_0@,
    {
        CurrentWallpaper {
            image: match &self.image {
                Some(i) => Some(i.clone()),
                None => None,
            },
            local_path: clone_opt_string(&self.local_path),
            set_at: clone_opt_string(&self.set_at),
        }
    }
}

/// The desired-wallpaper record produced after a successful rotation:
/// the applied image, its local file path, and the timestamp of the
/// change, all present.
pub fn make_current(image: UnsplashImage, local_path: String, set_at: String) -> (r:
    CurrentWallpaper)
    ensures
        r.image == Some(image),
        r.local_path == Some(local_path),
        r.set_at == Some(set_at),
{
    CurrentWallpaper { image: Some(image), local_path: Some(local_path), set_at: Some(set_at) }
}

/// The moment of the change, formatted for the desired-wallpaper record.
/// Relies on chrono's Utc::now and DateTime::to_rfc3339: the current
/// time, about which nothing is promised.
#[verifier::external_body]
fn current_time_rfc3339() -> String {
    chrono::Utc::now().to_rfc3339()
}

/// The desired-wallpaper record for an image applied at this moment:
/// like `make_current`, with the timestamp taken from the clock.
pub fn make_current_now(image: UnsplashImage, local_path: String) -> (r: CurrentWallpaper)
    ensures
        r.image == Some(image),
        r.local_path == Some(local_path),
        r.set_at is Some,
{
    let set_at = current_time_rfc3339();
    make_current(image, local_path, set_at)
}

} // verus!
