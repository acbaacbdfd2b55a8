//! Paths of the output folder and of recording files.
use vstd::prelude::*;
use crate::clock::plain_component;

verus! {

/// The folder, under the user's video folder, that recordings go to.
pub const APP_FOLDER: &'static str = "FlashScreen";

/// `s` ends with `suffix`.
pub open spec fn ends_with(s: Seq<char>, suffix: Seq<char>) -> bool {
    s.len() >= suffix.len() && s.subrange(s.len() - suffix.len(), s.len() as int) == suffix
}

/// Relies on std::path::Path::join: a relative path that is a single plain
/// component is appended to the base (after a separator where one is
/// needed), so the joined path ends with it. The path is then read back as
/// text; it was made from text, so nothing is lost.
#[verifier::external_body]
pub(crate) fn join_path(base: &str, name: &str) -> (r: String)
    ensures
        plain_component(name@) ==> ends_with(r@, name@),
{
    std::path::Path::new(base).join(name).to_string_lossy().into_owned()
}

/// Relies on dirs::video_dir: the user's video folder, where the platform
/// has one. It depends on the environment, so nothing is promised of it.
#[verifier::external_body]
fn video_dir() -> (r: Option<String>) {
    match dirs::video_dir() {
        Some(p) => Some(p.to_string_lossy().into_owned()),
        None => None,
    }
}

/// The application's folder under a video folder, if there is one.
pub fn app_folder_in(video: Option<String>) -> (r: Option<String>)
    ensures
        (r is None) == (video is None),
        r is Some ==> ends_with(r->Some_0@, APP_FOLDER@),
{
    match video {
        Some(v) => {
            proof {
                reveal_strlit("FlashScreen");
            }
            assert(plain_component(APP_FOLDER@));
            Some(join_path(v.as_str(), APP_FOLDER))
        },
        None => None,
    }
}

/// The default output folder: the application's folder under the user's
/// video folder, if the platform has one.
pub fn default_video_folder() -> (r: Option<String>)
    ensures
        r is Some ==> ends_with(r->Some_0@, APP_FOLDER@),
{
    app_folder_in(video_dir())
}

/// The default output folder, or the empty text where the platform has no
/// video folder.
pub fn get_output_directory() -> (r: String)
    ensures
        r@.len() == 0 || ends_with(r@, APP_FOLDER@),
{
    match default_video_folder() {
        Some(d) => d,
        None => String::new(),
    }
}

} // verus!
