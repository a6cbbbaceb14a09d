use vstd::prelude::*;

use directories::ProjectDirs;
use std::path::Path;
use time::format_description::well_known::Rfc3339;
use time::OffsetDateTime;
use uuid::Uuid;

verus! {

/// The path `base` with `part` appended as a further component.
pub uninterp spec fn path_joined(base: Seq<char>, part: Seq<char>) -> Seq<char>;

/// Relies on `std::path::Path::join`: appends one component to a path; the
/// result depends on the two paths alone.
#[verifier::external_body]
pub(crate) fn join_path(base: &str, part: &str) -> (r: String)
    ensures
        r@ == path_joined(base@, part@),
{
    Path::new(base).join(part).to_string_lossy().to_string()
}

/// Relies on `uuid::Uuid::new_v4` and its `Display`: a random id written in
/// the hyphenated form, 36 characters long.
#[verifier::external_body]
pub(crate) fn new_run_id() -> (r: String)
    ensures
        r@.len() == 36,
{
    Uuid::new_v4().to_string()
}

/// Relies on `directories::ProjectDirs::from` and `ProjectDirs::config_dir`:
/// the configuration directory of application `app`, where the platform
/// has one.
#[verifier::external_body]
pub(crate) fn config_dir(app: &str) -> (r: Option<String>)
{
    ProjectDirs::from("", "", app).map(|d| d.config_dir().to_string_lossy().to_string())
}

/// Relies on `time::OffsetDateTime::now_local` (falling back to `now_utc`
/// where the local offset is unknown) and on `OffsetDateTime::format` with
/// `Rfc3339`: the current time as text, where it can be formatted.
#[verifier::external_body]
fn format_now() -> (r: Option<String>)
{
    OffsetDateTime::now_local().unwrap_or_else(|_| OffsetDateTime::now_utc()).format(&Rfc3339).ok()
}

/// The current time in RFC 3339 form, or `unknown` where it cannot be
/// formatted.
pub fn now_rfc3339() -> (r: String) {
    match format_now() {
        Some(t) => t,
        None => String::from_str("unknown"),
    }
}

} // verus!
