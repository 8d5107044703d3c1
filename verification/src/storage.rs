//! Where the node keeps its local durable storage: a platform
//! directory when one exists, the home directory as a fallback, a
//! process-relative path as a last resort. Components are joined with
//! `/`.

use vstd::prelude::*;

verus! {

/// Relies on dirs::data_local_dir: the platform's local-data
/// directory, if the platform defines one. Which directory comes back
/// depends on the environment, so nothing more is promised.
#[verifier::external_body]
fn data_local_dir_path() -> (r: Option<String>) {
    dirs::data_local_dir().map(|d| d.to_string_lossy().to_string())
}

/// Relies on dirs::home_dir: the user's home directory, if the
/// environment defines one. Which directory comes back depends on the
/// environment, so nothing more is promised.
#[verifier::external_body]
fn home_dir_path() -> (r: Option<String>) {
    dirs::home_dir().map(|d| d.to_string_lossy().to_string())
}

/// The storage directory for given platform directories: the
/// local-data directory plus `/ankurah`; without one, the home
/// directory plus `/.ankurah`; without either, `ankurah_data` next to
/// the process.
pub fn choose_storage_path(data_dir: Option<String>, home_dir: Option<String>) -> (r: String)
    ensures
        match data_dir {
            Some(d) => r@ == d@ + "/ankurah"@,
            None => match home_dir {
                Some(h) => r@ == h@ + "/.ankurah"@,
                None => r@ == "ankurah_data"@,
            },
        },
{
    match data_dir {
        Some(d) => d.concat("/ankurah"),
        None => match home_dir {
            Some(h) => h.concat("/.ankurah"),
            None => String::from_str("ankurah_data"),
        },
    }
}

/// The default storage directory on this machine. The directories
/// themselves come from the environment; the fallback chain among
/// them is fixed, and the result is never empty.
pub fn get_default_storage_path() -> (r: String)
    ensures
        r@.len() > 0,
{
    proof {
        reveal_strlit("/ankurah");
        reveal_strlit("/.ankurah");
        reveal_strlit("ankurah_data");
    }
    choose_storage_path(data_local_dir_path(), home_dir_path())
}

} // verus!
