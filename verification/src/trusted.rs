//! What the verifier is told, without proof, of the standard library and of
//! other crates: the types that the library carries through, and one small
//! function for each call that the library makes into them.

use vstd::prelude::*;
use crate::text::trimmed;

verus! {

/// `std::path::PathBuf`: an owned path. Nothing is known of what it holds.
#[verifier::external_type_specification]
#[verifier::external_body]
pub struct ExPathBuf(std::path::PathBuf);

/// `std::io::Error`: an error of an I/O operation. Nothing is known of
/// what it holds.
#[verifier::external_type_specification]
#[verifier::external_body]
pub struct ExIoError(std::io::Error);

/// `std::time::Instant`: a moment on the monotonic clock. Nothing is known
/// of what it holds.
#[verifier::external_type_specification]
#[verifier::external_body]
pub struct ExInstant(std::time::Instant);

/// `hound::Error`: an error of reading or writing a WAV file. Nothing is
/// known of what it holds.
#[verifier::external_type_specification]
#[verifier::external_body]
pub struct ExHoundError(hound::Error);

// The standard library.

/// `Instant::now`: the present moment. Nothing is claimed of the result.
#[verifier::external_body]
pub(crate) fn instant_now() -> std::time::Instant {
    std::time::Instant::now()
}

/// `Instant::elapsed`: the time that has passed since `since`. Nothing is
/// claimed of the result.
#[verifier::external_body]
pub(crate) fn elapsed_since(since: &std::time::Instant) -> std::time::Duration {
    since.elapsed()
}

/// `Duration::as_nanos`: the whole nanoseconds of the duration. A
/// duration is opaque here, so nothing is claimed of the result.
#[verifier::external_body]
pub(crate) fn duration_nanos(duration: &std::time::Duration) -> u128 {
    duration.as_nanos()
}

/// `Duration::as_millis`: the whole milliseconds of the duration. A
/// duration is opaque here, so nothing is claimed of the result.
#[verifier::external_body]
pub(crate) fn duration_millis(duration: &std::time::Duration) -> u128 {
    duration.as_millis()
}

/// `Duration::as_micros`: the whole microseconds of the duration. A
/// duration is opaque here, so nothing is claimed of the result.
#[verifier::external_body]
pub(crate) fn duration_micros(duration: &std::time::Duration) -> u128 {
    duration.as_micros()
}

/// `Arc::clone`: one more handle to the value that `handle` points to.
#[verifier::external_body]
pub(crate) fn share<T>(handle: &std::sync::Arc<T>) -> (r: std::sync::Arc<T>)
    ensures
        r == *handle,
{
    std::sync::Arc::clone(handle)
}

/// `PathBuf::from`: the path that `text` spells. Nothing is claimed of the
/// result.
#[verifier::external_body]
pub(crate) fn path_from(text: &str) -> std::path::PathBuf {
    std::path::PathBuf::from(text)
}

/// `Path::join`: `name` added to the path `dir`. Nothing is claimed of the
/// result.
#[verifier::external_body]
pub(crate) fn path_join(dir: &std::path::PathBuf, name: &str) -> std::path::PathBuf {
    dir.join(name)
}

/// `Path::display`, as text. Nothing is claimed of the result.
#[verifier::external_body]
pub(crate) fn path_text(path: &std::path::PathBuf) -> String {
    format!("{}", path.display())
}

/// The text that `Display` gives for an `std::io::Error`. Nothing is
/// claimed of the result.
#[verifier::external_body]
pub(crate) fn io_error_text(error: &std::io::Error) -> String {
    format!("{}", error)
}

/// `str::trim`: the slice of `s` that is left when leading and trailing
/// white space is removed. The contract takes white space to be the
/// characters of `is_white_space`, which are those with the Unicode
/// property `White_Space`.
#[verifier::external_body]
pub(crate) fn trim(s: &str) -> (r: &str)
    ensures
        r@ == trimmed(s@),
{
    s.trim()
}

/// The text `s` with each character in lower case.
pub uninterp spec fn lowercased(s: Seq<char>) -> Seq<char>;

/// `str::to_lowercase`: the result is named `lowercased`.
#[verifier::external_body]
pub(crate) fn lowercase(s: &str) -> (r: String)
    ensures
        r@ == lowercased(s@),
{
    s.to_lowercase()
}

// Other crates.

/// The SHA-256 digest of `data`, in lower-case hexadecimal digits.
pub uninterp spec fn sha256_hex(data: Seq<u8>) -> Seq<char>;

/// `Sha256::digest` of the crate `sha2`, printed in lower-case hexadecimal
/// digits: the result is named `sha256_hex`.
#[verifier::external_body]
pub(crate) fn sha256_hex_of(data: &[u8]) -> (r: String)
    ensures
        r@ == sha256_hex(data@),
{
    format!("{:x}", <sha2::Sha256 as sha2::Digest>::digest(data))
}

/// The text that `Display` gives for a `hound::Error`. Nothing is claimed
/// of the result.
#[verifier::external_body]
pub(crate) fn hound_error_text(error: &hound::Error) -> String {
    format!("{}", error)
}

/// The 128 bits of the UUID that `text` spells in one of the forms that
/// the crate `uuid` reads, or nothing where it spells none.
pub uninterp spec fn uuid_of(text: Seq<char>) -> Option<u128>;

/// `Uuid::parse_str` and `Uuid::as_u128` of the crate `uuid`: the result
/// is named `uuid_of`.
#[verifier::external_body]
pub(crate) fn parse_uuid(text: &str) -> (r: Option<u128>)
    ensures
        r == uuid_of(text@),
{
    match uuid::Uuid::parse_str(text) {
        Ok(id) => Some(id.as_u128()),
        Err(_) => None,
    }
}

/// The hyphenated lower-case form of the UUID with the given 128 bits.
pub uninterp spec fn uuid_text(id: u128) -> Seq<char>;

/// `Uuid::from_u128` of the crate `uuid` and the text that `Display` gives
/// for the UUID: the result is named `uuid_text`.
#[verifier::external_body]
pub(crate) fn uuid_to_text(id: u128) -> (r: String)
    ensures
        r@ == uuid_text(id),
{
    format!("{}", uuid::Uuid::from_u128(id))
}

/// `num_cpus::get`: the number of logical processor cores of the machine.
/// Nothing is claimed of the result.
#[verifier::external_body]
pub(crate) fn logical_cores() -> usize {
    num_cpus::get()
}

/// `num_cpus::get_physical`: the number of physical processor cores of the
/// machine. Nothing is claimed of the result.
#[verifier::external_body]
pub(crate) fn physical_cores() -> usize {
    num_cpus::get_physical()
}

} // verus!
