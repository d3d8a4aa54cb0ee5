//! Where a Whisper model is downloaded from and to, and the check of what
//! was downloaded.

use vstd::prelude::*;
use std::path::PathBuf;
use vstd::string::StringExecFns;
use crate::text::{join2, join3, str_eq};
use crate::trusted::{lowercase, lowercased, path_from, path_join, sha256_hex, sha256_hex_of};

verus! {

/// Configuration for downloading Whisper models.
#[derive(Debug)]
pub struct ModelDownloadConfig {
    /// Name of the model, such as "base".
    pub model_name: String,
    /// Address under which the model files lie.
    pub base_url: String,
    /// Directory that holds the models.
    pub model_dir: PathBuf,
    /// SHA-256 checksum that the model file must have, if one is known.
    pub checksum: Option<String>,
}

/// The address under which the model files lie by default.
pub open spec fn default_base_url() -> Seq<char> {
    "https://huggingface.co/ggerganov/whisper.cpp/resolve/main"@
}

/// The file name of the model with the given name.
pub open spec fn model_filename(model_name: Seq<char>) -> Seq<char> {
    "ggml-"@ + model_name + ".bin"@
}

impl Default for ModelDownloadConfig {
    /// The model "base", from the default address, into the directory
    /// "models", with no checksum.
    fn default() -> (r: Self)
        ensures
            r.model_name@ == "base"@,
            r.base_url@ == default_base_url(),
            r.checksum is None,
    {
        ModelDownloadConfig {
            model_name: String::from_str("base"),
            base_url: String::from_str("https://huggingface.co/ggerganov/whisper.cpp/resolve/main"),
            model_dir: path_from("models"),
            checksum: None,
        }
    }
}

impl ModelDownloadConfig {
    /// The default configuration for the model with the given name.
    pub fn for_model(model_name: String) -> (r: Self)
        ensures
            r.model_name == model_name,
            r.base_url@ == default_base_url(),
            r.checksum is None,
    {
        ModelDownloadConfig {
            model_name,
            base_url: String::from_str("https://huggingface.co/ggerganov/whisper.cpp/resolve/main"),
            model_dir: path_from("models"),
            checksum: None,
        }
    }

    /// The configuration with the checksum that the model file must have.
    pub fn with_checksum(self, checksum: String) -> (r: Self)
        ensures
            r == (ModelDownloadConfig { checksum: Some(checksum), ..self }),
    {
        let mut config = self;
        config.checksum = Some(checksum);
        config
    }

    /// The file name of the model.
    pub fn filename(&self) -> (r: String)
        ensures
            r@ == model_filename(self.model_name@),
    {
        join3("ggml-", self.model_name.as_str(), ".bin")
    }

    /// The address of the model file.
    pub fn download_url(&self) -> (r: String)
        ensures
            r@ == self.base_url@ + "/"@ + model_filename(self.model_name@),
    {
        let name = self.filename();
        join3(self.base_url.as_str(), "/", name.as_str())
    }

    /// The path of the model file: the file name of the model added to the
    /// model directory.
    pub fn target_path(&self) -> (r: PathBuf) {
        let name = self.filename();
        path_join(&self.model_dir, name.as_str())
    }
}

/// What is said of a checksum that is not the expected one.
pub open spec fn mismatch_message(expected: Seq<char>, computed: Seq<char>) -> Seq<char> {
    "Checksum mismatch: expected "@ + expected + ", got "@ + computed
}

/// Decides on a checksum from the two checksums and their lower-case
/// forms: the checksum is good where the lower-case forms are the same.
pub fn checksums_agree(
    computed_lower: &str,
    expected_lower: &str,
    computed: &str,
    expected: &str,
) -> (r: Result<(), String>)
    ensures
        r is Ok <==> computed_lower@ == expected_lower@,
        r is Err ==> r->Err_0@ == mismatch_message(expected@, computed@),
{
    if str_eq(computed_lower, expected_lower) {
        Ok(())
    } else {
        let head = join3("Checksum mismatch: expected ", expected, ", got ");
        Err(join2(head.as_str(), computed))
    }
}

/// Verify the SHA-256 checksum of the bytes of a downloaded file against
/// the expected one, in hexadecimal digits of either case.
pub fn verify_checksum(data: &[u8], expected: &str) -> (r: Result<(), String>)
    ensures
        r is Ok <==> lowercased(sha256_hex(data@)) == lowercased(expected@),
        r is Err ==> r->Err_0@ == mismatch_message(expected@, sha256_hex(data@)),
{
    let computed = sha256_hex_of(data);
    let computed_lower = lowercase(computed.as_str());
    let expected_lower = lowercase(expected);
    checksums_agree(computed_lower.as_str(), expected_lower.as_str(), computed.as_str(), expected)
}

} // verus!
