//! Command descriptions and algorithm tags.
//!
//! The types here are plain data: an unverified front end parses the command
//! line into them and hands them over. The tag enumerations and their parsers
//! are the part the core dispatches on.

mod base64;
mod chacha;
mod csv;
mod genpass;
mod http_serve;
mod jwt;
mod text;

pub use base64::{parse_base64_format, Base64DecodeOpts, Base64EncodeOpts, Base64Format,
    Base64SubCommand};
pub use chacha::{parse_chacha_format, ChachaFormat, ChachaSubCommand, DecryptOpts, EncryptOpts,
    GenerateOpts};
pub use csv::{parse_output_format, CsvOpts, OutputFormat};
pub use genpass::GenpassOpts;
pub use http_serve::{HttpServeOpts, HttpSubCommand};
pub use jwt::{JwtSignOpts, JwtSubCommand, JwtVerifyOpts};
pub use text::{parse_signature_format, SignatureFormat, TextGenerateOpts, TextSignOpts,
    TextSubCommand, TextVerifyOpts};

use vstd::prelude::*;

verus! {

/// The whole command line: one subcommand.
#[derive(Debug, Clone)]
pub struct Opts {
    pub cmd: SubCommand,
}

/// The top-level subcommands.
#[derive(Debug, Clone)]
pub enum SubCommand {
    Csv(CsvOpts),
    GenPass(GenpassOpts),
    Base64(Base64SubCommand),
    Text(TextSubCommand),
    Chacha(ChachaSubCommand),
    Http(HttpSubCommand),
}

/// Case-insensitive match of one character against its lower-case form:
/// either the characters agree exactly, or `a` is an ASCII capital whose
/// lower-case form is `b`.
pub open spec fn char_matches_lower(a: char, b: char) -> bool {
    a as u32 == b as u32 || (65 <= a as u32 && a as u32 <= 90 && a as u32 + 32 == b as u32)
}

/// `s` equals the lower-case keyword `t` up to ASCII case.
pub open spec fn ascii_lower_matches(s: Seq<char>, t: Seq<char>) -> bool {
    s.len() == t.len() && (forall|j: int| 0 <= j < s.len() ==> char_matches_lower(s[j], t[j]))
}

/// Relies on std::path::Path::exists: whether something on disk answers to
/// the name now. Nothing is promised of the answer.
#[verifier::external_body]
fn path_exists(filepath: &str) -> bool {
    std::path::Path::new(filepath).exists()
}

/// Relies on std::path::Path::is_dir: whether the name points at a
/// directory on disk now. Nothing is promised of the answer.
#[verifier::external_body]
fn path_is_dir(filepath: &str) -> bool {
    std::path::Path::new(filepath).is_dir()
}

/// Accept `-` (standard input) always, and any other name only if something
/// on disk answers to it; hand the accepted name back unchanged.
pub fn verify_file_exists(filepath: &str) -> (r: Result<String, &'static str>)
    ensures
        filepath@ == "-"@ ==> r is Ok,
        r is Ok ==> r->Ok_0@ == filepath@,
        r is Err ==> r->Err_0@ == "File does not exists"@ && filepath@ != "-"@,
{
    proof {
        reveal_strlit("-");
    }
    let is_dash = filepath.unicode_len() == 1 && filepath.get_char(0) == '-';
    if is_dash {
        assert(filepath@ =~= "-"@);
        return Ok(filepath.to_owned());
    }
    if path_exists(filepath) {
        Ok(filepath.to_owned())
    } else {
        Err("File does not exists")
    }
}

/// Accept a name only if it points at a directory on disk; hand the
/// accepted name back unchanged.
pub fn verify_path(filepath: &str) -> (r: Result<String, &'static str>)
    ensures
        r is Ok ==> r->Ok_0@ == filepath@,
        r is Err ==> r->Err_0@ == "File does not exists"@,
{
    if path_exists(filepath) && path_is_dir(filepath) {
        Ok(filepath.to_owned())
    } else {
        Err("File does not exists")
    }
}

/// Does `s` spell the lower-case keyword `t`, ignoring ASCII case?
pub fn matches_keyword(s: &str, t: &str) -> (r: bool)
    ensures
        r == ascii_lower_matches(s@, t@),
{
    let n = s.unicode_len();
    let m = t.unicode_len();
    if n != m {
        return false;
    }
    let mut i: usize = 0;
    while i < n
        invariant
            n == s@.len(),
            n == t@.len(),
            i <= n,
            forall|j: int| 0 <= j < i ==> char_matches_lower(s@[j], t@[j]),
        decreases n - i,
    {
        let a = s.get_char(i);
        let b = t.get_char(i);
        let au = a as u32;
        let bu = b as u32;
        if !(au == bu || (65 <= au && au <= 90 && au + 32 == bu)) {
            assert(!char_matches_lower(s@[i as int], t@[i as int]));
            return false;
        }
        i = i + 1;
    }
    true
}

} // verus!
