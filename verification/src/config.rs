//! The format dispatch of the persisted-configuration collaborator.
//!
//! A config file is parsed or written according to its file extension: a
//! TOML document, a JSON document, or — for any other extension — a refusal
//! carrying the offending extension. The comparison is case-insensitive:
//! the extension is upper-cased first and the upper-cased name decides.
//! Reading, writing and the document (de)serialization itself stay outside
//! the library; this module owns the decision.

use crate::error::Error;
use vstd::prelude::*;

verus! {

/// What upper-casing a piece of text yields. The result depends on the
/// characters alone.
pub uninterp spec fn upper_of(s: Seq<char>) -> Seq<char>;

/// Relies on `str::to_uppercase` for the upper-case form of the extension;
/// the result depends on the characters alone.
#[verifier::external_body]
fn to_upper(s: &str) -> (r: String)
    ensures
        r@ == upper_of(s@),
{
    s.to_uppercase()
}

/// The document formats a config file can be persisted in.
#[derive(Clone, Copy, Debug, PartialEq, Eq, Structural)]
pub enum ConfigFormat {
    Toml,
    Json,
}

/// The format an already upper-cased extension name picks, if any.
pub open spec fn format_for_upper(name: Seq<char>) -> Option<ConfigFormat> {
    if name == "TOML"@ {
        Some(ConfigFormat::Toml)
    } else if name == "JSON"@ {
        Some(ConfigFormat::Json)
    } else {
        None
    }
}

/// The format a raw extension picks: its upper-case form decides.
pub open spec fn format_of(ext: Seq<char>) -> Option<ConfigFormat> {
    format_for_upper(upper_of(ext))
}

/// Picks the format that an upper-cased extension name names, or refuses
/// the extension, handing it back inside the error.
pub fn format_for_name(name: String) -> (r: Result<ConfigFormat, Error>)
    ensures
        (match r {
            Ok(f) => format_for_upper(name@) == Some(f),
            Err(e) => {
                &&& format_for_upper(name@) is None
                &&& (e matches Error::ConfigExt(x) && x@ == name@)
            },
        }),
{
    let toml_name = "TOML".to_owned();
    let json_name = "JSON".to_owned();
    if name == toml_name {
        Ok(ConfigFormat::Toml)
    } else if name == json_name {
        Ok(ConfigFormat::Json)
    } else {
        Err(Error::ConfigExt(name))
    }
}

/// Picks the format a config file's extension names, case-insensitively,
/// or refuses the extension, handing its upper-case form back inside the
/// error.
pub fn config_format(ext: &str) -> (r: Result<ConfigFormat, Error>)
    ensures
        (match r {
            Ok(f) => format_of(ext@) == Some(f),
            Err(e) => {
                &&& format_of(ext@) is None
                &&& (e matches Error::ConfigExt(x) && x@ == upper_of(ext@))
            },
        }),
{
    let up = to_upper(ext);
    format_for_name(up)
}

} // verus!
