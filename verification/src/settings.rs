//! Global settings: the language/volume pair kept in a one-line record of
//! the form `language,volume`. Reading and writing the file is the
//! caller's; parsing and rendering the record is verified here.

use vstd::prelude::*;
use vstd::string::StringExecFns;
use crate::textfmt::decimal_u64;
use crate::textfmt::parse_u32;
use crate::textfmt::spec_decimal;
use crate::textfmt::spec_parse_u32;
use crate::textfmt::spec_split;
use crate::textfmt::split_str;

verus! {

/// The default volume, in percent.
pub const DEFAULT_VOLUME: u32 = 100;

pub struct GlobalSettings {
    pub language: String,
    pub volume: u32,
}

/// The language a settings record carries: its first comma-separated
/// field, or the default when the record has fewer than two fields.
pub open spec fn spec_parsed_language(s: Seq<char>) -> Seq<char> {
    let parts = spec_split(s, ',');
    if parts.len() >= 2 {
        parts[0]
    } else {
        "en"@
    }
}

/// The volume a settings record carries: its second comma-separated field
/// read as a number, or the default when it is missing or malformed.
pub open spec fn spec_parsed_volume(s: Seq<char>) -> u32 {
    let parts = spec_split(s, ',');
    if parts.len() >= 2 {
        match spec_parse_u32(parts[1]) {
            Some(v) => v,
            None => DEFAULT_VOLUME,
        }
    } else {
        DEFAULT_VOLUME
    }
}

impl GlobalSettings {
    /// The defaults a fresh or unreadable settings file falls back to.
    pub fn new() -> (s: Self)
        ensures
            s.language@ == "en"@,
            s.volume == DEFAULT_VOLUME,
    {
        GlobalSettings { language: "en".to_owned(), volume: DEFAULT_VOLUME }
    }

    /// Reads a settings record; missing or malformed fields fall back to
    /// the defaults, so any input yields usable settings.
    pub fn parse(content: &str) -> (s: Self)
        ensures
            s.language@ == spec_parsed_language(content@),
            s.volume == spec_parsed_volume(content@),
    {
        let parts = split_str(content, ',');
        if parts.len() >= 2 {
            let volume = match parse_u32(parts[1].as_str()) {
                Some(v) => v,
                None => DEFAULT_VOLUME,
            };
            GlobalSettings { language: parts[0].clone(), volume }
        } else {
            GlobalSettings::new()
        }
    }

    /// Renders the record that `parse` reads back.
    pub fn to_record(&self) -> (r: String)
        ensures
            r@ == self.language@ + seq![','] + spec_decimal(self.volume as nat),
    {
        let mut r = self.language.clone();
        r.append(",");
        let digits = decimal_u64(self.volume as u64);
        r.append(digits.as_str());
        proof {
            reveal_strlit(",");
            assert(r@ =~= self.language@ + seq![','] + spec_decimal(self.volume as nat));
        }
        r
    }
}

} // verus!
