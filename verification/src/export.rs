//! Vault export: the file format's extension and the suggested file name.

use vstd::prelude::*;

verus! {

/// The export file formats.
#[derive(Debug, Clone, PartialEq, Eq)]
pub enum ExportFormat {
    Csv,
    Json,
    /// JSON encrypted with an export password.
    EncryptedJson { password: String },
}

/// The file extension written for a format.
pub open spec fn extension_spec(format: ExportFormat) -> Seq<char> {
    match format {
        ExportFormat::Csv => "csv"@,
        ExportFormat::Json => "json"@,
        ExportFormat::EncryptedJson { .. } => "json"@,
    }
}

pub fn extension_for(format: &ExportFormat) -> (ext: &'static str)
    ensures
        ext@ == extension_spec(*format),
{
    match format {
        ExportFormat::Csv => "csv",
        ExportFormat::Json | ExportFormat::EncryptedJson { .. } => "json",
    }
}

/// The suggested file name for a stamp and an extension.
pub open spec fn export_name_spec(stamp: Seq<char>, ext: Seq<char>) -> Seq<char> {
    "bitwarden-export-"@ + stamp + "."@ + ext
}

/// `bitwarden-export-{stamp}.{ext}`.
pub fn export_file_name(stamp: &str, ext: &str) -> (name: String)
    ensures
        name@ == export_name_spec(stamp@, ext@),
{
    let mut name = String::from_str("bitwarden-export-");
    name.append(stamp);
    name.append(".");
    name.append(ext);
    name
}

/// The last local instant whose year keeps four digits, in seconds from
/// the UNIX epoch: 9999-12-31 23:59:59.
pub const LAST_FOUR_DIGIT_YEAR_SECS: i64 = 253_402_300_799;

/// An ASCII decimal digit.
pub open spec fn is_digit(c: char) -> bool {
    '0' <= c && c <= '9'
}

/// `YYYYmmdd-HHMMSS`: eight digits, a hyphen, six digits.
pub open spec fn is_stamp(s: Seq<char>) -> bool {
    &&& s.len() == 15
    &&& forall|i: int| 0 <= i < 8 ==> #[trigger] is_digit(s[i])
    &&& s[8] == '-'
    &&& forall|i: int| 9 <= i < 15 ==> #[trigger] is_digit(s[i])
}

/// An offset from UTC, in seconds, that chrono's `FixedOffset` holds: less
/// than a day either way.
pub open spec fn valid_utc_offset(utc_offset: i32) -> bool {
    -86_400 < utc_offset && utc_offset < 86_400
}

/// The instant `secs` after the UNIX epoch, at `utc_offset`, falls in a
/// year from 1969 to 9999.
pub open spec fn stamp_fits(secs: u64, utc_offset: i32) -> bool {
    valid_utc_offset(utc_offset) && secs + utc_offset <= LAST_FOUR_DIGIT_YEAR_SECS
}

/// What chrono writes for the instant `secs` seconds after the UNIX epoch
/// seen at `utc_offset` seconds east of UTC, with `format("%Y%m%d-%H%M%S")`;
/// `None` when chrono rejects the offset or the instant.
pub uninterp spec fn chrono_local_stamp(secs: u64, utc_offset: i32) -> Option<Seq<char>>;

/// The local date and time of the instant `secs` seconds after the UNIX
/// epoch at `utc_offset` seconds east of UTC: chrono's
/// `FixedOffset::east_opt(utc_offset)` (`None` unless the offset is less than
/// a day), `DateTime::from_timestamp(secs, 0)` (`None` out of its range),
/// `with_timezone` to that offset and `format("%Y%m%d-%H%M%S")`. None of
/// these panics. The text is named, a function of the two arguments alone;
/// chrono documents `%Y` as the year zero-padded to four digits for years 0
/// to 9999 and `%m %d %H %M %S` as two zero-padded digits each, which gives
/// the stamp's shape whenever the local year is at most 9999 (it is at
/// least 1969 for any offset below a day).
#[verifier::external_body]
fn local_stamp(secs: u64, utc_offset: i32) -> (stamp: Option<String>)
    ensures
        stamp matches Some(s) ==> chrono_local_stamp(secs, utc_offset) == Some(s@),
        stamp is None <==> chrono_local_stamp(secs, utc_offset) is None,
        stamp matches Some(s) ==> (stamp_fits(secs, utc_offset) ==> is_stamp(s@)),
        stamp is None ==> !stamp_fits(secs, utc_offset),
{
    match (chrono::FixedOffset::east_opt(utc_offset), chrono::DateTime::from_timestamp(secs as i64, 0)) {
        (Some(tz), Some(utc)) => Some(utc.with_timezone(&tz).format("%Y%m%d-%H%M%S").to_string()),
        _ => None,
    }
}

/// The suggested export name for `format` at the instant `secs` seconds
/// after the UNIX epoch, at `utc_offset` seconds east of UTC; `None` exactly
/// when chrono has no stamp for them.
pub open spec fn export_name_outcome(secs: u64, utc_offset: i32, format: ExportFormat, name: Option<String>) -> bool {
    &&& (match chrono_local_stamp(secs, utc_offset) {
        Some(stamp) => name matches Some(n) && n@ == export_name_spec(stamp, extension_spec(format)),
        None => name is None,
    })
    &&& stamp_fits(secs, utc_offset) ==> (name matches Some(n) && exists|stamp: Seq<char>|
        is_stamp(stamp) && n@ == export_name_spec(stamp, extension_spec(format)))
}

/// The name the save dialog suggests for an export in `format` at the
/// instant `secs` seconds after the UNIX epoch, stamped with the local date
/// and time at `utc_offset` seconds east of UTC.
pub fn export_name_at(secs: u64, utc_offset: i32, format: &ExportFormat) -> (name: Option<String>)
    ensures
        export_name_outcome(secs, utc_offset, *format, name),
{
    match local_stamp(secs, utc_offset) {
        Some(stamp) => {
            let name = export_file_name(stamp.as_str(), extension_for(format));
            assert(stamp_fits(secs, utc_offset) ==> is_stamp(stamp@)
                && name@ == export_name_spec(stamp@, extension_spec(*format)));
            Some(name)
        },
        None => None,
    }
}

/// The name the save dialog suggests for an export in `format`, stamped
/// with the local date and time of now; the caller reads the local offset
/// from UTC (`utc_offset`, seconds east) from the environment.
pub fn default_export_name(format: &ExportFormat, utc_offset: i32) -> (name: Option<String>)
    ensures
        exists|secs: u64| #[trigger] export_name_outcome(secs, utc_offset, *format, name),
{
    let secs = crate::totp::unix_now_secs();
    export_name_at(secs, utc_offset, format)
}

} // verus!
