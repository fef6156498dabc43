//! Versions and instants as they are kept in a `BottlerocketShadow`: as text.

use vstd::prelude::*;

use super::error::Error;
use crate::models::meta::text_option;
use crate::time::{four_digit_year, rfc3339_instant, rfc3339_read, rfc3339_text, valid_instant, Instant, Timestamp};
use crate::version::{semver_parts, version_text, Version, VersionParts};

verus! {

/// Whether a version, where there is one, can be read.
pub open spec fn version_reads(field: Option<Seq<char>>) -> bool {
    field is Some ==> semver_parts(field->0) is Some
}

/// The version that a field holds.
pub open spec fn version_field(field: Option<Seq<char>>) -> Option<VersionParts> {
    match field {
        Some(t) => semver_parts(t),
        None => None,
    }
}

/// Whether an instant, where there is one, can be read.
pub open spec fn instant_reads(field: Option<Seq<char>>) -> bool {
    field is Some ==> rfc3339_instant(field->0) is Some
}

/// The instant that a field holds.
pub open spec fn instant_field(field: Option<Seq<char>>) -> Option<Instant> {
    match field {
        Some(t) => rfc3339_instant(t),
        None => None,
    }
}

/// The contents of an optional instant.
pub open spec fn instant_option(o: Option<Timestamp>) -> Option<Instant> {
    match o {
        Some(t) => Some(t@),
        None => None,
    }
}

/// The contents of an optional version.
pub open spec fn version_option(o: Option<Version>) -> Option<VersionParts> {
    match o {
        Some(v) => Some(v@),
        None => None,
    }
}

/// How an optional instant is kept.
pub open spec fn instant_text(i: Option<Instant>) -> Option<Seq<char>> {
    match i {
        Some(t) => Some(rfc3339_text(t.0, t.1)),
        None => None,
    }
}

/// How an optional version is kept.
pub open spec fn version_option_text(v: Option<VersionParts>) -> Option<Seq<char>> {
    match v {
        Some(p) => Some(version_text(p)),
        None => None,
    }
}

/// Whether an optional instant lies in the years 0000 to 9999.
pub open spec fn four_digit_option(i: Option<Instant>) -> bool {
    i is Some ==> four_digit_year(i->0)
}

/// Writes an optional instant.
pub fn write_instant(i: Option<Timestamp>) -> (r: Option<String>)
    ensures
        text_option(r) == instant_text(instant_option(i)),
        four_digit_option(instant_option(i)) ==> {
            &&& instant_reads(text_option(r))
            &&& instant_field(text_option(r)) == instant_option(i)
        },
{
    match i {
        Some(t) => Some(t.to_rfc3339()),
        None => None,
    }
}

/// Writes an optional version.
pub fn write_version(v: Option<Version>) -> (r: Option<String>)
    ensures
        text_option(r) == version_option_text(version_option(v)),
        version_reads(text_option(r)),
        version_field(text_option(r)) == version_option(v),
{
    match v {
        Some(p) => Some(p.to_text()),
        None => None,
    }
}

/// Whether an error tells why an instant cannot be read.
pub open spec fn is_format_error(e: Error, field: Option<Seq<char>>) -> bool {
    &&& field is Some
    &&& e is TimestampFormat
    &&& rfc3339_read(field->0) == Err::<Instant, Seq<char>>(
        e->TimestampFormat_source@,
    )
}

/// Reads an optional instant.
pub fn read_instant(field: &Option<String>) -> (r: Result<Option<Timestamp>, Error>)
    ensures
        match r {
            Ok(i) => {
                &&& instant_reads(text_option(*field))
                &&& instant_option(i) == instant_field(text_option(*field))
                &&& i is Some ==> valid_instant(i->0@)
            },
            Err(e) => {
                &&& !instant_reads(text_option(*field))
                &&& is_format_error(e, text_option(*field))
            },
        },
{
    match field {
        None => Ok(None),
        Some(text) => match Timestamp::parse_from_rfc3339(text.as_str()) {
            Ok(t) => Ok(Some(t)),
            Err(source) => Err(Error::TimestampFormat { source }),
        },
    }
}

/// Reads an optional version.
pub fn read_version(field: &Option<String>) -> (r: Option<Version>)
    requires
        version_reads(text_option(*field)),
    ensures
        version_option(r) == version_field(text_option(*field)),
        version_option_text(version_option(r)) == text_option(*field),
{
    match field {
        None => None,
        Some(text) => Version::from_str(text.as_str()),
    }
}

/// Whether an optional version can be read.
pub fn version_is_readable(field: &Option<String>) -> (r: bool)
    ensures
        r == version_reads(text_option(*field)),
{
    match field {
        None => true,
        Some(text) => Version::from_str(text.as_str()).is_some(),
    }
}

/// Whether an optional instant can be read.
pub fn instant_is_readable(field: &Option<String>) -> (r: bool)
    ensures
        r == instant_reads(text_option(*field)),
{
    read_instant(field).is_ok()
}

} // verus!
