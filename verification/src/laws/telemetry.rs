//! The settings of the logs.

use vstd::prelude::*;
use vstd::string::*;

use crate::models::telemetry::{
    format_names_are_unique, switch, switch_of, LogFormatter, MessageFormat, TelemetryConfigError,
};
use crate::text::lowercase;

verus! {

/// Formats are asked for by their names.
pub proof fn names_of_formats(f: MessageFormat)
    ensures
        f is Full ==> f.name_text() == "full"@,
        f is Compact ==> f.name_text() == "compact"@,
        f is Pretty ==> f.name_text() == "pretty"@,
        f is Json ==> f.name_text() == "json"@,
{
}

/// A text names a format where it is one of the four names.
pub proof fn named_formats(text: Seq<char>)
    ensures
        MessageFormat::is_named(text) <==> text == "full"@ || text == "compact"@ || text
            == "pretty"@ || text == "json"@,
{
    assert(MessageFormat::Full.name_text() == "full"@);
    assert(MessageFormat::Compact.name_text() == "compact"@);
    assert(MessageFormat::Pretty.name_text() == "pretty"@);
    assert(MessageFormat::Json.name_text() == "json"@);
}

/// The format is the one that is asked for by its name, and the pretty one where none is; any other
/// text is refused.
pub proof fn format_is_asked_for_by_name(
    formatter: Option<String>,
    r: Result<MessageFormat, TelemetryConfigError>,
    f: MessageFormat,
)
    requires
        call_ensures(MessageFormat::try_from_env, (formatter,), r),
    ensures
        formatter is None ==> r is Ok && r->Ok_0 is Pretty,
        formatter is Some && formatter->0@ == f.name_text() ==> r is Ok && r->Ok_0 == f,
        formatter is Some && formatter->0@ != "full"@ && formatter->0@ != "compact"@ && formatter->0@
            != "pretty"@ && formatter->0@ != "json"@ ==> r is Err && r->Err_0 is LogFormatterEnv
            && r->Err_0->LogFormatterEnv_env_value@ == formatter->0@,
{
    if formatter is Some {
        named_formats(formatter->0@);
        if r is Ok {
            names_of_formats(r->Ok_0);
            assert(MessageFormat::is_named(formatter->0@));
            if formatter->0@ == f.name_text() {
                format_names_are_unique(r->Ok_0, f);
            }
        } else if formatter->0@ == f.name_text() {
            assert(MessageFormat::is_named(formatter->0@));
        }
    }
}

/// A switch is on or off, in any case of its letters, and nothing else.
pub proof fn switches_are_on_or_off(text: Seq<char>)
    ensures
        switch(text) == Some(true) <==> lowercase(text) == "true"@,
        switch(text) == Some(false) <==> lowercase(text) == "false"@,
        switch_of(text) == Some(true) <==> text == "true"@,
        switch_of(text) == Some(false) <==> text == "false"@,
{
    reveal_strlit("true");
    reveal_strlit("false");
    assert("true"@.len() != "false"@.len());
}

/// Logs have no colors unless they are asked for; a setting that is no switch is refused, once the
/// format is accepted.
pub proof fn colors_are_asked_for(
    formatter: Option<String>,
    ansi: Option<String>,
    r: Result<LogFormatter, TelemetryConfigError>,
)
    requires
        call_ensures(LogFormatter::try_from_env, (formatter, ansi), r),
        formatter is Some ==> MessageFormat::is_named(formatter->0@),
    ensures
        ansi is None ==> r is Ok && !r->Ok_0.ansi_enabled,
        ansi is Some && switch(ansi->0@) is Some ==> r is Ok && r->Ok_0.ansi_enabled == switch(
            ansi->0@,
        )->0,
        ansi is Some && switch(ansi->0@) is None ==> r is Err && r->Err_0 is LogAnsiEnv
            && r->Err_0->LogAnsiEnv_env_value@ == ansi->0@,
        r is Ok && formatter is Some ==> r->Ok_0.message_format.name_text() == formatter->0@,
        r is Ok && formatter is None ==> r->Ok_0.message_format is Pretty,
{
    if r is Ok && formatter is None {
        format_names_are_unique(r->Ok_0.message_format, MessageFormat::Pretty);
    }
}

} // verus!
