//! How the components log, as their environment asks for it.

use vstd::prelude::*;
use vstd::string::*;

use crate::models::meta::text_option;
use crate::text::{lowercase, str_eq, to_lower};

verus! {

pub const TRACING_FILTER_DIRECTIVE_ENV_VAR: &'static str = "TRACING_FILTER_DIRECTIVE";

pub const LOGGING_FORMATTER_ENV_VAR: &'static str = "LOGGING_FORMATTER";

pub const LOGGING_ANSI_ENABLED_ENV_VAR: &'static str = "LOGGING_ANSI_ENABLED";

/// Why logging cannot be set up. What came from outside is held as its text.
#[derive(Debug)]
pub enum TelemetryConfigError {
    TracingConfiguration { source: String },
    /// The value asks for no known format.
    LogFormatterEnv { env_value: String },
    /// The value is neither true nor false.
    LogAnsiEnv { env_value: String },
}

/// The message format for logging tracing events.
#[derive(Copy, Clone, Debug, Eq, PartialEq, Structural)]
pub enum MessageFormat {
    /// Human-readable, single-line logs for each event.
    Full,
    /// A variant of the default formatter optimized for short line lengths.
    Compact,
    /// Pretty-formatted multi-line logs optimized for human readability.
    Pretty,
    /// Newline-delimited JSON logs.
    Json,
}

impl Default for MessageFormat {
    fn default() -> (r: Self)
        ensures
            r == MessageFormat::Pretty,
    {
        MessageFormat::Pretty
    }
}

impl MessageFormat {
    /// The name of the format.
    pub open spec fn name_text(self) -> Seq<char> {
        match self {
            MessageFormat::Full => "full"@,
            MessageFormat::Compact => "compact"@,
            MessageFormat::Pretty => "pretty"@,
            MessageFormat::Json => "json"@,
        }
    }

    /// Whether a text names a format.
    pub open spec fn is_named(text: Seq<char>) -> bool {
        exists|f: MessageFormat| #[trigger] f.name_text() == text
    }

    /// The format that the value of the environment variable asks for. Without a value, the
    /// format is the default one; names are matched letter for letter.
    pub fn try_from_env(formatter: Option<String>) -> (r: Result<Self, TelemetryConfigError>)
        ensures
            match text_option(formatter) {
                None => r == Ok::<Self, TelemetryConfigError>(MessageFormat::Pretty),
                Some(text) => match r {
                    Ok(f) => f.name_text() == text,
                    Err(e) => !Self::is_named(text) && e is LogFormatterEnv
                        && e->LogFormatterEnv_env_value@ == text,
                },
            },
    {
        match formatter {
            None => Ok(MessageFormat::default()),
            Some(env_value) => {
                if str_eq(env_value.as_str(), "full") {
                    Ok(MessageFormat::Full)
                } else if str_eq(env_value.as_str(), "compact") {
                    Ok(MessageFormat::Compact)
                } else if str_eq(env_value.as_str(), "pretty") {
                    Ok(MessageFormat::Pretty)
                } else if str_eq(env_value.as_str(), "json") {
                    Ok(MessageFormat::Json)
                } else {
                    Err(TelemetryConfigError::LogFormatterEnv { env_value })
                }
            },
        }
    }
}

/// The formatter for logging tracing events.
///
/// Controls the format of the message as well as whether or not to enable ANSI colors.
#[derive(Copy, Clone, Debug, Eq, PartialEq, Structural)]
pub struct LogFormatter {
    pub message_format: MessageFormat,
    pub ansi_enabled: bool,
}

impl Default for LogFormatter {
    fn default() -> (r: Self)
        ensures
            r == (LogFormatter { message_format: MessageFormat::Pretty, ansi_enabled: false }),
    {
        LogFormatter { message_format: MessageFormat::default(), ansi_enabled: false }
    }
}

/// What a text in lower case says of a switch.
pub open spec fn switch_of(lower: Seq<char>) -> Option<bool> {
    if lower == "true"@ {
        Some(true)
    } else if lower == "false"@ {
        Some(false)
    } else {
        None
    }
}

/// What a text says of a switch, in any case of its letters.
pub open spec fn switch(text: Seq<char>) -> Option<bool> {
    switch_of(lowercase(text))
}

/// Reads a switch from a text in lower case.
pub fn parse_switch(lower: &str) -> (r: Option<bool>)
    ensures
        r == switch_of(lower@),
{
    if str_eq(lower, "true") {
        Some(true)
    } else if str_eq(lower, "false") {
        Some(false)
    } else {
        None
    }
}

impl LogFormatter {
    /// The formatter that the values of the two environment variables ask for: the format, and
    /// whether to use colors. The format is read first.
    pub fn try_from_env(
        formatter: Option<String>,
        ansi_enabled: Option<String>,
    ) -> (r: Result<Self, TelemetryConfigError>)
        ensures
            match text_option(formatter) {
                Some(text) => !MessageFormat::is_named(text),
                None => false,
            } ==> r is Err && r->Err_0 is LogFormatterEnv
                && Some(r->Err_0->LogFormatterEnv_env_value@) == text_option(formatter),
            match text_option(formatter) {
                Some(text) => MessageFormat::is_named(text),
                None => true,
            } ==> match r {
                Ok(f) => {
                    &&& f.message_format.name_text() == match text_option(formatter) {
                        Some(text) => text,
                        None => MessageFormat::Pretty.name_text(),
                    }
                    &&& Some(f.ansi_enabled) == match text_option(ansi_enabled) {
                        Some(text) => switch(text),
                        None => Some(false),
                    }
                },
                Err(e) => {
                    &&& e is LogAnsiEnv
                    &&& text_option(ansi_enabled) == Some(e->LogAnsiEnv_env_value@)
                    &&& switch(e->LogAnsiEnv_env_value@) is None
                },
            },
    {
        let message_format = match MessageFormat::try_from_env(formatter) {
            Ok(f) => f,
            Err(e) => return Err(e),
        };
        let ansi_enabled = match Self::ansi_enabled_from_env(ansi_enabled) {
            Ok(b) => b,
            Err(e) => return Err(e),
        };
        Ok(LogFormatter { message_format, ansi_enabled })
    }

    /// Whether the value of the environment variable asks for colors. Without a value there are
    /// none.
    fn ansi_enabled_from_env(ansi_enabled: Option<String>) -> (r: Result<
        bool,
        TelemetryConfigError,
    >)
        ensures
            match text_option(ansi_enabled) {
                None => r == Ok::<bool, TelemetryConfigError>(false),
                Some(text) => match r {
                    Ok(b) => switch(text) == Some(b),
                    Err(e) => switch(text) is None && e is LogAnsiEnv
                        && e->LogAnsiEnv_env_value@ == text,
                },
            },
    {
        match ansi_enabled {
            None => Ok(false),
            Some(env_value) => {
                let lower = to_lower(env_value.as_str());
                match parse_switch(lower.as_str()) {
                    Some(b) => Ok(b),
                    None => Err(TelemetryConfigError::LogAnsiEnv { env_value }),
                }
            },
        }
    }
}

/// Each format is asked for by one name only, so the name decides the format.
pub proof fn format_names_are_unique(a: MessageFormat, b: MessageFormat)
    requires
        a.name_text() == b.name_text(),
    ensures
        a == b,
{
    reveal_strlit("full");
    reveal_strlit("compact");
    reveal_strlit("pretty");
    reveal_strlit("json");
    assert("full"@[0] == 'f');
    assert("compact"@[0] == 'c');
    assert("pretty"@[0] == 'p');
    assert("json"@[0] == 'j');
}

} // verus!
