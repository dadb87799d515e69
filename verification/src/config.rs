//! The settings of the process, from the texts that its environment gives.
//!
//! Each setting has a default that stands in where the environment gives
//! none. The two durations are written as `duration_string` reads them,
//! such as `60s` or `1m 30s`.

use std::str::FromStr;
use vstd::prelude::*;

verus! {

/// The address to listen on where none is given.
pub const DEFAULT_BINDING: &'static str = "0.0.0.0:9185";

/// How long a series is kept after its last update where nothing is given.
pub const DEFAULT_IDLE_TIMEOUT: &'static str = "60s";

/// Whether the process reports on itself where nothing is given.
pub const DEFAULT_ENABLE_PROCESS_COLLECTION: &'static str = "false";

/// How often the process reports on itself where nothing is given.
pub const DEFAULT_PROCESS_COLLECTION_INTERVAL: &'static str = "10s";

/// The adapter to scan with where none is given.
pub const DEFAULT_ADAPTER_NAME: &'static str = "hci0";

/// A length of time: whole seconds, and the nanoseconds beyond them.
#[derive(Clone, Copy, Debug, PartialEq, Eq)]
pub struct Span {
    pub secs: u64,
    pub nanos: u32,
}

/// The settings of the process.
#[derive(Clone, Debug, PartialEq, Eq)]
pub struct Config {
    /// The address to listen on, as text: whoever opens the socket reads it.
    pub binding: String,
    pub idle_timeout: Span,
    pub enable_process_collection: bool,
    pub process_collection_interval: Span,
    pub adapter_name: String,
}

/// A `Config` with its texts as sequences of characters.
pub struct Settings {
    pub binding: Seq<char>,
    pub idle_timeout: Span,
    pub enable_process_collection: bool,
    pub process_collection_interval: Span,
    pub adapter_name: Seq<char>,
}

impl View for Config {
    type V = Settings;

    open spec fn view(&self) -> Settings {
        Settings {
            binding: self.binding@,
            idle_timeout: self.idle_timeout,
            enable_process_collection: self.enable_process_collection,
            process_collection_interval: self.process_collection_interval,
            adapter_name: self.adapter_name@,
        }
    }
}

/// The span of so many seconds and nanoseconds.
pub open spec fn span_of(parts: (u64, u32)) -> Span {
    let (secs, nanos) = parts;
    Span { secs, nanos }
}

/// What `duration_string` reads a text as: the whole seconds of the
/// duration and the nanoseconds beyond them, or `None` where it reads no
/// duration.
pub uninterp spec fn parsed_duration(text: Seq<char>) -> Option<(u64, u32)>;

/// Reads a duration with `<duration_string::DurationString as
/// FromStr>::from_str`. Believed, not proved: that what comes back is
/// `parsed_duration` of the text, which says no more than that the same
/// text is always read as the same duration. The parser computes with
/// checked arithmetic and reports what it cannot read as an error, which
/// is `None` here.
#[verifier::external_body]
fn parse_duration(text: &str) -> (parsed: Option<(u64, u32)>)
    ensures
        parsed == parsed_duration(text@),
{
    match duration_string::DurationString::from_str(text) {
        Ok(duration) => Some((duration.as_secs(), duration.subsec_nanos())),
        Err(_) => None,
    }
}

/// What a text says of a switch: `true` and `false` are read, in exactly
/// that spelling, and nothing else is.
pub open spec fn parsed_flag(text: Seq<char>) -> Option<bool> {
    if text == "true"@ {
        Some(true)
    } else if text == "false"@ {
        Some(false)
    } else {
        None
    }
}

/// Reads a switch.
pub fn parse_flag(text: &str) -> (parsed: Option<bool>)
    ensures
        parsed == parsed_flag(text@),
{
    let text = text.to_owned();
    if text == "true".to_owned() {
        Some(true)
    } else if text == "false".to_owned() {
        Some(false)
    } else {
        None
    }
}

/// The text that is given, or the default where none is.
pub open spec fn given_or(given: Option<Seq<char>>, default: Seq<char>) -> Seq<char> {
    match given {
        Some(text) => text,
        None => default,
    }
}

/// The settings made of a binding, an adapter name and what was read of
/// the other three: there are settings when all three could be read.
pub open spec fn assembled(
    binding: Seq<char>,
    idle_timeout: Option<(u64, u32)>,
    enable_process_collection: Option<bool>,
    process_collection_interval: Option<(u64, u32)>,
    adapter_name: Seq<char>,
) -> Option<Settings> {
    match (idle_timeout, enable_process_collection, process_collection_interval) {
        (Some(idle), Some(enable), Some(interval)) => Some(
            Settings {
                binding,
                idle_timeout: span_of(idle),
                enable_process_collection: enable,
                process_collection_interval: span_of(interval),
                adapter_name,
            },
        ),
        _ => None,
    }
}

/// The settings that follow from what the environment gives.
pub open spec fn settings_of(
    binding: Option<Seq<char>>,
    idle_timeout: Option<Seq<char>>,
    enable_process_collection: Option<Seq<char>>,
    process_collection_interval: Option<Seq<char>>,
    adapter_name: Option<Seq<char>>,
) -> Option<Settings> {
    assembled(
        given_or(binding, DEFAULT_BINDING@),
        parsed_duration(given_or(idle_timeout, DEFAULT_IDLE_TIMEOUT@)),
        parsed_flag(given_or(enable_process_collection, DEFAULT_ENABLE_PROCESS_COLLECTION@)),
        parsed_duration(
            given_or(process_collection_interval, DEFAULT_PROCESS_COLLECTION_INTERVAL@),
        ),
        given_or(adapter_name, DEFAULT_ADAPTER_NAME@),
    )
}

/// The view of an optional text.
pub open spec fn text_of(given: Option<&str>) -> Option<Seq<char>> {
    match given {
        Some(text) => Some(text@),
        None => None,
    }
}

fn text_or(given: Option<&str>, default: &str) -> (text: String)
    ensures
        text@ == given_or(text_of(given), default@),
{
    match given {
        Some(text) => text.to_owned(),
        None => default.to_owned(),
    }
}

impl Config {
    /// The settings made of a binding, an adapter name and what was read
    /// of the other three; `None` where one of the three could not be read.
    pub fn assemble(
        binding: String,
        idle_timeout: Option<(u64, u32)>,
        enable_process_collection: Option<bool>,
        process_collection_interval: Option<(u64, u32)>,
        adapter_name: String,
    ) -> (config: Option<Config>)
        ensures
            match assembled(
                binding@,
                idle_timeout,
                enable_process_collection,
                process_collection_interval,
                adapter_name@,
            ) {
                Some(settings) => config is Some && config->0@ == settings,
                None => config is None,
            },
    {
        match (idle_timeout, enable_process_collection, process_collection_interval) {
            (Some(idle), Some(enable), Some(interval)) => Some(
                Config {
                    binding,
                    idle_timeout: Span { secs: idle.0, nanos: idle.1 },
                    enable_process_collection: enable,
                    process_collection_interval: Span { secs: interval.0, nanos: interval.1 },
                    adapter_name,
                },
            ),
            _ => None,
        }
    }

    /// The settings that follow from what the environment gives, each
    /// value as the text given for it or `None` where none is given.
    /// `None` where a duration or the switch cannot be read.
    pub fn from_values(
        binding: Option<&str>,
        idle_timeout: Option<&str>,
        enable_process_collection: Option<&str>,
        process_collection_interval: Option<&str>,
        adapter_name: Option<&str>,
    ) -> (config: Option<Config>)
        ensures
            match settings_of(
                text_of(binding),
                text_of(idle_timeout),
                text_of(enable_process_collection),
                text_of(process_collection_interval),
                text_of(adapter_name),
            ) {
                Some(settings) => config is Some && config->0@ == settings,
                None => config is None,
            },
    {
        let binding = text_or(binding, DEFAULT_BINDING);
        let idle_timeout = text_or(idle_timeout, DEFAULT_IDLE_TIMEOUT);
        let enable_process_collection = text_or(
            enable_process_collection,
            DEFAULT_ENABLE_PROCESS_COLLECTION,
        );
        let process_collection_interval = text_or(
            process_collection_interval,
            DEFAULT_PROCESS_COLLECTION_INTERVAL,
        );
        let adapter_name = text_or(adapter_name, DEFAULT_ADAPTER_NAME);
        Config::assemble(
            binding,
            parse_duration(idle_timeout.as_str()),
            parse_flag(enable_process_collection.as_str()),
            parse_duration(process_collection_interval.as_str()),
            adapter_name,
        )
    }
}

/// Settings are made exactly when the two durations and the switch can be
/// read; the binding and the adapter name are taken as they are given.
pub proof fn law_settings_are_owed(
    binding: Option<Seq<char>>,
    idle_timeout: Option<Seq<char>>,
    enable_process_collection: Option<Seq<char>>,
    process_collection_interval: Option<Seq<char>>,
    adapter_name: Option<Seq<char>>,
)
    ensures
        ({
            let settings = settings_of(
                binding,
                idle_timeout,
                enable_process_collection,
                process_collection_interval,
                adapter_name,
            );
            let enable = given_or(enable_process_collection, DEFAULT_ENABLE_PROCESS_COLLECTION@);
            &&& settings is Some <==> {
                &&& parsed_duration(given_or(idle_timeout, DEFAULT_IDLE_TIMEOUT@)) is Some
                &&& (enable == "true"@ || enable == "false"@)
                &&& parsed_duration(
                    given_or(process_collection_interval, DEFAULT_PROCESS_COLLECTION_INTERVAL@),
                ) is Some
            }
            &&& settings is Some ==> {
                &&& settings->0.binding == given_or(binding, DEFAULT_BINDING@)
                &&& settings->0.adapter_name == given_or(adapter_name, DEFAULT_ADAPTER_NAME@)
                &&& settings->0.enable_process_collection == (enable == "true"@)
            }
        }),
{
    reveal_strlit("true");
    reveal_strlit("false");
}

} // verus!
