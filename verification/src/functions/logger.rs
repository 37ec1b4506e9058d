//! The built-in logging function: it turns a request into one log record.
use vstd::prelude::*;
use vstd::string::StringExecFns;
use crate::error::bad_req::{BadRequestError, BadRequestErrorView};
use crate::func::{ComputeFunction, Outcome};
use crate::json::{json_get, json_is_object, json_member, json_render, json_rendered, json_text};
use crate::req::{ComputeRequest, ComputeRequestView};
use crate::resp::ComputeResponse;
use crate::status::GenericStatusCode;
use crate::text::{
    holds, lemma_holds_between, lemma_holds_within, lowercase_of, text_eq, to_lowercase,
};

verus! {

/// How severe a log record is.
#[derive(Debug, Copy, Clone, PartialEq, Eq, Hash, Structural)]
pub enum LogLevel {
    Trace,
    Debug,
    Info,
    Warn,
    Error,
    Unknown,
}

impl LogLevel {
    /// The level that a lowercase word names; `Unknown` for any other word.
    pub open spec fn of_lowercase(word: Seq<char>) -> LogLevel {
        if word == "info"@ || word == "i"@ {
            LogLevel::Info
        } else if word == "warn"@ || word == "w"@ || word == "warning"@ {
            LogLevel::Warn
        } else if word == "error"@ || word == "e"@ {
            LogLevel::Error
        } else if word == "debug"@ || word == "d"@ {
            LogLevel::Debug
        } else if word == "trace"@ || word == "t"@ {
            LogLevel::Trace
        } else {
            LogLevel::Unknown
        }
    }

    /// The level that a word names, whatever its case.
    pub open spec fn of_word(word: Seq<char>) -> LogLevel {
        Self::of_lowercase(lowercase_of(word))
    }

    /// The word for a level in a log line, in lowercase.
    pub open spec fn spec_word(self) -> Seq<char> {
        match self {
            Self::Trace => "trace"@,
            Self::Debug => "debug"@,
            Self::Info => "info"@,
            Self::Warn => "warn"@,
            Self::Error => "error"@,
            Self::Unknown => "???"@,
        }
    }

    /// The five characters a level is written as in a log line: its word,
    /// with blanks around it where the word is shorter.
    pub open spec fn spec_label(self) -> Seq<char> {
        match self {
            Self::Trace => "trace"@,
            Self::Debug => "debug"@,
            Self::Info => " info"@,
            Self::Warn => " warn"@,
            Self::Error => "error"@,
            Self::Unknown => " ??? "@,
        }
    }

    /// The label of a level holds the level's word.
    pub proof fn lemma_label_holds_word(self)
        ensures
            holds(self.spec_label(), self.spec_word()),
            self.spec_label().len() == 5,
    {
        reveal_strlit("trace");
        reveal_strlit("debug");
        reveal_strlit("info");
        reveal_strlit(" info");
        reveal_strlit("warn");
        reveal_strlit(" warn");
        reveal_strlit("error");
        reveal_strlit("???");
        reveal_strlit(" ??? ");
        let label = self.spec_label();
        let word = self.spec_word();
        match self {
            Self::Trace | Self::Debug | Self::Error => {
                assert(label.subrange(0, 0 + word.len() as int) =~= word);
            },
            Self::Info | Self::Warn | Self::Unknown => {
                assert(label.subrange(1, 1 + word.len() as int) =~= word);
            },
        }
    }

    /// The level under which a record is handed on: an unknown level is
    /// handed on as `Debug`.
    pub open spec fn spec_severity(self) -> LogLevel {
        match self {
            Self::Unknown => Self::Debug,
            other => other,
        }
    }

    /// The level that an already lowercase word names.
    pub fn from_lowercase(word: &str) -> (level: Self)
        ensures
            level == Self::of_lowercase(word@),
    {
        if text_eq(word, "info") || text_eq(word, "i") {
            Self::Info
        } else if text_eq(word, "warn") || text_eq(word, "w") || text_eq(word, "warning") {
            Self::Warn
        } else if text_eq(word, "error") || text_eq(word, "e") {
            Self::Error
        } else if text_eq(word, "debug") || text_eq(word, "d") {
            Self::Debug
        } else if text_eq(word, "trace") || text_eq(word, "t") {
            Self::Trace
        } else {
            Self::Unknown
        }
    }

    /// The level that a word names, whatever its case. Never fails: a word
    /// that names no level gives `Unknown`.
    pub fn parse(word: &str) -> (level: Self)
        ensures
            level == Self::of_word(word@),
    {
        let lower = to_lowercase(word);
        Self::from_lowercase(lower.as_str())
    }

    /// The five characters this level is written as in a log line.
    pub fn label(self) -> (label: &'static str)
        ensures
            label@ == self.spec_label(),
    {
        match self {
            Self::Trace => "trace",
            Self::Debug => "debug",
            Self::Info => " info",
            Self::Warn => " warn",
            Self::Error => "error",
            Self::Unknown => " ??? ",
        }
    }

    /// The word for this level in a log line, in lowercase.
    pub fn word(self) -> (word: &'static str)
        ensures
            word@ == self.spec_word(),
    {
        match self {
            Self::Trace => "trace",
            Self::Debug => "debug",
            Self::Info => "info",
            Self::Warn => "warn",
            Self::Error => "error",
            Self::Unknown => "???",
        }
    }

    /// The level under which a record of this level is handed on.
    pub fn severity(self) -> (level: Self)
        ensures
            level == self.spec_severity(),
            level != LogLevel::Unknown,
    {
        match self {
            Self::Unknown => Self::Debug,
            other => other,
        }
    }
}

impl Default for LogLevel {
    fn default() -> (level: Self)
        ensures
            level == LogLevel::Unknown,
    {
        Self::Unknown
    }
}

impl core::str::FromStr for LogLevel {
    type Err = core::convert::Infallible;

    /// The level that a word names, whatever its case. Never fails: a word
    /// that names no level gives `Unknown`.
    fn from_str(s: &str) -> (level: Result<Self, Self::Err>)
        ensures
            level is Ok,
            level->Ok_0 == Self::of_word(s@),
    {
        Ok(Self::parse(s))
    }
}

/// One line for the log, with its level.
#[derive(Debug)]
pub struct LogRecord {
    pub level: LogLevel,
    pub text: String,
}

/// Where the logger hands its records.
pub trait LogSink: Send + Sync {
    /// Takes one record. The level is never `Unknown`.
    fn send_log(&self, level: LogLevel, log: &str)
        requires
            level != LogLevel::Unknown,
    ;
}

/// The keys under which a request may give the level, in the order tried.
pub open spec fn level_keys() -> Seq<Seq<char>> {
    seq!["level"@, "lvl"@, "l"@]
}

/// The keys under which a request may give the message, in the order tried.
pub open spec fn message_keys() -> Seq<Seq<char>> {
    seq!["message"@, "msg"@, "m"@, "text"@, "log"@]
}

/// The keys under which a request may give its sender, in the order tried.
pub open spec fn sender_keys() -> Seq<Seq<char>> {
    seq!["sender"@, "s"@, "app"@, "self"@, "this"@]
}

/// The text under the first of `keys` whose member of `data` is a string.
pub open spec fn first_text(data: serde_json::Value, keys: Seq<Seq<char>>) -> Option<Seq<char>>
    decreases keys.len(),
{
    if keys.len() == 0 {
        None
    } else {
        match json_member(data, keys[0]) {
            Some(member) if json_text(member) is Some => json_text(member),
            _ => first_text(data, keys.skip(1)),
        }
    }
}

/// The text under the first of `keys`, or the empty text if there is none.
pub open spec fn first_text_or_empty(data: serde_json::Value, keys: Seq<Seq<char>>) -> Seq<char> {
    match first_text(data, keys) {
        Some(text) => text,
        None => Seq::empty(),
    }
}

/// The level an object payload asks for.
pub open spec fn level_in(data: serde_json::Value) -> LogLevel {
    match first_text(data, level_keys()) {
        Some(word) => LogLevel::of_word(word),
        None => LogLevel::Unknown,
    }
}

/// What follows the message in a line: the payload's `data` member, if any.
pub open spec fn attachment_in(data: serde_json::Value) -> Seq<char> {
    match json_member(data, "data"@) {
        Some(extra) => " | "@ + json_rendered(extra),
        None => Seq::empty(),
    }
}

/// The line that an object payload is logged as at a given time.
pub open spec fn line_of(data: serde_json::Value, timestamp: Seq<char>) -> Seq<char> {
    timestamp + ":["@ + level_in(data).spec_label() + "]"@ + first_text_or_empty(
        data,
        sender_keys(),
    ) + "| "@ + first_text_or_empty(data, message_keys()) + attachment_in(data)
}

/// The line of an object payload holds the word of its level and the text
/// of its message.
pub proof fn lemma_line_holds_level_and_message(data: serde_json::Value, timestamp: Seq<char>)
    ensures
        holds(line_of(data, timestamp), level_in(data).spec_word()),
        holds(line_of(data, timestamp), first_text_or_empty(data, message_keys())),
{
    let line = line_of(data, timestamp);
    let label = level_in(data).spec_label();
    let sender = first_text_or_empty(data, sender_keys());
    let message = first_text_or_empty(data, message_keys());
    let before_label = timestamp + ":["@;
    let after_label = "]"@ + sender + "| "@ + message + attachment_in(data);
    assert(line =~= before_label + label + after_label);
    lemma_holds_between(before_label, label, after_label);
    level_in(data).lemma_label_holds_word();
    lemma_holds_within(line, label, level_in(data).spec_word());
    let before_message = timestamp + ":["@ + label + "]"@ + sender + "| "@;
    assert(line =~= before_message + message + attachment_in(data));
    lemma_holds_between(before_message, message, attachment_in(data));
}

/// Whether the logger accepts a payload: it must be a string or an object.
pub open spec fn accepts(data: serde_json::Value) -> bool {
    json_text(data) is Some || json_is_object(data)
}

/// The record that a payload is logged as at a given time: a string is logged
/// as it is at level `Info`, an object as the line made of its members.
pub open spec fn record_of(data: serde_json::Value, timestamp: Seq<char>) -> (LogLevel, Seq<char>) {
    match json_text(data) {
        Some(text) => (LogLevel::Info, text),
        None => (level_in(data), line_of(data, timestamp)),
    }
}

/// The rejection of a request whose payload the logger does not accept.
pub open spec fn rejection_of(request: ComputeRequestView) -> BadRequestErrorView {
    BadRequestErrorView {
        sender: "logger"@,
        message: "Data must be an object or string"@,
        request: Some(request),
    }
}

/// The logger's answer to a request: an empty success for a payload it
/// accepts, the rejection otherwise.
pub open spec fn answer_of(request: ComputeRequestView) -> Outcome {
    if accepts(request.data) {
        Ok(ComputeResponse::NoContent(GenericStatusCode::Success))
    } else {
        Err(rejection_of(request))
    }
}

/// The views of a list of keys.
pub open spec fn key_views(keys: Seq<&str>) -> Seq<Seq<char>> {
    keys.map_values(|key: &str| key@)
}

/// Tries several spellings of a key and gives the text under the first one
/// whose member is a string.
fn multi_string_keys<'a>(data: &'a serde_json::Value, keys: &Vec<&str>) -> (found: Option<&'a str>)
    ensures
        found.is_some() == first_text(*data, key_views(keys@)).is_some(),
        found matches Some(text) ==> first_text(*data, key_views(keys@)) == Some(text@),
{
    let ghost all = key_views(keys@);
    let mut i: usize = 0;
    proof {
        assert(all.skip(0) =~= all);
    }
    while i < keys.len()
        invariant
            i <= keys.len(),
            all == key_views(keys@),
            first_text(*data, all) == first_text(*data, all.skip(i as int)),
        decreases keys.len() - i,
    {
        proof {
            let rest = all.skip(i as int);
            assert(rest[0] == keys@[i as int]@);
            assert(rest.skip(1) =~= all.skip(i + 1));
        }
        if let Some(member) = json_get(data, keys[i]) {
            if let Some(text) = member.as_str() {
                return Some(text);
            }
        }
        i += 1;
    }
    None
}

/// The built-in function named `logger`.
pub struct Logger {
    sink: Option<Box<dyn LogSink>>,
}

impl Logger {
    /// A logger that composes its records and hands them to nobody.
    pub fn new() -> (logger: Self)
        ensures
            !logger.has_sink(),
    {
        Self { sink: None }
    }

    /// A logger that hands its records to `sink`.
    pub fn with_sink(sink: Box<dyn LogSink>) -> (logger: Self)
        ensures
            logger.has_sink(),
    {
        Self { sink: Some(sink) }
    }

    /// Whether this logger hands its records to a sink.
    pub closed spec fn has_sink(&self) -> bool {
        self.sink is Some
    }

    /// The record that a request is logged as at the given time, or the
    /// rejection of a request whose payload is neither a string nor an object.
    pub fn compose(request: &ComputeRequest, timestamp: &str) -> (result: Result<
        LogRecord,
        BadRequestError,
    >)
        ensures
            accepts(request@.data) ==> result is Ok && (result->Ok_0.level, result->Ok_0.text@)
                == record_of(request@.data, timestamp@),
            accepts(request@.data) && json_text(request@.data) is None ==> holds(
                result->Ok_0.text@,
                result->Ok_0.level.spec_word(),
            ) && holds(result->Ok_0.text@, first_text_or_empty(request@.data, message_keys())),
            !accepts(request@.data) ==> result is Err && result->Err_0@ == rejection_of(request@),
    {
        let data = request.data();
        proof {
            lemma_line_holds_level_and_message(*data, timestamp@);
        }
        if let Some(text) = data.as_str() {
            return Ok(LogRecord { level: LogLevel::Info, text: String::from_str(text) });
        }
        if !data.is_object() {
            return Err(
                BadRequestError::new(
                    "logger",
                    "Data must be an object or string",
                    Some(request.clone()),
                ),
            );
        }
        let level_names: Vec<&str> = vec!["level", "lvl", "l"];
        let message_names: Vec<&str> = vec!["message", "msg", "m", "text", "log"];
        let sender_names: Vec<&str> = vec!["sender", "s", "app", "self", "this"];
        proof {
            assert(key_views(level_names@) =~= level_keys());
            assert(key_views(message_names@) =~= message_keys());
            assert(key_views(sender_names@) =~= sender_keys());
        }
        let level = match multi_string_keys(data, &level_names) {
            Some(word) => LogLevel::parse(word),
            None => LogLevel::Unknown,
        };
        let msg = match multi_string_keys(data, &message_names) {
            Some(text) => text,
            None => "",
        };
        let sender = match multi_string_keys(data, &sender_names) {
            Some(text) => text,
            None => "",
        };
        proof {
            reveal_strlit("");
            assert(""@ =~= Seq::<char>::empty());
        }
        let mut line = String::from_str(timestamp).concat(":[").concat(level.label()).concat(
            "]",
        ).concat(sender).concat("| ").concat(msg);
        if let Some(extra) = json_get(data, "data") {
            let rendered = json_render(extra);
            line = line.concat(" | ").concat(rendered.as_str());
            proof {
                let head = timestamp@ + ":["@ + level.spec_label() + "]"@ + sender@ + "| "@ + msg@;
                assert(head + " | "@ + rendered@ =~= head + (" | "@ + rendered@));
            }
        } else {
            proof {
                let head = timestamp@ + ":["@ + level.spec_label() + "]"@ + sender@ + "| "@ + msg@;
                assert(head =~= head + Seq::<char>::empty());
            }
        }
        Ok(LogRecord { level, text: line })
    }

    /// Hands one record to the sink, if there is one.
    pub fn send_log(&self, lvl: LogLevel, log: &str) {
        match &self.sink {
            Some(sink) => sink.send_log(lvl.severity(), log),
            None => {},
        }
    }
}

impl Default for Logger {
    fn default() -> (logger: Self)
        ensures
            !logger.has_sink(),
    {
        Self::new()
    }
}

/// `chrono::Utc::now` and `DateTime::to_rfc3339_opts`: the current time, to
/// the second, in UTC. Nothing is claimed of the text.
#[verifier::external_body]
fn get_timestamp() -> (timestamp: String) {
    chrono::Utc::now().to_rfc3339_opts(chrono::SecondsFormat::Secs, true)
}

impl ComputeFunction for Logger {
    open spec fn spec_name(&self) -> Seq<char> {
        "logger"@
    }

    open spec fn handles(&self, request: ComputeRequestView, outcome: Outcome) -> bool {
        outcome == answer_of(request)
    }

    fn name(&self) -> (name: &'static str) {
        proof {
            reveal_strlit("logger");
        }
        "logger"
    }

    fn receive_request(&self, request: &ComputeRequest) -> (result: Result<
        ComputeResponse,
        BadRequestError,
    >) {
        let timestamp = get_timestamp();
        match Self::compose(request, timestamp.as_str()) {
            Ok(record) => {
                self.send_log(record.level, record.text.as_str());
                Ok(ComputeResponse::ok())
            },
            Err(error) => Err(error),
        }
    }
}

} // verus!
