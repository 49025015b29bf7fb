//! What can be wrong with a job configuration.

use vstd::prelude::*;
use vstd::std_specs::convert::FromSpecImpl;

verus! {

/// The error of `serde_yaml`, taken as it comes: nothing is known of what
/// is inside.
#[verifier::external_type_specification]
#[verifier::external_body]
pub struct ExYamlError(serde_yaml::Error);

/// Hint for a memory field that does not meet its grammar.
pub const MEMORY_HINT: &'static str = "invalid mem variable: try `mem: 100GB, 100MB ... etc.`";

/// Hint for a processor field that does not meet its grammar.
pub const CPU_HINT: &'static str = "invalid cpu variable: try `cpu: 0-24 0-39 ... etc.`";

/// Hint for a GPU field that does not meet its grammar.
pub const GPU_HINT: &'static str = "invalid gpu variable: try `gpu: 0=0 1,2=0,3 1-10=0-9 ... etc.`";

/// Hint for a keyword field that does not meet its grammar.
pub const KEY_WORDS_HINT: &'static str = "invalid key_word variable: must contain #p #n #b ...etc.";

/// The kinds of configuration error: one for each field that has a grammar,
/// and one for a configuration source that could not be read as a record.
#[derive(Debug, Clone, PartialEq, Eq)]
pub enum ConfigErrorKind {
    Memory,
    CPU,
    GPU,
    KeyWords,
    SeredYaml(String),
}

/// A configuration error.
#[derive(Debug, Clone)]
pub struct ConfigError {
    kind: ConfigErrorKind,
}

impl View for ConfigError {
    type V = ConfigErrorKind;

    closed spec fn view(&self) -> ConfigErrorKind {
        self.kind
    }
}

/// What an error of the given kind tells the user: for a field, the concept
/// at fault and examples of accepted values; for a source that could not be
/// read, the reader's own message.
pub open spec fn message(kind: ConfigErrorKind) -> Seq<char> {
    match kind {
        ConfigErrorKind::Memory => MEMORY_HINT@,
        ConfigErrorKind::CPU => CPU_HINT@,
        ConfigErrorKind::GPU => GPU_HINT@,
        ConfigErrorKind::KeyWords => KEY_WORDS_HINT@,
        ConfigErrorKind::SeredYaml(text) => text@,
    }
}

impl ConfigError {
    /// An error of the given kind.
    pub fn new(kind: ConfigErrorKind) -> (err: ConfigError)
        ensures
            err@ == kind,
    {
        ConfigError { kind }
    }

    /// The kind of this error.
    pub fn kind(&self) -> (kind: &ConfigErrorKind)
        ensures
            *kind == self@,
    {
        &self.kind
    }

    /// The message of this error.
    pub fn display(&self) -> (text: &str)
        ensures
            text@ == message(self@),
    {
        match &self.kind {
            ConfigErrorKind::Memory => MEMORY_HINT,
            ConfigErrorKind::CPU => CPU_HINT,
            ConfigErrorKind::GPU => GPU_HINT,
            ConfigErrorKind::KeyWords => KEY_WORDS_HINT,
            ConfigErrorKind::SeredYaml(text) => text.as_str(),
        }
    }
}

impl From<serde_yaml::Error> for ConfigError {
    /// The error for a source that `serde_yaml` could not read as a
    /// configuration.  Its message is the one that `serde_yaml` gives.
    fn from(e: serde_yaml::Error) -> (err: ConfigError)
        ensures
            err@ matches ConfigErrorKind::SeredYaml(text)
                && vstd::string::to_string_from_display_ensures::<serde_yaml::Error>(&e, text),
    {
        ConfigError { kind: ConfigErrorKind::SeredYaml(e.to_string()) }
    }
}

// The message is worded outside this library, so the conversion has no
// value that could be written down here.
impl FromSpecImpl<serde_yaml::Error> for ConfigError {
    open spec fn obeys_from_spec() -> bool {
        false
    }

    open spec fn from_spec(e: serde_yaml::Error) -> ConfigError {
        arbitrary()
    }
}

} // verus!
