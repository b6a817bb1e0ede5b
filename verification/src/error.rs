//! The failures that the program tells apart, and how each is worded.

use vstd::prelude::*;
use vstd::std_specs::convert::FromSpecImpl;
use vstd::string::to_string_from_display_ensures;

verus! {

/// `std::io::Error`, carried as it came from the operating system.
#[verifier::external_type_specification]
#[verifier::external_body]
pub struct ExIoError(std::io::Error);

/// `serde_json::Error`, carried as it came from reading or writing settings.
#[verifier::external_type_specification]
#[verifier::external_body]
pub struct ExJsonError(serde_json::Error);

/// What can go wrong, by the part of the program that it went wrong in.
#[derive(Debug)]
pub enum RmmError {
    /// The pointer could not be queried or moved.
    MouseControl(String),
    /// The input listener could not be started.
    ActivityMonitor(String),
    /// The tray icon or its menu could not be set up.
    SystemTray(String),
    /// The settings could not be found, read or written.
    Config(String),
    /// The platform refused something that the program needs.
    Platform(String),
    /// Reading or writing a file failed.
    Io(std::io::Error),
    /// The settings are not valid JSON, or could not be written as JSON.
    Serialization(serde_json::Error),
}

/// What the program's fallible operations return.
pub type Result<T> = std::result::Result<T, RmmError>;

impl RmmError {
    /// The words that name the kind of failure.
    pub open spec fn label(self) -> Seq<char> {
        match self {
            RmmError::MouseControl(_) => "Mouse control error"@,
            RmmError::ActivityMonitor(_) => "Activity monitoring error"@,
            RmmError::SystemTray(_) => "System tray error"@,
            RmmError::Config(_) => "Configuration error"@,
            RmmError::Platform(_) => "Platform-specific error"@,
            RmmError::Io(_) => "IO error"@,
            RmmError::Serialization(_) => "Serialization error"@,
        }
    }

    /// The message of a failure of this kind with the given detail: the
    /// label, a colon and a space, then the detail.
    pub open spec fn worded(self, detail: Seq<char>) -> Seq<char> {
        self.label() + ": "@ + detail
    }

    /// Whether `text` is the message of this failure. Where the failure
    /// carries its detail as text, the detail is that text; where it carries
    /// an error of the system or of the JSON reader, the detail is what that
    /// error's `Display` impl writes.
    pub open spec fn says(self, text: Seq<char>) -> bool {
        match self {
            RmmError::MouseControl(detail) => text == self.worded(detail@),
            RmmError::ActivityMonitor(detail) => text == self.worded(detail@),
            RmmError::SystemTray(detail) => text == self.worded(detail@),
            RmmError::Config(detail) => text == self.worded(detail@),
            RmmError::Platform(detail) => text == self.worded(detail@),
            RmmError::Io(error) => exists|detail: String|
                #[trigger] to_string_from_display_ensures(&error, detail) && text == self.worded(
                    detail@,
                ),
            RmmError::Serialization(error) => exists|detail: String|
                #[trigger] to_string_from_display_ensures(&error, detail) && text == self.worded(
                    detail@,
                ),
        }
    }

    /// The label of this kind of failure.
    pub fn kind_label(&self) -> (label: &'static str)
        ensures
            label@ == self.label(),
    {
        match self {
            RmmError::MouseControl(_) => "Mouse control error",
            RmmError::ActivityMonitor(_) => "Activity monitoring error",
            RmmError::SystemTray(_) => "System tray error",
            RmmError::Config(_) => "Configuration error",
            RmmError::Platform(_) => "Platform-specific error",
            RmmError::Io(_) => "IO error",
            RmmError::Serialization(_) => "Serialization error",
        }
    }

    /// The message of this failure.
    pub fn to_string(&self) -> (text: String)
        ensures
            self.says(text@),
    {
        let mut text = String::from_str(self.kind_label());
        text.append(": ");
        match self {
            RmmError::MouseControl(detail) => text.append(detail.as_str()),
            RmmError::ActivityMonitor(detail) => text.append(detail.as_str()),
            RmmError::SystemTray(detail) => text.append(detail.as_str()),
            RmmError::Config(detail) => text.append(detail.as_str()),
            RmmError::Platform(detail) => text.append(detail.as_str()),
            RmmError::Io(error) => {
                let detail = error.to_string();
                text.append(detail.as_str());
                assert(to_string_from_display_ensures(error, detail) && text@ == self.worded(
                    detail@,
                ));
            },
            RmmError::Serialization(error) => {
                let detail = error.to_string();
                text.append(detail.as_str());
                assert(to_string_from_display_ensures(error, detail) && text@ == self.worded(
                    detail@,
                ));
            },
        }
        text
    }
}

impl From<std::io::Error> for RmmError {
    fn from(error: std::io::Error) -> (wrapped: RmmError) {
        RmmError::Io(error)
    }
}

impl FromSpecImpl<std::io::Error> for RmmError {
    open spec fn obeys_from_spec() -> bool {
        true
    }

    open spec fn from_spec(error: std::io::Error) -> RmmError {
        RmmError::Io(error)
    }
}

impl From<serde_json::Error> for RmmError {
    fn from(error: serde_json::Error) -> (wrapped: RmmError) {
        RmmError::Serialization(error)
    }
}

impl FromSpecImpl<serde_json::Error> for RmmError {
    open spec fn obeys_from_spec() -> bool {
        true
    }

    open spec fn from_spec(error: serde_json::Error) -> RmmError {
        RmmError::Serialization(error)
    }
}

} // verus!
