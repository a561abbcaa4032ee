//! The failures that the tracker reports.

use vstd::prelude::*;
use vstd::string::*;

verus! {

/// Input that the tracker refuses.
#[derive(Clone, Copy, Debug, PartialEq, Eq, Structural)]
pub enum ValidationError {
    /// A task was given no description.
    EmptyDescription,
    /// A due date is not a calendar date written as `YYYY-MM-DD`.
    MalformedDate,
}

/// A failure of the record set itself.
#[derive(Clone, Copy, Debug, PartialEq, Eq, Structural)]
pub enum StorageError {
    /// Every id has been given out: no further task can be stored.
    Full,
    /// The stored records break the rules of the store.
    Corrupt,
}

/// A setting that synchronisation reads from the environment.
#[derive(Clone, Copy, Debug, PartialEq, Eq, Structural)]
pub enum Setting {
    /// `LOCAL_PATH`: where the copy tool fetches the store from.
    LocalPath,
    /// `CLOUD_PATH`: where the copy tool sends the store to.
    CloudPath,
}

/// A failure of the configuration.
#[derive(Clone, Copy, Debug, PartialEq, Eq, Structural)]
pub enum ConfigError {
    /// A setting that the command needs is not set.
    Missing(Setting),
}

/// A failure of the external copy tool.
#[derive(Debug, PartialEq, Eq)]
pub enum ExternalToolError {
    /// The tool could not be started.
    NotStarted,
    /// The tool ran and reported failure, with this diagnostic text.
    Failed(String),
}

/// Why an operation on the tasks failed.
#[derive(Clone, Copy, Debug, PartialEq, Eq, Structural)]
pub enum TaskError {
    Validation(ValidationError),
    Storage(StorageError),
}

impl ValidationError {
    /// The message shown to the user.
    pub open spec fn message_text(self) -> Seq<char> {
        match self {
            ValidationError::EmptyDescription => "Task is required"@,
            ValidationError::MalformedDate => "Invalid date format. Expected YYYY-MM-DD"@,
        }
    }

    /// Writes the message shown to the user.
    pub fn message(&self) -> (r: &'static str)
        ensures
            r@ == self.message_text(),
    {
        match self {
            ValidationError::EmptyDescription => "Task is required",
            ValidationError::MalformedDate => "Invalid date format. Expected YYYY-MM-DD",
        }
    }
}

impl StorageError {
    /// The message shown to the user.
    pub open spec fn message_text(self) -> Seq<char> {
        match self {
            StorageError::Full => "Failed to insert todo"@,
            StorageError::Corrupt => "Error reading task"@,
        }
    }

    /// Writes the message shown to the user.
    pub fn message(&self) -> (r: &'static str)
        ensures
            r@ == self.message_text(),
    {
        match self {
            StorageError::Full => "Failed to insert todo",
            StorageError::Corrupt => "Error reading task",
        }
    }
}

impl TaskError {
    /// The message shown to the user: that of the failure inside.
    pub open spec fn message_text(self) -> Seq<char> {
        match self {
            TaskError::Validation(e) => e.message_text(),
            TaskError::Storage(e) => e.message_text(),
        }
    }

    /// Writes the message shown to the user.
    pub fn message(&self) -> (r: &'static str)
        ensures
            r@ == self.message_text(),
    {
        match self {
            TaskError::Validation(e) => e.message(),
            TaskError::Storage(e) => e.message(),
        }
    }
}

impl Setting {
    /// The name of the environment variable that holds the setting.
    pub open spec fn name_text(self) -> Seq<char> {
        match self {
            Setting::LocalPath => "LOCAL_PATH"@,
            Setting::CloudPath => "CLOUD_PATH"@,
        }
    }

    /// Writes the name of the environment variable that holds the setting.
    pub fn name(&self) -> (r: &'static str)
        ensures
            r@ == self.name_text(),
    {
        match self {
            Setting::LocalPath => "LOCAL_PATH",
            Setting::CloudPath => "CLOUD_PATH",
        }
    }
}

impl ConfigError {
    /// The message shown to the user: the name of the setting, and that it
    /// must be set.
    pub open spec fn message_text(self) -> Seq<char> {
        match self {
            ConfigError::Missing(setting) => setting.name_text() + " must be set."@,
        }
    }

    /// Writes the message shown to the user.
    pub fn message(&self) -> (r: String)
        ensures
            r@ == self.message_text(),
    {
        match self {
            ConfigError::Missing(setting) => {
                let mut text = String::from_str(setting.name());
                text.append(" must be set.");
                text
            },
        }
    }
}

impl ExternalToolError {
    /// The message shown to the user. A failed run is reported with what
    /// the tool wrote to its error stream.
    pub open spec fn message_text(self) -> Seq<char> {
        match self {
            ExternalToolError::NotStarted => "Failet to execute rclone command"@,
            ExternalToolError::Failed(diagnostics) => "\u{274c} Sync failed: "@ + diagnostics@,
        }
    }

    /// Writes the message shown to the user.
    pub fn message(&self) -> (r: String)
        ensures
            r@ == self.message_text(),
    {
        match self {
            ExternalToolError::NotStarted => String::from_str("Failet to execute rclone command"),
            ExternalToolError::Failed(diagnostics) => {
                let mut text = String::from_str("\u{274c} Sync failed: ");
                text.append(diagnostics.as_str());
                text
            },
        }
    }
}

} // verus!
