//! Turning a message name into the line that the program prints.
use vstd::prelude::*;

use crate::messages::{Messages, MessagesView};
use crate::table::lookup;

verus! {

/// Looks message names up in the message tables and builds log lines.
#[derive(Debug)]
pub struct Logger {
    messages: Messages,
}

impl Clone for Logger {
    fn clone(&self) -> (r: Self)
        ensures
            r.messages() == self.messages(),
    {
        Logger { messages: self.messages.clone() }
    }
}

/// The kinds of log line.
#[derive(Clone, Copy, Debug, PartialEq, Eq, Structural)]
pub enum LogType {
    Error,
    Help,
    Warning,
    Info,
    Success,
}

/// The colour in which a label is shown (always bold).
#[derive(Clone, Copy, Debug, PartialEq, Eq, Structural)]
pub enum LogColor {
    Red,
    Blue,
    Yellow,
    Green,
}

/// A line to print: `label` (bold, in `color`), a space, then `text`.
#[derive(Debug)]
pub struct LogLine {
    pub log_type: LogType,
    pub label: String,
    pub color: LogColor,
    pub text: String,
    /// Errors and warnings go to the error stream, the rest to standard output.
    pub to_stderr: bool,
}

/// The label that starts a line of the given kind.
pub open spec fn log_label(t: LogType) -> Seq<char> {
    match t {
        LogType::Error => "error:"@,
        LogType::Help => "help:"@,
        LogType::Warning => "warning:"@,
        LogType::Info => "info:"@,
        LogType::Success => "success:"@,
    }
}

/// The colour of that label.
pub open spec fn log_color(t: LogType) -> LogColor {
    match t {
        LogType::Error => LogColor::Red,
        LogType::Help => LogColor::Blue,
        LogType::Warning => LogColor::Yellow,
        LogType::Info => LogColor::Green,
        LogType::Success => LogColor::Green,
    }
}

/// The text printed for `key`: help lines are looked up among the help
/// messages, every other kind among the general messages; a key that is not
/// there is printed as it is.
pub open spec fn log_text(m: MessagesView, t: LogType, key: Seq<char>) -> Seq<char> {
    let table = if t == LogType::Help {
        m.1
    } else {
        m.0
    };
    match lookup(table, key) {
        Some(v) => v,
        None => key,
    }
}

/// The full description of the line logged for `key`.
pub open spec fn is_log_line(l: LogLine, m: MessagesView, t: LogType, key: Seq<char>) -> bool {
    &&& l.log_type == t
    &&& l.label@ == log_label(t)
    &&& l.color == log_color(t)
    &&& l.text@ == log_text(m, t, key)
    &&& l.to_stderr == (t == LogType::Error || t == LogType::Warning)
}

impl Logger {
    /// The message tables this logger reads.
    pub closed spec fn messages(&self) -> MessagesView {
        self.messages@
    }

    pub fn new(messages: &Messages) -> (l: Logger)
        ensures
            l.messages() == messages@,
    {
        Logger { messages: messages.clone() }
    }

    pub fn log_error(&self, error_type: &str) -> (l: LogLine)
        ensures
            is_log_line(l, self.messages(), LogType::Error, error_type@),
    {
        self.log(LogType::Error, error_type)
    }

    pub fn log_help(&self, help_type: &str) -> (l: LogLine)
        ensures
            is_log_line(l, self.messages(), LogType::Help, help_type@),
    {
        self.log(LogType::Help, help_type)
    }

    pub fn log_warning(&self, warning_type: &str) -> (l: LogLine)
        ensures
            is_log_line(l, self.messages(), LogType::Warning, warning_type@),
    {
        self.log(LogType::Warning, warning_type)
    }

    pub fn log_info(&self, info_type: &str) -> (l: LogLine)
        ensures
            is_log_line(l, self.messages(), LogType::Info, info_type@),
    {
        self.log(LogType::Info, info_type)
    }

    pub fn log_success(&self, success_msg: &str) -> (l: LogLine)
        ensures
            is_log_line(l, self.messages(), LogType::Success, success_msg@),
    {
        self.log(LogType::Success, success_msg)
    }

    fn log(&self, message_type: LogType, message: &str) -> (l: LogLine)
        ensures
            is_log_line(l, self.messages(), message_type, message@),
    {
        let (label, color) = match message_type {
            LogType::Error => (String::from_str("error:"), LogColor::Red),
            LogType::Help => (String::from_str("help:"), LogColor::Blue),
            LogType::Warning => (String::from_str("warning:"), LogColor::Yellow),
            LogType::Info => (String::from_str("info:"), LogColor::Green),
            LogType::Success => (String::from_str("success:"), LogColor::Green),
        };
        let content = match message_type {
            LogType::Help => self.messages.help_message.get(message),
            _ => self.messages.message.get(message),
        };
        let text = match content {
            Some(t) => t,
            None => String::from_str(message),
        };
        let to_stderr = match message_type {
            LogType::Error => true,
            LogType::Warning => true,
            _ => false,
        };
        LogLine { log_type: message_type, label, color, text, to_stderr }
    }
}

/// The logger shared by the parts of the program that have no state of their
/// own: one built over the program's messages.
pub fn get_global_logger(messages: &Messages) -> (l: Logger)
    ensures
        l.messages() == messages@,
{
    Logger::new(messages)
}

} // verus!
