use vstd::prelude::*;

verus! {

/// The name of the log file inside the directory it is kept in.
pub const LOG_FILE_NAME: &'static str = "log.txt";

/// Where log lines go: a file of a fixed name in a directory.
#[derive(Debug, Clone, PartialEq)]
pub struct LogFile {
    pub directory: String,
    pub file_name: String,
}

/// A line of the log: the time in square brackets, a dash, the message.
pub open spec fn log_line(timestamp: Seq<char>, message: Seq<char>) -> Seq<char> {
    "["@ + timestamp + "] - "@ + message
}

/// Directs the log to the file [`LOG_FILE_NAME`] in the directory `path`.
pub fn set_log_path(log_file_path: &mut Option<LogFile>, path: String)
    ensures
        *final(log_file_path) matches Some(file) && file.directory == path && file.file_name@
            == LOG_FILE_NAME@,
{
    *log_file_path = Some(LogFile { directory: path, file_name: String::from_str(LOG_FILE_NAME) });
}

/// The line to append to the log for `message` at the time `timestamp`, or
/// `None` while no log file is set: the message is then dropped.
pub fn log(log_file_path: &Option<LogFile>, timestamp: &str, message: &str) -> (line: Option<String>)
    ensures
        line is Some <==> *log_file_path is Some,
        line matches Some(text) ==> text@ == log_line(timestamp@, message@),
{
    match log_file_path {
        Some(_) => {
            let mut text = String::from_str("[");
            text.append(timestamp);
            text.append("] - ");
            text.append(message);
            Some(text)
        },
        None => None,
    }
}

} // verus!
