//! How the client reports a result or an error, in either output format.
use vstd::prelude::*;
use vstd::string::*;

verus! {

/// The `status` of a successful result in JSON output.
pub const SUCCESS_STATUS: &'static str = "success";

/// The `status` of an error in JSON output.
pub const ERROR_STATUS: &'static str = "error";

/// What precedes an error message shown to people.
pub const ERROR_PREFIX: &'static str = "Error: ";

/// How the client reports results: as text for people, or as JSON.
#[derive(Debug, Clone, Copy, PartialEq, Eq, Structural)]
pub enum OutputFormat {
    Human,
    Json,
}

impl OutputFormat {
    /// The format chosen by the `--json` flag.
    pub fn from_json_flag(json: bool) -> (format: Self)
        ensures
            format == (if json { OutputFormat::Json } else { OutputFormat::Human }),
    {
        if json {
            Self::Json
        } else {
            Self::Human
        }
    }
}

/// A successful result as JSON output carries it: a `status` of `"success"`, with the
/// fields of `data` beside it.
pub struct CliOutput<T> {
    pub status: &'static str,
    pub data: T,
}

/// An error as JSON output carries it: a `status` of `"error"` and the message.
pub struct CliError {
    pub status: &'static str,
    pub message: String,
}

/// A list of results as JSON output carries it: a `status` of `"success"`, and the
/// items, in order, under the field `items`.
pub struct CliListOutput<T> {
    pub status: &'static str,
    pub items: T,
}

/// How a list of results is to be shown.
pub enum ListReport<T> {
    /// The caller shows the list as text, in its own words.
    Human,
    /// The list is printed on standard output as this JSON document.
    Json(CliListOutput<T>),
}

/// How a result is to be shown.
pub enum ResultReport<T> {
    /// The caller shows the result as text, in its own words.
    Human,
    /// The result is printed on standard output as this JSON document.
    Json(CliOutput<T>),
}

/// How an error is to be shown.
pub enum ErrorReport {
    /// This line is printed on standard error.
    Stderr(String),
    /// The error is printed on standard output as this JSON document.
    Json(CliError),
}

/// How a single result is reported in `format`: as text that the caller writes, or as
/// a JSON document whose status is `"success"`, with the fields of the result beside it.
pub fn report_result<T>(format: OutputFormat, data: T) -> (report: ResultReport<T>)
    ensures
        match format {
            OutputFormat::Human => report is Human,
            OutputFormat::Json => report matches ResultReport::Json(out) && out.status@
                == SUCCESS_STATUS@ && out.data == data,
        },
{
    match format {
        OutputFormat::Human => ResultReport::Human,
        OutputFormat::Json => ResultReport::Json(CliOutput { status: SUCCESS_STATUS, data }),
    }
}

/// How a list of results is reported in `format`: as text that the caller writes, or as
/// a JSON document whose status is `"success"`, with the items, in order and however
/// many (none included), under the field `items`.
pub fn report_list<T>(format: OutputFormat, items: T) -> (report: ListReport<T>)
    ensures
        match format {
            OutputFormat::Human => report is Human,
            OutputFormat::Json => report matches ListReport::Json(out) && out.status@
                == SUCCESS_STATUS@ && out.items == items,
        },
{
    match format {
        OutputFormat::Human => ListReport::Human,
        OutputFormat::Json => ListReport::Json(CliListOutput { status: SUCCESS_STATUS, items }),
    }
}

/// How the error `message` is reported in `format`: as the line `Error: <message>` on
/// standard error, or as a JSON document whose status is `"error"`.
pub fn report_error(format: OutputFormat, message: &str) -> (report: ErrorReport)
    ensures
        match format {
            OutputFormat::Human => report matches ErrorReport::Stderr(line) && line@
                == ERROR_PREFIX@ + message@,
            OutputFormat::Json => report matches ErrorReport::Json(err) && err.status@
                == ERROR_STATUS@ && err.message@ == message@,
        },
{
    match format {
        OutputFormat::Human => {
            let mut line = String::from_str(ERROR_PREFIX);
            line.append(message);
            ErrorReport::Stderr(line)
        },
        OutputFormat::Json => ErrorReport::Json(
            CliError { status: ERROR_STATUS, message: String::from_str(message) },
        ),
    }
}

/// An error message that names the step that failed, then the cause:
/// `<context>: <detail>`.
pub fn error_with_detail(context: &str, detail: &str) -> (message: String)
    ensures
        message@ == context@ + ": "@ + detail@,
{
    let mut message = String::from_str(context);
    message.append(": ");
    message.append(detail);
    message
}

} // verus!
