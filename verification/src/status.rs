//! How the service reports a failure to the caller of a remote procedure:
//! which status code the caller gets, what the message says, and how loudly
//! the failure is logged on the server.
//!
//! Nothing here sends or logs anything. A function of this module hands back
//! what is to be sent and logged, and the service around it does so.

use vstd::prelude::*;
use vstd::string::*;

verus! {

/// The status codes of gRPC, under the names that gRPC gives them.
#[allow(non_camel_case_types)]
#[derive(Clone, Copy, Debug, PartialEq, Eq, Structural, Hash)]
pub enum RpcStatusCode {
    OK,
    CANCELLED,
    UNKNOWN,
    INVALID_ARGUMENT,
    DEADLINE_EXCEEDED,
    NOT_FOUND,
    ALREADY_EXISTS,
    PERMISSION_DENIED,
    RESOURCE_EXHAUSTED,
    FAILED_PRECONDITION,
    ABORTED,
    OUT_OF_RANGE,
    UNIMPLEMENTED,
    INTERNAL,
    UNAVAILABLE,
    DATA_LOSS,
    UNAUTHENTICATED,
}

/// How loudly something is logged, the loudest first.
#[derive(Clone, Copy, Debug, PartialEq, Eq, Structural, Hash)]
pub enum Level {
    Critical,
    Error,
    Warning,
    Info,
    Debug,
    Trace,
}

/// The outcome of a remote procedure as its caller sees it: a code, and for
/// a failure a message that says what went wrong.
#[derive(Clone, Debug, PartialEq, Eq, Hash)]
pub struct RpcStatus {
    pub code: RpcStatusCode,
    pub message: String,
}

/// A status as contracts see it.
pub ghost struct RpcStatusView {
    pub code: RpcStatusCode,
    pub message: Seq<char>,
}

impl View for RpcStatus {
    type V = RpcStatusView;

    open spec fn view(&self) -> RpcStatusView {
        RpcStatusView { code: self.code, message: self.message@ }
    }
}

/// A failure, ready to be reported: the status for the caller, and the level
/// at which the server logs the status's message.
#[derive(Clone, Debug, PartialEq, Eq, Hash)]
pub struct ErrorReport {
    pub status: RpcStatus,
    pub level: Level,
}

/// A report as contracts see it.
pub ghost struct ErrorReportView {
    pub status: RpcStatusView,
    pub level: Level,
}

impl View for ErrorReport {
    type V = ErrorReportView;

    open spec fn view(&self) -> ErrorReportView {
        ErrorReportView { status: self.status@, level: self.level }
    }
}

/// The message of a report: where the failure arose, a colon and a space,
/// and the failure in its own words.
pub open spec fn error_message(context: Seq<char>, err: Seq<char>) -> Seq<char> {
    context + ": "@ + err
}

/// The report of the failure `err`, which arose in `context`, under the
/// given code and at the given level.
pub open spec fn error_report(
    context: Seq<char>,
    err: Seq<char>,
    code: RpcStatusCode,
    level: Level,
) -> ErrorReportView {
    ErrorReportView {
        status: RpcStatusView { code, message: error_message(context, err) },
        level,
    }
}

/// Builds the report of a failure.
fn report_err_with_code(
    context: &str,
    err: &str,
    code: RpcStatusCode,
    level: Level,
) -> (report: ErrorReport)
    ensures
        report@ == error_report(context@, err@, code, level),
{
    let mut message = String::from_str(context);
    message.append(": ");
    message.append(err);
    ErrorReport { status: RpcStatus { code, message }, level }
}

/// A failure of the database is the server's own: the caller gets
/// `INTERNAL`, and the server logs an error.
pub fn rpc_database_err(err: &str) -> (report: ErrorReport)
    ensures
        report@ == error_report("Database Error"@, err@, RpcStatusCode::INTERNAL, Level::Error),
{
    report_err_with_code("Database Error", err, RpcStatusCode::INTERNAL, Level::Error)
}

/// A failure inside the server, whatever its kind: the caller gets
/// `INTERNAL`, and the server logs an error.
pub fn rpc_internal_error(context: &str, err: &str) -> (report: ErrorReport)
    ensures
        report@ == error_report(context@, err@, RpcStatusCode::INTERNAL, Level::Error),
{
    report_err_with_code(context, err, RpcStatusCode::INTERNAL, Level::Error)
}

/// A request that makes no sense. A faulty client can cause any number of
/// these, so the server logs them for debugging only.
pub fn rpc_invalid_arg_error(context: &str, err: &str) -> (report: ErrorReport)
    ensures
        report@ == error_report(context@, err@, RpcStatusCode::INVALID_ARGUMENT, Level::Debug),
{
    report_err_with_code(context, err, RpcStatusCode::INVALID_ARGUMENT, Level::Debug)
}

/// A request that the caller may not make. Clients run into this in normal
/// use, so the server logs it for debugging only.
pub fn rpc_permissions_error(context: &str, err: &str) -> (report: ErrorReport)
    ensures
        report@ == error_report(context@, err@, RpcStatusCode::PERMISSION_DENIED, Level::Debug),
{
    report_err_with_code(context, err, RpcStatusCode::PERMISSION_DENIED, Level::Debug)
}

/// A request for something beyond what there is. It has a code of its own,
/// apart from the invalid argument, so that clients can tell the two apart;
/// the server logs it for debugging only.
pub fn rpc_out_of_range_error(context: &str, err: &str) -> (report: ErrorReport)
    ensures
        report@ == error_report(context@, err@, RpcStatusCode::OUT_OF_RANGE, Level::Debug),
{
    report_err_with_code(context, err, RpcStatusCode::OUT_OF_RANGE, Level::Debug)
}

/// A request that the server cannot meet in the state it is in. The operator
/// should see it, but need not act: the server logs it as information.
pub fn rpc_precondition_error(context: &str, err: &str) -> (report: ErrorReport)
    ensures
        report@ == error_report(context@, err@, RpcStatusCode::FAILED_PRECONDITION, Level::Info),
{
    report_err_with_code(context, err, RpcStatusCode::FAILED_PRECONDITION, Level::Info)
}

/// A call that failed and may succeed when the caller makes it again. The
/// server logs it for debugging only.
pub fn rpc_unavailable_error(context: &str, err: &str) -> (report: ErrorReport)
    ensures
        report@ == error_report(context@, err@, RpcStatusCode::UNAVAILABLE, Level::Debug),
{
    report_err_with_code(context, err, RpcStatusCode::UNAVAILABLE, Level::Debug)
}

/// The report of a value that could not be serialised.
pub fn ser_to_rpc_err(error: &str) -> (report: ErrorReport)
    ensures
        report@ == error_report("Serialization"@, error@, RpcStatusCode::INTERNAL, Level::Error),
{
    rpc_internal_error("Serialization", error)
}

/// The report of bytes that could not be deserialised.
pub fn deser_to_rpc_err(error: &str) -> (report: ErrorReport)
    ensures
        report@ == error_report("Deserialization"@, error@, RpcStatusCode::INTERNAL, Level::Error),
{
    rpc_internal_error("Deserialization", error)
}

/// The report of a message that could not be encoded.
pub fn encode_to_rpc_err(error: &str) -> (report: ErrorReport)
    ensures
        report@ == error_report("Encode"@, error@, RpcStatusCode::INTERNAL, Level::Error),
{
    rpc_internal_error("Encode", error)
}

/// The report of a message that could not be decoded.
pub fn decode_to_rpc_err(error: &str) -> (report: ErrorReport)
    ensures
        report@ == error_report("Decode"@, error@, RpcStatusCode::INTERNAL, Level::Error),
{
    rpc_internal_error("Decode", error)
}

/// What is to be done with the outcome of a remote procedure: what goes to
/// the caller, and what the service's counters record of it.
pub struct Reply<T> {
    /// The response for the caller, or the status that tells of the failure.
    pub response: Result<T, RpcStatus>,
    /// Whether the procedure succeeded.
    pub success: bool,
    /// The status code that the caller sees.
    pub code: RpcStatusCode,
}

/// The status code that the caller sees for `resp`: `OK` for a response, and
/// for a failure the code of its status.
pub open spec fn reply_code<T>(resp: Result<T, RpcStatus>) -> RpcStatusCode {
    match resp {
        Ok(_) => RpcStatusCode::OK,
        Err(status) => status.code,
    }
}

/// Settles what becomes of the outcome of a remote procedure. The outcome
/// goes to the caller as it is; the counters record whether it is a response
/// and under which code the caller sees it.
pub fn send_result<T>(resp: Result<T, RpcStatus>) -> (reply: Reply<T>)
    ensures
        reply.response == resp,
        reply.success == resp.is_ok(),
        reply.code == reply_code(resp),
{
    match resp {
        Ok(ok) => Reply { response: Ok(ok), success: true, code: RpcStatusCode::OK },
        Err(e) => {
            let code = e.code;
            Reply { response: Err(e), success: false, code }
        },
    }
}

} // verus!
