//! Exit codes and the application error type.

use vstd::prelude::*;
use isahc::error::ErrorKind as K;

verus! {

/// Operating-system style exit codes used by the tool.
#[derive(Clone, Copy, Debug, PartialEq, Eq)]
pub enum LinuxExitCodes {
    /// no error
    SUCCESS,
    /// I/O error
    EIO,
    /// bad address
    EFAULT,
    /// invalid argument
    EINVAL,
    /// illegal seek
    ESPIPE,
    /// too many links
    EMLINK,
    /// no message of desired type
    ENOMSG,
    /// invalid exchange
    EBADE,
    /// timer expired
    ETIME,
    /// machine is not on the network
    ENONET,
    /// an error without a code
    UNKNOWN,
}

/// The numeric value of an exit code.
pub open spec fn exit_code_value(c: LinuxExitCodes) -> u8 {
    match c {
        LinuxExitCodes::SUCCESS => 0,
        LinuxExitCodes::EIO => 5,
        LinuxExitCodes::EFAULT => 14,
        LinuxExitCodes::EINVAL => 22,
        LinuxExitCodes::ESPIPE => 29,
        LinuxExitCodes::EMLINK => 31,
        LinuxExitCodes::ENOMSG => 42,
        LinuxExitCodes::EBADE => 52,
        LinuxExitCodes::ETIME => 62,
        LinuxExitCodes::ENONET => 64,
        LinuxExitCodes::UNKNOWN => 255,
    }
}

impl LinuxExitCodes {
    /// The numeric value of this exit code.
    pub fn code(&self) -> (r: u8)
        ensures
            r == exit_code_value(*self),
    {
        match self {
            LinuxExitCodes::SUCCESS => 0,
            LinuxExitCodes::EIO => 5,
            LinuxExitCodes::EFAULT => 14,
            LinuxExitCodes::EINVAL => 22,
            LinuxExitCodes::ESPIPE => 29,
            LinuxExitCodes::EMLINK => 31,
            LinuxExitCodes::ENOMSG => 42,
            LinuxExitCodes::EBADE => 52,
            LinuxExitCodes::ETIME => 62,
            LinuxExitCodes::ENONET => 64,
            LinuxExitCodes::UNKNOWN => 255,
        }
    }
}

/// Different exit codes have different numbers, and only success is zero.
pub proof fn lemma_exit_codes_distinct(a: LinuxExitCodes, b: LinuxExitCodes)
    ensures
        exit_code_value(a) == exit_code_value(b) ==> a == b,
        exit_code_value(a) == 0 <==> a == LinuxExitCodes::SUCCESS,
{
}

/// Text of the error reported when a page holds no usable video data.
pub open spec fn bad_address_text() -> Seq<char> {
    "ERROR: The video was not found! Is the link a PBS Kids Video link?"@
}

/// Text of the error reported for DRM protected content.
pub open spec fn drm_text() -> Seq<char> {
    "DRM Content is not available in pbskids-dl."@
}

/// An error with the exit code the process ends with and a message for the user.
#[derive(Debug)]
pub struct AppError {
    pub error_code: u8,
    pub error_message: String,
}

impl AppError {
    /// The "missing video" error.
    pub open spec fn is_bad_address(&self) -> bool {
        &&& self.error_code == exit_code_value(LinuxExitCodes::EFAULT)
        &&& self.error_message@ == bad_address_text()
    }

    /// The "DRM protected" error.
    pub open spec fn is_drm_error(&self) -> bool {
        &&& self.error_code == exit_code_value(LinuxExitCodes::ESPIPE)
        &&& self.error_message@ == drm_text()
    }

    /// The value reported when everything succeeded.
    pub fn sucess() -> (r: AppError)
        ensures
            r.error_code == 0,
            r.error_message@ == "OK"@,
    {
        AppError { error_code: LinuxExitCodes::SUCCESS.code(), error_message: String::from_str("OK") }
    }

    /// The error reported when the page does not lead to a video.
    pub fn bad_address() -> (r: AppError)
        ensures
            r.is_bad_address(),
    {
        AppError {
            error_code: LinuxExitCodes::EFAULT.code(),
            error_message: String::from_str(
                "ERROR: The video was not found! Is the link a PBS Kids Video link?",
            ),
        }
    }

    /// The error reported when the video is DRM protected.
    pub fn drm_error() -> (r: AppError)
        ensures
            r.is_drm_error(),
    {
        AppError {
            error_code: LinuxExitCodes::ESPIPE.code(),
            error_message: String::from_str("DRM Content is not available in pbskids-dl."),
        }
    }
}

/// The message part that tells what went wrong while talking to the web site.
pub open spec fn web_prefix() -> Seq<char> {
    "Failed to access the web site! Error: "@
}

/// The message part that tells that a document could not be parsed.
pub open spec fn parse_prefix() -> Seq<char> {
    "Failed to parse. Error: "@
}

/// The message part that tells that a file could not be opened or written.
pub open spec fn open_prefix() -> Seq<char> {
    "Failed to open. Error: "@
}

/// The message part that tells that the progress bar could not be set up.
pub open spec fn progress_prefix() -> Seq<char> {
    "Failed to show the progress bar! Error: "@
}

/// The kinds of failure the HTTP client distinguishes.
#[derive(Clone, Copy, Debug, PartialEq, Eq)]
pub enum HttpErrorKind {
    BadClientCertificate,
    BadServerCertificate,
    ClientInitialization,
    ConnectionFailed,
    InvalidContentEncoding,
    InvalidCredentials,
    InvalidRequest,
    Io,
    NameResolution,
    ProtocolViolation,
    RequestBodyNotRewindable,
    Timeout,
    TlsEngine,
    TooManyRedirects,
    Unknown,
}

/// The exit code that reports a failure of the HTTP client.
pub open spec fn http_exit_code(kind: HttpErrorKind) -> LinuxExitCodes {
    match kind {
        HttpErrorKind::BadClientCertificate
        | HttpErrorKind::BadServerCertificate
        | HttpErrorKind::InvalidContentEncoding
        | HttpErrorKind::InvalidCredentials
        | HttpErrorKind::InvalidRequest
        | HttpErrorKind::RequestBodyNotRewindable
        | HttpErrorKind::TlsEngine => LinuxExitCodes::EBADE,
        HttpErrorKind::ClientInitialization => LinuxExitCodes::EINVAL,
        HttpErrorKind::ConnectionFailed | HttpErrorKind::NameResolution => LinuxExitCodes::ENONET,
        HttpErrorKind::Io => LinuxExitCodes::EIO,
        HttpErrorKind::Timeout => LinuxExitCodes::ETIME,
        HttpErrorKind::TooManyRedirects => LinuxExitCodes::EMLINK,
        HttpErrorKind::ProtocolViolation | HttpErrorKind::Unknown => LinuxExitCodes::UNKNOWN,
    }
}

/// The exit code that reports a failure of the HTTP client of the given kind.
pub fn http_kind_exit_code(kind: HttpErrorKind) -> (r: LinuxExitCodes)
    ensures
        r == http_exit_code(kind),
{
    match kind {
        HttpErrorKind::BadClientCertificate
        | HttpErrorKind::BadServerCertificate
        | HttpErrorKind::InvalidContentEncoding
        | HttpErrorKind::InvalidCredentials
        | HttpErrorKind::InvalidRequest
        | HttpErrorKind::RequestBodyNotRewindable
        | HttpErrorKind::TlsEngine => LinuxExitCodes::EBADE,
        HttpErrorKind::ClientInitialization => LinuxExitCodes::EINVAL,
        HttpErrorKind::ConnectionFailed | HttpErrorKind::NameResolution => LinuxExitCodes::ENONET,
        HttpErrorKind::Io => LinuxExitCodes::EIO,
        HttpErrorKind::Timeout => LinuxExitCodes::ETIME,
        HttpErrorKind::TooManyRedirects => LinuxExitCodes::EMLINK,
        HttpErrorKind::ProtocolViolation | HttpErrorKind::Unknown => LinuxExitCodes::UNKNOWN,
    }
}

/// The exit code of each kind of HTTP client failure: certificate, TLS,
/// encoding, credential and request problems are an invalid exchange (52);
/// a client that cannot start is an invalid argument (22); a failed
/// connection or name resolution means no network (64); I/O is 5; a timeout
/// is 62; too many redirects is 31; anything else is unknown (255).
pub proof fn lemma_http_exit_code_table()
    ensures
        exit_code_value(http_exit_code(HttpErrorKind::BadClientCertificate)) == 52,
        exit_code_value(http_exit_code(HttpErrorKind::BadServerCertificate)) == 52,
        exit_code_value(http_exit_code(HttpErrorKind::InvalidContentEncoding)) == 52,
        exit_code_value(http_exit_code(HttpErrorKind::InvalidCredentials)) == 52,
        exit_code_value(http_exit_code(HttpErrorKind::InvalidRequest)) == 52,
        exit_code_value(http_exit_code(HttpErrorKind::RequestBodyNotRewindable)) == 52,
        exit_code_value(http_exit_code(HttpErrorKind::TlsEngine)) == 52,
        exit_code_value(http_exit_code(HttpErrorKind::ClientInitialization)) == 22,
        exit_code_value(http_exit_code(HttpErrorKind::ConnectionFailed)) == 64,
        exit_code_value(http_exit_code(HttpErrorKind::NameResolution)) == 64,
        exit_code_value(http_exit_code(HttpErrorKind::Io)) == 5,
        exit_code_value(http_exit_code(HttpErrorKind::Timeout)) == 62,
        exit_code_value(http_exit_code(HttpErrorKind::TooManyRedirects)) == 31,
        exit_code_value(http_exit_code(HttpErrorKind::ProtocolViolation)) == 255,
        exit_code_value(http_exit_code(HttpErrorKind::Unknown)) == 255,
        http_exit_code(HttpErrorKind::BadServerCertificate) == LinuxExitCodes::EBADE,
        http_exit_code(HttpErrorKind::ClientInitialization) == LinuxExitCodes::EINVAL,
        http_exit_code(HttpErrorKind::NameResolution) == LinuxExitCodes::ENONET,
        http_exit_code(HttpErrorKind::Io) == LinuxExitCodes::EIO,
        http_exit_code(HttpErrorKind::Timeout) == LinuxExitCodes::ETIME,
        http_exit_code(HttpErrorKind::TooManyRedirects) == LinuxExitCodes::EMLINK,
        http_exit_code(HttpErrorKind::ProtocolViolation) == LinuxExitCodes::UNKNOWN,
{
}

/// The number of each exit code.
pub proof fn lemma_exit_code_numbers()
    ensures
        exit_code_value(LinuxExitCodes::SUCCESS) == 0,
        exit_code_value(LinuxExitCodes::EIO) == 5,
        exit_code_value(LinuxExitCodes::EFAULT) == 14,
        exit_code_value(LinuxExitCodes::EINVAL) == 22,
        exit_code_value(LinuxExitCodes::ESPIPE) == 29,
        exit_code_value(LinuxExitCodes::EMLINK) == 31,
        exit_code_value(LinuxExitCodes::ENOMSG) == 42,
        exit_code_value(LinuxExitCodes::EBADE) == 52,
        exit_code_value(LinuxExitCodes::ETIME) == 62,
        exit_code_value(LinuxExitCodes::ENONET) == 64,
        exit_code_value(LinuxExitCodes::UNKNOWN) == 255,
{
}

/// A failure of the HTTP client is never reported as success.
pub proof fn lemma_http_failure_not_success(kind: HttpErrorKind)
    ensures
        exit_code_value(http_exit_code(kind)) != 0,
{
}

/// The code that reports a failure known by the byte `b`: the byte itself,
/// unless it is 0, the success code, which becomes the unknown code.
pub open spec fn failure_exit_code(b: u8) -> u8 {
    if b == 0 {
        exit_code_value(LinuxExitCodes::UNKNOWN)
    } else {
        b
    }
}

/// The code that reports a failed file operation with this OS error number.
pub open spec fn os_exit_code(raw_os_error: Option<i32>) -> u8 {
    match raw_os_error {
        Some(n) => failure_exit_code(n as u8),
        None => exit_code_value(LinuxExitCodes::UNKNOWN),
    }
}

/// The code that reports a parse failure with this I/O error kind number.
pub open spec fn json_exit_code(io_kind: Option<u8>) -> u8 {
    match io_kind {
        Some(k) => failure_exit_code(k),
        None => exit_code_value(LinuxExitCodes::UNKNOWN),
    }
}

/// A failed file operation or parse is never reported with the success
/// code, and an OS error number from 1 to 255 is reported as itself.
pub proof fn lemma_failure_codes_not_success(raw_os_error: Option<i32>, io_kind: Option<u8>)
    ensures
        os_exit_code(raw_os_error) != 0,
        json_exit_code(io_kind) != 0,
        raw_os_error matches Some(n) ==> (1 <= n <= 255 ==> os_exit_code(raw_os_error) == n),
        io_kind matches Some(k) ==> (k != 0 ==> json_exit_code(io_kind) == k),
{
    if let Some(n) = raw_os_error {
        if 1 <= n <= 255 {
            assert(n as u8 == n) by (bit_vector)
                requires
                    1 <= n <= 255,
            ;
        }
    }
}

/// The code that reports a failure known by the byte `b`.
fn failure_code(b: u8) -> (r: u8)
    ensures
        r == failure_exit_code(b),
{
    if b == 0 {
        LinuxExitCodes::UNKNOWN.code()
    } else {
        b
    }
}

/// A message made of a fixed part followed by a description.
fn prefixed(prefix: &str, text: &str) -> (r: String)
    ensures
        r@ == prefix@ + text@,
{
    let mut s = String::from_str(prefix);
    s.append(text);
    s
}

impl AppError {
    /// The message shown to the user.
    pub fn to_string(&self) -> (r: String)
        ensures
            r@ == self.error_message@,
    {
        self.error_message.clone()
    }

    /// The exit code the process ends with.
    pub fn exit_code(&self) -> (r: u8)
        ensures
            r == self.error_code,
    {
        self.error_code
    }

    /// The error for a failure of the HTTP client of kind `kind`, described by `text`.
    pub fn from_http_parts(kind: HttpErrorKind, text: &str) -> (r: AppError)
        ensures
            r.error_code == exit_code_value(http_exit_code(kind)),
            r.error_message@ == web_prefix() + text@,
    {
        AppError {
            error_code: http_kind_exit_code(kind).code(),
            error_message: prefixed("Failed to access the web site! Error: ", text),
        }
    }

    /// The error for a request that could not be built, described by `text`.
    pub fn from_request_parts(text: &str) -> (r: AppError)
        ensures
            r.error_code == exit_code_value(LinuxExitCodes::ENOMSG),
            r.error_message@ == web_prefix() + text@,
    {
        AppError {
            error_code: LinuxExitCodes::ENOMSG.code(),
            error_message: prefixed("Failed to access the web site! Error: ", text),
        }
    }

    /// The error for a progress bar template that was refused, described by `text`.
    pub fn from_template_parts(text: &str) -> (r: AppError)
        ensures
            r.error_code == exit_code_value(LinuxExitCodes::EIO),
            r.error_message@ == progress_prefix() + text@,
    {
        AppError {
            error_code: LinuxExitCodes::EIO.code(),
            error_message: prefixed("Failed to show the progress bar! Error: ", text),
        }
    }

    /// The error for a failed file operation: the operating system's error
    /// number, cut to a byte, when there is one; the unknown code when there
    /// is none or when the byte is 0, which would report success.
    pub fn from_os_error(raw_os_error: Option<i32>, text: &str) -> (r: AppError)
        ensures
            r.error_code == os_exit_code(raw_os_error),
            r.error_message@ == open_prefix() + text@,
    {
        let code = match raw_os_error {
            Some(n) => failure_code(n as u8),
            None => LinuxExitCodes::UNKNOWN.code(),
        };
        AppError { error_code: code, error_message: prefixed("Failed to open. Error: ", text) }
    }

    /// The error for a document that could not be parsed: the number of the
    /// I/O error kind behind it, when there is one and it is not 0, else the
    /// unknown code.
    pub fn from_json_parts(io_kind: Option<u8>, text: &str) -> (r: AppError)
        ensures
            r.error_code == json_exit_code(io_kind),
            r.error_message@ == parse_prefix() + text@,
    {
        let code = match io_kind {
            Some(k) => failure_code(k),
            None => LinuxExitCodes::UNKNOWN.code(),
        };
        AppError { error_code: code, error_message: prefixed("Failed to parse. Error: ", text) }
    }

    /// The error reported when no configuration file could be read.
    pub fn config_not_found() -> (r: AppError)
        ensures
            r.error_code == exit_code_value(LinuxExitCodes::UNKNOWN),
            r.error_message@ == open_prefix() + "Config file not found!"@,
    {
        AppError::from_os_error(None, "Config file not found!")
    }
}

} // verus!

verus! {

/// The error type of the HTTP client.
#[verifier::external_type_specification]
#[verifier::external_body]
pub struct ExClientError(isahc::Error);

/// The error type of the request builder re-exported by the HTTP client.
#[verifier::external_type_specification]
#[verifier::external_body]
pub struct ExRequestError(isahc::http::Error);

/// The error type of progress bar templates.
#[verifier::external_type_specification]
#[verifier::external_body]
pub struct ExTemplateError(indicatif::style::TemplateError);

/// The I/O error type of the standard library.
#[verifier::external_type_specification]
#[verifier::external_body]
pub struct ExIoError(std::io::Error);

/// The kind of an HTTP client error, as `isahc::Error::kind` gives it.
pub uninterp spec fn client_kind(e: isahc::Error) -> HttpErrorKind;

/// The `Display` text of an HTTP client error.
pub uninterp spec fn client_text(e: isahc::Error) -> Seq<char>;

/// The `Display` text of a request builder error.
pub uninterp spec fn request_text(e: isahc::http::Error) -> Seq<char>;

/// The `Display` text of a progress bar template error.
pub uninterp spec fn template_text(e: indicatif::style::TemplateError) -> Seq<char>;

/// The OS error number an I/O error carries, as `raw_os_error` gives it.
pub uninterp spec fn io_raw_number(e: std::io::Error) -> Option<i32>;

/// The number of the I/O error kind behind a JSON error, as
/// `io_error_kind` gives it turned into a byte by `as u8`.
pub uninterp spec fn json_io_kind(e: serde_json::Error) -> Option<u8>;

/// The `Display` text of a JSON error that carries no I/O error: its
/// message and, when it has one, its position.
pub uninterp spec fn json_text(e: serde_json::Error) -> Seq<char>;

/// `isahc::Error::kind`, converted variant by variant (the enum is
/// non-exhaustive: a kind this version does not list becomes `Unknown`).
/// The kind is stored in the error, so it is a function of the error.
#[verifier::external_body]
fn client_error_kind(e: &isahc::Error) -> (r: HttpErrorKind)
    ensures
        r == client_kind(*e),
{
    match e.kind() {
        K::BadClientCertificate => HttpErrorKind::BadClientCertificate,
        K::BadServerCertificate => HttpErrorKind::BadServerCertificate,
        K::ClientInitialization => HttpErrorKind::ClientInitialization,
        K::ConnectionFailed => HttpErrorKind::ConnectionFailed,
        K::InvalidContentEncoding => HttpErrorKind::InvalidContentEncoding,
        K::InvalidCredentials => HttpErrorKind::InvalidCredentials,
        K::InvalidRequest => HttpErrorKind::InvalidRequest,
        K::Io => HttpErrorKind::Io, K::NameResolution => HttpErrorKind::NameResolution,
        K::ProtocolViolation => HttpErrorKind::ProtocolViolation,
        K::RequestBodyNotRewindable => HttpErrorKind::RequestBodyNotRewindable,
        K::Timeout => HttpErrorKind::Timeout, K::TlsEngine => HttpErrorKind::TlsEngine,
        K::TooManyRedirects => HttpErrorKind::TooManyRedirects,
        _ => HttpErrorKind::Unknown,
    }
}

/// `isahc::Error`'s `Display` text: its kind's description and the stored
/// context, a function of the error.
#[verifier::external_body]
fn client_error_text(e: &isahc::Error) -> (r: String)
    ensures
        r@ == client_text(*e),
{
    e.to_string()
}

/// `isahc::http::Error`'s `Display` text, that of the error it wraps.
#[verifier::external_body]
fn request_error_text(e: &isahc::http::Error) -> (r: String)
    ensures
        r@ == request_text(*e),
{
    e.to_string()
}

/// `indicatif::style::TemplateError`'s `Display` text, which its source
/// writes as this fixed beginning followed by the offending character and
/// the parser state.
#[verifier::external_body]
fn template_error_text(e: &indicatif::style::TemplateError) -> (r: String)
    ensures
        r@ == template_text(*e),
        exists|rest: Seq<char>| r@ == "TemplateError: unexpected character "@ + rest,
{
    e.to_string()
}

/// `std::io::Error::raw_os_error`: the number stored in the error.
#[verifier::external_body]
fn io_error_number(e: &std::io::Error) -> (r: Option<i32>)
    ensures
        r == io_raw_number(*e),
{
    e.raw_os_error()
}

/// `std::io::Error`'s `Display` text.  For an OS error it holds the
/// system's description of the number, which depends on the machine's
/// locale, so nothing is claimed of it.
#[verifier::external_body]
fn io_error_text(e: &std::io::Error) -> String {
    e.to_string()
}

/// `serde_json::Error::io_error_kind`, the kind turned into its number by `as u8`.
#[verifier::external_body]
fn json_error_io_kind(e: &serde_json::Error) -> (r: Option<u8>)
    ensures
        r == json_io_kind(*e),
{
    match e.io_error_kind() {
        Some(kind) => Some(kind as u8),
        None => None,
    }
}

/// `serde_json::Error`'s `Display` text.  For an error without an I/O kind
/// it is the error's message and, when it has one, its position, a function
/// of the error.  An I/O error prints the `std::io::Error` it wraps, whose
/// text depends on the machine's locale: nothing is claimed of that.
#[verifier::external_body]
fn json_error_text(e: &serde_json::Error) -> (r: String)
    ensures
        json_io_kind(*e) is None ==> r@ == json_text(*e),
{
    e.to_string()
}

impl AppError {
    /// The error for a failure of the HTTP client: the code of the error's
    /// kind and its text after the fixed part.
    pub fn from_client_error(e: &isahc::Error) -> (r: AppError)
        ensures
            r.error_code == exit_code_value(http_exit_code(client_kind(*e))),
            r.error_message@ == web_prefix() + client_text(*e),
    {
        let kind = client_error_kind(e);
        let text = client_error_text(e);
        AppError::from_http_parts(kind, text.as_str())
    }

    /// The error for a request that could not be built.
    pub fn from_request_error(e: &isahc::http::Error) -> (r: AppError)
        ensures
            r.error_code == exit_code_value(LinuxExitCodes::ENOMSG),
            r.error_message@ == web_prefix() + request_text(*e),
    {
        let text = request_error_text(e);
        AppError::from_request_parts(text.as_str())
    }

    /// The error for a progress bar template that was refused.
    pub fn from_template_error(e: &indicatif::style::TemplateError) -> (r: AppError)
        ensures
            r.error_code == exit_code_value(LinuxExitCodes::EIO),
            r.error_message@ == progress_prefix() + template_text(*e),
            exists|rest: Seq<char>|
                r.error_message@ == progress_prefix() + "TemplateError: unexpected character "@
                    + rest,
    {
        let text = template_error_text(e);
        let r = AppError::from_template_parts(text.as_str());
        let ghost rest = choose|rest: Seq<char>| text@ == "TemplateError: unexpected character "@ + rest;
        assert(r.error_message@ == progress_prefix() + "TemplateError: unexpected character "@ + rest);
        r
    }

    /// The error for a failed file operation: the code of its OS error number.
    pub fn from_io_error(e: &std::io::Error) -> (r: AppError)
        ensures
            r.error_code == os_exit_code(io_raw_number(*e)),
            exists|text: Seq<char>| r.error_message@ == open_prefix() + text,
    {
        let number = io_error_number(e);
        let text = io_error_text(e);
        let r = AppError::from_os_error(number, text.as_str());
        assert(r.error_message@ == open_prefix() + text@);
        r
    }

    /// The error for a JSON document that could not be parsed.
    pub fn from_json_error(e: &serde_json::Error) -> (r: AppError)
        ensures
            r.error_code == json_exit_code(json_io_kind(*e)),
            json_io_kind(*e) is None ==> r.error_message@ == parse_prefix() + json_text(*e),
            exists|text: Seq<char>| r.error_message@ == parse_prefix() + text,
    {
        let kind = json_error_io_kind(e);
        let text = json_error_text(e);
        let r = AppError::from_json_parts(kind, text.as_str());
        assert(r.error_message@ == parse_prefix() + text@);
        r
    }
}

} // verus!
