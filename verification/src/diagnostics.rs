//! The diagnostics report: what it holds, how host readings become one, how
//! it is logged, and how a crash report extends it.

use vstd::prelude::*;
use vstd::string::StringExecFns;
use crate::host::{join_path, joined_path, user_data_dir, utc_timestamp};
use crate::platform::{check_webview2, PlatformProbe};
use crate::text::{decimal, decimal_string, truth_string, truth_text};

verus! {

/// Bytes in one megabyte.
pub const BYTES_PER_MB: u64 = 1_048_576;

/// Directory of the application below the user's data directory.
pub const APP_DIR_NAME: &'static str = "com.evolveapp.desktop";

/// Directory of the logs below the application's directory.
pub const LOGS_DIR_NAME: &'static str = "logs";

/// Name of the log file.
pub const LOG_FILE_NAME: &'static str = "evolveapp.log";

/// Name of the crash report file.
pub const CRASH_REPORT_FILE_NAME: &'static str = "crash_report.json";

/// Operating system version that is reported where the host tells none.
pub const UNKNOWN_OS_VERSION: &'static str = "Unknown";

/// A snapshot of the host, taken at start-up.
#[derive(Debug)]
pub struct DiagnosticReport {
    pub timestamp: String,
    pub app_version: String,
    pub os: String,
    pub os_version: String,
    pub architecture: String,
    pub total_memory_mb: u64,
    pub available_memory_mb: u64,
    pub webview2_available: bool,
    pub startup_errors: Vec<String>,
    pub log_path: String,
}

/// A report as plain mathematical values.
pub ghost struct ReportView {
    pub timestamp: Seq<char>,
    pub app_version: Seq<char>,
    pub os: Seq<char>,
    pub os_version: Seq<char>,
    pub architecture: Seq<char>,
    pub total_memory_mb: nat,
    pub available_memory_mb: nat,
    pub webview2_available: bool,
    pub startup_errors: Seq<Seq<char>>,
    pub log_path: Seq<char>,
}

/// The texts of a list of strings.
pub open spec fn texts(list: Seq<String>) -> Seq<Seq<char>> {
    Seq::new(list.len(), |i: int| list[i]@)
}

impl View for DiagnosticReport {
    type V = ReportView;

    open spec fn view(&self) -> ReportView {
        ReportView {
            timestamp: self.timestamp@,
            app_version: self.app_version@,
            os: self.os@,
            os_version: self.os_version@,
            architecture: self.architecture@,
            total_memory_mb: self.total_memory_mb as nat,
            available_memory_mb: self.available_memory_mb as nat,
            webview2_available: self.webview2_available,
            startup_errors: texts(self.startup_errors@),
            log_path: self.log_path@,
        }
    }
}

/// What the caller knows of the build and the process: the facts that do
/// not come from a probe of the host.
#[derive(Debug)]
pub struct HostEnvironment {
    /// Version of the application, fixed when it was built.
    pub app_version: String,
    /// Name of the operating system the build targets.
    pub os: String,
    /// Name of the processor architecture the build targets.
    pub architecture: String,
    /// Working directory, used where the host names no data directory.
    pub working_dir: String,
    /// How the web runtime is looked for on this platform.
    pub probe: PlatformProbe,
}

/// What one probe of the host gave.
#[derive(Debug)]
pub struct HostReadings {
    /// The moment of the probe, in UTC, as an ISO 8601 string.
    pub timestamp: String,
    /// Long form of the operating system version, where the host tells it.
    pub os_version: Option<String>,
    /// Physical memory, in bytes.
    pub total_memory_bytes: u64,
    /// Memory available for use, in bytes.
    pub available_memory_bytes: u64,
    /// Whether the web runtime is available.
    pub webview2_available: bool,
    /// Path of the active log file.
    pub log_path: String,
}

/// Whole megabytes in `bytes`; a remainder is dropped.
pub open spec fn megabytes_of(bytes: u64) -> u64 {
    bytes / BYTES_PER_MB
}

/// The operating system version that a report shows for a reading.
pub open spec fn shown_os_version(reading: Option<String>) -> Seq<char> {
    match reading {
        Some(version) => version@,
        None => UNKNOWN_OS_VERSION@,
    }
}

/// The report that an environment and one set of readings make.
pub open spec fn report_of(env: HostEnvironment, readings: HostReadings) -> ReportView {
    ReportView {
        timestamp: readings.timestamp@,
        app_version: env.app_version@,
        os: env.os@,
        os_version: shown_os_version(readings.os_version),
        architecture: env.architecture@,
        total_memory_mb: megabytes_of(readings.total_memory_bytes) as nat,
        available_memory_mb: megabytes_of(readings.available_memory_bytes) as nat,
        webview2_available: readings.webview2_available,
        startup_errors: Seq::empty(),
        log_path: readings.log_path@,
    }
}

/// Converts a byte count to whole megabytes, dropping the remainder.
pub fn megabytes(bytes: u64) -> (mb: u64)
    ensures
        mb == megabytes_of(bytes),
{
    assert(bytes / 1024 / 1024 == bytes / 1_048_576) by (bit_vector);
    bytes / 1024 / 1024
}

/// Conversion to megabytes keeps order: a host that reports no more
/// available memory than it has in total shows the same in megabytes.
pub proof fn megabytes_keep_order(available_bytes: u64, total_bytes: u64)
    requires
        available_bytes <= total_bytes,
    ensures
        0 <= megabytes_of(available_bytes) <= megabytes_of(total_bytes),
{
}

/// Conversion to megabytes truncates: a count under one megabyte gives 0,
/// and a whole number of megabytes is needed for each unit.
pub proof fn megabytes_truncate(bytes: u64)
    ensures
        bytes < BYTES_PER_MB <==> megabytes_of(bytes) == 0,
        megabytes_of(bytes) * BYTES_PER_MB <= bytes < (megabytes_of(bytes) + 1) * BYTES_PER_MB,
{
}

/// Builds the report from the environment and one set of host readings.
/// Memory is shown in whole megabytes, a missing operating system version as
/// `Unknown`, and no start-up error is recorded yet.
pub fn assemble_report(env: &HostEnvironment, readings: HostReadings) -> (report: DiagnosticReport)
    ensures
        report@ == report_of(*env, readings),
        readings.available_memory_bytes <= readings.total_memory_bytes
            ==> report.available_memory_mb <= report.total_memory_mb,
{
    let os_version = match readings.os_version {
        Some(version) => version,
        None => String::from_str(UNKNOWN_OS_VERSION),
    };
    let report = DiagnosticReport {
        timestamp: readings.timestamp,
        app_version: env.app_version.clone(),
        os: env.os.clone(),
        os_version,
        architecture: env.architecture.clone(),
        total_memory_mb: megabytes(readings.total_memory_bytes),
        available_memory_mb: megabytes(readings.available_memory_bytes),
        webview2_available: readings.webview2_available,
        startup_errors: Vec::new(),
        log_path: readings.log_path,
    };
    assert(report@.startup_errors =~= Seq::empty());
    report
}

/// The directory below which the application keeps its files, decided from
/// what the host names: its data directory, or else the working directory.
pub open spec fn root_of(data_dir: Option<String>, working_dir: Seq<char>) -> Seq<char> {
    match data_dir {
        Some(dir) => dir@,
        None => working_dir,
    }
}

/// Chooses the directory below which the application keeps its files: the
/// user's data directory, or the working directory where the host names
/// none.
pub fn root_or(data_dir: Option<String>, working_dir: &str) -> (root: String)
    ensures
        root@ == root_of(data_dir, working_dir@),
{
    match data_dir {
        Some(dir) => dir,
        None => String::from_str(working_dir),
    }
}

/// Asks the host for the user's data directory and chooses the root from
/// its answer, as `root_or` does.
fn data_root(env: &HostEnvironment) -> (root: String)
    ensures
        exists|data_dir: Option<String>| root@ == #[trigger] root_of(data_dir, env.working_dir@),
{
    let data_dir = user_data_dir();
    let ghost answer = data_dir;
    let root = root_or(data_dir, env.working_dir.as_str());
    assert(root@ == root_of(answer, env.working_dir@));
    root
}

/// The directory of the logs below `root`: the application's directory
/// adjoined to the root, and `logs` adjoined to that.
pub open spec fn logs_dir_of(root: Seq<char>) -> Seq<char> {
    joined_path(joined_path(root, APP_DIR_NAME@), LOGS_DIR_NAME@)
}

/// The path of the active log file below `root`: the log file's name
/// adjoined to the directory of the logs.
pub open spec fn log_file_of(root: Seq<char>) -> Seq<char> {
    joined_path(logs_dir_of(root), LOG_FILE_NAME@)
}

/// The path of the crash report below `root`: the report's name adjoined
/// to the directory of the logs, so that it lies beside the log file.
pub open spec fn crash_report_of(root: Seq<char>) -> Seq<char> {
    joined_path(logs_dir_of(root), CRASH_REPORT_FILE_NAME@)
}

/// Builds the directory of the logs below a given root.
fn logs_dir_below(root: &str) -> (dir: String)
    ensures
        dir@ == logs_dir_of(root@),
{
    let app_dir = join_path(root, APP_DIR_NAME);
    join_path(app_dir.as_str(), LOGS_DIR_NAME)
}

/// The directory of the logs on this host: the application's directory
/// below the root, and `logs` below that. The root is the user's data
/// directory, or the working directory of `env` where the host names none.
pub fn logs_dir(env: &HostEnvironment) -> (dir: String)
    ensures
        exists|data_dir: Option<String>|
            dir@ == logs_dir_of(#[trigger] root_of(data_dir, env.working_dir@)),
{
    let root = data_root(env);
    logs_dir_below(root.as_str())
}

/// The path of the active log file on this host: the log file's name
/// below the directory of the logs, whose root is chosen as in `logs_dir`.
pub fn log_file_path(env: &HostEnvironment) -> (path: String)
    ensures
        exists|data_dir: Option<String>|
            path@ == log_file_of(#[trigger] root_of(data_dir, env.working_dir@)),
{
    let root = data_root(env);
    let dir = logs_dir_below(root.as_str());
    join_path(dir.as_str(), LOG_FILE_NAME)
}

/// The path of the crash report on this host: the report's name below the
/// directory of the logs, whose root is chosen as in `logs_dir`.
pub fn crash_report_path(env: &HostEnvironment) -> (path: String)
    ensures
        exists|data_dir: Option<String>|
            path@ == crash_report_of(#[trigger] root_of(data_dir, env.working_dir@)),
{
    let root = data_root(env);
    let dir = logs_dir_below(root.as_str());
    join_path(dir.as_str(), CRASH_REPORT_FILE_NAME)
}

/// Probes the host and builds a fresh report. It always returns a report:
/// what the host does not tell is replaced by a default. The report is the
/// one that `assemble_report` makes of the readings taken: version,
/// operating system and architecture are those of `env`; no start-up error
/// is recorded; on a vacuous probe the web runtime counts as available; the
/// log path is the one that `log_file_path` gives.
pub fn collect_diagnostics(env: &HostEnvironment) -> (report: DiagnosticReport)
    ensures
        exists|readings: HostReadings| report@ == #[trigger] report_of(*env, readings),
        exists|data_dir: Option<String>|
            report@.log_path == log_file_of(#[trigger] root_of(data_dir, env.working_dir@)),
        report@.app_version == env.app_version@,
        report@.os == env.os@,
        report@.architecture == env.architecture@,
        report@.startup_errors == Seq::<Seq<char>>::empty(),
        env.probe == PlatformProbe::Vacuous ==> report.webview2_available,
{
    let mut sys = sysinfo::System::new_all();
    sys.refresh_all();
    let timestamp = utc_timestamp();
    let os_version = sysinfo::System::long_os_version();
    let total_memory_bytes: u64 = sys.total_memory();
    let available_memory_bytes: u64 = sys.available_memory();
    let webview2_available = check_webview2(env.probe);
    let log_path = log_file_path(env);
    let readings = HostReadings {
        timestamp,
        os_version,
        total_memory_bytes,
        available_memory_bytes,
        webview2_available,
        log_path,
    };
    let ghost taken = readings;
    let report = assemble_report(env, readings);
    assert(report@ == report_of(*env, taken));
    report
}

/// The report with one more start-up error at the end of its list.
pub open spec fn with_error(report: ReportView, error_message: Seq<char>) -> ReportView {
    ReportView { startup_errors: report.startup_errors.push(error_message), ..report }
}

/// Extends a report into a crash report: `error_message` is appended to the
/// start-up errors and nothing else changes.
pub fn crash_report(report: DiagnosticReport, error_message: &str) -> (crash: DiagnosticReport)
    ensures
        crash@ == with_error(report@, error_message@),
{
    let mut crash = report;
    let ghost before = crash.startup_errors@;
    crash.startup_errors.push(String::from_str(error_message));
    assert(texts(crash.startup_errors@) =~= texts(before).push(error_message@));
    crash
}

/// Probes the host and builds the crash report for a fatal start-up error:
/// a fresh report whose only start-up error is `error_message`.
pub fn create_crash_report(env: &HostEnvironment, error_message: &str) -> (crash: DiagnosticReport)
    ensures
        exists|readings: HostReadings|
            crash@ == with_error(#[trigger] report_of(*env, readings), error_message@),
        crash@.startup_errors == seq![error_message@],
        crash@.app_version == env.app_version@,
        crash@.os == env.os@,
        crash@.architecture == env.architecture@,
        env.probe == PlatformProbe::Vacuous ==> crash.webview2_available,
{
    let report = collect_diagnostics(env);
    let ghost fresh = report@;
    let crash = crash_report(report, error_message);
    assert(crash@.startup_errors =~= seq![error_message@]);
    assert(crash@ == with_error(fresh, error_message@));
    crash
}

/// How grave a log line is.
#[derive(Clone, Copy, Debug, PartialEq, Eq, Structural)]
pub enum LogLevel {
    Info,
    Error,
}

/// One line for the log.
#[derive(Debug)]
pub struct LogLine {
    pub level: LogLevel,
    pub text: String,
}

/// The lines of a list as pairs of level and text.
pub open spec fn lines_of(list: Seq<LogLine>) -> Seq<(LogLevel, Seq<char>)> {
    Seq::new(list.len(), |i: int| (list[i].level, list[i].text@))
}

/// The line that shows the operating system.
pub open spec fn os_line(report: ReportView) -> Seq<char> {
    "OS: "@ + report.os + " "@ + report.os_version
}

/// The line that shows the memory.
pub open spec fn memory_line(report: ReportView) -> Seq<char> {
    "Memory: "@ + decimal(report.total_memory_mb) + " MB total, "@ + decimal(
        report.available_memory_mb,
    ) + " MB available"@
}

/// The labelled block that shows a report, all at informational level.
pub open spec fn report_block(report: ReportView) -> Seq<(LogLevel, Seq<char>)> {
    seq![
        (LogLevel::Info, "=== System Diagnostics ==="@),
        (LogLevel::Info, "App Version: "@ + report.app_version),
        (LogLevel::Info, os_line(report)),
        (LogLevel::Info, "Architecture: "@ + report.architecture),
        (LogLevel::Info, memory_line(report)),
        (LogLevel::Info, "WebView2 Available: "@ + truth_text(report.webview2_available)),
        (LogLevel::Info, "Log Location: "@ + report.log_path),
        (LogLevel::Info, "=========================="@),
    ]
}

/// The two error lines that follow the block where the web runtime is
/// missing.
pub open spec fn missing_runtime_lines() -> Seq<(LogLevel, Seq<char>)> {
    seq![
        (LogLevel::Error, "CRITICAL: WebView2 is not installed!"@),
        (
            LogLevel::Error,
            "Download from: https://developer.microsoft.com/en-us/microsoft-edge/webview2/"@,
        ),
    ]
}

/// Whether a missing web runtime is an error on this platform.
pub open spec fn runtime_missing(probe: PlatformProbe, report: ReportView) -> bool {
    probe == PlatformProbe::Windows && !report.webview2_available
}

/// Everything that is logged for a report: the block, and on Windows the
/// error lines where the web runtime is missing.
pub open spec fn diagnostics_log(probe: PlatformProbe, report: ReportView) -> Seq<
    (LogLevel, Seq<char>),
> {
    if runtime_missing(probe, report) {
        report_block(report) + missing_runtime_lines()
    } else {
        report_block(report)
    }
}

fn labelled(label: &str, value: &str) -> (line: String)
    ensures
        line@ == label@ + value@,
{
    let mut line = String::from_str(label);
    line.append(value);
    line
}

fn info(text: String) -> (line: LogLine)
    ensures
        line.level == LogLevel::Info,
        line.text@ == text@,
{
    LogLine { level: LogLevel::Info, text }
}

fn error(text: &str) -> (line: LogLine)
    ensures
        line.level == LogLevel::Error,
        line.text@ == text@,
{
    LogLine { level: LogLevel::Error, text: String::from_str(text) }
}

/// Writes the lines that show a report at start-up, in the order in which
/// they are to be logged. On Windows a missing web runtime adds two error
/// lines that tell where to get it.
pub fn log_diagnostics(report: &DiagnosticReport, probe: PlatformProbe) -> (lines: Vec<LogLine>)
    ensures
        lines_of(lines@) == diagnostics_log(probe, report@),
{
    let mut os_text = labelled("OS: ", report.os.as_str());
    os_text.append(" ");
    os_text.append(report.os_version.as_str());

    let mut memory_text = labelled("Memory: ", decimal_string(report.total_memory_mb).as_str());
    memory_text.append(" MB total, ");
    memory_text.append(decimal_string(report.available_memory_mb).as_str());
    memory_text.append(" MB available");

    let mut lines: Vec<LogLine> = Vec::new();
    lines.push(info(String::from_str("=== System Diagnostics ===")));
    lines.push(info(labelled("App Version: ", report.app_version.as_str())));
    lines.push(info(os_text));
    lines.push(info(labelled("Architecture: ", report.architecture.as_str())));
    lines.push(info(memory_text));
    lines.push(
        info(labelled("WebView2 Available: ", truth_string(report.webview2_available).as_str())),
    );
    lines.push(info(labelled("Log Location: ", report.log_path.as_str())));
    lines.push(info(String::from_str("==========================")));
    assert(lines_of(lines@) =~= report_block(report@));
    if probe == PlatformProbe::Windows && !report.webview2_available {
        lines.push(error("CRITICAL: WebView2 is not installed!"));
        lines.push(
            error("Download from: https://developer.microsoft.com/en-us/microsoft-edge/webview2/"),
        );
        assert(lines_of(lines@) =~= report_block(report@) + missing_runtime_lines());
    }
    lines
}

/// Path of the diagnostics resource below the API's base address.
pub const DIAGNOSTICS_PATH: &'static str = "/api/v1/app-diagnostics";

/// The address to which a report is uploaded: the API's base address
/// followed by the diagnostics path.
pub fn diagnostics_endpoint(api_url: &str) -> (endpoint: String)
    ensures
        endpoint@ == api_url@ + DIAGNOSTICS_PATH@,
{
    labelled(api_url, DIAGNOSTICS_PATH)
}

/// Whether an HTTP status code reports success: 200 to 299.
pub open spec fn is_success_status(code: u16) -> bool {
    200 <= code <= 299
}

/// Judges the answer to an upload. A success status gives `Ok`; any other
/// gives the error text, which ends in the status as the server sent it.
pub fn upload_outcome(code: u16, status_text: &str) -> (outcome: Result<(), String>)
    ensures
        outcome is Ok <==> is_success_status(code),
        outcome matches Err(message) ==> message@ == "Failed to send diagnostics: "@ + status_text@,
{
    if 200 <= code && code <= 299 {
        Ok(())
    } else {
        Err(labelled("Failed to send diagnostics: ", status_text))
    }
}

} // verus!
