//! Structured application logs in the standard-app-log shape, and the
//! builder that stamps them with the application's context.
use std::collections::HashMap;
use vstd::prelude::*;
use crate::trusted::now_millis;

verus! {

/// The kind of a log entry.
#[derive(Debug, Clone, Copy, PartialEq, Eq, Structural)]
pub enum LogType {
    AppLog,
    ReqLog,
    ReqExLog,
    ResLog,
    ResExLog,
    PiiLog,
}

/// The level of a log entry.
#[derive(Debug, Clone, Copy, PartialEq, Eq, Structural)]
pub enum LogLevel {
    Debug,
    Info,
    Warn,
    Error,
}

/// A structured application log entry. The event time is in milliseconds
/// since the Unix epoch.
#[derive(Debug)]
pub struct StdAppLog {
    pub event_date_time: i64,
    pub log_type: LogType,
    pub app_id: Option<String>,
    pub app_version: Option<String>,
    pub app_address: Option<String>,
    pub geo_location: Option<String>,
    pub service_id: Option<String>,
    pub service_version: Option<String>,
    pub service_pod_name: Option<String>,
    pub code_location: Option<String>,
    pub caller_channel_name: Option<String>,
    pub caller_user: Option<String>,
    pub caller_address: Option<String>,
    pub correlation_id: Option<String>,
    pub request_id: Option<String>,
    pub trace_id: Option<String>,
    pub span_id: Option<String>,
    pub level: LogLevel,
    pub execution_time: Option<u32>,
    pub message: String,
    pub request: Option<Request>,
    pub response: Option<Response>,
    pub pii_log: Option<PIILog>,
}

/// A request, as logged.
#[derive(Debug)]
pub struct Request {
    pub id: String,
    pub host: String,
    pub headers: HashMap<String, String>,
    pub url: String,
    pub method: String,
    pub body: serde_json::Value,
}

/// A response, as logged.
#[derive(Debug)]
pub struct Response {
    pub status_code: u32,
    pub headers: HashMap<String, String>,
    pub body: serde_json::Value,
}

/// An event on personally identifiable information, as logged.
#[derive(Debug)]
pub struct PIILog {
    pub event_type: String,
    pub search_criteria: Option<HashMap<String, String>>,
    pub update: Option<PIILogUpdate>,
    pub new_values: Option<HashMap<String, String>>,
    pub delete_key_values: Option<HashMap<String, String>>,
}

/// An update of personally identifiable information, as logged.
#[derive(Debug)]
pub struct PIILogUpdate {
    pub previous_values: HashMap<String, String>,
    pub new_values: HashMap<String, String>,
    pub key_values: Option<HashMap<String, String>>,
}

/// `l` is a fresh application log entry at `level` with `message` and no
/// context.
pub open spec fn is_fresh_log(l: StdAppLog, level: LogLevel, message: String) -> bool {
    &&& l.log_type == LogType::AppLog
    &&& l.level == level
    &&& l.message == message
    &&& l.event_date_time >= 0
    &&& l.app_id is None
    &&& l.app_version is None
    &&& l.app_address is None
    &&& l.geo_location is None
    &&& l.service_id is None
    &&& l.service_version is None
    &&& l.service_pod_name is None
    &&& l.code_location is None
    &&& l.caller_channel_name is None
    &&& l.caller_user is None
    &&& l.caller_address is None
    &&& l.correlation_id is None
    &&& l.request_id is None
    &&& l.trace_id is None
    &&& l.span_id is None
    &&& l.execution_time is None
    &&& l.request is None
    &&& l.response is None
    &&& l.pii_log is None
}

impl StdAppLog {
    /// A new application log entry stamped now.
    pub fn new(level: LogLevel, message: String) -> (l: StdAppLog)
        ensures
            is_fresh_log(l, level, message),
    {
        StdAppLog {
            event_date_time: now_millis(),
            log_type: LogType::AppLog,
            app_id: None,
            app_version: None,
            app_address: None,
            geo_location: None,
            service_id: None,
            service_version: None,
            service_pod_name: None,
            code_location: None,
            caller_channel_name: None,
            caller_user: None,
            caller_address: None,
            correlation_id: None,
            request_id: None,
            trace_id: None,
            span_id: None,
            level,
            execution_time: None,
            message,
            request: None,
            response: None,
            pii_log: None,
        }
    }

    /// Sets the correlation ID.
    pub fn with_correlation_id(self, correlation_id: String) -> (l: StdAppLog)
        ensures
            l == (StdAppLog { correlation_id: Some(correlation_id), ..self }),
    {
        StdAppLog { correlation_id: Some(correlation_id), ..self }
    }

    /// Sets the code location.
    pub fn with_code_location(self, location: String) -> (l: StdAppLog)
        ensures
            l == (StdAppLog { code_location: Some(location), ..self }),
    {
        StdAppLog { code_location: Some(location), ..self }
    }

    /// Sets the execution time in milliseconds.
    pub fn with_execution_time(self, time_ms: u32) -> (l: StdAppLog)
        ensures
            l == (StdAppLog { execution_time: Some(time_ms), ..self }),
    {
        StdAppLog { execution_time: Some(time_ms), ..self }
    }
}

/// Builds log entries carrying the application's context.
#[derive(Debug, Clone)]
pub struct LogBuilder {
    pub app_id: Option<String>,
    pub app_version: Option<String>,
    pub app_address: Option<String>,
    pub geo_location: Option<String>,
    pub service_id: Option<String>,
    pub service_version: Option<String>,
    pub service_pod_name: Option<String>,
}

impl LogBuilder {
    /// A builder with no context.
    pub fn new() -> (b: LogBuilder)
        ensures
            b.app_id is None,
            b.app_version is None,
            b.app_address is None,
            b.geo_location is None,
            b.service_id is None,
            b.service_version is None,
            b.service_pod_name is None,
    {
        LogBuilder {
            app_id: None,
            app_version: None,
            app_address: None,
            geo_location: None,
            service_id: None,
            service_version: None,
            service_pod_name: None,
        }
    }

    /// Sets the application ID.
    pub fn with_app_id(self, app_id: String) -> (b: LogBuilder)
        ensures
            b == (LogBuilder { app_id: Some(app_id), ..self }),
    {
        LogBuilder { app_id: Some(app_id), ..self }
    }

    /// Sets the application version.
    pub fn with_app_version(self, version: String) -> (b: LogBuilder)
        ensures
            b == (LogBuilder { app_version: Some(version), ..self }),
    {
        LogBuilder { app_version: Some(version), ..self }
    }

    /// Sets the service ID.
    pub fn with_service_id(self, service_id: String) -> (b: LogBuilder)
        ensures
            b == (LogBuilder { service_id: Some(service_id), ..self }),
    {
        LogBuilder { service_id: Some(service_id), ..self }
    }

    /// Sets the service version.
    pub fn with_service_version(self, version: String) -> (b: LogBuilder)
        ensures
            b == (LogBuilder { service_version: Some(version), ..self }),
    {
        LogBuilder { service_version: Some(version), ..self }
    }

    /// A log entry at `level` with `message`, stamped now and carrying this
    /// builder's context.
    pub fn build(&self, level: LogLevel, message: String) -> (l: StdAppLog)
        ensures
            is_fresh_log(
                StdAppLog {
                    app_id: None,
                    app_version: None,
                    app_address: None,
                    geo_location: None,
                    service_id: None,
                    service_version: None,
                    service_pod_name: None,
                    ..l
                },
                level,
                message,
            ),
            l.app_id == self.app_id,
            l.app_version == self.app_version,
            l.app_address == self.app_address,
            l.geo_location == self.geo_location,
            l.service_id == self.service_id,
            l.service_version == self.service_version,
            l.service_pod_name == self.service_pod_name,
    {
        let log = StdAppLog::new(level, message);
        StdAppLog {
            app_id: self.app_id.clone(),
            app_version: self.app_version.clone(),
            app_address: self.app_address.clone(),
            geo_location: self.geo_location.clone(),
            service_id: self.service_id.clone(),
            service_version: self.service_version.clone(),
            service_pod_name: self.service_pod_name.clone(),
            ..log
        }
    }
}

impl Default for LogBuilder {
    fn default() -> (b: Self)
        ensures
            b.app_id is None,
            b.app_version is None,
            b.app_address is None,
            b.geo_location is None,
            b.service_id is None,
            b.service_version is None,
            b.service_pod_name is None,
    {
        Self::new()
    }
}

} // verus!
