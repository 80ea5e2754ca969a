//! The entity shapes exchanged with the boundary, and the verified
//! encoding and decoding of the enumerations stored by name.
//!
//! Timestamps are carried as epoch seconds; presence-encoded booleans
//! (`acknowledged_at`, `resolved_at`) are `Option` timestamps, never a
//! sentinel.

use vstd::prelude::*;
use crate::errors::DataError;
use crate::text::str_eq;

verus! {

/// Outcome of a recorded build badge, stored as its name string.
#[derive(Clone, Copy, Debug, PartialEq, Eq, Structural)]
pub enum BuildResult {
    Starting,
    Failure,
    Warning,
    Success,
    Skipped,
}

impl BuildResult {
    /// The name under which this outcome is stored.
    pub open spec fn spec_name(self) -> Seq<char> {
        match self {
            BuildResult::Starting => "Starting"@,
            BuildResult::Failure => "Failure"@,
            BuildResult::Warning => "Warning"@,
            BuildResult::Success => "Success"@,
            BuildResult::Skipped => "Skipped"@,
        }
    }

    pub fn name(&self) -> (r: &'static str)
        ensures
            r@ == self.spec_name(),
    {
        match self {
            BuildResult::Starting => "Starting",
            BuildResult::Failure => "Failure",
            BuildResult::Warning => "Warning",
            BuildResult::Success => "Success",
            BuildResult::Skipped => "Skipped",
        }
    }

    /// Decode a stored name.  An unknown name is a distinguishable decode
    /// failure, never a crash.
    pub fn decode(s: &str) -> (r: Result<BuildResult, DataError>)
        ensures
            match r {
                Result::Ok(v) => s@ == v.spec_name(),
                Result::Err(e) => e == DataError::UnknownEnumValue && forall|v: BuildResult|
                    s@ != v.spec_name(),
            },
    {
        if str_eq(s, "Starting") {
            Result::Ok(BuildResult::Starting)
        } else if str_eq(s, "Failure") {
            Result::Ok(BuildResult::Failure)
        } else if str_eq(s, "Warning") {
            Result::Ok(BuildResult::Warning)
        } else if str_eq(s, "Success") {
            Result::Ok(BuildResult::Success)
        } else if str_eq(s, "Skipped") {
            Result::Ok(BuildResult::Skipped)
        } else {
            Result::Err(DataError::UnknownEnumValue)
        }
    }
}

/// Kind of a user activity event: sync, review verdicts, starred builds,
/// and investigation markers.
#[derive(Clone, Copy, Debug, PartialEq, Eq, Structural)]
pub enum EventType {
    Syncing,
    Compiles,
    DoesNotCompile,
    Good,
    Bad,
    Unknown,
    Starred,
    Unstarred,
    Investigating,
    Resolved,
}

impl EventType {
    /// The name under which this event kind is stored.
    pub open spec fn spec_name(self) -> Seq<char> {
        match self {
            EventType::Syncing => "Syncing"@,
            EventType::Compiles => "Compiles"@,
            EventType::DoesNotCompile => "DoesNotCompile"@,
            EventType::Good => "Good"@,
            EventType::Bad => "Bad"@,
            EventType::Unknown => "Unknown"@,
            EventType::Starred => "Starred"@,
            EventType::Unstarred => "Unstarred"@,
            EventType::Investigating => "Investigating"@,
            EventType::Resolved => "Resolved"@,
        }
    }

    pub fn name(&self) -> (r: &'static str)
        ensures
            r@ == self.spec_name(),
    {
        match self {
            EventType::Syncing => "Syncing",
            EventType::Compiles => "Compiles",
            EventType::DoesNotCompile => "DoesNotCompile",
            EventType::Good => "Good",
            EventType::Bad => "Bad",
            EventType::Unknown => "Unknown",
            EventType::Starred => "Starred",
            EventType::Unstarred => "Unstarred",
            EventType::Investigating => "Investigating",
            EventType::Resolved => "Resolved",
        }
    }

    /// Decode a stored name.  An unknown name is a distinguishable decode
    /// failure, never a crash.
    pub fn decode(s: &str) -> (r: Result<EventType, DataError>)
        ensures
            match r {
                Result::Ok(v) => s@ == v.spec_name(),
                Result::Err(e) => e == DataError::UnknownEnumValue && forall|v: EventType|
                    s@ != v.spec_name(),
            },
    {
        if str_eq(s, "Syncing") {
            Result::Ok(EventType::Syncing)
        } else if str_eq(s, "Compiles") {
            Result::Ok(EventType::Compiles)
        } else if str_eq(s, "DoesNotCompile") {
            Result::Ok(EventType::DoesNotCompile)
        } else if str_eq(s, "Good") {
            Result::Ok(EventType::Good)
        } else if str_eq(s, "Bad") {
            Result::Ok(EventType::Bad)
        } else if str_eq(s, "Unknown") {
            Result::Ok(EventType::Unknown)
        } else if str_eq(s, "Starred") {
            Result::Ok(EventType::Starred)
        } else if str_eq(s, "Unstarred") {
            Result::Ok(EventType::Unstarred)
        } else if str_eq(s, "Investigating") {
            Result::Ok(EventType::Investigating)
        } else if str_eq(s, "Resolved") {
            Result::Ok(EventType::Resolved)
        } else {
            Result::Err(DataError::UnknownEnumValue)
        }
    }
}

/// Aggregated review verdict for a change.
#[derive(Clone, Copy, Debug, PartialEq, Eq, Structural)]
pub enum ReviewVerdict {
    Unknown,
    Good,
    Bad,
    Mixed,
}

impl ReviewVerdict {
    /// The name under which this verdict is stored.
    pub open spec fn spec_name(self) -> Seq<char> {
        match self {
            ReviewVerdict::Unknown => "Unknown"@,
            ReviewVerdict::Good => "Good"@,
            ReviewVerdict::Bad => "Bad"@,
            ReviewVerdict::Mixed => "Mixed"@,
        }
    }

    pub fn name(&self) -> (r: &'static str)
        ensures
            r@ == self.spec_name(),
    {
        match self {
            ReviewVerdict::Unknown => "Unknown",
            ReviewVerdict::Good => "Good",
            ReviewVerdict::Bad => "Bad",
            ReviewVerdict::Mixed => "Mixed",
        }
    }

    /// Decode a stored name.  An unknown name is a distinguishable decode
    /// failure, never a crash.
    pub fn decode(s: &str) -> (r: Result<ReviewVerdict, DataError>)
        ensures
            match r {
                Result::Ok(v) => s@ == v.spec_name(),
                Result::Err(e) => e == DataError::UnknownEnumValue && forall|v: ReviewVerdict|
                    s@ != v.spec_name(),
            },
    {
        if str_eq(s, "Unknown") {
            Result::Ok(ReviewVerdict::Unknown)
        } else if str_eq(s, "Good") {
            Result::Ok(ReviewVerdict::Good)
        } else if str_eq(s, "Bad") {
            Result::Ok(ReviewVerdict::Bad)
        } else if str_eq(s, "Mixed") {
            Result::Ok(ReviewVerdict::Mixed)
        } else {
            Result::Err(DataError::UnknownEnumValue)
        }
    }
}

/// Kind of a reported client-side error.
#[derive(Clone, Copy, Debug, PartialEq, Eq, Structural)]
pub enum TelemetryErrorType {
    Crash,
}

impl TelemetryErrorType {
    /// The name under which this error kind is stored.
    pub open spec fn spec_name(self) -> Seq<char> {
        match self {
            TelemetryErrorType::Crash => "Crash"@,
        }
    }

    pub fn name(&self) -> (r: &'static str)
        ensures
            r@ == self.spec_name(),
    {
        match self {
            TelemetryErrorType::Crash => "Crash",
        }
    }

    /// Decode a stored name.  An unknown name is a distinguishable decode
    /// failure, never a crash.
    pub fn decode(s: &str) -> (r: Result<TelemetryErrorType, DataError>)
        ensures
            match r {
                Result::Ok(v) => s@ == v.spec_name(),
                Result::Err(e) => e == DataError::UnknownEnumValue && forall|
                    v: TelemetryErrorType,
                |
                    s@ != v.spec_name(),
            },
    {
        if str_eq(s, "Crash") {
            Result::Ok(TelemetryErrorType::Crash)
        } else {
            Result::Err(DataError::UnknownEnumValue)
        }
    }
}

/// A recorded build-result entry (badge) for a project and change number.
#[derive(Debug, PartialEq, Eq)]
pub struct BuildData {
    pub id: i64,
    pub change_number: i32,
    pub build_type: String,
    pub result: BuildResult,
    pub url: String,
    pub project: String,
    pub archive_path: String,
}

/// A user comment on a change.
#[derive(Debug, PartialEq, Eq)]
pub struct CommentData {
    pub id: i64,
    pub change_number: i32,
    pub user_name: String,
    pub text: String,
    pub project: String,
}

/// A user vote or review event on a change.
#[derive(Debug, PartialEq, Eq)]
pub struct EventData {
    pub id: i64,
    pub change: i32,
    pub user_name: String,
    pub event_type: EventType,
    pub project: String,
}

/// Aggregated activity for one change.
#[derive(Debug, PartialEq, Eq)]
pub struct EventSummary {
    pub change_number: i32,
    pub verdict: ReviewVerdict,
    pub sync_events: Vec<EventData>,
    pub reviews: Vec<EventData>,
    pub current_users: Vec<String>,
    pub last_star_review: EventData,
    pub builds: Vec<BuildData>,
    pub comments: Vec<CommentData>,
}

/// A user subscribed to notifications for an issue.
#[derive(Debug, PartialEq, Eq)]
pub struct IssueWatcherData {
    pub user_name: String,
}

/// A build associated with an issue.
#[derive(Debug, PartialEq, Eq)]
pub struct IssueBuildData {
    pub id: i64,
    pub stream: String,
    pub change: i32,
    pub job_name: String,
    pub job_url: String,
    pub job_step_name: String,
    pub job_step_url: String,
    pub error_url: String,
    pub outcome: i32,
}

/// A partial update of an issue build: only its outcome can change.
#[derive(Clone, Copy, Debug, PartialEq, Eq, Structural)]
pub struct IssueBuildUpdateData {
    pub outcome: i32,
}

/// A diagnostic message attached to an issue, optionally linked to one of
/// its builds.
#[derive(Debug, PartialEq, Eq)]
pub struct IssueDiagnosticData {
    pub build_id: Option<i64>,
    pub message: String,
    pub url: String,
}

/// A tracked issue.  Timestamps are epoch seconds; `acknowledged_at` and
/// `resolved_at` are each either absent or a concrete timestamp.
#[derive(Debug, PartialEq, Eq)]
pub struct IssueData {
    pub id: i64,
    pub created_at: i64,
    pub retrieved_at: i64,
    pub project: String,
    pub summary: String,
    pub owner: String,
    pub nominated_by: String,
    pub acknowledged_at: Option<i64>,
    pub fix_change: i32,
    pub resolved_at: Option<i64>,
    pub notify: bool,
}

/// A partial update of an issue: every field is independently optional.
/// Empty strings mean "leave unchanged"; the tri-state booleans mean
/// absent = no change, `true` = stamp the current time, `false` = clear.
#[derive(Debug, PartialEq, Eq)]
pub struct IssueUpdateData {
    pub summary: String,
    pub owner: String,
    pub nominated_by: String,
    pub acknowledged: Option<bool>,
    pub fix_change: Option<i32>,
    pub resolved: Option<bool>,
}

impl Clone for BuildData {
    /// A clone is equal to the value it was made from.
    fn clone(&self) -> (res: Self)
        ensures
            res == *self,
    {
        BuildData {
            id: self.id,
            change_number: self.change_number,
            build_type: self.build_type.clone(),
            result: self.result,
            url: self.url.clone(),
            project: self.project.clone(),
            archive_path: self.archive_path.clone(),
        }
    }
}

impl Clone for CommentData {
    /// A clone is equal to the value it was made from.
    fn clone(&self) -> (res: Self)
        ensures
            res == *self,
    {
        CommentData {
            id: self.id,
            change_number: self.change_number,
            user_name: self.user_name.clone(),
            text: self.text.clone(),
            project: self.project.clone(),
        }
    }
}

impl Clone for EventData {
    /// A clone is equal to the value it was made from.
    fn clone(&self) -> (res: Self)
        ensures
            res == *self,
    {
        EventData {
            id: self.id,
            change: self.change,
            user_name: self.user_name.clone(),
            event_type: self.event_type,
            project: self.project.clone(),
        }
    }
}

impl Clone for IssueData {
    /// A clone is equal to the value it was made from.
    fn clone(&self) -> (res: Self)
        ensures
            res == *self,
    {
        IssueData {
            id: self.id,
            created_at: self.created_at,
            retrieved_at: self.retrieved_at,
            project: self.project.clone(),
            summary: self.summary.clone(),
            owner: self.owner.clone(),
            nominated_by: self.nominated_by.clone(),
            acknowledged_at: self.acknowledged_at,
            fix_change: self.fix_change,
            resolved_at: self.resolved_at,
            notify: self.notify,
        }
    }
}

/// The three independent polling watermarks handed to clients.
#[derive(Clone, Copy, Debug, PartialEq, Eq, Structural)]
pub struct LatestData {
    pub last_event_id: i64,
    pub last_comment_id: i64,
    pub last_build_id: i64,
}

/// A reported client-side error.  The timestamp is epoch seconds.
#[derive(Debug, PartialEq, Eq)]
pub struct TelemetryErrorData {
    pub id: i64,
    pub error_type: TelemetryErrorType,
    pub text: String,
    pub user_name: String,
    pub project: Option<String>,
    pub timestamp: i64,
    pub version: String,
    pub ip_address: String,
}

} // verus!
