//! The checks a workspace request passes before it reaches the daemon, and the
//! errors they report.
use crate::paths::{path_eq, path_eq_str, path_starts_with, path_starts_with_str};
use crate::policy::{unenforced_policy, AppliedWorkspacePolicy, NetworkMode};
use crate::profile::{env_issue, envs_issue, ProfileIssue};
use crate::text::{
    all_digits, all_digit_chars, all_id_chars, concat2, concat3, contains_char, decimal,
    first_issue, int_text, is_blank, is_id_char, lemma_first_issue_ends,
    lemma_first_issue_prefix, lemma_first_issue_step, owned, trim, trim_str, u32_to_string,
    i32_to_string, debug_quoted, debug_text,
};
use crate::workspace::{EnvVar, LaunchSpec, WorkspaceStatus};
use vstd::prelude::*;
use vstd::string::*;

verus! {

/// Why a workspace request is refused.
#[derive(Clone, Debug)]
pub enum WorkspaceError {
    WorkspaceIdEmpty,
    WorkspaceIdInvalid,
    X11IdEmpty { label: String },
    X11IdInvalid { label: String },
    AppIdEmpty,
    AppNameFilterEmpty,
    AppCommandFilterEmpty,
    ProfileIdEmpty,
    WindowTitleFilterEmpty,
    WindowClassFilterEmpty,
    WindowMatchFilterRequired,
    WindowTargetConflict,
    WindowCoordinatesNegative,
    OutsideWorkspace { label: String, x: i32, y: i32, width: u32, height: u32 },
    WindowSizeNotPositive,
    WindowSizeOutsideWorkspace { width: u32, height: u32, workspace_width: u32, workspace_height: u32 },
    ClickButtonRange,
    ClickCountRange,
    ScrollAmountRange,
    ScrollDirectionInvalid,
    ClipboardTextEmpty,
    ClipboardTextNul,
    KeyEmpty,
    TextEmpty,
    AppNameEmpty,
    AppNameNul,
    EnvNameEmpty,
    EnvNameHasEquals,
    EnvHasNul,
    LogStreamInvalid,
    LaunchCommandEmpty,
    LaunchCwdNotDirectory { cwd: String },
    LaunchPolicyUnacknowledged,
    LaunchPolicyNotEnforced,
    HiddenWorkspaceUnacknowledged,
    StartPolicyUnacknowledged,
    StartPolicyNotEnforced,
    RuntimeNotReady { blockers: String },
    AppNotFound { app_id: String },
    AppAmbiguous { app_id: String, labels: String },
    MountPolicyMissing,
    MountWorkspacePathNotAbsolute { path: String },
    MountHostPathMissing { path: String },
    GeometryMissing { field: String },
    OutsideWindow { label: String, x: i32, y: i32, width: u32, height: u32 },
    CoordinateOverflow { label: String, axis: String },
}

/// The content of a `WorkspaceError`.
pub enum WorkspaceIssue {
    WorkspaceIdEmpty,
    WorkspaceIdInvalid,
    X11IdEmpty { label: Seq<char> },
    X11IdInvalid { label: Seq<char> },
    AppIdEmpty,
    AppNameFilterEmpty,
    AppCommandFilterEmpty,
    ProfileIdEmpty,
    WindowTitleFilterEmpty,
    WindowClassFilterEmpty,
    WindowMatchFilterRequired,
    WindowTargetConflict,
    WindowCoordinatesNegative,
    OutsideWorkspace { label: Seq<char>, x: int, y: int, width: nat, height: nat },
    WindowSizeNotPositive,
    WindowSizeOutsideWorkspace { width: nat, height: nat, workspace_width: nat, workspace_height: nat },
    ClickButtonRange,
    ClickCountRange,
    ScrollAmountRange,
    ScrollDirectionInvalid,
    ClipboardTextEmpty,
    ClipboardTextNul,
    KeyEmpty,
    TextEmpty,
    AppNameEmpty,
    AppNameNul,
    EnvNameEmpty,
    EnvNameHasEquals,
    EnvHasNul,
    LogStreamInvalid,
    LaunchCommandEmpty,
    LaunchCwdNotDirectory { cwd: Seq<char> },
    LaunchPolicyUnacknowledged,
    LaunchPolicyNotEnforced,
    HiddenWorkspaceUnacknowledged,
    StartPolicyUnacknowledged,
    StartPolicyNotEnforced,
    RuntimeNotReady { blockers: Seq<char> },
    AppNotFound { app_id: Seq<char> },
    AppAmbiguous { app_id: Seq<char>, labels: Seq<char> },
    MountPolicyMissing,
    MountWorkspacePathNotAbsolute { path: Seq<char> },
    MountHostPathMissing { path: Seq<char> },
    GeometryMissing { field: Seq<char> },
    OutsideWindow { label: Seq<char>, x: int, y: int, width: nat, height: nat },
    CoordinateOverflow { label: Seq<char>, axis: Seq<char> },
}

impl View for WorkspaceError {
    type V = WorkspaceIssue;

    open spec fn view(&self) -> WorkspaceIssue {
        match self {
            WorkspaceError::WorkspaceIdEmpty => WorkspaceIssue::WorkspaceIdEmpty,
            WorkspaceError::WorkspaceIdInvalid => WorkspaceIssue::WorkspaceIdInvalid,
            WorkspaceError::X11IdEmpty { label } => WorkspaceIssue::X11IdEmpty { label: label@ },
            WorkspaceError::X11IdInvalid { label } => WorkspaceIssue::X11IdInvalid { label: label@ },
            WorkspaceError::AppIdEmpty => WorkspaceIssue::AppIdEmpty,
            WorkspaceError::AppNameFilterEmpty => WorkspaceIssue::AppNameFilterEmpty,
            WorkspaceError::AppCommandFilterEmpty => WorkspaceIssue::AppCommandFilterEmpty,
            WorkspaceError::ProfileIdEmpty => WorkspaceIssue::ProfileIdEmpty,
            WorkspaceError::WindowTitleFilterEmpty => WorkspaceIssue::WindowTitleFilterEmpty,
            WorkspaceError::WindowClassFilterEmpty => WorkspaceIssue::WindowClassFilterEmpty,
            WorkspaceError::WindowMatchFilterRequired => WorkspaceIssue::WindowMatchFilterRequired,
            WorkspaceError::WindowTargetConflict => WorkspaceIssue::WindowTargetConflict,
            WorkspaceError::WindowCoordinatesNegative => WorkspaceIssue::WindowCoordinatesNegative,
            WorkspaceError::OutsideWorkspace { label, x, y, width, height } =>
                WorkspaceIssue::OutsideWorkspace {
                label: label@,
                x: *x as int,
                y: *y as int,
                width: *width as nat,
                height: *height as nat,
            },
            WorkspaceError::WindowSizeNotPositive => WorkspaceIssue::WindowSizeNotPositive,
            WorkspaceError::WindowSizeOutsideWorkspace {
                width,
                height,
                workspace_width,
                workspace_height,
            } => WorkspaceIssue::WindowSizeOutsideWorkspace {
                width: *width as nat,
                height: *height as nat,
                workspace_width: *workspace_width as nat,
                workspace_height: *workspace_height as nat,
            },
            WorkspaceError::ClickButtonRange => WorkspaceIssue::ClickButtonRange,
            WorkspaceError::ClickCountRange => WorkspaceIssue::ClickCountRange,
            WorkspaceError::ScrollAmountRange => WorkspaceIssue::ScrollAmountRange,
            WorkspaceError::ScrollDirectionInvalid => WorkspaceIssue::ScrollDirectionInvalid,
            WorkspaceError::ClipboardTextEmpty => WorkspaceIssue::ClipboardTextEmpty,
            WorkspaceError::ClipboardTextNul => WorkspaceIssue::ClipboardTextNul,
            WorkspaceError::KeyEmpty => WorkspaceIssue::KeyEmpty,
            WorkspaceError::TextEmpty => WorkspaceIssue::TextEmpty,
            WorkspaceError::AppNameEmpty => WorkspaceIssue::AppNameEmpty,
            WorkspaceError::AppNameNul => WorkspaceIssue::AppNameNul,
            WorkspaceError::EnvNameEmpty => WorkspaceIssue::EnvNameEmpty,
            WorkspaceError::EnvNameHasEquals => WorkspaceIssue::EnvNameHasEquals,
            WorkspaceError::EnvHasNul => WorkspaceIssue::EnvHasNul,
            WorkspaceError::LogStreamInvalid => WorkspaceIssue::LogStreamInvalid,
            WorkspaceError::LaunchCommandEmpty => WorkspaceIssue::LaunchCommandEmpty,
            WorkspaceError::LaunchCwdNotDirectory { cwd } => WorkspaceIssue::LaunchCwdNotDirectory {
                cwd: cwd@,
            },
            WorkspaceError::LaunchPolicyUnacknowledged => WorkspaceIssue::LaunchPolicyUnacknowledged,
            WorkspaceError::LaunchPolicyNotEnforced => WorkspaceIssue::LaunchPolicyNotEnforced,
            WorkspaceError::HiddenWorkspaceUnacknowledged =>
                WorkspaceIssue::HiddenWorkspaceUnacknowledged,
            WorkspaceError::StartPolicyUnacknowledged => WorkspaceIssue::StartPolicyUnacknowledged,
            WorkspaceError::StartPolicyNotEnforced => WorkspaceIssue::StartPolicyNotEnforced,
            WorkspaceError::RuntimeNotReady { blockers } => WorkspaceIssue::RuntimeNotReady {
                blockers: blockers@,
            },
            WorkspaceError::AppNotFound { app_id } => WorkspaceIssue::AppNotFound { app_id: app_id@ },
            WorkspaceError::AppAmbiguous { app_id, labels } => WorkspaceIssue::AppAmbiguous {
                app_id: app_id@,
                labels: labels@,
            },
            WorkspaceError::MountPolicyMissing => WorkspaceIssue::MountPolicyMissing,
            WorkspaceError::MountWorkspacePathNotAbsolute { path } =>
                WorkspaceIssue::MountWorkspacePathNotAbsolute { path: path@ },
            WorkspaceError::MountHostPathMissing { path } => WorkspaceIssue::MountHostPathMissing {
                path: path@,
            },
            WorkspaceError::GeometryMissing { field } => WorkspaceIssue::GeometryMissing {
                field: field@,
            },
            WorkspaceError::OutsideWindow { label, x, y, width, height } =>
                WorkspaceIssue::OutsideWindow {
                label: label@,
                x: *x as int,
                y: *y as int,
                width: *width as nat,
                height: *height as nat,
            },
            WorkspaceError::CoordinateOverflow { label, axis } => WorkspaceIssue::CoordinateOverflow {
                label: label@,
                axis: axis@,
            },
        }
    }
}

impl WorkspaceIssue {
    /// The message shown for this issue.
    pub open spec fn text(self) -> Seq<char> {
        match self {
            WorkspaceIssue::WorkspaceIdEmpty => "workspace id cannot be empty"@,
            WorkspaceIssue::WorkspaceIdInvalid =>
                "workspace id may only contain ASCII letters, numbers, '-' and '_'"@,
            WorkspaceIssue::X11IdEmpty { label } => label + " cannot be empty"@,
            WorkspaceIssue::X11IdInvalid { label } => label + " must be a decimal X11 id"@,
            WorkspaceIssue::AppIdEmpty => "app id cannot be empty"@,
            WorkspaceIssue::AppNameFilterEmpty => "app name filter cannot be empty"@,
            WorkspaceIssue::AppCommandFilterEmpty => "app command filter cannot be empty"@,
            WorkspaceIssue::ProfileIdEmpty => "profile id cannot be empty"@,
            WorkspaceIssue::WindowTitleFilterEmpty => "window title filter cannot be empty"@,
            WorkspaceIssue::WindowClassFilterEmpty => "window class filter cannot be empty"@,
            WorkspaceIssue::WindowMatchFilterRequired =>
                "window match requires --title, --class, --pid, or --app"@,
            WorkspaceIssue::WindowTargetConflict =>
                "window target accepts either a window id or match filters, not both"@,
            WorkspaceIssue::WindowCoordinatesNegative =>
                "window click coordinates must be non-negative"@,
            WorkspaceIssue::OutsideWorkspace { label, x, y, width, height } => label
                + " coordinates "@ + int_text(x) + ","@ + int_text(y)
                + " are outside workspace bounds "@ + decimal(width) + "x"@ + decimal(height),
            WorkspaceIssue::WindowSizeNotPositive => "window size must be positive"@,
            WorkspaceIssue::WindowSizeOutsideWorkspace {
                width,
                height,
                workspace_width,
                workspace_height,
            } => "window size "@ + decimal(width) + "x"@ + decimal(height)
                + " is outside workspace bounds "@ + decimal(workspace_width) + "x"@ + decimal(
                workspace_height,
            ),
            WorkspaceIssue::ClickButtonRange => "click button must be between 1 and 5"@,
            WorkspaceIssue::ClickCountRange => "click count must be between 1 and 20"@,
            WorkspaceIssue::ScrollAmountRange => "scroll amount must be between 1 and 100"@,
            WorkspaceIssue::ScrollDirectionInvalid =>
                "scroll direction must be up, down, left, or right"@,
            WorkspaceIssue::ClipboardTextEmpty => "clipboard text cannot be empty"@,
            WorkspaceIssue::ClipboardTextNul => "clipboard text cannot contain NUL bytes"@,
            WorkspaceIssue::KeyEmpty => "key cannot be empty"@,
            WorkspaceIssue::TextEmpty => "text cannot be empty"@,
            WorkspaceIssue::AppNameEmpty => "app name cannot be empty"@,
            WorkspaceIssue::AppNameNul => "app name cannot contain NUL bytes"@,
            WorkspaceIssue::EnvNameEmpty => "environment variable name cannot be empty"@,
            WorkspaceIssue::EnvNameHasEquals => "environment variable name cannot contain '='"@,
            WorkspaceIssue::EnvHasNul => "environment variable cannot contain NUL bytes"@,
            WorkspaceIssue::LogStreamInvalid => "log stream must be 'stdout' or 'stderr'"@,
            WorkspaceIssue::LaunchCommandEmpty => "launch command cannot be empty"@,
            WorkspaceIssue::LaunchCwdNotDirectory { cwd } => "launch cwd "@ + cwd
                + " is not a directory"@,
            WorkspaceIssue::LaunchPolicyUnacknowledged =>
                "launch profile requests mount or network policy that is not enforced by this runtime; pass --ack-unenforced-policy or set acknowledge_unenforced_policy=true"@,
            WorkspaceIssue::LaunchPolicyNotEnforced =>
                "launch profile sets require_enforced_policy, but its mount or network policy is not enforced by this runtime"@,
            WorkspaceIssue::HiddenWorkspaceUnacknowledged =>
                "starting a hidden agent workspace requires explicit acknowledgement; pass --ack-hidden-workspace or set acknowledge_hidden_workspace=true"@,
            WorkspaceIssue::StartPolicyUnacknowledged =>
                "profile requests mount or network policy that is not enforced by this X11 runtime; pass --ack-unenforced-policy or set acknowledge_unenforced_policy=true"@,
            WorkspaceIssue::StartPolicyNotEnforced =>
                "profile sets require_enforced_policy, but its mount or network policy is not enforced by this X11 runtime"@,
            WorkspaceIssue::RuntimeNotReady { blockers } => "workspace runtime is not ready: "@
                + blockers,
            WorkspaceIssue::AppNotFound { app_id } => "workspace app "@ + debug_text(app_id)
                + " was not found"@,
            WorkspaceIssue::AppAmbiguous { app_id, labels } => "workspace app target "@
                + debug_text(app_id) + " matched multiple apps: "@ + labels,
            WorkspaceIssue::MountPolicyMissing =>
                "mount namespace requested without an applied policy"@,
            WorkspaceIssue::MountWorkspacePathNotAbsolute { path } => "profile mount workspace_path "@
                + path + " must be absolute for bubblewrap enforcement"@,
            WorkspaceIssue::MountHostPathMissing { path } => "profile mount host_path "@ + path
                + " does not exist"@,
            WorkspaceIssue::GeometryMissing { field } => "window geometry missing "@ + field,
            WorkspaceIssue::OutsideWindow { label, x, y, width, height } => "window "@ + label
                + " coordinates "@ + int_text(x) + ","@ + int_text(y)
                + " are outside window bounds "@ + decimal(width) + "x"@ + decimal(height),
            WorkspaceIssue::CoordinateOverflow { label, axis } => "window "@ + label + " "@ + axis
                + " coordinate overflow"@,
        }
    }
}

impl WorkspaceError {
    /// The message for this error.
    pub fn message(&self) -> (r: String)
        ensures
            r@ == self@.text(),
    {
        match self {
            WorkspaceError::WorkspaceIdEmpty => owned("workspace id cannot be empty"),
            WorkspaceError::WorkspaceIdInvalid => owned(
                "workspace id may only contain ASCII letters, numbers, '-' and '_'",
            ),
            WorkspaceError::X11IdEmpty { label } => concat2(label.as_str(), " cannot be empty"),
            WorkspaceError::X11IdInvalid { label } => concat2(
                label.as_str(),
                " must be a decimal X11 id",
            ),
            WorkspaceError::AppIdEmpty => owned("app id cannot be empty"),
            WorkspaceError::AppNameFilterEmpty => owned("app name filter cannot be empty"),
            WorkspaceError::AppCommandFilterEmpty => owned("app command filter cannot be empty"),
            WorkspaceError::ProfileIdEmpty => owned("profile id cannot be empty"),
            WorkspaceError::WindowTitleFilterEmpty => owned("window title filter cannot be empty"),
            WorkspaceError::WindowClassFilterEmpty => owned("window class filter cannot be empty"),
            WorkspaceError::WindowMatchFilterRequired => owned(
                "window match requires --title, --class, --pid, or --app",
            ),
            WorkspaceError::WindowTargetConflict => owned(
                "window target accepts either a window id or match filters, not both",
            ),
            WorkspaceError::WindowCoordinatesNegative => owned(
                "window click coordinates must be non-negative",
            ),
            WorkspaceError::OutsideWorkspace { label, x, y, width, height } => {
                let mut s = concat2(label.as_str(), " coordinates ");
                s.append(i32_to_string(*x).as_str());
                s.append(",");
                s.append(i32_to_string(*y).as_str());
                s.append(" are outside workspace bounds ");
                s.append(u32_to_string(*width).as_str());
                s.append("x");
                s.append(u32_to_string(*height).as_str());
                s
            },
            WorkspaceError::WindowSizeNotPositive => owned("window size must be positive"),
            WorkspaceError::WindowSizeOutsideWorkspace {
                width,
                height,
                workspace_width,
                workspace_height,
            } => {
                let mut s = owned("window size ");
                s.append(u32_to_string(*width).as_str());
                s.append("x");
                s.append(u32_to_string(*height).as_str());
                s.append(" is outside workspace bounds ");
                s.append(u32_to_string(*workspace_width).as_str());
                s.append("x");
                s.append(u32_to_string(*workspace_height).as_str());
                s
            },
            WorkspaceError::ClickButtonRange => owned("click button must be between 1 and 5"),
            WorkspaceError::ClickCountRange => owned("click count must be between 1 and 20"),
            WorkspaceError::ScrollAmountRange => owned("scroll amount must be between 1 and 100"),
            WorkspaceError::ScrollDirectionInvalid => owned(
                "scroll direction must be up, down, left, or right",
            ),
            WorkspaceError::ClipboardTextEmpty => owned("clipboard text cannot be empty"),
            WorkspaceError::ClipboardTextNul => owned("clipboard text cannot contain NUL bytes"),
            WorkspaceError::KeyEmpty => owned("key cannot be empty"),
            WorkspaceError::TextEmpty => owned("text cannot be empty"),
            WorkspaceError::AppNameEmpty => owned("app name cannot be empty"),
            WorkspaceError::AppNameNul => owned("app name cannot contain NUL bytes"),
            WorkspaceError::EnvNameEmpty => owned("environment variable name cannot be empty"),
            WorkspaceError::EnvNameHasEquals => owned("environment variable name cannot contain '='"),
            WorkspaceError::EnvHasNul => owned("environment variable cannot contain NUL bytes"),
            WorkspaceError::LogStreamInvalid => owned("log stream must be 'stdout' or 'stderr'"),
            WorkspaceError::LaunchCommandEmpty => owned("launch command cannot be empty"),
            WorkspaceError::LaunchCwdNotDirectory { cwd } => concat3(
                "launch cwd ",
                cwd.as_str(),
                " is not a directory",
            ),
            WorkspaceError::LaunchPolicyUnacknowledged => owned(
                "launch profile requests mount or network policy that is not enforced by this runtime; pass --ack-unenforced-policy or set acknowledge_unenforced_policy=true",
            ),
            WorkspaceError::LaunchPolicyNotEnforced => owned(
                "launch profile sets require_enforced_policy, but its mount or network policy is not enforced by this runtime",
            ),
            WorkspaceError::HiddenWorkspaceUnacknowledged => owned(
                "starting a hidden agent workspace requires explicit acknowledgement; pass --ack-hidden-workspace or set acknowledge_hidden_workspace=true",
            ),
            WorkspaceError::StartPolicyUnacknowledged => owned(
                "profile requests mount or network policy that is not enforced by this X11 runtime; pass --ack-unenforced-policy or set acknowledge_unenforced_policy=true",
            ),
            WorkspaceError::StartPolicyNotEnforced => owned(
                "profile sets require_enforced_policy, but its mount or network policy is not enforced by this X11 runtime",
            ),
            WorkspaceError::RuntimeNotReady { blockers } => concat2(
                "workspace runtime is not ready: ",
                blockers.as_str(),
            ),
            WorkspaceError::AppNotFound { app_id } => {
                let q = debug_quoted(app_id.as_str());
                concat3("workspace app ", q.as_str(), " was not found")
            },
            WorkspaceError::AppAmbiguous { app_id, labels } => {
                let q = debug_quoted(app_id.as_str());
                let mut s = concat3("workspace app target ", q.as_str(), " matched multiple apps: ");
                s.append(labels.as_str());
                s
            },
            WorkspaceError::MountPolicyMissing => owned(
                "mount namespace requested without an applied policy",
            ),
            WorkspaceError::MountWorkspacePathNotAbsolute { path } => concat3(
                "profile mount workspace_path ",
                path.as_str(),
                " must be absolute for bubblewrap enforcement",
            ),
            WorkspaceError::MountHostPathMissing { path } => concat3(
                "profile mount host_path ",
                path.as_str(),
                " does not exist",
            ),
            WorkspaceError::GeometryMissing { field } => concat2(
                "window geometry missing ",
                field.as_str(),
            ),
            WorkspaceError::OutsideWindow { label, x, y, width, height } => {
                let mut s = concat3("window ", label.as_str(), " coordinates ");
                s.append(i32_to_string(*x).as_str());
                s.append(",");
                s.append(i32_to_string(*y).as_str());
                s.append(" are outside window bounds ");
                s.append(u32_to_string(*width).as_str());
                s.append("x");
                s.append(u32_to_string(*height).as_str());
                s
            },
            WorkspaceError::CoordinateOverflow { label, axis } => {
                let mut s = concat3("window ", label.as_str(), " ");
                s.append(axis.as_str());
                s.append(" coordinate overflow");
                s
            },
        }
    }
}

/// The outcome of a check, by content.
pub open spec fn outcome(r: Result<(), WorkspaceError>) -> Option<WorkspaceIssue> {
    match r {
        Ok(()) => None,
        Err(e) => Some(e@),
    }
}

// ---------------------------------------------------------------------------
// Ids

/// A workspace id, once trimmed, is non-empty and uses only letters, digits,
/// `-` and `_`.
pub open spec fn workspace_id_issue(id: Seq<char>) -> Option<WorkspaceIssue> {
    if trim(id).len() == 0 {
        Some(WorkspaceIssue::WorkspaceIdEmpty)
    } else if !(forall|i: int| 0 <= i < trim(id).len() ==> is_id_char(#[trigger] trim(id)[i])) {
        Some(WorkspaceIssue::WorkspaceIdInvalid)
    } else {
        None
    }
}

/// Trims a workspace id and checks its alphabet.
pub fn sanitize_workspace_id(id: &str) -> (r: Result<String, WorkspaceError>)
    ensures
        match r {
            Ok(s) => workspace_id_issue(id@) is None && s@ == trim(id@),
            Err(e) => workspace_id_issue(id@) == Some(e@),
        },
{
    let trimmed = trim_str(id);
    if trimmed.as_str().unicode_len() == 0 {
        return Err(WorkspaceError::WorkspaceIdEmpty);
    }
    if !all_id_chars(trimmed.as_str()) {
        return Err(WorkspaceError::WorkspaceIdInvalid);
    }
    Ok(trimmed)
}

/// An X11 id, once trimmed, is a non-empty run of decimal digits.
pub open spec fn x11_id_issue(id: Seq<char>, label: Seq<char>) -> Option<WorkspaceIssue> {
    if trim(id).len() == 0 {
        Some(WorkspaceIssue::X11IdEmpty { label })
    } else if !all_digits(trim(id)) {
        Some(WorkspaceIssue::X11IdInvalid { label })
    } else {
        None
    }
}

/// Trims an X11 id (such as a window id) and checks that it is decimal; `label`
/// names it in the error.
pub fn sanitize_x11_id(id: &str, label: &str) -> (r: Result<String, WorkspaceError>)
    ensures
        match r {
            Ok(s) => x11_id_issue(id@, label@) is None && s@ == trim(id@),
            Err(e) => x11_id_issue(id@, label@) == Some(e@),
        },
{
    let trimmed = trim_str(id);
    if trimmed.as_str().unicode_len() == 0 {
        return Err(WorkspaceError::X11IdEmpty { label: owned(label) });
    }
    if !all_digit_chars(trimmed.as_str()) {
        return Err(WorkspaceError::X11IdInvalid { label: owned(label) });
    }
    Ok(trimmed)
}

// ---------------------------------------------------------------------------
// Filters

/// A filter that is given but blank.
pub open spec fn blank_filter(o: Option<String>) -> bool {
    o is Some && trim(o->0@).len() == 0
}

/// Whether an optional filter is given but blank.
pub fn is_blank_filter(o: &Option<String>) -> (r: bool)
    ensures
        r == blank_filter(*o),
{
    match o {
        Some(s) => is_blank(s.as_str()),
        None => false,
    }
}

/// What is wrong with the filters of an app listing.
pub open spec fn app_filters_issue(
    app_id: Option<String>,
    name_contains: Option<String>,
    command_contains: Option<String>,
    profile_id: Option<String>,
) -> Option<WorkspaceIssue> {
    if blank_filter(app_id) {
        Some(WorkspaceIssue::AppIdEmpty)
    } else if blank_filter(name_contains) {
        Some(WorkspaceIssue::AppNameFilterEmpty)
    } else if blank_filter(command_contains) {
        Some(WorkspaceIssue::AppCommandFilterEmpty)
    } else if blank_filter(profile_id) {
        Some(WorkspaceIssue::ProfileIdEmpty)
    } else {
        None
    }
}

/// Refuses blank filters of an app listing.
pub fn validate_app_list_filters(
    app_id: &Option<String>,
    name_contains: &Option<String>,
    command_contains: &Option<String>,
    profile_id: &Option<String>,
) -> (r: Result<(), WorkspaceError>)
    ensures
        outcome(r) == app_filters_issue(*app_id, *name_contains, *command_contains, *profile_id),
{
    if is_blank_filter(app_id) {
        return Err(WorkspaceError::AppIdEmpty);
    }
    if is_blank_filter(name_contains) {
        return Err(WorkspaceError::AppNameFilterEmpty);
    }
    if is_blank_filter(command_contains) {
        return Err(WorkspaceError::AppCommandFilterEmpty);
    }
    if is_blank_filter(profile_id) {
        return Err(WorkspaceError::ProfileIdEmpty);
    }
    Ok(())
}

/// What is wrong with window match filters; `require_filter` asks for at least one.
pub open spec fn window_match_issue(
    title_contains: Option<String>,
    class_contains: Option<String>,
    pid: Option<u32>,
    app_id: Option<String>,
    require_filter: bool,
) -> Option<WorkspaceIssue> {
    if blank_filter(title_contains) {
        Some(WorkspaceIssue::WindowTitleFilterEmpty)
    } else if blank_filter(class_contains) {
        Some(WorkspaceIssue::WindowClassFilterEmpty)
    } else if blank_filter(app_id) {
        Some(WorkspaceIssue::AppIdEmpty)
    } else if require_filter && title_contains is None && class_contains is None && pid is None
        && app_id is None {
        Some(WorkspaceIssue::WindowMatchFilterRequired)
    } else {
        None
    }
}

/// Refuses blank window filters, and no filter at all when one is required.
pub fn validate_window_match_options(
    title_contains: &Option<String>,
    class_contains: &Option<String>,
    pid: Option<u32>,
    app_id: &Option<String>,
    require_filter: bool,
) -> (r: Result<(), WorkspaceError>)
    ensures
        outcome(r) == window_match_issue(
            *title_contains,
            *class_contains,
            pid,
            *app_id,
            require_filter,
        ),
{
    if is_blank_filter(title_contains) {
        return Err(WorkspaceError::WindowTitleFilterEmpty);
    }
    if is_blank_filter(class_contains) {
        return Err(WorkspaceError::WindowClassFilterEmpty);
    }
    if is_blank_filter(app_id) {
        return Err(WorkspaceError::AppIdEmpty);
    }
    if require_filter && title_contains.is_none() && class_contains.is_none() && pid.is_none()
        && app_id.is_none() {
        return Err(WorkspaceError::WindowMatchFilterRequired);
    }
    Ok(())
}

/// Refuses blank filters of a window listing; no filter is needed.
pub fn validate_window_list_filters(
    title_contains: &Option<String>,
    class_contains: &Option<String>,
    pid: Option<u32>,
    app_id: &Option<String>,
) -> (r: Result<(), WorkspaceError>)
    ensures
        outcome(r) == window_match_issue(*title_contains, *class_contains, pid, *app_id, false),
{
    validate_window_match_options(title_contains, class_contains, pid, app_id, false)
}

/// What is wrong with a window target: a bad window id, bad filters, neither, or
/// both a window id and filters.
pub open spec fn window_target_issue(
    window_id: Option<String>,
    title_contains: Option<String>,
    class_contains: Option<String>,
    pid: Option<u32>,
    app_id: Option<String>,
) -> Option<WorkspaceIssue> {
    if window_id is Some && x11_id_issue(window_id->0@, "window id"@) is Some {
        x11_id_issue(window_id->0@, "window id"@)
    } else if window_match_issue(title_contains, class_contains, pid, app_id, window_id is None)
        is Some {
        window_match_issue(title_contains, class_contains, pid, app_id, window_id is None)
    } else if window_id is Some && (title_contains is Some || class_contains is Some || pid is Some
        || app_id is Some) {
        Some(WorkspaceIssue::WindowTargetConflict)
    } else {
        None
    }
}

/// Checks a window target: either a decimal window id or match filters.
pub fn validate_window_target_options(
    window_id: &Option<String>,
    title_contains: &Option<String>,
    class_contains: &Option<String>,
    pid: Option<u32>,
    app_id: &Option<String>,
) -> (r: Result<(), WorkspaceError>)
    ensures
        outcome(r) == window_target_issue(
            *window_id,
            *title_contains,
            *class_contains,
            pid,
            *app_id,
        ),
{
    proof {
        reveal_strlit("window id");
    }
    if let Some(w) = window_id {
        match sanitize_x11_id(w.as_str(), "window id") {
            Ok(_) => {},
            Err(e) => {
                return Err(e);
            },
        }
    }
    match validate_window_match_options(
        title_contains,
        class_contains,
        pid,
        app_id,
        window_id.is_none(),
    ) {
        Ok(()) => {},
        Err(e) => {
            return Err(e);
        },
    }
    if window_id.is_some() && (title_contains.is_some() || class_contains.is_some()
        || pid.is_some() || app_id.is_some()) {
        return Err(WorkspaceError::WindowTargetConflict);
    }
    Ok(())
}

// ---------------------------------------------------------------------------
// Coordinates, sizes and input

/// Refuses negative coordinates relative to a window.
pub fn validate_relative_click_coordinates(x: i32, y: i32) -> (r: Result<(), WorkspaceError>)
    ensures
        outcome(r) == if x < 0 || y < 0 {
            Some(WorkspaceIssue::WindowCoordinatesNegative)
        } else {
            None
        },
{
    if x < 0 || y < 0 {
        return Err(WorkspaceError::WindowCoordinatesNegative);
    }
    Ok(())
}

/// Whether a point lies on a display of the given size.
pub open spec fn inside_workspace(x: int, y: int, width: nat, height: nat) -> bool {
    0 <= x < width && 0 <= y < height
}

/// Refuses a point that is not on the workspace display; `label` names the point.
pub fn validate_workspace_coordinates(status: &WorkspaceStatus, x: i32, y: i32, label: &str) -> (r:
    Result<(), WorkspaceError>)
    ensures
        outcome(r) == if inside_workspace(x as int, y as int, status.width as nat, status.height as nat) {
            None
        } else {
            Some(
                WorkspaceIssue::OutsideWorkspace {
                    label: label@,
                    x: x as int,
                    y: y as int,
                    width: status.width as nat,
                    height: status.height as nat,
                },
            )
        },
{
    if x < 0 || y < 0 || x as u32 >= status.width || y as u32 >= status.height {
        return Err(
            WorkspaceError::OutsideWorkspace {
                label: owned(label),
                x,
                y,
                width: status.width,
                height: status.height,
            },
        );
    }
    Ok(())
}

/// Refuses a window size with a zero side.
pub fn validate_window_size(width: u32, height: u32) -> (r: Result<(), WorkspaceError>)
    ensures
        outcome(r) == if width == 0 || height == 0 {
            Some(WorkspaceIssue::WindowSizeNotPositive)
        } else {
            None
        },
{
    if width == 0 || height == 0 {
        return Err(WorkspaceError::WindowSizeNotPositive);
    }
    Ok(())
}

/// Refuses a window size larger than the workspace display.
pub fn validate_window_size_for_workspace(status: &WorkspaceStatus, width: u32, height: u32) -> (r:
    Result<(), WorkspaceError>)
    ensures
        outcome(r) == if width > status.width || height > status.height {
            Some(
                WorkspaceIssue::WindowSizeOutsideWorkspace {
                    width: width as nat,
                    height: height as nat,
                    workspace_width: status.width as nat,
                    workspace_height: status.height as nat,
                },
            )
        } else {
            None
        },
{
    if width > status.width || height > status.height {
        return Err(
            WorkspaceError::WindowSizeOutsideWorkspace {
                width,
                height,
                workspace_width: status.width,
                workspace_height: status.height,
            },
        );
    }
    Ok(())
}

/// What is wrong with a click: a button outside 1..=5, or a count outside 1..=20.
pub open spec fn click_issue(button: u8, count: u8) -> Option<WorkspaceIssue> {
    if !(1 <= button <= 5) {
        Some(WorkspaceIssue::ClickButtonRange)
    } else if count == 0 || count > 20 {
        Some(WorkspaceIssue::ClickCountRange)
    } else {
        None
    }
}

/// Checks a mouse button and click count.
pub fn validate_click_options(button: u8, count: u8) -> (r: Result<(), WorkspaceError>)
    ensures
        outcome(r) == click_issue(button, count),
{
    if !(1 <= button && button <= 5) {
        return Err(WorkspaceError::ClickButtonRange);
    }
    if count == 0 || count > 20 {
        return Err(WorkspaceError::ClickCountRange);
    }
    Ok(())
}

/// The largest number of scroll steps in one request.
pub const MAX_SCROLL_AMOUNT: u8 = 100;

/// Checks a scroll amount: 1 to 100 steps.
pub fn validate_scroll_options(amount: u8) -> (r: Result<(), WorkspaceError>)
    ensures
        outcome(r) == if amount == 0 || amount > MAX_SCROLL_AMOUNT {
            Some(WorkspaceIssue::ScrollAmountRange)
        } else {
            None
        },
{
    if amount == 0 || amount > MAX_SCROLL_AMOUNT {
        return Err(WorkspaceError::ScrollAmountRange);
    }
    Ok(())
}

/// What is wrong with clipboard text: empty, or holding NUL.
pub open spec fn clipboard_issue(text: Seq<char>) -> Option<WorkspaceIssue> {
    if text.len() == 0 {
        Some(WorkspaceIssue::ClipboardTextEmpty)
    } else if text.contains('\0') {
        Some(WorkspaceIssue::ClipboardTextNul)
    } else {
        None
    }
}

/// Text to type must not be empty.
pub fn validate_type_text(text: &str) -> (r: Result<(), WorkspaceError>)
    ensures
        r is Err <==> text@.len() == 0,
        r matches Err(e) ==> e@ == WorkspaceIssue::TextEmpty,
{
    if text.unicode_len() == 0 {
        Err(WorkspaceError::TextEmpty)
    } else {
        Ok(())
    }
}

/// Checks text for the clipboard.
pub fn validate_clipboard_text(text: &str) -> (r: Result<(), WorkspaceError>)
    ensures
        outcome(r) == clipboard_issue(text@),
{
    if text.unicode_len() == 0 {
        return Err(WorkspaceError::ClipboardTextEmpty);
    }
    if contains_char(text, '\0') {
        return Err(WorkspaceError::ClipboardTextNul);
    }
    Ok(())
}

/// Refuses a blank key name.
pub fn validate_key_text(key: &str) -> (r: Result<(), WorkspaceError>)
    ensures
        outcome(r) == if trim(key@).len() == 0 {
            Some(WorkspaceIssue::KeyEmpty)
        } else {
            None
        },
{
    if is_blank(key) {
        return Err(WorkspaceError::KeyEmpty);
    }
    Ok(())
}

/// The key chord that pastes when none is given.
pub open spec fn default_paste_key() -> Seq<char> {
    "ctrl+v"@
}

/// The key that pastes: the one given, trimmed, or `ctrl+v`; a blank one is refused.
pub fn normalize_paste_key(key: Option<String>) -> (r: Result<String, WorkspaceError>)
    ensures
        ({
            let k = match key {
                Some(s) => s@,
                None => default_paste_key(),
            };
            match r {
                Ok(s) => trim(k).len() > 0 && s@ == trim(k),
                Err(e) => trim(k).len() == 0 && e@ == WorkspaceIssue::KeyEmpty,
            }
        }),
{
    let key = match key {
        Some(s) => s,
        None => owned("ctrl+v"),
    };
    match validate_key_text(key.as_str()) {
        Ok(()) => {},
        Err(e) => {
            return Err(e);
        },
    }
    Ok(trim_str(key.as_str()))
}

/// What is wrong with an app name: blank, or holding NUL.
pub open spec fn app_name_issue(name: Option<String>) -> Option<WorkspaceIssue> {
    match name {
        None => None,
        Some(n) => if trim(n@).len() == 0 {
            Some(WorkspaceIssue::AppNameEmpty)
        } else if n@.contains('\0') {
            Some(WorkspaceIssue::AppNameNul)
        } else {
            None
        },
    }
}

/// Checks an optional app name.
pub fn validate_optional_app_name(name: &Option<String>) -> (r: Result<(), WorkspaceError>)
    ensures
        outcome(r) == app_name_issue(*name),
{
    match name {
        None => Ok(()),
        Some(n) => {
            if is_blank(n.as_str()) {
                return Err(WorkspaceError::AppNameEmpty);
            }
            if contains_char(n.as_str(), '\0') {
                return Err(WorkspaceError::AppNameNul);
            }
            Ok(())
        },
    }
}

/// A problem with an environment variable, as a workspace issue.
pub open spec fn env_workspace_issue(i: Option<ProfileIssue>) -> Option<WorkspaceIssue> {
    match i {
        Some(ProfileIssue::EnvNameEmpty) => Some(WorkspaceIssue::EnvNameEmpty),
        Some(ProfileIssue::EnvNameHasEquals) => Some(WorkspaceIssue::EnvNameHasEquals),
        Some(_) => Some(WorkspaceIssue::EnvHasNul),
        None => None,
    }
}

/// Checks an environment variable of a launch.
pub fn validate_env_var(v: &EnvVar) -> (r: Result<(), WorkspaceError>)
    ensures
        outcome(r) == env_workspace_issue(env_issue(*v)),
{
    match crate::profile::validate_env_var(v) {
        Ok(()) => Ok(()),
        Err(e) => Err(
            match e {
                crate::profile::ProfileError::EnvNameEmpty => WorkspaceError::EnvNameEmpty,
                crate::profile::ProfileError::EnvNameHasEquals => WorkspaceError::EnvNameHasEquals,
                _ => WorkspaceError::EnvHasNul,
            },
        ),
    }
}

/// Checks a log stream name, which is `stdout` or `stderr` once trimmed.
pub fn validate_log_stream(stream: &str) -> (r: Result<String, WorkspaceError>)
    ensures
        match r {
            Ok(s) => (trim(stream@) == "stdout"@ || trim(stream@) == "stderr"@) && s@ == trim(
                stream@,
            ),
            Err(e) => !(trim(stream@) == "stdout"@ || trim(stream@) == "stderr"@) && e@
                == WorkspaceIssue::LogStreamInvalid,
        },
{
    let t = trim_str(stream);
    if crate::permissions::str_eq(t.as_str(), "stdout") {
        return Ok(owned("stdout"));
    }
    if crate::permissions::str_eq(t.as_str(), "stderr") {
        return Ok(owned("stderr"));
    }
    Err(WorkspaceError::LogStreamInvalid)
}

// ---------------------------------------------------------------------------
// Launches and starts

/// Whether launches under this policy run in a bubblewrap mount namespace.
pub open spec fn bubblewrap_mounts(policy: Option<AppliedWorkspacePolicy>) -> bool {
    match policy {
        Some(p) => p.mounts@.len() > 0 && p.enforcement.mounts.enforced
            && p.runtime_capabilities.bubblewrap.ok,
        None => false,
    }
}

/// Whether launches under this policy run in a bubblewrap network namespace with
/// loopback only (disabled and local-only networks).
pub open spec fn bubblewrap_network(policy: Option<AppliedWorkspacePolicy>) -> bool {
    match policy {
        Some(p) => (p.network.mode == NetworkMode::Disabled || p.network.mode
            == NetworkMode::LocalOnly) && p.enforcement.network.enforced
            && p.runtime_capabilities.bubblewrap.ok,
        None => false,
    }
}

/// Whether launches under this policy run in a bubblewrap mount namespace.
pub fn uses_bubblewrap_mount_isolation(policy: Option<&AppliedWorkspacePolicy>) -> (r: bool)
    ensures
        r == bubblewrap_mounts(
            match policy {
                Some(p) => Some(*p),
                None => None,
            },
        ),
{
    match policy {
        Some(p) => p.mounts.len() > 0 && p.enforcement.mounts.enforced
            && p.runtime_capabilities.bubblewrap.ok,
        None => false,
    }
}

/// Whether launches under this policy run in a loopback-only network namespace.
pub fn uses_bubblewrap_network_isolation(policy: Option<&AppliedWorkspacePolicy>) -> (r: bool)
    ensures
        r == bubblewrap_network(
            match policy {
                Some(p) => Some(*p),
                None => None,
            },
        ),
{
    match policy {
        Some(p) => (p.network.mode == NetworkMode::Disabled || p.network.mode
            == NetworkMode::LocalOnly) && p.enforcement.network.enforced
            && p.runtime_capabilities.bubblewrap.ok,
        None => false,
    }
}

/// Whether a launch cwd lies inside a mount that bubblewrap will provide, so it
/// need not exist on the host.
pub open spec fn cwd_in_sandbox_mount(cwd: Seq<char>, policy: Option<AppliedWorkspacePolicy>) -> bool {
    match policy {
        Some(p) => bubblewrap_mounts(policy) && exists|i: int|
            0 <= i < p.mounts@.len() && (path_eq(cwd, #[trigger] p.mounts@[i].workspace_path@)
                || path_starts_with(cwd, p.mounts@[i].workspace_path@)),
        None => false,
    }
}

/// Whether a launch cwd is provided by a bubblewrap mount of the policy.
pub fn cwd_is_provided_by_bubblewrap_mount(cwd: &str, policy: Option<&AppliedWorkspacePolicy>) -> (r:
    bool)
    ensures
        r == cwd_in_sandbox_mount(
            cwd@,
            match policy {
                Some(p) => Some(*p),
                None => None,
            },
        ),
{
    let p = match policy {
        Some(p) => p,
        None => {
            return false;
        },
    };
    if !uses_bubblewrap_mount_isolation(Some(p)) {
        return false;
    }
    let mut i: usize = 0;
    while i < p.mounts.len()
        invariant
            i <= p.mounts@.len(),
            bubblewrap_mounts(Some(*p)),
            policy == Some(p),
            forall|j: int|
                0 <= j < i ==> !(path_eq(cwd@, #[trigger] p.mounts@[j].workspace_path@)
                    || path_starts_with(cwd@, p.mounts@[j].workspace_path@)),
        decreases p.mounts.len() - i,
    {
        let wp = p.mounts[i].workspace_path.as_str();
        if path_eq_str(cwd, wp) || path_starts_with_str(cwd, wp) {
            assert(path_eq(cwd@, p.mounts@[i as int].workspace_path@) || path_starts_with(
                cwd@,
                p.mounts@[i as int].workspace_path@,
            ));
            return true;
        }
        i += 1;
    }
    false
}

/// What is wrong with a launch. `cwd_is_dir` tells whether its cwd is a directory
/// on the host; it only matters when no sandbox mount provides the cwd.
pub open spec fn launch_spec_issue(spec: LaunchSpec, cwd_is_dir: bool) -> Option<WorkspaceIssue> {
    if spec.command@.len() == 0 {
        Some(WorkspaceIssue::LaunchCommandEmpty)
    } else if app_name_issue(spec.name) is Some {
        app_name_issue(spec.name)
    } else if spec.cwd is Some && !cwd_in_sandbox_mount(spec.cwd->0@, spec.applied_policy)
        && !cwd_is_dir {
        Some(WorkspaceIssue::LaunchCwdNotDirectory { cwd: spec.cwd->0@ })
    } else {
        env_workspace_issue(envs_issue(spec.env@))
    }
}

/// Checks a launch: a command, a valid name, a cwd that exists or is mounted by the
/// sandbox, and valid environment variables.
pub fn validate_launch_spec(spec: &LaunchSpec, cwd_is_dir: bool) -> (r: Result<(), WorkspaceError>)
    ensures
        outcome(r) == launch_spec_issue(*spec, cwd_is_dir),
{
    if spec.command.len() == 0 {
        return Err(WorkspaceError::LaunchCommandEmpty);
    }
    match validate_optional_app_name(&spec.name) {
        Ok(()) => {},
        Err(e) => {
            return Err(e);
        },
    }
    if let Some(cwd) = &spec.cwd {
        let policy = match &spec.applied_policy {
            Some(p) => Some(p),
            None => None,
        };
        if !cwd_is_provided_by_bubblewrap_mount(cwd.as_str(), policy) && !cwd_is_dir {
            return Err(WorkspaceError::LaunchCwdNotDirectory { cwd: cwd.clone() });
        }
    }
    let ghost f = |v: EnvVar| env_issue(v);
    let mut i: usize = 0;
    proof {
        lemma_first_issue_ends(spec.env@, f);
    }
    assert(launch_spec_issue(*spec, cwd_is_dir) == env_workspace_issue(envs_issue(spec.env@)));
    while i < spec.env.len()
        invariant
            launch_spec_issue(*spec, cwd_is_dir) == env_workspace_issue(envs_issue(spec.env@)),
            i <= spec.env@.len(),
            f == (|v: EnvVar| env_issue(v)),
            first_issue(spec.env@.subrange(0, i as int), f) is None,
        decreases spec.env.len() - i,
    {
        proof {
            lemma_first_issue_step(spec.env@, f, i as int);
        }
        let c = validate_env_var(&spec.env[i]);
        if c.is_err() {
            proof {
                lemma_first_issue_prefix(spec.env@, f, i + 1);
            }
            return c;
        }
        i += 1;
    }
    proof {
        lemma_first_issue_ends(spec.env@, f);
    }
    Ok(())
}

/// What a launch must acknowledge: policy that is requested but not enforced needs
/// the acknowledgement, and is refused outright when the profile requires
/// enforced policy.
pub open spec fn launch_ack_issue(spec: LaunchSpec) -> Option<WorkspaceIssue> {
    match spec.applied_policy {
        Some(p) => if unenforced_policy(p) && p.require_enforced_policy {
            Some(WorkspaceIssue::LaunchPolicyNotEnforced)
        } else if unenforced_policy(p) && !spec.user_acknowledged_unenforced_policy {
            Some(WorkspaceIssue::LaunchPolicyUnacknowledged)
        } else {
            None
        },
        None => None,
    }
}

/// Checks that a launch acknowledged any unenforced policy it runs under.
pub fn validate_launch_policy_ack(spec: &LaunchSpec) -> (r: Result<(), WorkspaceError>)
    ensures
        outcome(r) == launch_ack_issue(*spec),
{
    if let Some(p) = &spec.applied_policy {
        let unenforced = p.has_requested_unenforced_policy();
        if unenforced && p.require_enforced_policy {
            return Err(WorkspaceError::LaunchPolicyNotEnforced);
        }
        if unenforced && !spec.user_acknowledged_unenforced_policy {
            return Err(WorkspaceError::LaunchPolicyUnacknowledged);
        }
    }
    Ok(())
}


/// The display point of a point given relative to a window: refused when it lies
/// outside the window, or when the sum leaves the range of `i32`. `label` names
/// the point in errors (`click`, `pointer`, `drag start`, ...).
pub fn window_point(geometry: &crate::workspace::WindowGeometry, x: i32, y: i32, label: &str) -> (r:
    Result<(i32, i32), WorkspaceError>)
    requires
        x >= 0,
        y >= 0,
    ensures
        match r {
            Ok((ax, ay)) => x < geometry.width && y < geometry.height && ax == geometry.x + x && ay
                == geometry.y + y,
            Err(e) => if !(x < geometry.width && y < geometry.height) {
                e@ == WorkspaceIssue::OutsideWindow {
                    label: label@,
                    x: x as int,
                    y: y as int,
                    width: geometry.width as nat,
                    height: geometry.height as nat,
                }
            } else if geometry.x + x > i32::MAX {
                e@ == WorkspaceIssue::CoordinateOverflow { label: label@, axis: "X"@ }
            } else {
                geometry.y + y > i32::MAX && e@ == WorkspaceIssue::CoordinateOverflow {
                    label: label@,
                    axis: "Y"@,
                }
            },
        },
{
    if x as u32 >= geometry.width || y as u32 >= geometry.height {
        return Err(
            WorkspaceError::OutsideWindow {
                label: owned(label),
                x,
                y,
                width: geometry.width,
                height: geometry.height,
            },
        );
    }
    let ax = match geometry.x.checked_add(x) {
        Some(v) => v,
        None => {
            return Err(WorkspaceError::CoordinateOverflow { label: owned(label), axis: owned("X") });
        },
    };
    let ay = match geometry.y.checked_add(y) {
        Some(v) => v,
        None => {
            return Err(WorkspaceError::CoordinateOverflow { label: owned(label), axis: owned("Y") });
        },
    };
    Ok((ax, ay))
}

/// Whether a point given relative to a window lies inside it.
pub open spec fn inside_window(geometry: crate::workspace::WindowGeometry, x: int, y: int) -> bool {
    x < geometry.width && y < geometry.height
}

/// Why a drag between two points given relative to a window is refused: both points
/// are checked against the window's bounds first (start, then end), and only then are
/// the display points computed (start X, start Y, end X, end Y).
pub open spec fn drag_issue(
    geometry: crate::workspace::WindowGeometry,
    from_x: int,
    from_y: int,
    to_x: int,
    to_y: int,
) -> Option<WorkspaceIssue> {
    let outside = |label: Seq<char>, x: int, y: int|
        WorkspaceIssue::OutsideWindow {
            label,
            x,
            y,
            width: geometry.width as nat,
            height: geometry.height as nat,
        };
    let overflow = |label: Seq<char>, axis: Seq<char>|
        WorkspaceIssue::CoordinateOverflow { label, axis };
    if !inside_window(geometry, from_x, from_y) {
        Some(outside("drag start"@, from_x, from_y))
    } else if !inside_window(geometry, to_x, to_y) {
        Some(outside("drag end"@, to_x, to_y))
    } else if geometry.x + from_x > i32::MAX {
        Some(overflow("drag start"@, "X"@))
    } else if geometry.y + from_y > i32::MAX {
        Some(overflow("drag start"@, "Y"@))
    } else if geometry.x + to_x > i32::MAX {
        Some(overflow("drag end"@, "X"@))
    } else if geometry.y + to_y > i32::MAX {
        Some(overflow("drag end"@, "Y"@))
    } else {
        None
    }
}

/// The display points of a drag between two points given relative to a window, or
/// why the drag is refused (see `drag_issue`).
pub fn window_drag_points(
    geometry: &crate::workspace::WindowGeometry,
    from_x: i32,
    from_y: i32,
    to_x: i32,
    to_y: i32,
) -> (r: Result<((i32, i32), (i32, i32)), WorkspaceError>)
    requires
        from_x >= 0,
        from_y >= 0,
        to_x >= 0,
        to_y >= 0,
    ensures
        match r {
            Ok((from, to)) => drag_issue(*geometry, from_x as int, from_y as int, to_x as int, to_y as int)
                is None && from.0 == geometry.x + from_x && from.1 == geometry.y + from_y && to.0
                == geometry.x + to_x && to.1 == geometry.y + to_y,
            Err(e) => drag_issue(*geometry, from_x as int, from_y as int, to_x as int, to_y as int)
                == Some(e@),
        },
{
    if from_x as u32 >= geometry.width || from_y as u32 >= geometry.height {
        return Err(
            WorkspaceError::OutsideWindow {
                label: owned("drag start"),
                x: from_x,
                y: from_y,
                width: geometry.width,
                height: geometry.height,
            },
        );
    }
    if to_x as u32 >= geometry.width || to_y as u32 >= geometry.height {
        return Err(
            WorkspaceError::OutsideWindow {
                label: owned("drag end"),
                x: to_x,
                y: to_y,
                width: geometry.width,
                height: geometry.height,
            },
        );
    }
    let from = match window_point(geometry, from_x, from_y, "drag start") {
        Ok(p) => p,
        Err(e) => {
            return Err(e);
        },
    };
    let to = match window_point(geometry, to_x, to_y, "drag end") {
        Ok(p) => p,
        Err(e) => {
            return Err(e);
        },
    };
    Ok((from, to))
}

/// A policy that fails closed refuses a launch whenever some mount or network
/// policy it requests is not enforced, and acknowledging that changes nothing.
pub proof fn law_fail_closed_launch(spec: LaunchSpec)
    requires
        spec.applied_policy is Some,
        spec.applied_policy->0.require_enforced_policy,
        unenforced_policy(spec.applied_policy->0),
    ensures
        launch_ack_issue(spec) == Some(WorkspaceIssue::LaunchPolicyNotEnforced),
        launch_ack_issue(LaunchSpec { user_acknowledged_unenforced_policy: true, ..spec })
            == Some(WorkspaceIssue::LaunchPolicyNotEnforced),
{
}

/// A launch under no policy, or under one that enforces all it requests, needs no
/// acknowledgement; one under a policy that enforces less needs one, unless the
/// policy fails closed.
pub proof fn law_launch_acknowledgement(spec: LaunchSpec)
    ensures
        (spec.applied_policy is None || !unenforced_policy(spec.applied_policy->0)) ==> launch_ack_issue(
            spec,
        ) is None,
        (spec.applied_policy is Some && unenforced_policy(spec.applied_policy->0)
            && !spec.applied_policy->0.require_enforced_policy) ==> (launch_ack_issue(spec) is None
            <==> spec.user_acknowledged_unenforced_policy),
{
}

} // verus!
