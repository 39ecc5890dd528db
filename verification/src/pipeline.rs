//! The resolution pipeline, as one state machine.
//!
//! The host delivers one initialization event; the machine decides, step by
//! step, what outside work the host must do next (query the platform, run the
//! package-manager tool, query the install directory, launch the server) and
//! what to show the user. Each step is a pure function of the current phase
//! and the event the host hands back, so the machine holds no state across
//! resolutions: a second run repeats every check and install attempt.
//!
//! Terminal phases: `Launched` (the server was handed to the host exactly
//! once), `Done` (ended silently, the platform is unsupported), `Failed`
//! (ended after an error notice).

use vstd::prelude::*;

use crate::config::resolve_override;
use crate::config::spec_server_args;
use crate::config::spec_server_path;
use crate::json::JsonValue;
use crate::location::document_selector;
use crate::location::spec_is_selector;
use crate::location::parse_and_join;
use crate::location::spec_locate_ok;
use crate::location::spec_locate_text;
use crate::location::spec_url_parse_ok;
use crate::location::spec_url_text;
use crate::location::spec_urn_text;
use crate::location::url_parse;
use crate::location::urn_text;
use crate::location::with_exe_suffix;
use crate::location::DocFilter;
use crate::notify::failure_notice;
use crate::notify::install_failed_notice;
use crate::notify::installed_notice;
use crate::notify::spec_failure_prefix;
use crate::notify::spec_failure_text;
use crate::notify::spec_install_failed_text;
use crate::notify::spec_installed_text;
use crate::notify::spec_tool_missing_text;
use crate::notify::tool_missing_notice;
use crate::notify::Notice;
use crate::platform::arch_of;
use crate::platform::os_of;
use crate::platform::spec_arch_of;
use crate::platform::spec_arch_supported;
use crate::platform::spec_os_of;
use crate::platform::spec_os_supported;
use crate::platform::Arch;
use crate::platform::PlatformInfo;

verus! {

/// Where the launch location came from: the user's override path, or the
/// fixed segment joined onto the plugin's install-directory URL.
pub enum UriOrigin {
    OverridePath { path: String },
    InstallDir { base: String },
}

/// Everything the host needs to start the server once.
pub struct LaunchPlan {
    pub uri: url::Url,
    pub uri_text: String,
    pub origin: UriOrigin,
    pub args: Vec<String>,
    pub selector: Vec<DocFilter>,
    pub passthrough: Option<JsonValue>,
}

/// Outside work the host must perform for the machine.
pub enum Command {
    QueryArchitecture,
    QueryOperatingSystem,
    CheckTool,
    InstallServer,
    QueryInstallDir,
    Launch(LaunchPlan),
}

/// Where one resolution stands.
pub enum Phase {
    Start,
    AwaitArchitecture { passthrough: Option<JsonValue> },
    AwaitOperatingSystem { passthrough: Option<JsonValue>, arch: Arch },
    AwaitToolCheck { passthrough: Option<JsonValue>, platform: PlatformInfo },
    AwaitInstall { passthrough: Option<JsonValue>, platform: PlatformInfo },
    AwaitInstallDir { passthrough: Option<JsonValue>, platform: PlatformInfo },
    Launched,
    Done,
    Failed,
}

/// What the host hands back to the machine.
pub enum Event {
    Initialize { options: Option<JsonValue> },
    ArchitectureReply { value: Option<String> },
    OperatingSystemReply { value: Option<String> },
    ToolCheckDone { ok: bool },
    InstallDone { ok: bool },
    InstallDirReply { reply: Result<String, String> },
}

/// One step's outcome: the next phase, at most one notice for the user, and
/// at most one piece of outside work for the host.
pub struct StepResult {
    pub next: Phase,
    pub notice: Option<Notice>,
    pub command: Option<Command>,
}

/// A step that neither notifies nor asks for outside work.
pub open spec fn spec_quiet(r: StepResult) -> bool {
    r.notice is None && r.command is None
}

/// A step that ends the resolution with exactly the given error notice.
pub open spec fn spec_failed_with(r: StepResult, text: Seq<char>) -> bool {
    &&& r.next is Failed
    &&& r.command is None
    &&& r.notice matches Some(n) && n.level is Error && n.text@ == text
}

/// A step that ends the resolution with the generic error wrapper around
/// some failure description.
pub open spec fn spec_generic_failure(r: StepResult) -> bool {
    &&& r.next is Failed
    &&& r.command is None
    &&& r.notice matches Some(n) && n.level is Error && spec_failure_prefix().is_prefix_of(n.text@)
}

/// A launch plan carries the given origin, arguments and passthrough, the
/// fixed document selector, and a URI whose serialized text is the given one.
pub open spec fn spec_launch_plan(
    l: LaunchPlan,
    origin: UriOrigin,
    args: Seq<String>,
    passthrough: Option<JsonValue>,
    uri_text: Seq<char>,
) -> bool {
    &&& l.origin == origin
    &&& l.uri_text@ == uri_text
    &&& l.args@ == args
    &&& spec_is_selector(l.selector@)
    &&& l.passthrough == passthrough
}

/// The first step: the override gate. A non-empty `lsp.serverPath` launches
/// at once (or fails on a malformed URL text) without consulting the
/// platform or the installer; otherwise the platform gate begins.
pub open spec fn spec_step_start(options: Option<JsonValue>, r: StepResult) -> bool {
    match spec_server_path(options) {
        Some(path) => if spec_url_parse_ok(spec_urn_text(path@)) {
            &&& r.next is Launched
            &&& r.notice is None
            &&& r.command matches Some(c) && c matches Command::Launch(l) && spec_launch_plan(
                l,
                UriOrigin::OverridePath { path },
                spec_server_args(options),
                options,
                spec_url_text(spec_urn_text(path@)),
            )
        } else {
            spec_generic_failure(r)
        },
        None => {
            &&& r.next == Phase::AwaitArchitecture { passthrough: options }
            &&& r.notice is None
            &&& r.command == Some(Command::QueryArchitecture)
        },
    }
}

/// The last step: the location builder. When the plugin's install-directory
/// URL parses and the fixed `emmet` segment resolves against it — both a
/// function of the reply's text, settled by `spec_locate_ok` — the launch is
/// owed, with no arguments and the resolved URL's text; otherwise the
/// resolution ends in the generic failure.
pub open spec fn spec_step_install_dir(
    passthrough: Option<JsonValue>,
    reply: Result<String, String>,
    r: StepResult,
) -> bool {
    match reply {
        Ok(base) => if spec_locate_ok(base@, "emmet"@) {
            &&& r.next is Launched
            &&& r.notice is None
            &&& r.command matches Some(c) && c matches Command::Launch(l) && spec_launch_plan(
                l,
                UriOrigin::InstallDir { base },
                Seq::<String>::empty(),
                passthrough,
                spec_locate_text(base@, "emmet"@),
            )
        } else {
            spec_generic_failure(r)
        },
        Err(description) => spec_failed_with(r, spec_failure_text(description@)),
    }
}

/// The whole machine, one transition per phase/event pair. An event a phase
/// does not expect (a terminal phase included) changes nothing.
pub open spec fn spec_step(phase: Phase, event: Event, r: StepResult) -> bool {
    match (phase, event) {
        (Phase::Start, Event::Initialize { options }) => spec_step_start(options, r),
        (
            Phase::AwaitArchitecture { passthrough },
            Event::ArchitectureReply { value },
        ) => if spec_arch_supported(spec_arch_of(value)) {
            &&& r.next == Phase::AwaitOperatingSystem { passthrough, arch: spec_arch_of(value) }
            &&& r.notice is None
            &&& r.command == Some(Command::QueryOperatingSystem)
        } else {
            r.next is Done && spec_quiet(r)
        },
        (
            Phase::AwaitOperatingSystem { passthrough, arch },
            Event::OperatingSystemReply { value },
        ) => if spec_os_supported(spec_os_of(value)) {
            &&& r.next == Phase::AwaitToolCheck {
                passthrough,
                platform: PlatformInfo { arch, os: spec_os_of(value) },
            }
            &&& r.notice is None
            &&& r.command == Some(Command::CheckTool)
        } else {
            r.next is Done && spec_quiet(r)
        },
        (Phase::AwaitToolCheck { passthrough, platform }, Event::ToolCheckDone { ok }) => if ok {
            &&& r.next == Phase::AwaitInstall { passthrough, platform }
            &&& r.notice is None
            &&& r.command == Some(Command::InstallServer)
        } else {
            spec_failed_with(r, spec_tool_missing_text())
        },
        (Phase::AwaitInstall { passthrough, platform }, Event::InstallDone { ok }) => if ok {
            &&& r.next == Phase::AwaitInstallDir { passthrough, platform }
            &&& r.notice matches Some(n) && n.level is Info && n.text@ == spec_installed_text()
            &&& r.command == Some(Command::QueryInstallDir)
        } else {
            spec_failed_with(r, spec_install_failed_text())
        },
        (
            Phase::AwaitInstallDir { passthrough, platform },
            Event::InstallDirReply { reply },
        ) => spec_step_install_dir(passthrough, reply, r),
        (p, _) => r.next == p && spec_quiet(r),
    }
}

/// Run one step of the resolution.
pub fn step(phase: Phase, event: Event) -> (r: StepResult)
    ensures
        spec_step(phase, event, r),
{
    match (phase, event) {
        (Phase::Start, Event::Initialize { options }) => {
            match resolve_override(&options) {
                Some(ov) => {
                    let text = urn_text(ov.path.as_str());
                    match url_parse(text.as_str()) {
                        Ok(parsed) => StepResult {
                            next: Phase::Launched,
                            notice: None,
                            command: Some(
                                Command::Launch(
                                    LaunchPlan {
                                        uri: parsed.0,
                                        uri_text: parsed.1,
                                        origin: UriOrigin::OverridePath { path: ov.path },
                                        args: ov.args,
                                        selector: document_selector(),
                                        passthrough: options,
                                    },
                                ),
                            ),
                        },
                        Err(description) => StepResult {
                            next: Phase::Failed,
                            notice: Some(failure_notice(description.as_str())),
                            command: None,
                        },
                    }
                },
                None => StepResult {
                    next: Phase::AwaitArchitecture { passthrough: options },
                    notice: None,
                    command: Some(Command::QueryArchitecture),
                },
            }
        },
        (Phase::AwaitArchitecture { passthrough }, Event::ArchitectureReply { value }) => {
            let arch = arch_of(&value);
            match arch {
                Arch::Other => StepResult { next: Phase::Done, notice: None, command: None },
                _ => StepResult {
                    next: Phase::AwaitOperatingSystem { passthrough, arch },
                    notice: None,
                    command: Some(Command::QueryOperatingSystem),
                },
            }
        },
        (
            Phase::AwaitOperatingSystem { passthrough, arch },
            Event::OperatingSystemReply { value },
        ) => {
            let os = os_of(&value);
            match os {
                crate::platform::Os::Other => StepResult {
                    next: Phase::Done,
                    notice: None,
                    command: None,
                },
                _ => StepResult {
                    next: Phase::AwaitToolCheck {
                        passthrough,
                        platform: PlatformInfo { arch, os },
                    },
                    notice: None,
                    command: Some(Command::CheckTool),
                },
            }
        },
        (Phase::AwaitToolCheck { passthrough, platform }, Event::ToolCheckDone { ok }) => {
            if ok {
                StepResult {
                    next: Phase::AwaitInstall { passthrough, platform },
                    notice: None,
                    command: Some(Command::InstallServer),
                }
            } else {
                StepResult {
                    next: Phase::Failed,
                    notice: Some(tool_missing_notice()),
                    command: None,
                }
            }
        },
        (Phase::AwaitInstall { passthrough, platform }, Event::InstallDone { ok }) => {
            if ok {
                StepResult {
                    next: Phase::AwaitInstallDir { passthrough, platform },
                    notice: Some(installed_notice()),
                    command: Some(Command::QueryInstallDir),
                }
            } else {
                StepResult {
                    next: Phase::Failed,
                    notice: Some(install_failed_notice()),
                    command: None,
                }
            }
        },
        (Phase::AwaitInstallDir { passthrough, platform }, Event::InstallDirReply { reply }) => {
            // The suffixed name is computed for parity with the platform
            // rule, but as the resolution stands it is never applied to the
            // joined location; changing that would alter observed behaviour.
            let _suffixed: String = with_exe_suffix("emmet", platform.os);
            match reply {
                Ok(base) => match parse_and_join(base.as_str(), "emmet") {
                    Ok(located) => StepResult {
                        next: Phase::Launched,
                        notice: None,
                        command: Some(
                            Command::Launch(
                                LaunchPlan {
                                    uri: located.0,
                                    uri_text: located.1,
                                    origin: UriOrigin::InstallDir { base },
                                    args: Vec::new(),
                                    selector: document_selector(),
                                    passthrough,
                                },
                            ),
                        ),
                    },
                    Err(description) => StepResult {
                        next: Phase::Failed,
                        notice: Some(failure_notice(description.as_str())),
                        command: None,
                    },
                },
                Err(description) => StepResult {
                    next: Phase::Failed,
                    notice: Some(failure_notice(description.as_str())),
                    command: None,
                },
            }
        },
        (p, _) => StepResult { next: p, notice: None, command: None },
    }
}

/// Whether an inbound request is the one event kind the plugin answers.
pub fn is_initialize_method(method: &str) -> (r: bool)
    ensures
        r == (method@ == "initialize"@),
{
    method.to_owned() == "initialize".to_owned()
}

} // verus!
