//! The resolution's laws, stated over the machine's contract.
//!
//! Each proof function quantifies over any step results that satisfy
//! `spec_step`, so it holds of every implementation-visible run of the
//! machine, not of chosen inputs.

use vstd::prelude::*;

use crate::config::spec_server_args;
use crate::config::spec_server_path;
use crate::json::JsonValue;
use crate::location::spec_is_selector;
use crate::location::spec_locate_ok;
use crate::location::spec_locate_text;
use crate::location::spec_url_parse_ok;
use crate::location::spec_url_text;
use crate::location::spec_urn_text;
use crate::notify::spec_install_failed_text;
use crate::notify::spec_installed_text;
use crate::notify::spec_tool_missing_text;
use crate::pipeline::spec_failed_with;
use crate::pipeline::spec_generic_failure;
use crate::pipeline::spec_launch_plan;
use crate::pipeline::spec_quiet;
use crate::pipeline::spec_step;
use crate::pipeline::Command;
use crate::pipeline::Event;
use crate::pipeline::Phase;
use crate::pipeline::StepResult;
use crate::pipeline::UriOrigin;
use crate::platform::spec_arch_of;
use crate::platform::spec_arch_supported;
use crate::platform::spec_os_of;
use crate::platform::spec_os_supported;
use crate::platform::PlatformInfo;

verus! {

/// A payload with a non-empty `lsp.serverPath` is absolute: the first step
/// ends the resolution at once — the platform and the installer are never
/// consulted — and when the override's URL text parses, the one command is a
/// launch whose URI text is the parse of `urn:` plus the override path, with
/// exactly the parsed arguments.
pub proof fn lemma_override_short_circuits(
    options: Option<JsonValue>,
    path: String,
    r: StepResult,
)
    requires
        spec_server_path(options) == Some(path),
        spec_step(Phase::Start, Event::Initialize { options }, r),
    ensures
        r.next is Launched || r.next is Failed,
        r.command matches Some(c) ==> c is Launch,
        spec_url_parse_ok(spec_urn_text(path@)) ==> (r.next is Launched && r.notice is None && (
        r.command matches Some(c) && c matches Command::Launch(l) && spec_launch_plan(
            l,
            UriOrigin::OverridePath { path },
            spec_server_args(options),
            options,
            spec_url_text(spec_urn_text(path@)),
        ))),
{
}

/// With `lsp.serverPath` absent or empty and an architecture reply outside
/// the supported set, the resolution ends silently: no launch, no notice,
/// no further work.
pub proof fn lemma_unsupported_arch_silent(
    options: Option<JsonValue>,
    value: Option<String>,
    r1: StepResult,
    r2: StepResult,
)
    requires
        spec_server_path(options) is None,
        spec_step(Phase::Start, Event::Initialize { options }, r1),
        !spec_arch_supported(spec_arch_of(value)),
        spec_step(r1.next, Event::ArchitectureReply { value }, r2),
    ensures
        r1.notice is None,
        r2.next is Done,
        spec_quiet(r2),
{
}

/// A failing tool check ends the resolution with exactly one error notice,
/// the one about the tool's absence, and no launch.
pub proof fn lemma_tool_missing_notifies(
    passthrough: Option<JsonValue>,
    platform: PlatformInfo,
    r: StepResult,
)
    requires
        spec_step(
            Phase::AwaitToolCheck { passthrough, platform },
            Event::ToolCheckDone { ok: false },
            r,
        ),
    ensures
        spec_failed_with(r, spec_tool_missing_text()),
{
}

/// A failing install ends the resolution with exactly one error notice, the
/// one about the failed install, and no launch.
pub proof fn lemma_install_failure_notifies(
    passthrough: Option<JsonValue>,
    platform: PlatformInfo,
    r: StepResult,
)
    requires
        spec_step(
            Phase::AwaitInstall { passthrough, platform },
            Event::InstallDone { ok: false },
            r,
        ),
    ensures
        spec_failed_with(r, spec_install_failed_text()),
{
}

/// After a successful install, exactly one info notice is emitted; then,
/// when the install-directory URL parses and the fixed segment resolves
/// against it, exactly one launch is owed, with the fixed selector, empty
/// arguments, and the resolved URL's text; otherwise the resolution ends in
/// the generic failure.
pub proof fn lemma_install_success_launches(
    passthrough: Option<JsonValue>,
    platform: PlatformInfo,
    base: String,
    r1: StepResult,
    r2: StepResult,
)
    requires
        spec_step(
            Phase::AwaitInstall { passthrough, platform },
            Event::InstallDone { ok: true },
            r1,
        ),
        spec_step(r1.next, Event::InstallDirReply { reply: Ok(base) }, r2),
    ensures
        r1.notice matches Some(n) && n.level is Info && n.text@ == spec_installed_text(),
        r1.command == Some(Command::QueryInstallDir),
        spec_locate_ok(base@, "emmet"@) ==> (r2.next is Launched && r2.notice is None && (
        r2.command matches Some(c) && c matches Command::Launch(l) && spec_launch_plan(
            l,
            UriOrigin::InstallDir { base },
            Seq::<String>::empty(),
            passthrough,
            spec_locate_text(base@, "emmet"@),
        ))),
        !spec_locate_ok(base@, "emmet"@) ==> spec_generic_failure(r2),
{
}

/// A finished resolution stays finished: once the machine is in a terminal
/// phase — launched, ended silently, or failed — no later event changes the
/// phase, emits a notice, or asks for more work. In particular no second
/// launch can ever be asked for within one resolution.
pub proof fn lemma_terminal_phases_absorb(phase: Phase, event: Event, r: StepResult)
    requires
        phase is Launched || phase is Done || phase is Failed,
        spec_step(phase, event, r),
    ensures
        r.next == phase,
        spec_quiet(r),
{
}

/// One complete no-override resolution on a supported platform with both
/// subprocess calls succeeding, as six steps of the machine.
pub open spec fn spec_successful_run(
    options: Option<JsonValue>,
    arch_reply: Option<String>,
    os_reply: Option<String>,
    dir_reply: String,
    s1: StepResult,
    s2: StepResult,
    s3: StepResult,
    s4: StepResult,
    s5: StepResult,
    s6: StepResult,
) -> bool {
    &&& spec_server_path(options) is None
    &&& spec_arch_supported(spec_arch_of(arch_reply))
    &&& spec_os_supported(spec_os_of(os_reply))
    &&& spec_step(Phase::Start, Event::Initialize { options }, s1)
    &&& spec_step(s1.next, Event::ArchitectureReply { value: arch_reply }, s2)
    &&& spec_step(s2.next, Event::OperatingSystemReply { value: os_reply }, s3)
    &&& spec_step(s3.next, Event::ToolCheckDone { ok: true }, s4)
    &&& spec_step(s4.next, Event::InstallDone { ok: true }, s5)
    &&& spec_step(s5.next, Event::InstallDirReply { reply: Ok(dir_reply) }, s6)
}

/// Running the full successful pipeline twice in sequence repeats every
/// decision: each run asks for its own tool check and its own install, and —
/// whenever the install directory's URL resolves the fixed segment — each
/// run's launch is owed anew. Nothing of "already installed" survives a
/// resolution: a step is a pure function of phase and event, and the second
/// run starts again from `Start`.
pub proof fn lemma_rerun_installs_again(
    options: Option<JsonValue>,
    arch_reply: Option<String>,
    os_reply: Option<String>,
    dir_reply: String,
    s1: StepResult,
    s2: StepResult,
    s3: StepResult,
    s4: StepResult,
    s5: StepResult,
    s6: StepResult,
    t1: StepResult,
    t2: StepResult,
    t3: StepResult,
    t4: StepResult,
    t5: StepResult,
    t6: StepResult,
)
    requires
        spec_successful_run(options, arch_reply, os_reply, dir_reply, s1, s2, s3, s4, s5, s6),
        spec_successful_run(options, arch_reply, os_reply, dir_reply, t1, t2, t3, t4, t5, t6),
    ensures
        s3.command == Some(Command::CheckTool) && t3.command == Some(Command::CheckTool),
        s4.command == Some(Command::InstallServer) && t4.command == Some(Command::InstallServer),
        s5.command == Some(Command::QueryInstallDir) && t5.command == Some(
            Command::QueryInstallDir,
        ),
        spec_locate_ok(dir_reply@, "emmet"@) ==> (s6.next is Launched && t6.next is Launched && (
        s6.command matches Some(c) && c is Launch) && (t6.command matches Some(c) && c is Launch)),
        !spec_locate_ok(dir_reply@, "emmet"@) ==> (spec_generic_failure(s6) && spec_generic_failure(
            t6,
        )),
{
}

} // verus!
