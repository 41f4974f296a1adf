//! The handshake as a state machine over mathematical values. The
//! controller computes exactly these functions; the laws are proved of them.

use vstd::prelude::*;
use lsp_types::Url;
use serde_json::Value;
use crate::artifact::{spec_describe, ArtifactDescriptorView, ServerProfileView};
use crate::config::{spec_raw, ConfigurationView, EnvironmentContextView, PluginInfoView};
use crate::failure::{
    spec_acquisition_failed, spec_malformed_request, spec_server_path_not_found,
    spec_unsupported_method, spec_unsupported_platform, ErrorKind, StructuredErrorView,
};
use crate::fetch::spec_accept_reply;
use crate::install::spec_unpack;
use crate::launch::{spec_launch, ExecutableRefView};
use crate::platform::{spec_probe_program, spec_resolve};
use crate::protocol::{
    ActionView, EventView, HandshakeRequestView, ResolutionOutcomeView, ResponseView,
};
use crate::trusted::{initialization_options, url_join, url_parse};

verus! {

/// How an acquisition ended, kept while what it left behind is removed.
#[derive(Clone, Copy, Debug, PartialEq, Eq, Structural)]
pub enum Verdict {
    Installed,
    Failed(ErrorKind),
}

/// Where the controller stands when it manages the binary itself. Each step
/// but the last waits for the report on one piece of work.
#[derive(Clone, Copy, Debug, PartialEq, Eq, Structural)]
pub enum ManagedStep {
    /// Is the binary in the cache?
    CacheCheck,
    /// The GET of the release asset.
    Download,
    /// Writing the download.
    TempWrite,
    /// Reading the download back.
    TempRead,
    /// Writing the unpacked binary beside the cache path.
    StagingWrite,
    /// Marking it executable.
    Mark,
    /// Moving it onto the cache path.
    Promote,
    /// The move failed: did another installer put the binary there?
    Recheck,
    /// Removing what is left of the unpacked binary.
    CleanStaging(Verdict),
    /// Removing the download.
    CleanTemp(Verdict),
}

/// The phases of a handshake. A request is received and a response is built
/// within one call, so a controller at rest is in one of these.
#[derive(Clone, Copy, Debug, PartialEq, Eq, Structural)]
pub enum Phase {
    Resolving,
    Fetching,
    Installing,
    Done,
    Failed,
}

/// What is settled once an override path is to be looked up. The URI is the
/// one formed from the path, if one can be.
pub struct OverridePlanView {
    pub program: Seq<char>,
    pub path: Seq<char>,
    pub uri: Option<Url>,
    pub language_id: Seq<char>,
    pub options: Option<Value>,
}

/// What is settled once the controller manages the binary itself.
pub struct ManagedPlanView {
    pub descriptor: ArtifactDescriptorView,
    pub uri: Url,
    pub server_name: Seq<char>,
    pub language_id: Seq<char>,
    pub options: Option<Value>,
}

pub enum StateView {
    Probing(OverridePlanView),
    Managed(ManagedPlanView, ManagedStep),
    Done,
    Failed,
}

pub struct ControllerView {
    pub id: u64,
    pub state: StateView,
}

impl ManagedStep {
    pub open spec fn spec_phase(self) -> Phase {
        match self {
            ManagedStep::CacheCheck => Phase::Resolving,
            ManagedStep::Download | ManagedStep::TempWrite => Phase::Fetching,
            ManagedStep::CleanTemp(Verdict::Failed(ErrorKind::FetchFailed)) => Phase::Fetching,
            _ => Phase::Installing,
        }
    }
}

impl StateView {
    pub open spec fn phase(self) -> Phase {
        match self {
            StateView::Probing(_) => Phase::Resolving,
            StateView::Managed(_, step) => step.spec_phase(),
            StateView::Done => Phase::Done,
            StateView::Failed => Phase::Failed,
        }
    }

    pub open spec fn terminal(self) -> bool {
        self is Done || self is Failed
    }
}

/// The URI under which the host knows an override path.
pub open spec fn spec_override_uri(path: Seq<char>) -> Option<Url> {
    url_parse("urn:"@ + path)
}

/// The URI of the cached binary: its name resolved against the location of
/// the plugin, where that location is known and is a URL.
pub open spec fn spec_cache_uri(plugin_uri: Option<Seq<char>>, name: Seq<char>) -> Option<Url> {
    match plugin_uri {
        Some(location) => match url_parse(location) {
            Some(base) => url_join(base, name),
            None => None,
        },
        None => None,
    }
}

pub open spec fn respond(id: u64, outcome: ResolutionOutcomeView) -> ActionView {
    ActionView::Respond(ResponseView { id, outcome })
}

/// Ends the handshake with a failure.
pub open spec fn fail(id: u64, error: StructuredErrorView) -> (ControllerView, ActionView) {
    (
        ControllerView { id, state: StateView::Failed },
        respond(id, ResolutionOutcomeView::Failure(error)),
    )
}

/// Ends the handshake with a server to launch.
pub open spec fn launch(
    id: u64,
    executable: ExecutableRefView,
    language_id: Seq<char>,
    options: Option<Value>,
) -> (ControllerView, ActionView) {
    (
        ControllerView { id, state: StateView::Done },
        respond(id, ResolutionOutcomeView::Launch(spec_launch(executable, language_id, options))),
    )
}

/// Asks for the lookup of a configured path.
pub open spec fn probe(id: u64, plan: OverridePlanView) -> (ControllerView, ActionView) {
    (
        ControllerView { id, state: StateView::Probing(plan) },
        ActionView::Probe { program: plan.program, path: plan.path },
    )
}

/// Goes on to the next step of a managed acquisition.
pub open spec fn proceed(id: u64, plan: ManagedPlanView, step: ManagedStep, action: ActionView) -> (
    ControllerView,
    ActionView,
) {
    (ControllerView { id, state: StateView::Managed(plan, step) }, action)
}

pub open spec fn remove_temp(id: u64, plan: ManagedPlanView, verdict: Verdict) -> (
    ControllerView,
    ActionView,
) {
    proceed(
        id,
        plan,
        ManagedStep::CleanTemp(verdict),
        ActionView::RemoveTemp { path: plan.descriptor.temp_path },
    )
}

pub open spec fn remove_staging(id: u64, plan: ManagedPlanView, verdict: Verdict) -> (
    ControllerView,
    ActionView,
) {
    proceed(
        id,
        plan,
        ManagedStep::CleanStaging(verdict),
        ActionView::RemoveStaging { path: plan.descriptor.staging_path },
    )
}

pub open spec fn promote(id: u64, plan: ManagedPlanView) -> (ControllerView, ActionView) {
    proceed(
        id,
        plan,
        ManagedStep::Promote,
        ActionView::Promote { from: plan.descriptor.staging_path, to: plan.descriptor.cache_path },
    )
}

/// The response once an acquisition is over and what it left is removed.
pub open spec fn conclude(id: u64, plan: ManagedPlanView, verdict: Verdict) -> (
    ControllerView,
    ActionView,
) {
    match verdict {
        Verdict::Installed => launch(
            id,
            ExecutableRefView::Cached { path: plan.descriptor.cache_path, uri: plan.uri },
            plan.language_id,
            plan.options,
        ),
        Verdict::Failed(kind) => fail(id, spec_acquisition_failed(kind, plan.server_name)),
    }
}

/// One step of a managed acquisition on the report `event`.
pub open spec fn spec_managed_step(
    id: u64,
    plan: ManagedPlanView,
    step: ManagedStep,
    event: EventView,
) -> (ControllerView, ActionView) {
    let d = plan.descriptor;
    match step {
        ManagedStep::CacheCheck => {
            if event.present() {
                conclude(id, plan, Verdict::Installed)
            } else {
                proceed(id, plan, ManagedStep::Download, ActionView::Download { url: d.url })
            }
        },
        ManagedStep::Download => match spec_accept_reply(event.reply()) {
            Ok(body) => proceed(
                id,
                plan,
                ManagedStep::TempWrite,
                ActionView::WriteTemp { path: d.temp_path, bytes: body },
            ),
            Err(_) => remove_temp(id, plan, Verdict::Failed(ErrorKind::FetchFailed)),
        },
        ManagedStep::TempWrite => {
            if event.written() {
                proceed(id, plan, ManagedStep::TempRead, ActionView::ReadTemp { path: d.temp_path })
            } else {
                remove_temp(id, plan, Verdict::Failed(ErrorKind::FetchFailed))
            }
        },
        ManagedStep::TempRead => match spec_unpack(event.bytes()) {
            Ok(content) => proceed(
                id,
                plan,
                ManagedStep::StagingWrite,
                ActionView::WriteStaging { path: d.staging_path, bytes: content },
            ),
            Err(_) => remove_temp(id, plan, Verdict::Failed(ErrorKind::InstallFailed)),
        },
        ManagedStep::StagingWrite => {
            if !event.written() {
                remove_staging(id, plan, Verdict::Failed(ErrorKind::InstallFailed))
            } else if d.platform.os.spec_needs_executable_bit() {
                proceed(
                    id,
                    plan,
                    ManagedStep::Mark,
                    ActionView::MarkExecutable { path: d.staging_path },
                )
            } else {
                promote(id, plan)
            }
        },
        ManagedStep::Mark => {
            if event.marked() {
                promote(id, plan)
            } else {
                remove_staging(id, plan, Verdict::Failed(ErrorKind::InstallFailed))
            }
        },
        ManagedStep::Promote => {
            if event.promoted() {
                remove_temp(id, plan, Verdict::Installed)
            } else {
                proceed(
                    id,
                    plan,
                    ManagedStep::Recheck,
                    ActionView::CheckCache { path: d.cache_path },
                )
            }
        },
        ManagedStep::Recheck => {
            if event.present() {
                remove_staging(id, plan, Verdict::Installed)
            } else {
                remove_staging(id, plan, Verdict::Failed(ErrorKind::InstallFailed))
            }
        },
        ManagedStep::CleanStaging(verdict) => remove_temp(id, plan, verdict),
        ManagedStep::CleanTemp(verdict) => conclude(id, plan, verdict),
    }
}

/// One step of the controller on the report `event`. A report that does not
/// answer the work that was asked for counts as the failure of that work.
/// Once the handshake is over, nothing happens any more.
pub open spec fn spec_step(c: ControllerView, event: EventView) -> (ControllerView, ActionView) {
    match c.state {
        StateView::Probing(plan) => {
            if event.found() {
                launch(
                    c.id,
                    ExecutableRefView::Override { path: plan.path, urn: plan.uri },
                    plan.language_id,
                    plan.options,
                )
            } else {
                fail(c.id, spec_server_path_not_found(plan.path))
            }
        },
        StateView::Managed(plan, step) => spec_managed_step(c.id, plan, step, event),
        StateView::Done => (c, ActionView::Idle),
        StateView::Failed => (c, ActionView::Idle),
    }
}

/// The start of a resolution. A configured server path comes first, on any
/// platform: it is looked up, whatever it is, and nothing is fetched. Without
/// one the platform must be one a binary is published for and the location
/// of the plugin must be known; then the cache is consulted. Nothing has
/// touched the file system or the network when this fails.
pub open spec fn spec_initialize(
    profile: ServerProfileView,
    info: PluginInfoView,
    plugin_uri: Option<Seq<char>>,
    id: u64,
) -> (ControllerView, ActionView) {
    let language_id = info.configuration.language_id;
    let options = info.configuration.options;
    match info.configuration.server_path() {
        Some(path) => probe(
            id,
            OverridePlanView {
                program: spec_probe_program(info.os),
                path,
                uri: spec_override_uri(path),
                language_id,
                options,
            },
        ),
        None => match spec_resolve(info.arch, info.os) {
            Ok(key) => {
                let descriptor = spec_describe(profile, key);
                match spec_cache_uri(plugin_uri, descriptor.name) {
                    Some(uri) => proceed(
                        id,
                        ManagedPlanView {
                            descriptor,
                            uri,
                            server_name: profile.server_name,
                            language_id,
                            options,
                        },
                        ManagedStep::CacheCheck,
                        ActionView::CheckCache { path: descriptor.cache_path },
                    ),
                    None => fail(id, spec_unsupported_platform()),
                }
            },
            Err(_) => fail(id, spec_unsupported_platform()),
        },
    }
}

/// What a request of the host leads to. Only `initialize` is answered with
/// a resolution; its payload must decode.
pub open spec fn spec_handle_request(
    profile: ServerProfileView,
    env: EnvironmentContextView,
    request: HandshakeRequestView,
) -> (ControllerView, ActionView) {
    if request.method != "initialize"@ {
        fail(request.id, spec_unsupported_method(request.method))
    } else {
        match initialization_options(request.params) {
            Some(options) => spec_initialize(
                profile,
                PluginInfoView {
                    arch: spec_raw(env.architecture),
                    os: spec_raw(env.operating_system),
                    configuration: ConfigurationView { language_id: profile.language_id, options },
                },
                env.plugin_uri,
                request.id,
            ),
            None => fail(request.id, spec_malformed_request()),
        }
    }
}

} // verus!
