//! The controller of a handshake. It decides; the host does the work. Each
//! call returns the next thing to do, and the report on it is handed to
//! [`Controller::step`], until the one response is due.

use vstd::prelude::*;
use lsp_types::Url;
use serde_json::Value;
use crate::artifact::{ArtifactDescriptor, ServerProfile};
use crate::config::{Configuration, EnvironmentContext, PluginInfo};
use crate::failure::{ErrorKind, StructuredError};
use crate::fetch::accept_reply;
use crate::install::unpack;
use crate::launch::{ExecutableRef, LaunchDescriptor};
use crate::model::{
    spec_cache_uri, spec_handle_request, spec_initialize, spec_managed_step, spec_override_uri,
    spec_step, ControllerView, ManagedPlanView, ManagedStep, OverridePlanView, Phase, StateView,
    Verdict,
};
use crate::model;
use crate::platform::probe_program;
use crate::protocol::{Action, Event, HandshakeRequest, ResolutionOutcome, Response};
use crate::text::same_text;
use crate::trusted::{decode_initialize, join_url, parse_url};

verus! {

#[derive(Debug)]
struct OverridePlan {
    program: String,
    path: String,
    uri: Option<Url>,
    language_id: String,
    options: Option<Value>,
}

impl View for OverridePlan {
    type V = OverridePlanView;

    closed spec fn view(&self) -> OverridePlanView {
        OverridePlanView {
            program: self.program@,
            path: self.path@,
            uri: self.uri,
            language_id: self.language_id@,
            options: self.options,
        }
    }
}

#[derive(Debug)]
struct ManagedPlan {
    descriptor: ArtifactDescriptor,
    uri: Url,
    server_name: String,
    language_id: String,
    options: Option<Value>,
}

impl View for ManagedPlan {
    type V = ManagedPlanView;

    closed spec fn view(&self) -> ManagedPlanView {
        ManagedPlanView {
            descriptor: self.descriptor@,
            uri: self.uri,
            server_name: self.server_name@,
            language_id: self.language_id@,
            options: self.options,
        }
    }
}

#[derive(Debug)]
enum State {
    Probing(OverridePlan),
    Managed(ManagedPlan, ManagedStep),
    Done,
    Failed,
}

impl View for State {
    type V = StateView;

    closed spec fn view(&self) -> StateView {
        match self {
            State::Probing(plan) => StateView::Probing(plan@),
            State::Managed(plan, step) => StateView::Managed(plan@, *step),
            State::Done => StateView::Done,
            State::Failed => StateView::Failed,
        }
    }
}

/// The state of one handshake, from the request to the response. Taking the
/// request and building the response each happen within one call, so that a
/// controller is only ever seen resolving, fetching, installing, or at its
/// end.
#[derive(Debug)]
pub struct Controller {
    id: u64,
    state: State,
}

impl View for Controller {
    type V = ControllerView;

    closed spec fn view(&self) -> ControllerView {
        ControllerView { id: self.id, state: self.state@ }
    }
}

/// The URI under which the host knows an override path: the path behind the
/// scheme `urn`.
pub fn override_uri(path: &str) -> (r: Option<Url>)
    ensures
        r == spec_override_uri(path@),
{
    let mut text = String::from_str("urn:");
    text.append(path);
    parse_url(text.as_str())
}

/// The URI of the cached binary: its name resolved against the location of
/// the plugin.
pub fn cache_uri(plugin_uri: &Option<String>, name: &str) -> (r: Option<Url>)
    ensures
        r == spec_cache_uri(plugin_uri.deep_view(), name@),
{
    match plugin_uri {
        Some(location) => match parse_url(location.as_str()) {
            Some(base) => join_url(&base, name),
            None => None,
        },
        None => None,
    }
}

fn fail(id: u64, error: StructuredError) -> (r: (Controller, Action))
    ensures
        (r.0@, r.1@) == model::fail(id, error@),
{
    (
        Controller { id, state: State::Failed },
        Action::Respond(Response { id, outcome: ResolutionOutcome::Failure(error) }),
    )
}

fn launch(id: u64, executable: ExecutableRef, language_id: String, options: Option<Value>) -> (r: (
    Controller,
    Action,
))
    ensures
        (r.0@, r.1@) == model::launch(id, executable@, language_id@, options),
{
    let descriptor = LaunchDescriptor::new(executable, language_id, options);
    (
        Controller { id, state: State::Done },
        Action::Respond(Response { id, outcome: ResolutionOutcome::Launch(descriptor) }),
    )
}

fn proceed(id: u64, plan: ManagedPlan, step: ManagedStep, action: Action) -> (r: (
    Controller,
    Action,
))
    ensures
        (r.0@, r.1@) == model::proceed(id, plan@, step, action@),
{
    (Controller { id, state: State::Managed(plan, step) }, action)
}

fn remove_temp(id: u64, plan: ManagedPlan, verdict: Verdict) -> (r: (Controller, Action))
    ensures
        (r.0@, r.1@) == model::remove_temp(id, plan@, verdict),
{
    let path = String::from_str(plan.descriptor.temp_path());
    proceed(id, plan, ManagedStep::CleanTemp(verdict), Action::RemoveTemp { path })
}

fn remove_staging(id: u64, plan: ManagedPlan, verdict: Verdict) -> (r: (Controller, Action))
    ensures
        (r.0@, r.1@) == model::remove_staging(id, plan@, verdict),
{
    let path = String::from_str(plan.descriptor.staging_path());
    proceed(id, plan, ManagedStep::CleanStaging(verdict), Action::RemoveStaging { path })
}

fn promote(id: u64, plan: ManagedPlan) -> (r: (Controller, Action))
    ensures
        (r.0@, r.1@) == model::promote(id, plan@),
{
    let from = String::from_str(plan.descriptor.staging_path());
    let to = String::from_str(plan.descriptor.cache_path());
    proceed(id, plan, ManagedStep::Promote, Action::Promote { from, to })
}

fn conclude(id: u64, plan: ManagedPlan, verdict: Verdict) -> (r: (Controller, Action))
    ensures
        (r.0@, r.1@) == model::conclude(id, plan@, verdict),
{
    match verdict {
        Verdict::Installed => {
            let path = String::from_str(plan.descriptor.cache_path());
            let ManagedPlan { descriptor: _, uri, server_name: _, language_id, options } = plan;
            launch(id, ExecutableRef::Cached { path, uri }, language_id, options)
        },
        Verdict::Failed(kind) => fail(
            id,
            StructuredError::acquisition_failed(kind, plan.server_name.as_str()),
        ),
    }
}

fn managed_step(id: u64, plan: ManagedPlan, step: ManagedStep, event: Event) -> (r: (
    Controller,
    Action,
))
    ensures
        (r.0@, r.1@) == spec_managed_step(id, plan@, step, event@),
{
    match step {
        ManagedStep::CacheCheck => {
            if event.present() {
                conclude(id, plan, Verdict::Installed)
            } else {
                let url = String::from_str(plan.descriptor.url());
                proceed(id, plan, ManagedStep::Download, Action::Download { url })
            }
        },
        ManagedStep::Download => match accept_reply(event.into_reply()) {
            Ok(body) => {
                let path = String::from_str(plan.descriptor.temp_path());
                proceed(id, plan, ManagedStep::TempWrite, Action::WriteTemp { path, bytes: body })
            },
            Err(_) => remove_temp(id, plan, Verdict::Failed(ErrorKind::FetchFailed)),
        },
        ManagedStep::TempWrite => {
            if event.written() {
                let path = String::from_str(plan.descriptor.temp_path());
                proceed(id, plan, ManagedStep::TempRead, Action::ReadTemp { path })
            } else {
                remove_temp(id, plan, Verdict::Failed(ErrorKind::FetchFailed))
            }
        },
        ManagedStep::TempRead => match unpack(event.into_bytes()) {
            Ok(content) => {
                let path = String::from_str(plan.descriptor.staging_path());
                proceed(
                    id,
                    plan,
                    ManagedStep::StagingWrite,
                    Action::WriteStaging { path, bytes: content },
                )
            },
            Err(_) => remove_temp(id, plan, Verdict::Failed(ErrorKind::InstallFailed)),
        },
        ManagedStep::StagingWrite => {
            if !event.written() {
                remove_staging(id, plan, Verdict::Failed(ErrorKind::InstallFailed))
            } else if plan.descriptor.platform().os.needs_executable_bit() {
                let path = String::from_str(plan.descriptor.staging_path());
                proceed(id, plan, ManagedStep::Mark, Action::MarkExecutable { path })
            } else {
                promote(id, plan)
            }
        },
        ManagedStep::Mark => {
            if event.marked() {
                promote(id, plan)
            } else {
                remove_staging(id, plan, Verdict::Failed(ErrorKind::InstallFailed))
            }
        },
        ManagedStep::Promote => {
            if event.promoted() {
                remove_temp(id, plan, Verdict::Installed)
            } else {
                let path = String::from_str(plan.descriptor.cache_path());
                proceed(id, plan, ManagedStep::Recheck, Action::CheckCache { path })
            }
        },
        ManagedStep::Recheck => {
            if event.present() {
                remove_staging(id, plan, Verdict::Installed)
            } else {
                remove_staging(id, plan, Verdict::Failed(ErrorKind::InstallFailed))
            }
        },
        ManagedStep::CleanStaging(verdict) => remove_temp(id, plan, verdict),
        ManagedStep::CleanTemp(verdict) => conclude(id, plan, verdict),
    }
}

impl Controller {
    /// Starts on a configured server path: it is looked up, whatever became
    /// of its URI, which is kept for the launch.
    pub fn with_override(
        id: u64,
        program: String,
        path: String,
        uri: Option<Url>,
        language_id: String,
        options: Option<Value>,
    ) -> (r: (Controller, Action))
        ensures
            (r.0@, r.1@) == model::probe(
                id,
                OverridePlanView {
                    program: program@,
                    path: path@,
                    uri: uri,
                    language_id: language_id@,
                    options: options,
                },
            ),
    {
        let action = Action::Probe { program: program.clone(), path: path.clone() };
        let plan = OverridePlan { program, path, uri, language_id, options };
        (Controller { id, state: State::Probing(plan) }, action)
    }

    /// Starts on a binary the controller manages itself, given what became
    /// of the URI of its cache path: with a URI the cache is consulted,
    /// without one the environment is of no use.
    pub fn managed(
        id: u64,
        descriptor: ArtifactDescriptor,
        uri: Option<Url>,
        server_name: String,
        language_id: String,
        options: Option<Value>,
    ) -> (r: (Controller, Action))
        ensures
            (r.0@, r.1@) == (match uri {
                Some(u) => model::proceed(
                    id,
                    ManagedPlanView {
                        descriptor: descriptor@,
                        uri: u,
                        server_name: server_name@,
                        language_id: language_id@,
                        options,
                    },
                    ManagedStep::CacheCheck,
                    crate::protocol::ActionView::CheckCache { path: descriptor@.cache_path },
                ),
                None => model::fail(id, crate::failure::spec_unsupported_platform()),
            }),
    {
        match uri {
            Some(u) => {
                let path = String::from_str(descriptor.cache_path());
                let plan = ManagedPlan { descriptor, uri: u, server_name, language_id, options };
                proceed(id, plan, ManagedStep::CacheCheck, Action::CheckCache { path })
            },
            None => fail(id, StructuredError::unsupported_platform()),
        }
    }

    /// Starts the resolution for a decoded handshake and says what to do
    /// first.
    pub fn initialize(
        profile: &ServerProfile,
        info: PluginInfo,
        plugin_uri: &Option<String>,
        id: u64,
    ) -> (r: (Controller, Action))
        ensures
            (r.0@, r.1@) == spec_initialize(profile@, info@, plugin_uri.deep_view(), id),
    {
        let server_path = info.configuration().server_path();
        let platform = info.platform();
        let (_, os, configuration) = info.into_parts();
        let (language_id, options) = configuration.into_parts();
        match server_path {
            Some(path) => {
                let uri = override_uri(path.as_str());
                let program = String::from_str(probe_program(os.as_str()));
                Controller::with_override(id, program, path, uri, language_id, options)
            },
            None => match platform {
                Ok(key) => {
                    let descriptor = ArtifactDescriptor::describe(profile, key);
                    let uri = cache_uri(plugin_uri, descriptor.name());
                    let server_name = String::from_str(profile.server_name());
                    Controller::managed(id, descriptor, uri, server_name, language_id, options)
                },
                Err(_) => fail(id, StructuredError::unsupported_platform()),
            },
        }
    }

    /// Takes a request of the host. Anything but `initialize` is refused,
    /// and so is a payload that does not decode; else the resolution starts.
    /// Whatever comes of it, the request will be answered once, under its id.
    pub fn handle_request(
        profile: &ServerProfile,
        env: &EnvironmentContext,
        request: HandshakeRequest,
    ) -> (r: (Controller, Action))
        ensures
            (r.0@, r.1@) == spec_handle_request(profile@, env@, request@),
    {
        let HandshakeRequest { id, method, params } = request;
        if !same_text(method.as_str(), "initialize") {
            return fail(id, StructuredError::unsupported_method(method.as_str()));
        }
        match decode_initialize(params) {
            Ok(options) => {
                let language_id = String::from_str(profile.language_id());
                let configuration = Configuration::new(language_id, options);
                let info = PluginInfo::from_environment(env, configuration);
                Controller::initialize(profile, info, &env.plugin_uri, id)
            },
            Err(_) => fail(id, StructuredError::malformed_request()),
        }
    }

    /// Takes the report on the work that was asked for last and says what to
    /// do next.
    pub fn step(self, event: Event) -> (r: (Controller, Action))
        ensures
            (r.0@, r.1@) == spec_step(self@, event@),
    {
        let Controller { id, state } = self;
        match state {
            State::Probing(plan) => {
                if event.found() {
                    let OverridePlan { program: _, path, uri, language_id, options } = plan;
                    launch(id, ExecutableRef::Override { path, urn: uri }, language_id, options)
                } else {
                    fail(id, StructuredError::server_path_not_found(plan.path.as_str()))
                }
            },
            State::Managed(plan, step) => managed_step(id, plan, step, event),
            State::Done => (Controller { id, state: State::Done }, Action::Idle),
            State::Failed => (Controller { id, state: State::Failed }, Action::Idle),
        }
    }

    /// The id of the request this handshake answers.
    pub fn id(&self) -> (r: u64)
        ensures
            r == self@.id,
    {
        self.id
    }

    pub fn phase(&self) -> (r: Phase)
        ensures
            r == self@.state.phase(),
    {
        match &self.state {
            State::Probing(_) => Phase::Resolving,
            State::Managed(_, step) => match step {
                ManagedStep::CacheCheck => Phase::Resolving,
                ManagedStep::Download | ManagedStep::TempWrite => Phase::Fetching,
                ManagedStep::CleanTemp(Verdict::Failed(ErrorKind::FetchFailed)) => Phase::Fetching,
                _ => Phase::Installing,
            },
            State::Done => Phase::Done,
            State::Failed => Phase::Failed,
        }
    }

    /// Whether the response has been handed out.
    pub fn is_terminal(&self) -> (r: bool)
        ensures
            r == self@.state.terminal(),
    {
        match &self.state {
            State::Done | State::Failed => true,
            _ => false,
        }
    }
}

} // verus!
