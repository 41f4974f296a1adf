//! What holds of every handshake, proved of the model that the controller
//! computes and of the host as `disk` describes it.

use vstd::prelude::*;
use crate::artifact::{spec_describe, ArtifactDescriptorView, ServerProfileView};
use crate::config::{EnvironmentContextView, PluginInfoView};
use crate::disk::{advance, performs, run, start, valid, Disk, Execution, Report};
use crate::failure::{
    spec_acquisition_failed, spec_server_path_not_found, spec_unsupported_platform, ErrorKind,
    StructuredErrorView,
};
use crate::launch::{spec_launch, ExecutableRefView};
use crate::locator::{spec_locate, DecisionView, HostFacts};
use crate::model::{
    fail, probe, spec_cache_uri, spec_handle_request, spec_initialize, spec_override_uri,
    spec_step, ControllerView, ManagedPlanView, ManagedStep, OverridePlanView, StateView,
    Verdict,
};
use crate::platform::{spec_probe_program, spec_resolve, PlatformKey};
use crate::protocol::{
    ActionView, EventView, HandshakeRequestView, ResolutionOutcomeView, ResponseView,
};

verus! {

/// The handshake on a request as it stands after the host has given the
/// reports, begun on `disk`.
pub open spec fn handshake(
    profile: ServerProfileView,
    env: EnvironmentContextView,
    request: HandshakeRequestView,
    disk: Disk,
    reports: Seq<Report>,
) -> Execution {
    run(start(spec_handle_request(profile, env, request), disk), reports)
}

/// Whether the reports are ones the host may give, one after the other, in
/// the handshake on a request begun on `disk`.
pub open spec fn plausible(
    profile: ServerProfileView,
    env: EnvironmentContextView,
    request: HandshakeRequestView,
    disk: Disk,
    reports: Seq<Report>,
) -> bool {
    valid(start(spec_handle_request(profile, env, request), disk), reports)
}

/// The response that launches a configured server path.
pub open spec fn override_launch(id: u64, plan: OverridePlanView) -> ResponseView {
    ResponseView {
        id,
        outcome: ResolutionOutcomeView::Launch(
            spec_launch(
                ExecutableRefView::Override { path: plan.path, urn: plan.uri },
                plan.language_id,
                plan.options,
            ),
        ),
    }
}

/// The response that reports a configured server path as not found.
pub open spec fn override_failure(id: u64, plan: OverridePlanView) -> ResponseView {
    ResponseView {
        id,
        outcome: ResolutionOutcomeView::Failure(spec_server_path_not_found(plan.path)),
    }
}

/// The response that launches the cached binary of a plan.
pub open spec fn cached_launch(id: u64, plan: ManagedPlanView) -> ResponseView {
    ResponseView {
        id,
        outcome: ResolutionOutcomeView::Launch(
            spec_launch(
                ExecutableRefView::Cached { path: plan.descriptor.cache_path, uri: plan.uri },
                plan.language_id,
                plan.options,
            ),
        ),
    }
}

/// The response that reports a failed acquisition.
pub open spec fn acquisition_failure(
    id: u64,
    plan: ManagedPlanView,
    kind: ErrorKind,
) -> ResponseView {
    ResponseView {
        id,
        outcome: ResolutionOutcomeView::Failure(spec_acquisition_failed(kind, plan.server_name)),
    }
}

/// Whether the platform of a plan asks for binaries to be marked executable.
pub open spec fn needs_mark(plan: ManagedPlanView) -> bool {
    plan.descriptor.platform.os.spec_needs_executable_bit()
}

/// Whether a handshake that begins as `first` manages a binary that has to
/// be marked executable.
pub open spec fn marked_binary(first: (ControllerView, ActionView)) -> bool {
    first.0.state matches StateView::Managed(plan, _) && needs_mark(plan)
}

/// Whether the handshake on a request manages a binary that has to be
/// marked executable.
pub open spec fn manages_marked_binary(
    profile: ServerProfileView,
    env: EnvironmentContextView,
    request: HandshakeRequestView,
) -> bool {
    marked_binary(spec_handle_request(profile, env, request))
}

/// How many reports a handshake can still take before it has ended.
pub open spec fn remaining(state: StateView) -> nat {
    match state {
        StateView::Probing(_) => 1,
        StateView::Managed(_, step) => match step {
            ManagedStep::CacheCheck => 10,
            ManagedStep::Download => 9,
            ManagedStep::TempWrite => 8,
            ManagedStep::TempRead => 7,
            ManagedStep::StagingWrite => 6,
            ManagedStep::Mark => 5,
            ManagedStep::Promote => 4,
            ManagedStep::Recheck => 3,
            ManagedStep::CleanStaging(_) => 2,
            ManagedStep::CleanTemp(_) => 1,
        },
        StateView::Done => 0,
        StateView::Failed => 0,
    }
}

/// Whether a controller and its first action are what taking a request can
/// give: a lookup of a configured path, a look into the cache, or a refusal
/// on the spot.
spec fn initial(first: (ControllerView, ActionView)) -> bool {
    match first.0.state {
        StateView::Probing(plan) => first.1 == (ActionView::Probe {
            program: plan.program,
            path: plan.path,
        }),
        StateView::Managed(plan, step) => {
            &&& step == ManagedStep::CacheCheck
            &&& first.1 == (ActionView::CheckCache { path: plan.descriptor.cache_path })
        },
        StateView::Failed => {
            &&& first.1 matches ActionView::Respond(response)
            &&& response.id == first.0.id
            &&& response.outcome matches ResolutionOutcomeView::Failure(e)
            &&& e.kind != ErrorKind::FetchFailed
            &&& e.kind != ErrorKind::InstallFailed
            &&& e.kind != ErrorKind::ServerPathNotFound
            &&& e.notify == e.kind.spec_notifies()
        },
        StateView::Done => false,
    }
}

/// Whether the cache holds a binary, and one that can be launched if the
/// cache was sound when the handshake began.
spec fn warm(plan: ManagedPlanView, disk: Disk, clean: bool) -> bool {
    &&& !(disk.cache is Absent)
    &&& clean ==> disk.cache is Complete
    &&& clean && needs_mark(plan) ==> disk.cache_marked
}

/// What a verdict promises while what is left over is removed.
spec fn verdict_holds(plan: ManagedPlanView, verdict: Verdict, disk: Disk, clean: bool) -> bool {
    match verdict {
        Verdict::Installed => warm(plan, disk, clean),
        Verdict::Failed(kind) => kind == ErrorKind::FetchFailed || kind
            == ErrorKind::InstallFailed,
    }
}

/// What holds at each step of a managed acquisition.
spec fn managed_holds(plan: ManagedPlanView, step: ManagedStep, x: Execution, clean: bool) -> bool {
    let d = plan.descriptor;
    match step {
        ManagedStep::CacheCheck => {
            &&& x.action == (ActionView::CheckCache { path: d.cache_path })
            &&& x.downloads == 0
        },
        ManagedStep::Download => {
            &&& x.action == (ActionView::Download { url: d.url })
            &&& x.downloads == 1
        },
        ManagedStep::TempWrite => {
            &&& x.action matches ActionView::WriteTemp { path, .. }
            &&& path == d.temp_path
            &&& x.downloads == 1
        },
        ManagedStep::TempRead => {
            &&& x.action == (ActionView::ReadTemp { path: d.temp_path })
            &&& x.disk.temp is Complete
            &&& x.downloads == 1
        },
        ManagedStep::StagingWrite => {
            &&& x.action matches ActionView::WriteStaging { path, .. }
            &&& path == d.staging_path
            &&& x.downloads == 1
        },
        ManagedStep::Mark => {
            &&& x.action == (ActionView::MarkExecutable { path: d.staging_path })
            &&& x.disk.staging is Complete
            &&& x.downloads == 1
        },
        ManagedStep::Promote => {
            &&& x.action == (ActionView::Promote { from: d.staging_path, to: d.cache_path })
            &&& x.disk.staging is Complete
            &&& needs_mark(plan) ==> x.disk.staging_marked
            &&& x.downloads == 1
        },
        ManagedStep::Recheck => {
            &&& x.action == (ActionView::CheckCache { path: d.cache_path })
            &&& x.downloads == 1
        },
        ManagedStep::CleanStaging(verdict) => {
            &&& x.action == (ActionView::RemoveStaging { path: d.staging_path })
            &&& verdict_holds(plan, verdict, x.disk, clean)
            &&& x.downloads == 1
        },
        ManagedStep::CleanTemp(verdict) => {
            &&& x.action == (ActionView::RemoveTemp { path: d.temp_path })
            &&& verdict_holds(plan, verdict, x.disk, clean)
            &&& x.downloads == 1
        },
    }
}

/// What holds once the response is out, by the way the handshake began.
spec fn ended_holds(first: (ControllerView, ActionView), x: Execution, clean: bool) -> bool {
    let id = first.0.id;
    match first.0.state {
        StateView::Probing(plan) => {
            &&& x.downloads == 0
            &&& if x.controller.state is Done {
                x.responses[0] == override_launch(id, plan)
            } else {
                x.responses[0] == override_failure(id, plan)
            }
        },
        StateView::Managed(plan, _) => {
            &&& x.downloads <= 1
            &&& if x.controller.state is Done {
                &&& x.responses[0] == cached_launch(id, plan)
                &&& warm(plan, x.disk, clean)
            } else {
                &&& x.downloads == 1
                &&& {
                    ||| x.responses[0] == acquisition_failure(id, plan, ErrorKind::FetchFailed)
                    ||| x.responses[0] == acquisition_failure(id, plan, ErrorKind::InstallFailed)
                }
            }
        },
        StateView::Failed => {
            &&& x.downloads == 0
            &&& x.controller.state is Failed
            &&& first.1 == ActionView::Respond(x.responses[0])
        },
        StateView::Done => false,
    }
}

/// What holds of a handshake at every moment of every run. `clean` says
/// that the cache was sound when the handshake began.
spec fn holds(first: (ControllerView, ActionView), x: Execution, clean: bool) -> bool {
    &&& x.controller.id == first.0.id
    &&& clean ==> x.disk.sound(marked_binary(first))
    &&& match x.controller.state {
        StateView::Probing(plan) => {
            &&& first.0.state == StateView::Probing(plan)
            &&& x.action == first.1
            &&& x.downloads == 0
            &&& x.responses.len() == 0
        },
        StateView::Managed(plan, step) => {
            &&& first.0.state == StateView::Managed(plan, ManagedStep::CacheCheck)
            &&& x.responses.len() == 0
            &&& managed_holds(plan, step, x, clean)
        },
        _ => {
            &&& x.responses.len() == 1
            &&& x.action == ActionView::Respond(x.responses[0])
            &&& x.responses[0].id == first.0.id
            &&& x.responses[0].outcome is Launch <==> x.controller.state is Done
            &&& x.responses[0].outcome matches ResolutionOutcomeView::Failure(e) ==> e.notify
                == e.kind.spec_notifies()
            &&& ended_holds(first, x, clean)
        },
    }
}

proof fn lemma_holds_at_start(first: (ControllerView, ActionView), disk: Disk)
    requires
        initial(first),
    ensures
        holds(first, start(first, disk), disk.sound(marked_binary(first))),
{
}

proof fn lemma_holds_after_report(
    first: (ControllerView, ActionView),
    x: Execution,
    report: Report,
    clean: bool,
)
    requires
        initial(first),
        holds(first, x, clean),
        performs(x.disk, x.action, report.event, report.disk),
    ensures
        holds(first, advance(x, report), clean),
{
    let y = advance(x, report);
    if y.controller.state.terminal() {
        assert(y.responses.len() == 1);
    } else {
        assert(y.responses =~= x.responses);
    }
}

proof fn lemma_holds_throughout(
    first: (ControllerView, ActionView),
    disk: Disk,
    reports: Seq<Report>,
)
    requires
        initial(first),
        valid(start(first, disk), reports),
    ensures
        holds(first, run(start(first, disk), reports), disk.sound(marked_binary(first))),
    decreases reports.len(),
{
    if reports.len() == 0 {
        lemma_holds_at_start(first, disk);
    } else {
        lemma_holds_throughout(first, disk, reports.drop_last());
        lemma_holds_after_report(
            first,
            run(start(first, disk), reports.drop_last()),
            reports.last(),
            disk.sound(marked_binary(first)),
        );
    }
}

proof fn lemma_reports_are_counted(
    first: (ControllerView, ActionView),
    disk: Disk,
    reports: Seq<Report>,
)
    requires
        initial(first),
        valid(start(first, disk), reports),
    ensures
        remaining(run(start(first, disk), reports).controller.state) + reports.len() <= remaining(
            first.0.state,
        ),
    decreases reports.len(),
{
    if reports.len() > 0 {
        lemma_reports_are_counted(first, disk, reports.drop_last());
        lemma_holds_throughout(first, disk, reports.drop_last());
    }
}

/// Every prefix of a valid run is a valid run.
proof fn lemma_valid_prefix(x: Execution, reports: Seq<Report>, n: int)
    requires
        valid(x, reports),
        0 <= n <= reports.len(),
    ensures
        valid(x, reports.take(n)),
    decreases reports.len(),
{
    if n == reports.len() {
        assert(reports.take(n) =~= reports);
    } else {
        lemma_valid_prefix(x, reports.drop_last(), n);
        assert(reports.drop_last().take(n) =~= reports.take(n));
    }
}

/// Every step that is not the last asks for work, and every step takes the
/// handshake nearer to its end.
pub proof fn law_every_step_makes_progress(c: ControllerView, event: EventView)
    requires
        !c.state.terminal(),
    ensures
        remaining(spec_step(c, event).0.state) < remaining(c.state),
        spec_step(c, event).0.id == c.id,
        spec_step(c, event).0.state.terminal() <==> spec_step(c, event).1 is Respond,
        !(spec_step(c, event).1 is Idle),
{
}

/// Once the response is out the controller stays where it is and asks for
/// nothing.
pub proof fn law_nothing_follows_the_response(c: ControllerView, event: EventView)
    requires
        c.state.terminal(),
    ensures
        spec_step(c, event) == (c, ActionView::Idle),
{
}

/// Whatever is not one of the two architectures paired with one of the
/// three operating systems is refused.
pub proof fn law_unknown_platform_is_refused(raw_arch: Seq<char>, raw_os: Seq<char>)
    requires
        !((raw_arch == "x86_64"@ || raw_arch == "aarch64"@) && (raw_os == "linux"@ || raw_os
            == "macos"@ || raw_os == "windows"@)),
    ensures
        spec_resolve(raw_arch, raw_os) is Err,
{
}

/// On a platform that is refused, and with no server path configured, the
/// handshake fails with `UnsupportedPlatform` before any work is asked of
/// the host.
pub proof fn law_unsupported_platform_asks_for_nothing(
    profile: ServerProfileView,
    info: PluginInfoView,
    plugin_uri: Option<Seq<char>>,
    id: u64,
)
    requires
        info.configuration.server_path() is None,
        spec_resolve(info.arch, info.os) is Err,
    ensures
        spec_initialize(profile, info, plugin_uri, id) == fail(id, spec_unsupported_platform()),
{
}

/// A resolution fails with `UnsupportedPlatform` exactly when no server path
/// is configured and either the platform is refused or the location of the
/// plugin is not known as a URL the binary can be named by.
pub proof fn law_unsupported_platform_exactly(
    profile: ServerProfileView,
    info: PluginInfoView,
    plugin_uri: Option<Seq<char>>,
    id: u64,
)
    ensures
        spec_initialize(profile, info, plugin_uri, id) == fail(id, spec_unsupported_platform())
            <==> info.configuration.server_path() is None && (match spec_resolve(
            info.arch,
            info.os,
        ) {
            Ok(key) => spec_cache_uri(plugin_uri, spec_describe(profile, key).name) is None,
            Err(_) => true,
        }),
{
}

/// A configured server path that the host does not find is a failure of the
/// locator, whatever is in the cache: it never decides to fetch.
pub proof fn law_unfound_override_is_not_replaced(
    server_path: Seq<char>,
    descriptor: ArtifactDescriptorView,
    facts: HostFacts,
)
    requires
        !facts.probe_found,
    ensures
        spec_locate(Some(server_path), descriptor, facts) == Err::<DecisionView, _>(
            spec_server_path_not_found(server_path),
        ),
{
}

/// The controller decides as the locator does: on the report of the lookup
/// where a server path is configured, on the report of the look into the
/// cache where none is. What was not asked of the host plays no part.
pub proof fn law_controller_follows_locator(
    c: ControllerView,
    event: EventView,
    descriptor: ArtifactDescriptorView,
    unasked: bool,
)
    ensures
        c.state matches StateView::Probing(plan) ==> (match spec_locate(
            Some(plan.path),
            descriptor,
            HostFacts { probe_found: event.found(), cache_present: unasked },
        ) {
            Ok(decision) => {
                &&& decision == DecisionView::UseOverride(plan.path)
                &&& spec_step(c, event).1 == ActionView::Respond(override_launch(c.id, plan))
            },
            Err(e) => spec_step(c, event) == fail(c.id, e),
        }),
        c.state matches StateView::Managed(plan, ManagedStep::CacheCheck) ==> (match spec_locate(
            None,
            plan.descriptor,
            HostFacts { probe_found: unasked, cache_present: event.present() },
        ) {
            Ok(DecisionView::UseCached(path)) => {
                &&& path == plan.descriptor.cache_path
                &&& spec_step(c, event).1 == ActionView::Respond(cached_launch(c.id, plan))
            },
            Ok(DecisionView::MustFetch(d)) => {
                spec_step(c, event).1 == (ActionView::Download { url: d.url })
            },
            _ => false,
        }),
{
}

/// Every configured server path is looked up, whatever it is: the first
/// thing asked of the host is the lookup of that very path, by the program
/// the operating system calls for. Whether a URI can be formed from the path
/// plays no part in it.
pub proof fn law_configured_path_is_looked_up(
    profile: ServerProfileView,
    info: PluginInfoView,
    plugin_uri: Option<Seq<char>>,
    id: u64,
)
    requires
        info.configuration.server_path() is Some,
    ensures
        spec_initialize(profile, info, plugin_uri, id) == probe(
            id,
            OverridePlanView {
                program: spec_probe_program(info.os),
                path: info.configuration.server_path()->0,
                uri: spec_override_uri(info.configuration.server_path()->0),
                language_id: info.configuration.language_id,
                options: info.configuration.options,
            },
        ),
        spec_initialize(profile, info, plugin_uri, id).1 == (ActionView::Probe {
            program: spec_probe_program(info.os),
            path: info.configuration.server_path()->0,
        }),
{
}

/// From the request on, the controller decides as the locator does. With a
/// server path configured, the report on its lookup settles the handshake:
/// found, the response launches the path as it was written; else it is
/// `ServerPathNotFound`. Without one, and with a binary to manage, the
/// report on the look into the cache settles between the cached binary and
/// the download. What was not asked of the host plays no part.
pub proof fn law_resolution_follows_locator(
    profile: ServerProfileView,
    info: PluginInfoView,
    plugin_uri: Option<Seq<char>>,
    id: u64,
    event: EventView,
    descriptor: ArtifactDescriptorView,
    unasked: bool,
)
    ensures
        ({
            let first = spec_initialize(profile, info, plugin_uri, id);
            let next = spec_step(first.0, event);
            match info.configuration.server_path() {
                Some(path) => match spec_locate(
                    Some(path),
                    descriptor,
                    HostFacts { probe_found: event.found(), cache_present: unasked },
                ) {
                    Ok(decision) => {
                        &&& decision == DecisionView::UseOverride(path)
                        &&& next.1 matches ActionView::Respond(response)
                        &&& response.id == id
                        &&& response.outcome matches ResolutionOutcomeView::Launch(d)
                        &&& d.executable == (ExecutableRefView::Override {
                            path,
                            urn: spec_override_uri(path),
                        })
                    },
                    Err(e) => next == fail(id, e),
                },
                None => first.0.state matches StateView::Managed(plan, _) ==> (match spec_locate(
                    None,
                    plan.descriptor,
                    HostFacts { probe_found: unasked, cache_present: event.present() },
                ) {
                    Ok(DecisionView::UseCached(path)) => {
                        &&& path == plan.descriptor.cache_path
                        &&& next.1 == ActionView::Respond(cached_launch(id, plan))
                    },
                    Ok(DecisionView::MustFetch(d)) => {
                        next.1 == (ActionView::Download { url: d.url })
                    },
                    _ => false,
                }),
            }
        }),
{
}

/// A handshake ends with `ServerPathNotFound` exactly when a server path is
/// configured and the one report on its lookup does not say that it was
/// found.
pub proof fn law_server_path_not_found_exactly(
    profile: ServerProfileView,
    env: EnvironmentContextView,
    request: HandshakeRequestView,
    disk: Disk,
    reports: Seq<Report>,
)
    requires
        plausible(profile, env, request, disk, reports),
        handshake(profile, env, request, disk, reports).controller.state.terminal(),
    ensures
        ({
            let x = handshake(profile, env, request, disk, reports);
            let probing = spec_handle_request(profile, env, request).0.state is Probing;
            &&& x.responses.len() == 1
            &&& probing ==> reports.len() == 1
            &&& (x.responses[0].outcome matches ResolutionOutcomeView::Failure(e) && e.kind
                == ErrorKind::ServerPathNotFound) <==> (probing && !reports[0].event.found())
        }),
{
    let first = spec_handle_request(profile, env, request);
    lemma_holds_throughout(first, disk, reports);
    lemma_reports_are_counted(first, disk, reports);
    if first.0.state is Probing {
        assert(reports.len() == 1);
        assert(reports.drop_last().len() == 0);
        assert(reports.last() == reports[0]);
    }
}

/// Whatever failure a handshake ends with, it is raised as a notification
/// of the host exactly when its kind is one the user can act on: a server
/// path that was not found, a failed download, a failed installation.
pub proof fn law_failures_notify_by_kind(
    profile: ServerProfileView,
    env: EnvironmentContextView,
    request: HandshakeRequestView,
    disk: Disk,
    reports: Seq<Report>,
)
    requires
        plausible(profile, env, request, disk, reports),
        handshake(profile, env, request, disk, reports).responses.len() > 0,
    ensures
        handshake(profile, env, request, disk, reports).responses[0].outcome
            matches ResolutionOutcomeView::Failure(e) ==> e.notify == e.kind.spec_notifies(),
{
    lemma_holds_throughout(spec_handle_request(profile, env, request), disk, reports);
}

/// With a server path configured, nothing is ever downloaded. The first
/// report ends the handshake: where the lookup found the path the response
/// launches that very path, and where it did not the response is
/// `ServerPathNotFound`.
pub proof fn law_override_never_fetches(
    profile: ServerProfileView,
    env: EnvironmentContextView,
    request: HandshakeRequestView,
    disk: Disk,
    reports: Seq<Report>,
)
    requires
        spec_handle_request(profile, env, request).0.state is Probing,
        plausible(profile, env, request, disk, reports),
    ensures
        handshake(profile, env, request, disk, reports).downloads == 0,
        reports.len() <= 1,
        reports.len() == 1 ==> (spec_handle_request(profile, env, request).0.state
            matches StateView::Probing(plan) && handshake(
            profile,
            env,
            request,
            disk,
            reports,
        ).responses == seq![
            if reports[0].event.found() {
                override_launch(request.id, plan)
            } else {
                override_failure(request.id, plan)
            },
        ]),
{
    let first = spec_handle_request(profile, env, request);
    lemma_holds_throughout(first, disk, reports);
    lemma_reports_are_counted(first, disk, reports);
    if reports.len() == 1 {
        let x = run(start(first, disk), reports);
        assert(reports.drop_last().len() == 0);
        assert(reports.last() == reports[0]);
        assert(x.responses =~= seq![x.responses[0]]);
    }
}

/// At any moment of a handshake at most one response is out, and it carries
/// the id of the request. The handshake has ended exactly when one is out;
/// until then the host owes a report, and it has ended after ten reports at
/// the latest.
pub proof fn law_one_response(
    profile: ServerProfileView,
    env: EnvironmentContextView,
    request: HandshakeRequestView,
    disk: Disk,
    reports: Seq<Report>,
)
    requires
        plausible(profile, env, request, disk, reports),
    ensures
        ({
            let x = handshake(profile, env, request, disk, reports);
            &&& x.responses.len() <= 1
            &&& x.responses.len() == 1 <==> x.controller.state.terminal()
            &&& x.responses.len() == 1 ==> x.responses[0].id == request.id && x.action
                == ActionView::Respond(x.responses[0])
            &&& x.responses.len() == 0 ==> !(x.action is Respond) && !(x.action is Idle)
            &&& remaining(x.controller.state) + reports.len() <= 10
        }),
{
    let first = spec_handle_request(profile, env, request);
    lemma_holds_throughout(first, disk, reports);
    lemma_reports_are_counted(first, disk, reports);
}

/// The fetcher asks for one GET and no more: whatever the host reports, a
/// handshake asks for at most one download.
pub proof fn law_single_download(
    profile: ServerProfileView,
    env: EnvironmentContextView,
    request: HandshakeRequestView,
    disk: Disk,
    reports: Seq<Report>,
)
    requires
        plausible(profile, env, request, disk, reports),
    ensures
        handshake(profile, env, request, disk, reports).downloads <= 1,
{
    lemma_holds_throughout(spec_handle_request(profile, env, request), disk, reports);
}

/// The download, the binary while it is unpacked and the cached binary lie
/// at three different paths, so that writing one of the first two never
/// touches the cache.
pub proof fn law_local_paths_differ(profile: ServerProfileView, key: PlatformKey)
    ensures
        spec_describe(profile, key).wf(),
        spec_describe(profile, key).cache_path != spec_describe(profile, key).temp_path,
        spec_describe(profile, key).cache_path != spec_describe(profile, key).staging_path,
        spec_describe(profile, key).temp_path != spec_describe(profile, key).staging_path,
{
    reveal_strlit(".gz");
    reveal_strlit(".part");
    let d = spec_describe(profile, key);
    assert(d.temp_path.len() == d.name.len() + 3);
    assert(d.staging_path.len() == d.name.len() + 5);
}

/// A handshake that manages the binary itself ends in one of three ways: it
/// launches the cached binary, or it reports that the download failed, or
/// that the installation failed. Either report tells the user to configure a
/// server path, and neither comes without a download having been asked for.
pub proof fn law_managed_handshake_ends_three_ways(
    profile: ServerProfileView,
    env: EnvironmentContextView,
    request: HandshakeRequestView,
    disk: Disk,
    reports: Seq<Report>,
)
    requires
        spec_handle_request(profile, env, request).0.state is Managed,
        plausible(profile, env, request, disk, reports),
        handshake(profile, env, request, disk, reports).controller.state.terminal(),
    ensures
        ({
            let x = handshake(profile, env, request, disk, reports);
            &&& spec_handle_request(profile, env, request).0.state matches StateView::Managed(
                plan,
                _,
            )
            &&& {
                ||| x.responses == seq![cached_launch(request.id, plan)]
                ||| x.downloads == 1 && x.responses == seq![
                    acquisition_failure(request.id, plan, ErrorKind::FetchFailed),
                ]
                ||| x.downloads == 1 && x.responses == seq![
                    acquisition_failure(request.id, plan, ErrorKind::InstallFailed),
                ]
            }
        }),
{
    let first = spec_handle_request(profile, env, request);
    lemma_holds_throughout(first, disk, reports);
    let x = run(start(first, disk), reports);
    assert(x.responses =~= seq![x.responses[0]]);
}

/// When a handshake that asked for a download has ended, with a server to
/// launch or with a failure, the last thing it asked of the host was to
/// remove the download; and where the host reported the download gone, it
/// is no longer on disk.
pub proof fn law_download_is_removed(
    profile: ServerProfileView,
    env: EnvironmentContextView,
    request: HandshakeRequestView,
    disk: Disk,
    reports: Seq<Report>,
)
    requires
        plausible(profile, env, request, disk, reports),
        handshake(profile, env, request, disk, reports).controller.state.terminal(),
        handshake(profile, env, request, disk, reports).downloads > 0,
    ensures
        reports.len() > 0,
        spec_handle_request(profile, env, request).0.state matches StateView::Managed(plan, _)
            && handshake(profile, env, request, disk, reports.drop_last()).action == (
        ActionView::RemoveTemp { path: plan.descriptor.temp_path }),
        reports.last().event.removed() ==> handshake(
            profile,
            env,
            request,
            disk,
            reports,
        ).disk.temp is Absent,
{
    let first = spec_handle_request(profile, env, request);
    lemma_holds_throughout(first, disk, reports);
    if reports.len() > 0 {
        lemma_holds_throughout(first, disk, reports.drop_last());
    }
}

/// The download is read back only after it was written in full.
pub proof fn law_download_is_read_whole(
    profile: ServerProfileView,
    env: EnvironmentContextView,
    request: HandshakeRequestView,
    disk: Disk,
    reports: Seq<Report>,
)
    requires
        plausible(profile, env, request, disk, reports),
        handshake(profile, env, request, disk, reports).action is ReadTemp,
    ensures
        handshake(profile, env, request, disk, reports).disk.temp is Complete,
{
    lemma_holds_throughout(spec_handle_request(profile, env, request), disk, reports);
}

/// If the cache was sound when the handshake began, it is sound at every
/// moment of it, however the handshake goes: the cache path never holds a
/// file cut short, nor one that lacks the mark it needs. The path is written
/// by one move only, and what is moved there is complete and marked where
/// the platform asks for it.
pub proof fn law_cache_stays_sound(
    profile: ServerProfileView,
    env: EnvironmentContextView,
    request: HandshakeRequestView,
    disk: Disk,
    reports: Seq<Report>,
)
    requires
        disk.sound(manages_marked_binary(profile, env, request)),
        plausible(profile, env, request, disk, reports),
    ensures
        ({
            let x = handshake(profile, env, request, disk, reports);
            let marked = manages_marked_binary(profile, env, request);
            &&& x.disk.sound(marked)
            &&& x.action is Promote ==> x.disk.staging is Complete && (marked
                ==> x.disk.staging_marked)
        }),
{
    lemma_holds_throughout(spec_handle_request(profile, env, request), disk, reports);
}

/// A handshake that ends with the launch of the managed binary leaves a
/// binary in the cache; if the cache was sound when the handshake began, the
/// binary is complete and marked where the platform asks for it.
pub proof fn law_launch_leaves_cache_warm(
    profile: ServerProfileView,
    env: EnvironmentContextView,
    request: HandshakeRequestView,
    disk: Disk,
    reports: Seq<Report>,
)
    requires
        spec_handle_request(profile, env, request).0.state is Managed,
        plausible(profile, env, request, disk, reports),
        handshake(profile, env, request, disk, reports).controller.state is Done,
    ensures
        ({
            let x = handshake(profile, env, request, disk, reports);
            let marked = manages_marked_binary(profile, env, request);
            &&& !(x.disk.cache is Absent)
            &&& disk.sound(marked) ==> x.disk.cache is Complete && (marked
                ==> x.disk.cache_marked)
        }),
{
    lemma_holds_throughout(spec_handle_request(profile, env, request), disk, reports);
}

/// With a binary in the cache and no server path configured, the first
/// report ends the handshake: the decision is to use the cache, the
/// response launches the cached binary, and no download is asked for.
pub proof fn law_warm_cache_is_used(
    profile: ServerProfileView,
    env: EnvironmentContextView,
    request: HandshakeRequestView,
    disk: Disk,
    reports: Seq<Report>,
)
    requires
        !(disk.cache is Absent),
        spec_handle_request(profile, env, request).0.state is Managed,
        plausible(profile, env, request, disk, reports),
        reports.len() > 0,
    ensures
        ({
            let x = handshake(profile, env, request, disk, reports);
            &&& reports.len() == 1
            &&& x.downloads == 0
            &&& x.controller.state is Done
            &&& spec_handle_request(profile, env, request).0.state matches StateView::Managed(
                plan,
                _,
            )
            &&& x.responses == seq![cached_launch(request.id, plan)]
            &&& spec_locate(
                None,
                plan.descriptor,
                HostFacts { probe_found: false, cache_present: reports[0].event.present() },
            ) == Ok::<_, StructuredErrorView>(DecisionView::UseCached(plan.descriptor.cache_path))
        }),
{
    let first = spec_handle_request(profile, env, request);
    let one = reports.take(1);
    assert(one.drop_last() =~= Seq::<Report>::empty());
    lemma_valid_prefix(start(first, disk), reports, 1);
    lemma_holds_throughout(first, disk, one);
    let x1 = run(start(first, disk), one);
    assert(run(start(first, disk), one.drop_last()) == start(first, disk));
    assert(one.last() == reports[0]);
    assert(x1.controller.state is Done);
    assert(x1.responses =~= seq![x1.responses[0]]);
    if reports.len() > 1 {
        // A second report would answer the response, and the host gives none to that.
        lemma_valid_prefix(start(first, disk), reports, 2);
        let two = reports.take(2);
        assert(two.drop_last() =~= one);
        assert(false);
    }
    assert(reports =~= one);
}

/// A handshake that follows one which launched the managed binary, on the
/// same request and on the disk the first one left, decides to use the cache
/// as soon as the host has looked into it, gives the same response, and asks
/// for no download.
pub proof fn law_second_handshake_uses_cache(
    profile: ServerProfileView,
    env: EnvironmentContextView,
    request: HandshakeRequestView,
    disk: Disk,
    earlier: Seq<Report>,
    later: Seq<Report>,
)
    requires
        spec_handle_request(profile, env, request).0.state is Managed,
        plausible(profile, env, request, disk, earlier),
        handshake(profile, env, request, disk, earlier).controller.state is Done,
        plausible(
            profile,
            env,
            request,
            handshake(profile, env, request, disk, earlier).disk,
            later,
        ),
        later.len() > 0,
    ensures
        ({
            let x = handshake(profile, env, request, disk, earlier);
            let y = handshake(profile, env, request, x.disk, later);
            &&& later.len() == 1
            &&& later[0].event.present()
            &&& y.downloads == 0
            &&& y.controller.state is Done
            &&& y.responses == x.responses
        }),
{
    let first = spec_handle_request(profile, env, request);
    lemma_holds_throughout(first, disk, earlier);
    let x = run(start(first, disk), earlier);
    law_warm_cache_is_used(profile, env, request, x.disk, later);
    assert(x.responses =~= seq![x.responses[0]]);
    assert(later.drop_last().len() == 0);
}

} // verus!
