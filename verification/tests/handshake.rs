use lapce_rust::{
    Action, Configuration, Controller, EnvironmentContext, ErrorKind, Event, ExecutableRef,
    HandshakeRequest, HttpReply, LaunchDescriptor, Phase, PluginInfo, ResolutionOutcome,
    Response, ServerProfile, StructuredError,
};
use std::collections::{BTreeMap, BTreeSet};
use std::io::Write;

const PLUGIN: &str = "file:///plugins/server/";
const BINARY: &[u8] = b"\x7fELF the language server, all of it";

fn pack(content: &[u8]) -> Vec<u8> {
    let mut encoder = flate2::write::GzEncoder::new(Vec::new(), flate2::Compression::default());
    encoder.write_all(content).unwrap();
    encoder.finish().unwrap()
}

/// A host that keeps its files in memory and writes down what it was asked.
struct Host {
    files: BTreeMap<String, Vec<u8>>,
    executable: BTreeSet<String>,
    on_search_path: BTreeSet<String>,
    reply: Option<HttpReply>,
    failing: BTreeSet<&'static str>,
    asked: Vec<String>,
}

impl Host {
    fn new() -> Host {
        Host {
            files: BTreeMap::new(),
            executable: BTreeSet::new(),
            on_search_path: BTreeSet::new(),
            reply: None,
            failing: BTreeSet::new(),
            asked: Vec::new(),
        }
    }

    fn serving(content: &[u8]) -> Host {
        let mut host = Host::new();
        let body = pack(content);
        host.reply = Some(HttpReply { status: 200, declared_length: Some(body.len() as u64), body });
        host
    }

    fn write(&mut self, what: &'static str, path: String, bytes: Vec<u8>) -> Event {
        if self.failing.contains(what) {
            self.files.insert(path, bytes[..bytes.len() / 2].to_vec());
            Event::Written { ok: false }
        } else {
            self.files.insert(path, bytes);
            Event::Written { ok: true }
        }
    }

    fn perform(&mut self, action: Action) -> Result<Event, Response> {
        match action {
            Action::Probe { program, path } => {
                self.asked.push(format!("probe {program} {path}"));
                Ok(Event::Probed { found: self.on_search_path.contains(&path) })
            }
            Action::CheckCache { path } => {
                self.asked.push(format!("exists {path}"));
                Ok(Event::CacheChecked { present: self.files.contains_key(&path) })
            }
            Action::Download { url } => {
                self.asked.push(format!("get {url}"));
                Ok(Event::Downloaded { reply: self.reply.take() })
            }
            Action::WriteTemp { path, bytes } => {
                self.asked.push(format!("write {path}"));
                Ok(self.write("write-temp", path, bytes))
            }
            Action::ReadTemp { path } => {
                self.asked.push(format!("read {path}"));
                let bytes = if self.failing.contains("read-temp") { None } else { self.files.get(&path).cloned() };
                Ok(Event::Read { bytes })
            }
            Action::WriteStaging { path, bytes } => {
                self.asked.push(format!("write {path}"));
                Ok(self.write("write-staging", path, bytes))
            }
            Action::MarkExecutable { path } => {
                self.asked.push(format!("chmod {path}"));
                let ok = !self.failing.contains("mark") && self.files.contains_key(&path);
                if ok {
                    self.executable.insert(path);
                }
                Ok(Event::Marked { ok })
            }
            Action::Promote { from, to } => {
                self.asked.push(format!("move {from} {to}"));
                if self.failing.contains("promote") {
                    return Ok(Event::Promoted { ok: false });
                }
                if self.failing.contains("promote-raced") {
                    self.files.insert(to.clone(), BINARY.to_vec());
                    self.executable.insert(to);
                    return Ok(Event::Promoted { ok: false });
                }
                match self.files.remove(&from) {
                    Some(bytes) => {
                        self.files.insert(to.clone(), bytes);
                        if self.executable.remove(&from) {
                            self.executable.insert(to);
                        }
                        Ok(Event::Promoted { ok: true })
                    }
                    None => Ok(Event::Promoted { ok: false }),
                }
            }
            Action::RemoveStaging { path } | Action::RemoveTemp { path } => {
                self.asked.push(format!("remove {path}"));
                if self.failing.contains("remove") && self.files.contains_key(&path) {
                    return Ok(Event::Removed { gone: false });
                }
                self.files.remove(&path);
                self.executable.remove(&path);
                Ok(Event::Removed { gone: true })
            }
            Action::Respond(response) => Err(response),
            Action::Idle => panic!("the controller idles before it has responded"),
        }
    }

    /// Does what the controller asks until the response is out.
    fn serve(&mut self, first: (Controller, Action)) -> (Controller, Vec<Response>) {
        let (mut controller, mut action) = first;
        let mut responses = Vec::new();
        for _ in 0..32 {
            match self.perform(action) {
                Ok(event) => {
                    assert!(!controller.is_terminal());
                    let next = controller.step(event);
                    controller = next.0;
                    action = next.1;
                }
                Err(response) => {
                    assert!(controller.is_terminal());
                    responses.push(response);
                    return (controller, responses);
                }
            }
        }
        panic!("the handshake does not end");
    }

    fn downloads(&self) -> usize {
        self.asked.iter().filter(|a| a.starts_with("get ")).count()
    }
}

fn profile() -> ServerProfile {
    ServerProfile::new("rust", "server", "https://releases.example.org/server", "2023-02-13")
}

fn environment(arch: &str, os: &str) -> EnvironmentContext {
    EnvironmentContext {
        architecture: Some(arch.to_string()),
        operating_system: Some(os.to_string()),
        plugin_uri: Some(PLUGIN.to_string()),
    }
}

fn request(id: u64, options: Option<&str>) -> HandshakeRequest {
    let mut params = serde_json::Map::new();
    params.insert("capabilities".to_string(), serde_json::Value::Object(serde_json::Map::new()));
    if let Some(text) = options {
        params.insert("initializationOptions".to_string(), serde_json::from_str(text).unwrap());
    }
    HandshakeRequest { id, method: "initialize".to_string(), params: serde_json::Value::Object(params) }
}

fn handshake(host: &mut Host, arch: &str, os: &str, id: u64, options: Option<&str>) -> Response {
    let first = Controller::handle_request(&profile(), &environment(arch, os), request(id, options));
    let (_, mut responses) = host.serve(first);
    assert_eq!(responses.len(), 1);
    responses.pop().unwrap()
}

fn launched(response: Response) -> LaunchDescriptor {
    match response.outcome {
        ResolutionOutcome::Launch(descriptor) => descriptor,
        ResolutionOutcome::Failure(e) => panic!("failed: {e:?}"),
    }
}

fn failed(response: Response) -> StructuredError {
    match response.outcome {
        ResolutionOutcome::Failure(e) => e,
        ResolutionOutcome::Launch(d) => panic!("launched: {d:?}"),
    }
}

fn assert_cached(descriptor: &LaunchDescriptor, name: &str) {
    match &descriptor.executable {
        ExecutableRef::Cached { path, uri } => {
            assert_eq!(path, name);
            assert_eq!(uri.as_str(), format!("{PLUGIN}{name}"));
        }
        other => panic!("{other:?}"),
    }
    assert!(descriptor.args.is_empty());
    assert_eq!(descriptor.filters.len(), 1);
    assert_eq!(descriptor.filters[0].language, "rust");
    assert_eq!(descriptor.filters[0].pattern, None);
}

#[test]
fn fresh_install_on_linux() {
    let mut host = Host::serving(BINARY);
    let response = handshake(&mut host, "x86_64", "linux", 1, None);
    assert_eq!(response.id, 1);
    let descriptor = launched(response);
    assert_cached(&descriptor, "server-x86_64-unknown-linux-gnu");
    assert_eq!(descriptor.options, None);
    assert_eq!(host.files.get("server-x86_64-unknown-linux-gnu").map(Vec::as_slice), Some(BINARY));
    assert!(host.executable.contains("server-x86_64-unknown-linux-gnu"));
    assert_eq!(host.files.len(), 1);
    assert_eq!(
        host.asked,
        [
            "exists server-x86_64-unknown-linux-gnu",
            "get https://releases.example.org/server/releases/download/2023-02-13/server-x86_64-unknown-linux-gnu.gz",
            "write server-x86_64-unknown-linux-gnu.gz",
            "read server-x86_64-unknown-linux-gnu.gz",
            "write server-x86_64-unknown-linux-gnu.part",
            "chmod server-x86_64-unknown-linux-gnu.part",
            "move server-x86_64-unknown-linux-gnu.part server-x86_64-unknown-linux-gnu",
            "remove server-x86_64-unknown-linux-gnu.gz",
        ]
    );
}

#[test]
fn override_that_is_found_is_launched() {
    let mut host = Host::new();
    host.on_search_path.insert("/usr/local/bin/my-lsp".to_string());
    let options = r#"{"serverPath": "/usr/local/bin/my-lsp", "checkOnSave": true}"#;
    let response = handshake(&mut host, "x86_64", "linux", 2, Some(options));
    assert_eq!(response.id, 2);
    let descriptor = launched(response);
    match &descriptor.executable {
        ExecutableRef::Override { path, urn } => {
            assert_eq!(path, "/usr/local/bin/my-lsp");
            assert_eq!(urn.as_ref().map(|u| u.as_str()), Some("urn:/usr/local/bin/my-lsp"));
        }
        other => panic!("{other:?}"),
    }
    assert!(descriptor.args.is_empty());
    assert_eq!(descriptor.filters.len(), 1);
    assert_eq!(descriptor.filters[0].language, "rust");
    assert_eq!(descriptor.options, Some(serde_json::from_str(options).unwrap()));
    assert_eq!(host.asked, ["probe which /usr/local/bin/my-lsp"]);
    assert_eq!(host.downloads(), 0);
    assert!(host.files.is_empty());
}

#[test]
fn override_that_is_not_found_fails() {
    let mut host = Host::serving(BINARY);
    let response = handshake(&mut host, "x86_64", "linux", 3, Some(r#"{"serverPath": "/does/not/exist"}"#));
    assert_eq!(response.id, 3);
    let e = failed(response);
    assert_eq!(e.kind, ErrorKind::ServerPathNotFound);
    assert_eq!(e.message, "server path /does/not/exist couldn't be found, please check");
    assert!(e.notify);
    assert_eq!(host.asked, ["probe which /does/not/exist"]);
    assert_eq!(host.downloads(), 0);
    assert!(host.files.is_empty());
}

#[test]
fn unrecognized_architecture_is_refused() {
    let mut host = Host::serving(BINARY);
    let response = handshake(&mut host, "riscv64", "linux", 4, None);
    assert_eq!(response.id, 4);
    let e = failed(response);
    assert_eq!(e.kind, ErrorKind::UnsupportedPlatform);
    assert!(!e.notify);
    assert!(host.asked.is_empty());
    assert!(host.files.is_empty());
}

#[test]
fn download_with_a_bad_status_fails() {
    let mut host = Host::new();
    host.reply = Some(HttpReply { status: 404, declared_length: Some(9), body: b"Not Found".to_vec() });
    host.files.insert("server-x86_64-unknown-linux-gnu.gz".to_string(), vec![0x1f, 0x8b]);
    let response = handshake(&mut host, "x86_64", "linux", 5, None);
    assert_eq!(response.id, 5);
    let e = failed(response);
    assert_eq!(e.kind, ErrorKind::FetchFailed);
    assert_eq!(e.message, "can't download server, please use server path in the settings.");
    assert!(e.notify);
    assert!(host.files.is_empty());
    assert_eq!(
        host.asked,
        [
            "exists server-x86_64-unknown-linux-gnu",
            "get https://releases.example.org/server/releases/download/2023-02-13/server-x86_64-unknown-linux-gnu.gz",
            "remove server-x86_64-unknown-linux-gnu.gz",
        ]
    );
}

#[test]
fn second_handshake_uses_the_cache() {
    let mut host = Host::serving(BINARY);
    let first = launched(handshake(&mut host, "aarch64", "macos", 6, None));
    assert_cached(&first, "server-aarch64-apple-darwin");
    assert_eq!(host.downloads(), 1);
    host.asked.clear();
    let second = launched(handshake(&mut host, "aarch64", "macos", 7, None));
    assert_cached(&second, "server-aarch64-apple-darwin");
    assert_eq!(host.asked, ["exists server-aarch64-apple-darwin"]);
    assert_eq!(host.downloads(), 0);
    assert_eq!(host.files.get("server-aarch64-apple-darwin").map(Vec::as_slice), Some(BINARY));
}

#[test]
fn windows_binary_is_not_marked() {
    let mut host = Host::serving(BINARY);
    let descriptor = launched(handshake(&mut host, "x86_64", "windows", 8, None));
    assert_cached(&descriptor, "server-x86_64-pc-windows-msvc");
    assert!(host.asked.iter().all(|a| !a.starts_with("chmod ")));
    assert_eq!(host.files.get("server-x86_64-pc-windows-msvc").map(Vec::as_slice), Some(BINARY));
    assert_eq!(host.files.len(), 1);
}

#[test]
fn override_is_looked_up_with_where_on_windows() {
    let mut host = Host::new();
    host.on_search_path.insert("ra.exe".to_string());
    let descriptor = launched(handshake(&mut host, "x86_64", "windows", 9, Some(r#"{"serverPath": "ra.exe"}"#)));
    assert!(matches!(descriptor.executable, ExecutableRef::Override { .. }));
    assert_eq!(host.asked, ["probe where ra.exe"]);
}

#[test]
fn override_works_on_an_unsupported_platform() {
    let mut host = Host::new();
    host.on_search_path.insert("/bin/ra".to_string());
    let descriptor = launched(handshake(&mut host, "riscv64", "plan9", 10, Some(r#"{"configuration": {"serverPath": "/bin/ra"}}"#)));
    match &descriptor.executable {
        ExecutableRef::Override { path, .. } => assert_eq!(path, "/bin/ra"),
        other => panic!("{other:?}"),
    }
    assert_eq!(host.asked, ["probe which /bin/ra"]);
}

#[test]
fn override_that_names_no_uri_is_looked_up_all_the_same() {
    for configured in ["//host:nan/ra", "//host:99999/x"] {
        let options = format!(r#"{{"serverPath": "{configured}"}}"#);
        let mut host = Host::new();
        host.on_search_path.insert(configured.to_string());
        let descriptor = launched(handshake(&mut host, "x86_64", "linux", 11, Some(&options)));
        match &descriptor.executable {
            ExecutableRef::Override { path, urn } => {
                assert_eq!(path, configured);
                assert!(urn.is_none());
            }
            other => panic!("{other:?}"),
        }
        assert_eq!(host.asked, [format!("probe which {configured}")]);

        let mut host = Host::serving(BINARY);
        let e = failed(handshake(&mut host, "x86_64", "linux", 11, Some(&options)));
        assert_eq!(e.kind, ErrorKind::ServerPathNotFound);
        assert_eq!(e.message, format!("server path {configured} couldn't be found, please check"));
        assert_eq!(host.asked, [format!("probe which {configured}")]);
        assert!(host.files.is_empty());
    }
}

#[test]
fn override_is_looked_up_once_whatever_the_cache_holds() {
    for cached in [false, true] {
        let mut host = Host::serving(BINARY);
        if cached {
            host.files.insert("server-x86_64-unknown-linux-gnu".to_string(), BINARY.to_vec());
        }
        let before = host.files.clone();
        let e = failed(handshake(&mut host, "x86_64", "linux", 30, Some(r#"{"serverPath": "/bin/ra"}"#)));
        assert_eq!(e.kind, ErrorKind::ServerPathNotFound);
        assert_eq!(host.asked, ["probe which /bin/ra"]);
        assert_eq!(host.files, before);
    }
}

#[test]
fn empty_server_path_is_never_not_found() {
    for options in [r#"{"serverPath": ""}"#, r#"{"other": 1}"#] {
        let mut host = Host::new();
        let e = failed(handshake(&mut host, "x86_64", "linux", 31, Some(options)));
        assert_eq!(e.kind, ErrorKind::FetchFailed);
        assert!(host.asked.iter().all(|a| !a.starts_with("probe ")));
    }
}

#[test]
fn removal_that_fails_is_reported_and_changes_no_verdict() {
    let mut host = Host::serving(BINARY);
    host.failing.insert("remove");
    let descriptor = launched(handshake(&mut host, "x86_64", "linux", 32, None));
    assert_cached(&descriptor, "server-x86_64-unknown-linux-gnu");
    assert_eq!(host.asked.last().unwrap(), "remove server-x86_64-unknown-linux-gnu.gz");
    assert!(host.files.contains_key("server-x86_64-unknown-linux-gnu.gz"));
    assert_eq!(host.files.get("server-x86_64-unknown-linux-gnu").map(Vec::as_slice), Some(BINARY));

    let first = Controller::handle_request(&profile(), &environment("x86_64", "linux"), request(33, None));
    let (controller, _) = first.0.step(Event::CacheChecked { present: false });
    let (controller, action) = controller.step(Event::Downloaded { reply: None });
    assert!(matches!(action, Action::RemoveTemp { .. }));
    let (controller, action) = controller.step(Event::Removed { gone: false });
    assert_eq!(controller.phase(), Phase::Failed);
    match action {
        Action::Respond(response) => assert_eq!(failed(response).kind, ErrorKind::FetchFailed),
        other => panic!("{other:?}"),
    }
}

#[test]
fn reports_say_what_they_report() {
    assert!(Event::Removed { gone: true }.removed());
    assert!(!Event::Removed { gone: false }.removed());
    assert!(!Event::Written { ok: true }.removed());
    assert!(Event::Probed { found: true }.found());
    assert!(!Event::Probed { found: false }.found());
    assert!(!Event::CacheChecked { present: true }.found());
    assert!(Event::CacheChecked { present: true }.present());
    assert!(Event::Written { ok: true }.written());
    assert!(!Event::Marked { ok: true }.written());
    assert!(Event::Marked { ok: true }.marked());
    assert!(Event::Promoted { ok: true }.promoted());
    assert!(!Event::Promoted { ok: false }.promoted());
}

#[test]
fn transport_failure_is_a_fetch_failure() {
    let mut host = Host::new();
    let e = failed(handshake(&mut host, "x86_64", "linux", 12, None));
    assert_eq!(e.kind, ErrorKind::FetchFailed);
    assert!(host.files.is_empty());
}

#[test]
fn truncated_body_is_a_fetch_failure() {
    let mut host = Host::new();
    let body = pack(BINARY);
    host.reply = Some(HttpReply { status: 200, declared_length: Some(body.len() as u64 + 10), body });
    let e = failed(handshake(&mut host, "x86_64", "linux", 13, None));
    assert_eq!(e.kind, ErrorKind::FetchFailed);
    assert!(host.files.is_empty());
    assert!(host.asked.iter().all(|a| !a.starts_with("write ")));
}

#[test]
fn failed_write_of_the_download_is_cleaned_up() {
    let mut host = Host::serving(BINARY);
    host.failing.insert("write-temp");
    let e = failed(handshake(&mut host, "x86_64", "linux", 14, None));
    assert_eq!(e.kind, ErrorKind::FetchFailed);
    assert!(host.files.is_empty());
    assert_eq!(host.asked.last().unwrap(), "remove server-x86_64-unknown-linux-gnu.gz");
}

#[test]
fn unreadable_download_is_an_install_failure() {
    let mut host = Host::serving(BINARY);
    host.failing.insert("read-temp");
    let e = failed(handshake(&mut host, "x86_64", "linux", 15, None));
    assert_eq!(e.kind, ErrorKind::InstallFailed);
    assert_eq!(e.message, "can't download server, please use server path in the settings.");
    assert!(host.files.is_empty());
}

#[test]
fn corrupt_download_is_an_install_failure() {
    let mut host = Host::new();
    let mut body = pack(BINARY);
    body.truncate(body.len() - 6);
    host.reply = Some(HttpReply { status: 200, declared_length: None, body });
    let e = failed(handshake(&mut host, "x86_64", "linux", 16, None));
    assert_eq!(e.kind, ErrorKind::InstallFailed);
    assert!(e.notify);
    assert!(host.files.is_empty());
    assert!(host.asked.iter().all(|a| !a.starts_with("write server-x86_64-unknown-linux-gnu.part")));
    assert!(host.asked.iter().all(|a| !a.starts_with("move ")));
}

#[test]
fn failed_write_of_the_binary_never_reaches_the_cache() {
    let mut host = Host::serving(BINARY);
    host.failing.insert("write-staging");
    let e = failed(handshake(&mut host, "x86_64", "linux", 17, None));
    assert_eq!(e.kind, ErrorKind::InstallFailed);
    assert!(host.files.is_empty());
    assert!(host.asked.iter().all(|a| !a.starts_with("move ")));
    let n = host.asked.len();
    assert_eq!(host.asked[n - 2], "remove server-x86_64-unknown-linux-gnu.part");
    assert_eq!(host.asked[n - 1], "remove server-x86_64-unknown-linux-gnu.gz");
}

#[test]
fn binary_that_cannot_be_marked_is_not_installed() {
    let mut host = Host::serving(BINARY);
    host.failing.insert("mark");
    let e = failed(handshake(&mut host, "aarch64", "linux", 18, None));
    assert_eq!(e.kind, ErrorKind::InstallFailed);
    assert!(host.files.is_empty());
    assert!(host.asked.iter().all(|a| !a.starts_with("move ")));
}

#[test]
fn failed_move_is_an_install_failure() {
    let mut host = Host::serving(BINARY);
    host.failing.insert("promote");
    let e = failed(handshake(&mut host, "x86_64", "linux", 19, None));
    assert_eq!(e.kind, ErrorKind::InstallFailed);
    assert!(host.files.is_empty());
    let n = host.asked.len();
    assert_eq!(host.asked[n - 3], "exists server-x86_64-unknown-linux-gnu");
    assert_eq!(host.asked[n - 2], "remove server-x86_64-unknown-linux-gnu.part");
    assert_eq!(host.asked[n - 1], "remove server-x86_64-unknown-linux-gnu.gz");
}

#[test]
fn failed_move_is_forgiven_when_another_installer_won() {
    let mut host = Host::serving(b"a later build");
    host.failing.insert("promote-raced");
    let descriptor = launched(handshake(&mut host, "x86_64", "linux", 20, None));
    assert_cached(&descriptor, "server-x86_64-unknown-linux-gnu");
    assert_eq!(host.files.get("server-x86_64-unknown-linux-gnu").map(Vec::as_slice), Some(BINARY));
    assert_eq!(host.files.len(), 1);
}

#[test]
fn other_methods_are_refused() {
    let mut host = Host::serving(BINARY);
    let mut request = request(21, None);
    request.method = "shutdown".to_string();
    let first = Controller::handle_request(&profile(), &environment("x86_64", "linux"), request);
    assert_eq!(first.0.phase(), Phase::Failed);
    let (_, mut responses) = host.serve(first);
    let response = responses.pop().unwrap();
    assert_eq!(response.id, 21);
    let e = failed(response);
    assert_eq!(e.kind, ErrorKind::UnsupportedMethod);
    assert_eq!(e.message, "unsupported method shutdown");
    assert!(!e.notify);
    assert!(host.asked.is_empty());
}

#[test]
fn payload_that_does_not_decode_is_refused() {
    for text in ["{}", "[]", "null", "\"initialize\"", r#"{"capabilities": 3}"#, r#"{"capabilities": {}, "processId": "x"}"#] {
        let mut host = Host::serving(BINARY);
        let request = HandshakeRequest {
            id: 22,
            method: "initialize".to_string(),
            params: serde_json::from_str(text).unwrap(),
        };
        let first = Controller::handle_request(&profile(), &environment("x86_64", "linux"), request);
        let (_, mut responses) = host.serve(first);
        let response = responses.pop().unwrap();
        assert_eq!(response.id, 22);
        let e = failed(response);
        assert_eq!(e.kind, ErrorKind::MalformedRequest, "{text}");
        assert_eq!(e.message, "malformed initialize request");
        assert!(!e.notify);
        assert!(host.asked.is_empty());
    }
}

#[test]
fn unreadable_environment_is_an_unsupported_platform() {
    let envs = [
        EnvironmentContext { architecture: None, operating_system: Some("linux".to_string()), plugin_uri: Some(PLUGIN.to_string()) },
        EnvironmentContext { architecture: Some("x86_64".to_string()), operating_system: None, plugin_uri: Some(PLUGIN.to_string()) },
        EnvironmentContext { architecture: Some("x86_64".to_string()), operating_system: Some("linux".to_string()), plugin_uri: None },
        EnvironmentContext { architecture: Some("x86_64".to_string()), operating_system: Some("linux".to_string()), plugin_uri: Some("nowhere".to_string()) },
    ];
    for env in envs {
        let mut host = Host::serving(BINARY);
        let first = Controller::handle_request(&profile(), &env, request(23, None));
        let (_, mut responses) = host.serve(first);
        let e = failed(responses.pop().unwrap());
        assert_eq!(e.kind, ErrorKind::UnsupportedPlatform);
        assert_eq!(e.message, "unsupported platform");
        assert!(host.asked.is_empty());
    }
}

#[test]
fn phases_follow_the_work() {
    let first = Controller::handle_request(&profile(), &environment("x86_64", "linux"), request(24, None));
    let (controller, action) = first;
    assert_eq!(controller.id(), 24);
    assert_eq!(controller.phase(), Phase::Resolving);
    assert!(matches!(action, Action::CheckCache { .. }));
    let (controller, action) = controller.step(Event::CacheChecked { present: false });
    assert_eq!(controller.phase(), Phase::Fetching);
    assert!(matches!(action, Action::Download { .. }));
    let body = pack(BINARY);
    let reply = HttpReply { status: 200, declared_length: None, body: body.clone() };
    let (controller, action) = controller.step(Event::Downloaded { reply: Some(reply) });
    assert_eq!(controller.phase(), Phase::Fetching);
    match action {
        Action::WriteTemp { path, bytes } => {
            assert_eq!(path, "server-x86_64-unknown-linux-gnu.gz");
            assert_eq!(bytes, body);
        }
        other => panic!("{other:?}"),
    }
    let (controller, action) = controller.step(Event::Written { ok: true });
    assert_eq!(controller.phase(), Phase::Installing);
    assert!(matches!(action, Action::ReadTemp { .. }));
    let (controller, action) = controller.step(Event::Read { bytes: Some(body) });
    assert_eq!(controller.phase(), Phase::Installing);
    match action {
        Action::WriteStaging { path, bytes } => {
            assert_eq!(path, "server-x86_64-unknown-linux-gnu.part");
            assert_eq!(bytes, BINARY);
        }
        other => panic!("{other:?}"),
    }
    let (controller, action) = controller.step(Event::Written { ok: true });
    assert!(matches!(action, Action::MarkExecutable { .. }));
    let (controller, action) = controller.step(Event::Marked { ok: true });
    assert!(matches!(action, Action::Promote { .. }));
    let (controller, action) = controller.step(Event::Promoted { ok: true });
    assert_eq!(controller.phase(), Phase::Installing);
    assert!(!controller.is_terminal());
    assert!(matches!(action, Action::RemoveTemp { .. }));
    let (controller, action) = controller.step(Event::Removed { gone: true });
    assert_eq!(controller.phase(), Phase::Done);
    assert!(controller.is_terminal());
    assert!(matches!(action, Action::Respond(_)));
}

#[test]
fn nothing_follows_the_response() {
    let first = Controller::handle_request(&profile(), &environment("x86_64", "linux"), request(25, None));
    let (controller, action) = first.0.step(Event::CacheChecked { present: true });
    assert!(matches!(action, Action::Respond(_)));
    assert_eq!(controller.phase(), Phase::Done);
    let (controller, action) = controller.step(Event::CacheChecked { present: false });
    assert!(matches!(action, Action::Idle));
    assert_eq!(controller.phase(), Phase::Done);
    let (controller, action) = controller.step(Event::Removed { gone: true });
    assert!(matches!(action, Action::Idle));
    assert_eq!(controller.id(), 25);
}

#[test]
fn report_on_other_work_counts_as_failure() {
    let options = Some(r#"{"serverPath": "/bin/ra"}"#);
    let first = Controller::handle_request(&profile(), &environment("x86_64", "linux"), request(26, options));
    assert!(matches!(first.1, Action::Probe { .. }));
    let (controller, action) = first.0.step(Event::CacheChecked { present: true });
    assert_eq!(controller.phase(), Phase::Failed);
    match action {
        Action::Respond(response) => assert_eq!(failed(response).kind, ErrorKind::ServerPathNotFound),
        other => panic!("{other:?}"),
    }
    let first = Controller::handle_request(&profile(), &environment("x86_64", "linux"), request(27, None));
    let (controller, action) = first.0.step(Event::Probed { found: true });
    assert_eq!(controller.phase(), Phase::Fetching);
    assert!(matches!(action, Action::Download { .. }));
    let (controller, action) = controller.step(Event::Written { ok: true });
    assert_eq!(controller.phase(), Phase::Fetching);
    assert!(matches!(action, Action::RemoveTemp { .. }));
    let (_, action) = controller.step(Event::Removed { gone: true });
    match action {
        Action::Respond(response) => assert_eq!(failed(response).kind, ErrorKind::FetchFailed),
        other => panic!("{other:?}"),
    }
}

#[test]
fn initialize_starts_from_plugin_info() {
    let info = PluginInfo::new(
        "aarch64".to_string(),
        "linux".to_string(),
        Configuration::new("toml".to_string(), None),
    );
    let (controller, action) = Controller::initialize(&profile(), info, &Some(PLUGIN.to_string()), 28);
    assert_eq!(controller.id(), 28);
    match action {
        Action::CheckCache { path } => assert_eq!(path, "server-aarch64-unknown-linux-gnu"),
        other => panic!("{other:?}"),
    }
    let (_, action) = controller.step(Event::CacheChecked { present: true });
    match action {
        Action::Respond(response) => {
            assert_eq!(response.id, 28);
            assert_eq!(launched(response).filters[0].language, "toml");
        }
        other => panic!("{other:?}"),
    }
}

#[test]
fn rust_analyzer_is_fetched_from_its_release() {
    let first = Controller::handle_request(
        &ServerProfile::rust_analyzer(),
        &environment("x86_64", "linux"),
        request(29, None),
    );
    let (_, action) = first.0.step(Event::CacheChecked { present: false });
    match action {
        Action::Download { url } => assert_eq!(
            url,
            "https://github.com/rust-lang/rust-analyzer/releases/download/2023-02-13/rust-analyzer-x86_64-unknown-linux-gnu.gz"
        ),
        other => panic!("{other:?}"),
    }
}
