//! The release asset that holds the server binary for one platform: what it
//! is called, where it is published and where it is kept locally.

use vstd::prelude::*;
use crate::platform::PlatformKey;

verus! {

/// Which server is launched: the language it serves and the release its
/// binaries are taken from.
#[derive(Debug)]
pub struct ServerProfile {
    language_id: String,
    server_name: String,
    repository: String,
    release_tag: String,
}

pub struct ServerProfileView {
    pub language_id: Seq<char>,
    pub server_name: Seq<char>,
    pub repository: Seq<char>,
    pub release_tag: Seq<char>,
}

impl View for ServerProfile {
    type V = ServerProfileView;

    closed spec fn view(&self) -> ServerProfileView {
        ServerProfileView {
            language_id: self.language_id@,
            server_name: self.server_name@,
            repository: self.repository@,
            release_tag: self.release_tag@,
        }
    }
}

impl ServerProfile {
    pub fn new(language_id: &str, server_name: &str, repository: &str, release_tag: &str) -> (r:
        ServerProfile)
        ensures
            r@ == (ServerProfileView {
                language_id: language_id@,
                server_name: server_name@,
                repository: repository@,
                release_tag: release_tag@,
            }),
    {
        ServerProfile {
            language_id: String::from_str(language_id),
            server_name: String::from_str(server_name),
            repository: String::from_str(repository),
            release_tag: String::from_str(release_tag),
        }
    }

    /// rust-analyzer for Rust sources, from its release of 2023-02-13.
    pub fn rust_analyzer() -> (r: ServerProfile)
        ensures
            r@ == (ServerProfileView {
                language_id: "rust"@,
                server_name: "rust-analyzer"@,
                repository: "https://github.com/rust-lang/rust-analyzer"@,
                release_tag: "2023-02-13"@,
            }),
    {
        ServerProfile::new(
            "rust",
            "rust-analyzer",
            "https://github.com/rust-lang/rust-analyzer",
            "2023-02-13",
        )
    }

    pub fn language_id(&self) -> (r: &str)
        ensures
            r@ == self@.language_id,
    {
        self.language_id.as_str()
    }

    pub fn server_name(&self) -> (r: &str)
        ensures
            r@ == self@.server_name,
    {
        self.server_name.as_str()
    }

    pub fn repository(&self) -> (r: &str)
        ensures
            r@ == self@.repository,
    {
        self.repository.as_str()
    }

    pub fn release_tag(&self) -> (r: &str)
        ensures
            r@ == self@.release_tag,
    {
        self.release_tag.as_str()
    }
}

/// Everything that is derived from a platform key about the binary to run.
#[derive(Debug)]
pub struct ArtifactDescriptor {
    platform: PlatformKey,
    name: String,
    url: String,
    cache_path: String,
    temp_path: String,
    staging_path: String,
}

pub struct ArtifactDescriptorView {
    pub platform: PlatformKey,
    pub name: Seq<char>,
    pub url: Seq<char>,
    pub cache_path: Seq<char>,
    pub temp_path: Seq<char>,
    pub staging_path: Seq<char>,
}

impl View for ArtifactDescriptor {
    type V = ArtifactDescriptorView;

    closed spec fn view(&self) -> ArtifactDescriptorView {
        ArtifactDescriptorView {
            platform: self.platform,
            name: self.name@,
            url: self.url@,
            cache_path: self.cache_path@,
            temp_path: self.temp_path@,
            staging_path: self.staging_path@,
        }
    }
}

/// The file name of the binary: server name, architecture and target triple,
/// joined by hyphens.
pub open spec fn spec_artifact_name(server_name: Seq<char>, key: PlatformKey) -> Seq<char> {
    server_name + "-"@ + key.arch.spec_tag() + "-"@ + key.os.spec_triple()
}

/// The address of the compressed asset in the release of the profile.
pub open spec fn spec_artifact_url(profile: ServerProfileView, key: PlatformKey) -> Seq<char> {
    profile.repository + "/releases/download/"@ + profile.release_tag + "/"@ + spec_artifact_name(
        profile.server_name,
        key,
    ) + ".gz"@
}

/// The descriptor of a platform. The binary is cached under its own name in
/// the working directory; the download lies beside it with `.gz` appended,
/// and what is being unpacked with `.part` appended.
pub open spec fn spec_describe(
    profile: ServerProfileView,
    key: PlatformKey,
) -> ArtifactDescriptorView {
    let name = spec_artifact_name(profile.server_name, key);
    ArtifactDescriptorView {
        platform: key,
        name: name,
        url: spec_artifact_url(profile, key),
        cache_path: name,
        temp_path: name + ".gz"@,
        staging_path: name + ".part"@,
    }
}

impl ArtifactDescriptorView {
    /// The local paths are the name, bare and with the two suffixes.
    pub open spec fn wf(self) -> bool {
        &&& self.cache_path == self.name
        &&& self.temp_path == self.name + ".gz"@
        &&& self.staging_path == self.name + ".part"@
    }
}

impl ArtifactDescriptor {
    /// Computes the descriptor of a platform, afresh for each handshake.
    pub fn describe(profile: &ServerProfile, key: PlatformKey) -> (d: ArtifactDescriptor)
        ensures
            d@ == spec_describe(profile@, key),
            d@.wf(),
    {
        let mut name = String::from_str(profile.server_name());
        name.append("-");
        name.append(key.arch.tag());
        name.append("-");
        name.append(key.os.triple());
        let mut url = String::from_str(profile.repository());
        url.append("/releases/download/");
        url.append(profile.release_tag());
        url.append("/");
        url.append(name.as_str());
        url.append(".gz");
        let cache_path = name.clone();
        let mut temp_path = name.clone();
        temp_path.append(".gz");
        let mut staging_path = name.clone();
        staging_path.append(".part");
        ArtifactDescriptor { platform: key, name, url, cache_path, temp_path, staging_path }
    }

    pub fn platform(&self) -> (r: PlatformKey)
        ensures
            r == self@.platform,
    {
        self.platform
    }

    pub fn name(&self) -> (r: &str)
        ensures
            r@ == self@.name,
    {
        self.name.as_str()
    }

    pub fn url(&self) -> (r: &str)
        ensures
            r@ == self@.url,
    {
        self.url.as_str()
    }

    pub fn cache_path(&self) -> (r: &str)
        ensures
            r@ == self@.cache_path,
    {
        self.cache_path.as_str()
    }

    pub fn temp_path(&self) -> (r: &str)
        ensures
            r@ == self@.temp_path,
    {
        self.temp_path.as_str()
    }

    pub fn staging_path(&self) -> (r: &str)
        ensures
            r@ == self@.staging_path,
    {
        self.staging_path.as_str()
    }
}

} // verus!
