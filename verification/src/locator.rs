//! Which binary to run, decided from what is configured and what the host
//! found. Nothing here touches the host: the findings are handed in.

use vstd::prelude::*;
use crate::artifact::{spec_describe, ArtifactDescriptor, ArtifactDescriptorView, ServerProfile};
use crate::config::Configuration;
use crate::failure::{spec_server_path_not_found, StructuredError, StructuredErrorView};
use crate::platform::PlatformKey;

verus! {

/// What the host found: whether the lookup of the configured path succeeded,
/// and whether the cached binary exists. A finding that was not asked for is
/// not read.
#[derive(Clone, Copy, Debug, PartialEq, Eq, Structural)]
pub struct HostFacts {
    pub probe_found: bool,
    pub cache_present: bool,
}

/// Where the binary comes from.
#[derive(Debug)]
pub enum Decision {
    /// The configured path, which the host found.
    UseOverride(String),
    /// The binary at this path in the cache.
    UseCached(String),
    /// Nothing is there yet: this artifact has to be fetched.
    MustFetch(ArtifactDescriptor),
}

pub enum DecisionView {
    UseOverride(Seq<char>),
    UseCached(Seq<char>),
    MustFetch(ArtifactDescriptorView),
}

impl View for Decision {
    type V = DecisionView;

    open spec fn view(&self) -> DecisionView {
        match self {
            Decision::UseOverride(path) => DecisionView::UseOverride(path@),
            Decision::UseCached(path) => DecisionView::UseCached(path@),
            Decision::MustFetch(descriptor) => DecisionView::MustFetch(descriptor@),
        }
    }
}

/// A configured path goes before the cache, and the cache before the
/// network. A configured path that was not found is a failure: the cache and
/// the network are not fallen back on.
pub open spec fn spec_locate(
    server_path: Option<Seq<char>>,
    descriptor: ArtifactDescriptorView,
    facts: HostFacts,
) -> Result<DecisionView, StructuredErrorView> {
    match server_path {
        Some(path) => {
            if facts.probe_found {
                Ok(DecisionView::UseOverride(path))
            } else {
                Err(spec_server_path_not_found(path))
            }
        },
        None => {
            if facts.cache_present {
                Ok(DecisionView::UseCached(descriptor.cache_path))
            } else {
                Ok(DecisionView::MustFetch(descriptor))
            }
        },
    }
}

/// The view of a decision or of the failure in its place.
pub open spec fn view_located(r: Result<Decision, StructuredError>) -> Result<
    DecisionView,
    StructuredErrorView,
> {
    match r {
        Ok(d) => Ok(d@),
        Err(e) => Err(e@),
    }
}

/// Decides where the binary for `platform` comes from.
pub fn locate(
    config: &Configuration,
    profile: &ServerProfile,
    platform: PlatformKey,
    facts: HostFacts,
) -> (r: Result<Decision, StructuredError>)
    ensures
        view_located(r) == spec_locate(
            config@.server_path(),
            spec_describe(profile@, platform),
            facts,
        ),
        r is Err <==> config@.server_path() is Some && !facts.probe_found,
        r matches Ok(Decision::MustFetch(_)) ==> config@.server_path() is None
            && !facts.cache_present,
{
    match config.server_path() {
        Some(path) => {
            if facts.probe_found {
                Ok(Decision::UseOverride(path))
            } else {
                Err(StructuredError::server_path_not_found(path.as_str()))
            }
        },
        None => {
            let descriptor = ArtifactDescriptor::describe(profile, platform);
            if facts.cache_present {
                Ok(Decision::UseCached(String::from_str(descriptor.cache_path())))
            } else {
                Ok(Decision::MustFetch(descriptor))
            }
        },
    }
}

} // verus!
