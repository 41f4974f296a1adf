//! Bootstrap of a language server: which binary to run, how to acquire it,
//! and what to answer to the `initialize` handshake of the host.
//!
//! The host drives a [`Controller`]: it hands over the request, does the
//! work each [`Action`] asks for, and reports back with an [`Event`], until
//! the controller hands out the one [`Response`]. The controller itself
//! reads no file and opens no connection.

pub mod artifact;
pub mod config;
pub mod controller;
pub mod disk;
pub mod failure;
pub mod fetch;
pub mod install;
pub mod launch;
pub mod laws;
pub mod locator;
pub mod model;
pub mod platform;
pub mod protocol;
pub mod text;
pub mod trusted;

pub use artifact::{ArtifactDescriptor, ServerProfile};
pub use config::{Configuration, EnvironmentContext, PluginInfo};
pub use controller::{cache_uri, override_uri, Controller};
pub use failure::{ErrorKind, StructuredError};
pub use fetch::{accept_reply, FetchError, HttpReply};
pub use install::{unpack, InstallError};
pub use launch::{DocumentFilter, ExecutableRef, LaunchDescriptor};
pub use locator::{locate, Decision, HostFacts};
pub use model::Phase;
pub use platform::{probe_program, resolve, Arch, Os, PlatformKey, UnsupportedPlatform};
pub use protocol::{Action, Event, HandshakeRequest, ResolutionOutcome, Response};
