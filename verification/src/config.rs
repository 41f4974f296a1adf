//! What the host supplies with a handshake: the facts of its environment and
//! the configuration of the user.

use vstd::prelude::*;
use serde_json::Value;
use crate::platform::{resolve, spec_resolve, PlatformKey, UnsupportedPlatform};
use crate::trusted::{json_as_str, json_get, json_member, json_text};

verus! {

/// The text a JSON value holds under a key, when it is an object whose member
/// of that name is a string.
pub open spec fn spec_text_member(value: Value, key: Seq<char>) -> Option<Seq<char>> {
    match json_member(value, key) {
        Some(m) => json_text(m),
        None => None,
    }
}

/// Of two places a path may be configured in, the first that holds a
/// non-empty text wins; an empty text counts as none.
pub open spec fn spec_first_path(top: Option<Seq<char>>, nested: Option<Seq<char>>) -> Option<
    Seq<char>,
> {
    if top is Some && top->0.len() > 0 {
        top
    } else if nested is Some && nested->0.len() > 0 {
        nested
    } else {
        None
    }
}

/// The server path configured in the initialization options: their
/// `serverPath`, or failing that the `serverPath` of their `configuration`.
pub open spec fn spec_server_path(options: Option<Value>) -> Option<Seq<char>> {
    match options {
        Some(o) => spec_first_path(
            spec_text_member(o, "serverPath"@),
            match json_member(o, "configuration"@) {
                Some(c) => spec_text_member(c, "serverPath"@),
                None => None,
            },
        ),
        None => None,
    }
}

/// Picks the configured path among the texts found in the two places.
pub fn first_path(top: Option<&str>, nested: Option<&str>) -> (r: Option<String>)
    ensures
        r.deep_view() == spec_first_path(top.deep_view(), nested.deep_view()),
{
    match top {
        Some(t) => {
            if !t.is_empty() {
                return Some(String::from_str(t));
            }
        },
        None => {},
    }
    match nested {
        Some(n) => {
            if !n.is_empty() {
                return Some(String::from_str(n));
            }
        },
        None => {},
    }
    None
}

fn text_member<'a>(value: &'a Value, key: &str) -> (r: Option<&'a str>)
    ensures
        r.deep_view() == spec_text_member(*value, key@),
{
    match json_get(value, key) {
        Some(m) => json_as_str(m),
        None => None,
    }
}

/// The configuration of one handshake: the language the server is
/// registered for, and the initialization options, which are read for the
/// server path and otherwise passed on to the server untouched.
#[derive(Debug, Clone)]
pub struct Configuration {
    language_id: String,
    options: Option<Value>,
}

pub struct ConfigurationView {
    pub language_id: Seq<char>,
    pub options: Option<Value>,
}

impl View for Configuration {
    type V = ConfigurationView;

    closed spec fn view(&self) -> ConfigurationView {
        ConfigurationView { language_id: self.language_id@, options: self.options }
    }
}

impl ConfigurationView {
    /// The override the user asks for, if any.
    pub open spec fn server_path(self) -> Option<Seq<char>> {
        spec_server_path(self.options)
    }
}

impl Configuration {
    pub fn new(language_id: String, options: Option<Value>) -> (c: Configuration)
        ensures
            c@ == (ConfigurationView { language_id: language_id@, options: options }),
    {
        Configuration { language_id, options }
    }

    pub fn language_id(&self) -> (r: &str)
        ensures
            r@ == self@.language_id,
    {
        self.language_id.as_str()
    }

    pub fn options(&self) -> (r: &Option<Value>)
        ensures
            *r == self@.options,
    {
        &self.options
    }

    /// Takes the configuration apart again.
    pub fn into_parts(self) -> (r: (String, Option<Value>))
        ensures
            r.0@ == self@.language_id,
            r.1 == self@.options,
    {
        (self.language_id, self.options)
    }

    /// The explicit server path of the user, where one is configured and is
    /// not empty.
    pub fn server_path(&self) -> (r: Option<String>)
        ensures
            r.deep_view() == self@.server_path(),
    {
        match &self.options {
            Some(o) => {
                let top = text_member(o, "serverPath");
                let nested = match json_get(o, "configuration") {
                    Some(c) => text_member(c, "serverPath"),
                    None => None,
                };
                first_path(top, nested)
            },
            None => None,
        }
    }
}

/// The facts of the environment as the host makes them known. A fact that
/// could not be read is absent.
#[derive(Debug)]
pub struct EnvironmentContext {
    pub architecture: Option<String>,
    pub operating_system: Option<String>,
    pub plugin_uri: Option<String>,
}

pub struct EnvironmentContextView {
    pub architecture: Option<Seq<char>>,
    pub operating_system: Option<Seq<char>>,
    pub plugin_uri: Option<Seq<char>>,
}

impl View for EnvironmentContext {
    type V = EnvironmentContextView;

    open spec fn view(&self) -> EnvironmentContextView {
        EnvironmentContextView {
            architecture: self.architecture.deep_view(),
            operating_system: self.operating_system.deep_view(),
            plugin_uri: self.plugin_uri.deep_view(),
        }
    }
}

/// A fact as raw text; one that could not be read is the empty text, which
/// names nothing.
pub open spec fn spec_raw(fact: Option<Seq<char>>) -> Seq<char> {
    match fact {
        Some(t) => t,
        None => Seq::empty(),
    }
}

fn raw(fact: &Option<String>) -> (r: String)
    ensures
        r@ == spec_raw(fact.deep_view()),
{
    match fact {
        Some(t) => t.clone(),
        None => String::new(),
    }
}

/// What a resolution starts from: the raw architecture and operating system
/// of the host, and the configuration.
#[derive(Debug, Clone)]
pub struct PluginInfo {
    arch: String,
    os: String,
    configuration: Configuration,
}

pub struct PluginInfoView {
    pub arch: Seq<char>,
    pub os: Seq<char>,
    pub configuration: ConfigurationView,
}

impl View for PluginInfo {
    type V = PluginInfoView;

    closed spec fn view(&self) -> PluginInfoView {
        PluginInfoView { arch: self.arch@, os: self.os@, configuration: self.configuration@ }
    }
}

impl PluginInfo {
    pub fn new(arch: String, os: String, configuration: Configuration) -> (r: PluginInfo)
        ensures
            r@ == (PluginInfoView { arch: arch@, os: os@, configuration: configuration@ }),
    {
        PluginInfo { arch, os, configuration }
    }

    /// Takes architecture and operating system from the environment.
    pub fn from_environment(env: &EnvironmentContext, configuration: Configuration) -> (r:
        PluginInfo)
        ensures
            r@ == (PluginInfoView {
                arch: spec_raw(env@.architecture),
                os: spec_raw(env@.operating_system),
                configuration: configuration@,
            }),
    {
        PluginInfo { arch: raw(&env.architecture), os: raw(&env.operating_system), configuration }
    }

    pub fn arch(&self) -> (r: &str)
        ensures
            r@ == self@.arch,
    {
        self.arch.as_str()
    }

    pub fn os(&self) -> (r: &str)
        ensures
            r@ == self@.os,
    {
        self.os.as_str()
    }

    pub fn configuration(&self) -> (r: &Configuration)
        ensures
            r@ == self@.configuration,
    {
        &self.configuration
    }

    /// Takes the three parts out again.
    pub fn into_parts(self) -> (r: (String, String, Configuration))
        ensures
            r.0@ == self@.arch,
            r.1@ == self@.os,
            r.2@ == self@.configuration,
    {
        (self.arch, self.os, self.configuration)
    }

    /// The platform the raw facts name.
    pub fn platform(&self) -> (r: Result<PlatformKey, UnsupportedPlatform>)
        ensures
            r == spec_resolve(self@.arch, self@.os),
    {
        resolve(self.arch.as_str(), self.os.as_str())
    }
}

} // verus!
