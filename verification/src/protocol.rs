//! What passes between the controller and the host: the request that opens a
//! handshake, the work the controller asks for, what that work reported, and
//! the one response that closes the handshake.

use vstd::prelude::*;
use serde_json::Value;
use crate::failure::{StructuredError, StructuredErrorView};
use crate::fetch::{view_reply, HttpReply, HttpReplyView};
use crate::install::view_bytes;
use crate::launch::{LaunchDescriptor, LaunchDescriptorView};

verus! {

/// A request of the host, with the id its response must carry.
#[derive(Debug)]
pub struct HandshakeRequest {
    pub id: u64,
    pub method: String,
    pub params: Value,
}

pub struct HandshakeRequestView {
    pub id: u64,
    pub method: Seq<char>,
    pub params: Value,
}

impl View for HandshakeRequest {
    type V = HandshakeRequestView;

    open spec fn view(&self) -> HandshakeRequestView {
        HandshakeRequestView { id: self.id, method: self.method@, params: self.params }
    }
}

/// How a resolution ended: with a server to launch, or with a failure.
/// There is nothing in between.
#[derive(Debug)]
pub enum ResolutionOutcome {
    Launch(LaunchDescriptor),
    Failure(StructuredError),
}

pub enum ResolutionOutcomeView {
    Launch(LaunchDescriptorView),
    Failure(StructuredErrorView),
}

impl View for ResolutionOutcome {
    type V = ResolutionOutcomeView;

    open spec fn view(&self) -> ResolutionOutcomeView {
        match self {
            ResolutionOutcome::Launch(d) => ResolutionOutcomeView::Launch(d@),
            ResolutionOutcome::Failure(e) => ResolutionOutcomeView::Failure(e@),
        }
    }
}

/// The answer to a request, under the id of that request.
#[derive(Debug)]
pub struct Response {
    pub id: u64,
    pub outcome: ResolutionOutcome,
}

pub struct ResponseView {
    pub id: u64,
    pub outcome: ResolutionOutcomeView,
}

impl View for Response {
    type V = ResponseView;

    open spec fn view(&self) -> ResponseView {
        ResponseView { id: self.id, outcome: self.outcome@ }
    }
}

/// What the host is asked to do next. Each piece of work is answered by one
/// [`Event`]; `Respond` and `Idle` are answered by none.
#[derive(Debug)]
pub enum Action {
    /// Run the lookup program on the path; answered by `Probed`.
    Probe { program: String, path: String },
    /// Test whether the cached binary exists; answered by `CacheChecked`.
    CheckCache { path: String },
    /// GET the address; answered by `Downloaded`.
    Download { url: String },
    /// Write the compressed bytes to the download path; answered by
    /// `Written`.
    WriteTemp { path: String, bytes: Vec<u8> },
    /// Read the download back; answered by `Read`.
    ReadTemp { path: String },
    /// Write the unpacked binary beside the cache path; answered by
    /// `Written`.
    WriteStaging { path: String, bytes: Vec<u8> },
    /// Mark the unpacked binary executable; answered by `Marked`.
    MarkExecutable { path: String },
    /// Move the unpacked binary onto the cache path in one step; answered by
    /// `Promoted`.
    Promote { from: String, to: String },
    /// Remove what is left of the unpacked binary; answered by `Removed`.
    RemoveStaging { path: String },
    /// Remove the download; answered by `Removed`.
    RemoveTemp { path: String },
    /// Send the response. The handshake is over.
    Respond(Response),
    /// Nothing: the handshake was over before.
    Idle,
}

pub enum ActionView {
    Probe { program: Seq<char>, path: Seq<char> },
    CheckCache { path: Seq<char> },
    Download { url: Seq<char> },
    WriteTemp { path: Seq<char>, bytes: Seq<u8> },
    ReadTemp { path: Seq<char> },
    WriteStaging { path: Seq<char>, bytes: Seq<u8> },
    MarkExecutable { path: Seq<char> },
    Promote { from: Seq<char>, to: Seq<char> },
    RemoveStaging { path: Seq<char> },
    RemoveTemp { path: Seq<char> },
    Respond(ResponseView),
    Idle,
}

impl View for Action {
    type V = ActionView;

    open spec fn view(&self) -> ActionView {
        match self {
            Action::Probe { program, path } => ActionView::Probe { program: program@, path: path@ },
            Action::CheckCache { path } => ActionView::CheckCache { path: path@ },
            Action::Download { url } => ActionView::Download { url: url@ },
            Action::WriteTemp { path, bytes } => ActionView::WriteTemp {
                path: path@,
                bytes: bytes@,
            },
            Action::ReadTemp { path } => ActionView::ReadTemp { path: path@ },
            Action::WriteStaging { path, bytes } => ActionView::WriteStaging {
                path: path@,
                bytes: bytes@,
            },
            Action::MarkExecutable { path } => ActionView::MarkExecutable { path: path@ },
            Action::Promote { from, to } => ActionView::Promote { from: from@, to: to@ },
            Action::RemoveStaging { path } => ActionView::RemoveStaging { path: path@ },
            Action::RemoveTemp { path } => ActionView::RemoveTemp { path: path@ },
            Action::Respond(response) => ActionView::Respond(response@),
            Action::Idle => ActionView::Idle,
        }
    }
}

/// What the host reports after it did what an [`Action`] asked for.
#[derive(Debug)]
pub enum Event {
    /// Whether the lookup program ran and found the path.
    Probed { found: bool },
    /// Whether the cached binary exists.
    CacheChecked { present: bool },
    /// What the GET brought, or nothing where no reply could be read.
    Downloaded { reply: Option<HttpReply> },
    /// Whether all bytes were written.
    Written { ok: bool },
    /// The bytes of the download, or nothing where it could not be read.
    Read { bytes: Option<Vec<u8>> },
    /// Whether the file was marked executable.
    Marked { ok: bool },
    /// Whether the file was moved.
    Promoted { ok: bool },
    /// Whether the file is gone: it was removed, or it was not there.
    Removed { gone: bool },
}

pub enum EventView {
    Probed { found: bool },
    CacheChecked { present: bool },
    Downloaded { reply: Option<HttpReplyView> },
    Written { ok: bool },
    Read { bytes: Option<Seq<u8>> },
    Marked { ok: bool },
    Promoted { ok: bool },
    Removed { gone: bool },
}

impl View for Event {
    type V = EventView;

    open spec fn view(&self) -> EventView {
        match self {
            Event::Probed { found } => EventView::Probed { found: *found },
            Event::CacheChecked { present } => EventView::CacheChecked { present: *present },
            Event::Downloaded { reply } => EventView::Downloaded { reply: view_reply(*reply) },
            Event::Written { ok } => EventView::Written { ok: *ok },
            Event::Read { bytes } => EventView::Read { bytes: view_bytes(*bytes) },
            Event::Marked { ok } => EventView::Marked { ok: *ok },
            Event::Promoted { ok } => EventView::Promoted { ok: *ok },
            Event::Removed { gone } => EventView::Removed { gone: *gone },
        }
    }
}

impl EventView {
    /// The lookup found the path. Any other report counts as not found.
    pub open spec fn found(self) -> bool {
        self == EventView::Probed { found: true }
    }

    /// The cached binary exists. Any other report counts as absent.
    pub open spec fn present(self) -> bool {
        self == EventView::CacheChecked { present: true }
    }

    /// The reply of the GET. Any other report counts as no reply.
    pub open spec fn reply(self) -> Option<HttpReplyView> {
        match self {
            EventView::Downloaded { reply } => reply,
            _ => None,
        }
    }

    /// The write went through. Any other report counts as a failed write.
    pub open spec fn written(self) -> bool {
        self == EventView::Written { ok: true }
    }

    /// The bytes read back. Any other report counts as an unreadable file.
    pub open spec fn bytes(self) -> Option<Seq<u8>> {
        match self {
            EventView::Read { bytes } => bytes,
            _ => None,
        }
    }

    /// The file was marked. Any other report counts as a failure to mark.
    pub open spec fn marked(self) -> bool {
        self == EventView::Marked { ok: true }
    }

    /// The file was moved. Any other report counts as a failure to move.
    pub open spec fn promoted(self) -> bool {
        self == EventView::Promoted { ok: true }
    }

    /// The file is gone. Any other report leaves open whether it is. The
    /// controller goes on either way: there is nothing more it could ask for.
    pub open spec fn removed(self) -> bool {
        self == EventView::Removed { gone: true }
    }
}

impl Event {
    pub fn found(&self) -> (r: bool)
        ensures
            r == self@.found(),
    {
        match self {
            Event::Probed { found } => *found,
            _ => false,
        }
    }

    pub fn present(&self) -> (r: bool)
        ensures
            r == self@.present(),
    {
        match self {
            Event::CacheChecked { present } => *present,
            _ => false,
        }
    }

    pub fn into_reply(self) -> (r: Option<HttpReply>)
        ensures
            view_reply(r) == self@.reply(),
    {
        match self {
            Event::Downloaded { reply } => reply,
            _ => None,
        }
    }

    pub fn written(&self) -> (r: bool)
        ensures
            r == self@.written(),
    {
        match self {
            Event::Written { ok } => *ok,
            _ => false,
        }
    }

    pub fn into_bytes(self) -> (r: Option<Vec<u8>>)
        ensures
            view_bytes(r) == self@.bytes(),
    {
        match self {
            Event::Read { bytes } => bytes,
            _ => None,
        }
    }

    pub fn marked(&self) -> (r: bool)
        ensures
            r == self@.marked(),
    {
        match self {
            Event::Marked { ok } => *ok,
            _ => false,
        }
    }

    pub fn promoted(&self) -> (r: bool)
        ensures
            r == self@.promoted(),
    {
        match self {
            Event::Promoted { ok } => *ok,
            _ => false,
        }
    }

    pub fn removed(&self) -> (r: bool)
        ensures
            r == self@.removed(),
    {
        match self {
            Event::Removed { gone } => *gone,
            _ => false,
        }
    }
}

} // verus!
