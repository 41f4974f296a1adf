//! A model of what the host does to the three files of an acquisition, and
//! of a handshake as it runs against it. The laws of the crate speak of
//! these runs.
//!
//! The model takes the following of the host. A write that reports success
//! has written the file whole; one that does not may leave anything. Marking
//! a file executable, where it reports success, has marked it. A move either
//! happens whole, mark included, or leaves both files as they were. A
//! removal that reports the file gone has left no file; one that does not
//! has left the file as it was. Other installers may put a complete binary,
//! marked executable, at the cache path at any time, and touch nothing else.

use vstd::prelude::*;
use crate::model::{spec_step, ControllerView};
use crate::protocol::{ActionView, EventView, ResponseView};

verus! {

/// What is at a path.
#[derive(PartialEq, Eq, Structural)]
pub enum FileState {
    /// No file.
    Absent,
    /// A file that may be cut short.
    Partial,
    /// A file with all its content.
    Complete,
}

/// The files of one artifact.
pub struct Disk {
    /// The compressed download.
    pub temp: FileState,
    /// The binary while it is unpacked.
    pub staging: FileState,
    /// Whether the binary that is unpacked is marked executable.
    pub staging_marked: bool,
    /// The binary where it is run from.
    pub cache: FileState,
    /// Whether the binary in the cache is marked executable.
    pub cache_marked: bool,
}

impl Disk {
    /// Whether the cache path holds nothing that must not be launched: no
    /// file cut short, and none that lacks the mark where `needs_mark` says
    /// that the platform asks for it.
    pub open spec fn sound(self, needs_mark: bool) -> bool {
        &&& !(self.cache is Partial)
        &&& self.cache is Complete && needs_mark ==> self.cache_marked
    }
}

/// Whether the cache path may be found as `post` has it after some work that
/// left it as `pre` has it: unchanged, or with a complete and marked binary
/// that another installer put where none was.
pub open spec fn settles(pre: Disk, post: Disk) -> bool {
    ||| post.cache == pre.cache && post.cache_marked == pre.cache_marked
    ||| pre.cache is Absent && post.cache is Complete && post.cache_marked
}

/// Whether the binary that is unpacked is in `post` as it was in `pre`.
pub open spec fn staging_rests(pre: Disk, post: Disk) -> bool {
    post.staging == pre.staging && post.staging_marked == pre.staging_marked
}

/// Whether the host, asked for `action` on `pre`, may report `event` and
/// leave `post`. Nothing is reported on a response or on idling.
pub open spec fn performs(pre: Disk, action: ActionView, event: EventView, post: Disk) -> bool {
    match action {
        ActionView::Probe { .. } => {
            &&& event is Probed
            &&& post.temp == pre.temp
            &&& staging_rests(pre, post)
            &&& settles(pre, post)
        },
        ActionView::CheckCache { .. } => {
            &&& event is CacheChecked
            &&& post.temp == pre.temp
            &&& staging_rests(pre, post)
            &&& settles(pre, post)
            &&& !(pre.cache is Absent) ==> event.present()
            &&& event.present() ==> !(post.cache is Absent)
        },
        ActionView::Download { .. } => {
            &&& event is Downloaded
            &&& post.temp == pre.temp
            &&& staging_rests(pre, post)
            &&& settles(pre, post)
        },
        ActionView::WriteTemp { .. } => {
            &&& event is Written
            &&& event.written() ==> post.temp is Complete
            &&& staging_rests(pre, post)
            &&& settles(pre, post)
        },
        ActionView::ReadTemp { .. } => {
            &&& event is Read
            &&& post.temp == pre.temp
            &&& staging_rests(pre, post)
            &&& settles(pre, post)
        },
        ActionView::WriteStaging { .. } => {
            &&& event is Written
            &&& post.temp == pre.temp
            &&& event.written() ==> post.staging is Complete
            &&& settles(pre, post)
        },
        ActionView::MarkExecutable { .. } => {
            &&& event is Marked
            &&& post.temp == pre.temp
            &&& post.staging == pre.staging
            &&& event.marked() ==> post.staging_marked
            &&& settles(pre, post)
        },
        ActionView::Promote { .. } => {
            &&& event is Promoted
            &&& post.temp == pre.temp
            &&& if event.promoted() {
                &&& post.staging is Absent
                &&& post.cache == pre.staging
                &&& post.cache_marked == pre.staging_marked
            } else {
                &&& staging_rests(pre, post)
                &&& settles(pre, post)
            }
        },
        ActionView::RemoveStaging { .. } => {
            &&& event is Removed
            &&& post.temp == pre.temp
            &&& if event.removed() {
                post.staging is Absent
            } else {
                staging_rests(pre, post)
            }
            &&& settles(pre, post)
        },
        ActionView::RemoveTemp { .. } => {
            &&& event is Removed
            &&& if event.removed() {
                post.temp is Absent
            } else {
                post.temp == pre.temp
            }
            &&& staging_rests(pre, post)
            &&& settles(pre, post)
        },
        ActionView::Respond(_) => false,
        ActionView::Idle => false,
    }
}

/// One report of the host: what it says, and the disk it leaves.
pub struct Report {
    pub event: EventView,
    pub disk: Disk,
}

/// A handshake under way: the controller, the work it asked for last, the
/// disk, and what has been asked of the host so far.
pub struct Execution {
    pub controller: ControllerView,
    pub action: ActionView,
    pub disk: Disk,
    /// How many downloads were asked for.
    pub downloads: nat,
    /// The responses handed out, in order.
    pub responses: Seq<ResponseView>,
}

/// What an action adds to the downloads asked for.
pub open spec fn downloads_of(action: ActionView) -> nat {
    if action is Download {
        1
    } else {
        0
    }
}

/// What an action adds to the responses handed out.
pub open spec fn responses_of(action: ActionView) -> Seq<ResponseView> {
    match action {
        ActionView::Respond(response) => seq![response],
        _ => Seq::empty(),
    }
}

/// The handshake as it stands when the controller has taken the request.
pub open spec fn start(first: (ControllerView, ActionView), disk: Disk) -> Execution {
    Execution {
        controller: first.0,
        action: first.1,
        disk: disk,
        downloads: downloads_of(first.1),
        responses: responses_of(first.1),
    }
}

/// The handshake after the host has reported once more.
pub open spec fn advance(x: Execution, report: Report) -> Execution {
    let next = spec_step(x.controller, report.event);
    Execution {
        controller: next.0,
        action: next.1,
        disk: report.disk,
        downloads: x.downloads + downloads_of(next.1),
        responses: x.responses + responses_of(next.1),
    }
}

/// The handshake after a sequence of reports.
pub open spec fn run(x: Execution, reports: Seq<Report>) -> Execution
    decreases reports.len(),
{
    if reports.len() == 0 {
        x
    } else {
        advance(run(x, reports.drop_last()), reports.last())
    }
}

/// Whether each report is one the host may give to the work that was asked
/// for just before it.
pub open spec fn valid(x: Execution, reports: Seq<Report>) -> bool
    decreases reports.len(),
{
    if reports.len() == 0 {
        true
    } else {
        let before = run(x, reports.drop_last());
        &&& valid(x, reports.drop_last())
        &&& performs(before.disk, before.action, reports.last().event, reports.last().disk)
    }
}

} // verus!
