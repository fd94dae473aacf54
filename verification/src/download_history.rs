//! What holds of a whole download: the run of a task over any course of
//! events, the progress it reports, the bytes it stores and the requests it
//! sends.
//!
//! The file system appears here as the set of paths that exist. An event is
//! counted only where the task takes it; one that does not answer the
//! outstanding action changes nothing.

use crate::download::{
    download_begin, download_step, DownloadActionView, DownloadErrorView, DownloadEventView,
    DownloadModel, DownloadPhase,
};
use vstd::prelude::*;

verus! {

/// One progress notification, with unbounded byte counts.
pub struct Report {
    pub downloaded: nat,
    pub total: nat,
}

/// The task after it was handed `events` one after the other.
pub open spec fn outcome(task: DownloadModel, events: Seq<DownloadEventView>) -> DownloadModel
    decreases events.len(),
{
    if events.len() == 0 {
        task
    } else {
        match download_step(task, events[0]) {
            Some(next) => outcome(next.task, events.drop_first()),
            None => outcome(task, events.drop_first()),
        }
    }
}

/// The progress notifications that the task asks for over `events`, in
/// order.
pub open spec fn reports(task: DownloadModel, events: Seq<DownloadEventView>) -> Seq<Report>
    decreases events.len(),
{
    if events.len() == 0 {
        seq![]
    } else {
        match download_step(task, events[0]) {
            Some(next) => match next.action {
                DownloadActionView::EmitProgress { downloaded, total } => seq![
                    Report { downloaded, total },
                ] + reports(next.task, events.drop_first()),
                _ => reports(next.task, events.drop_first()),
            },
            None => reports(task, events.drop_first()),
        }
    }
}

/// The bytes that are appended to the destination file over `events`: the
/// lengths of the chunks whose writing is reported done.
pub open spec fn stored(task: DownloadModel, events: Seq<DownloadEventView>) -> nat
    decreases events.len(),
{
    if events.len() == 0 {
        0
    } else {
        match download_step(task, events[0]) {
            Some(next) => (if task.phase == DownloadPhase::Writing
                && events[0] is ChunkWritten {
                task.pending
            } else {
                0
            }) + stored(next.task, events.drop_first()),
            None => stored(task, events.drop_first()),
        }
    }
}

/// The number of requests that the task asks to be sent over `events`.
pub open spec fn request_count(task: DownloadModel, events: Seq<DownloadEventView>) -> nat
    decreases events.len(),
{
    if events.len() == 0 {
        0
    } else {
        match download_step(task, events[0]) {
            Some(next) => (if next.action is SendRequest {
                1nat
            } else {
                0nat
            }) + request_count(next.task, events.drop_first()),
            None => request_count(task, events.drop_first()),
        }
    }
}

/// The number of actions that the task asks for over `events`.
pub open spec fn action_count(task: DownloadModel, events: Seq<DownloadEventView>) -> nat
    decreases events.len(),
{
    if events.len() == 0 {
        0
    } else {
        match download_step(task, events[0]) {
            Some(next) => 1 + action_count(next.task, events.drop_first()),
            None => action_count(task, events.drop_first()),
        }
    }
}

/// What the download returns over `events`, if it returns at all.
pub open spec fn answer(task: DownloadModel, events: Seq<DownloadEventView>) -> Option<
    Result<Seq<char>, DownloadErrorView>,
>
    decreases events.len(),
{
    if events.len() == 0 {
        None
    } else {
        match download_step(task, events[0]) {
            Some(next) => match next.action {
                DownloadActionView::Finish(result) => Some(result),
                _ => answer(next.task, events.drop_first()),
            },
            None => answer(task, events.drop_first()),
        }
    }
}

/// The paths that exist after the task was handed `events`, `files` being
/// those that existed before: the destination is added when its creation is
/// reported, and nothing is ever removed.
pub open spec fn files_after(
    task: DownloadModel,
    files: Set<Seq<char>>,
    events: Seq<DownloadEventView>,
) -> Set<Seq<char>>
    decreases events.len(),
{
    if events.len() == 0 {
        files
    } else {
        match download_step(task, events[0]) {
            Some(next) => files_after(
                next.task,
                if task.phase == DownloadPhase::Creating && events[0] is FileCreated {
                    files.insert(task.destination)
                } else {
                    files
                },
                events.drop_first(),
            ),
            None => files_after(task, files, events.drop_first()),
        }
    }
}

/// Whether `events` tell the truth about the destination: where the task
/// is told whether the destination exists, it is told what `files` holds
/// at that moment.
pub open spec fn truthful(
    task: DownloadModel,
    files: Set<Seq<char>>,
    events: Seq<DownloadEventView>,
) -> bool
    decreases events.len(),
{
    if events.len() == 0 {
        true
    } else {
        match download_step(task, events[0]) {
            Some(next) => {
                &&& task.phase == DownloadPhase::Preparing ==> (
                events[0] matches DownloadEventView::DestinationReady { exists } ==> exists
                    == files.contains(task.destination))
                &&& truthful(
                    next.task,
                    if task.phase == DownloadPhase::Creating && events[0] is FileCreated {
                        files.insert(task.destination)
                    } else {
                        files
                    },
                    events.drop_first(),
                )
            },
            None => truthful(task, files, events.drop_first()),
        }
    }
}

/// A step never lowers the byte count, never changes a declared length once
/// it is known, and keeps source and destination.
pub proof fn lemma_step_keeps_what_is_known(task: DownloadModel, event: DownloadEventView)
    requires
        task.wf(),
    ensures
        download_step(task, event) matches Some(next) ==> {
            &&& next.task.wf()
            &&& next.task.downloaded >= task.downloaded
            &&& task.total is Some ==> next.task.total == task.total
            &&& next.task.url == task.url
            &&& next.task.destination == task.destination
        },
{
}

/// Whether a listener took a progress notification makes no difference to
/// the download.
pub proof fn lemma_delivery_does_not_matter(task: DownloadModel, first: bool, second: bool)
    ensures
        download_step(task, DownloadEventView::ProgressEmitted { delivered: first })
            == download_step(task, DownloadEventView::ProgressEmitted { delivered: second }),
{
}

/// A download that has returned takes no further event.
pub proof fn lemma_finished_is_final(task: DownloadModel, events: Seq<DownloadEventView>)
    requires
        task.phase == DownloadPhase::Finished,
    ensures
        outcome(task, events) == task,
        reports(task, events) == Seq::<Report>::empty(),
        stored(task, events) == 0,
        request_count(task, events) == 0,
        action_count(task, events) == 0,
        answer(task, events) is None,
    decreases events.len(),
{
    if events.len() > 0 {
        lemma_finished_is_final(task, events.drop_first());
    }
}

/// Over any course of events the byte count at the end is the count at the
/// start plus the bytes stored, every report lies between the two, the
/// reports never go down, and the last report, if there is one, is the
/// count at the end.
pub proof fn lemma_reports_follow_the_file(task: DownloadModel, events: Seq<DownloadEventView>)
    ensures
        outcome(task, events).downloaded == task.downloaded + stored(task, events),
        forall|i: int|
            0 <= i < reports(task, events).len() ==> task.downloaded <= (#[trigger] reports(
                task,
                events,
            )[i]).downloaded <= outcome(task, events).downloaded,
        forall|i: int, j: int|
            0 <= i <= j < reports(task, events).len() ==> (#[trigger] reports(
                task,
                events,
            )[i]).downloaded <= (#[trigger] reports(task, events)[j]).downloaded,
        reports(task, events).len() > 0 ==> reports(task, events).last().downloaded == outcome(
            task,
            events,
        ).downloaded,
        reports(task, events).len() == 0 ==> stored(task, events) == 0,
    decreases events.len(),
{
    if events.len() > 0 {
        let rest = events.drop_first();
        match download_step(task, events[0]) {
            Some(next) => {
                lemma_reports_follow_the_file(next.task, rest);
                let later = reports(next.task, rest);
                match next.action {
                    DownloadActionView::EmitProgress { downloaded, total } => {
                        let first = Report { downloaded, total };
                        let all = reports(task, events);
                        assert(all == seq![first] + later);
                        assert(all[0] == first);
                        assert forall|i: int| 0 <= i < all.len() implies task.downloaded <= (
                        #[trigger] all[i]).downloaded <= outcome(task, events).downloaded by {
                            if i > 0 {
                                assert(all[i] == later[i - 1]);
                            }
                        }
                        assert forall|i: int, j: int| 0 <= i <= j < all.len() implies (
                        #[trigger] all[i]).downloaded <= (#[trigger] all[j]).downloaded by {
                            if i > 0 {
                                assert(all[i] == later[i - 1]);
                                assert(all[j] == later[j - 1]);
                            } else if j > 0 {
                                assert(all[j] == later[j - 1]);
                            }
                        }
                        if later.len() > 0 {
                            assert(all.last() == later.last());
                        }
                    },
                    _ => {},
                }
            },
            None => {
                lemma_reports_follow_the_file(task, rest);
            },
        }
    }
}

/// Across a single download the reported byte count never goes down, and
/// the last report states the length of the file: the bytes that were
/// stored. Where nothing was reported, nothing was stored.
pub proof fn lemma_progress_is_monotone_and_ends_at_file_length(
    url: Seq<char>,
    destination: Seq<char>,
    events: Seq<DownloadEventView>,
)
    ensures
        ({
            let task = download_begin(url, destination).task;
            let all = reports(task, events);
            &&& forall|i: int, j: int|
                0 <= i <= j < all.len() ==> (#[trigger] all[i]).downloaded <= (
                #[trigger] all[j]).downloaded
            &&& all.len() > 0 ==> all.last().downloaded == stored(task, events)
            &&& all.len() == 0 ==> stored(task, events) == 0
        }),
{
    lemma_reports_follow_the_file(download_begin(url, destination).task, events);
}

/// Every report of a download carries the one length that the server
/// declared, which the task holds from then on.
pub proof fn lemma_reports_carry_declared_length(
    task: DownloadModel,
    events: Seq<DownloadEventView>,
)
    requires
        task.wf(),
    ensures
        outcome(task, events).wf(),
        task.total is Some ==> outcome(task, events).total == task.total,
        forall|i: int|
            0 <= i < reports(task, events).len() ==> Some(
                (#[trigger] reports(task, events)[i]).total,
            ) == outcome(task, events).total,
    decreases events.len(),
{
    if events.len() > 0 {
        let rest = events.drop_first();
        match download_step(task, events[0]) {
            Some(next) => {
                lemma_step_keeps_what_is_known(task, events[0]);
                lemma_reports_carry_declared_length(next.task, rest);
                let later = reports(next.task, rest);
                match next.action {
                    DownloadActionView::EmitProgress { downloaded, total } => {
                        let all = reports(task, events);
                        assert(all == seq![Report { downloaded, total }] + later);
                        assert(task.total == Some(total));
                        assert(outcome(task, events) == outcome(next.task, rest));
                        assert forall|i: int| 0 <= i < all.len() implies Some(
                            (#[trigger] all[i]).total,
                        ) == outcome(task, events).total by {
                            if i > 0 {
                                assert(all[i] == later[i - 1]);
                            } else {
                                assert(all[0] == Report { downloaded, total });
                            }
                        }
                    },
                    _ => {
                        let all = reports(task, events);
                        assert(all == later);
                        assert forall|i: int| 0 <= i < all.len() implies Some(
                            (#[trigger] all[i]).total,
                        ) == outcome(task, events).total by {
                            assert(all[i] == later[i]);
                        }
                    },
                }
            },
            None => {
                lemma_reports_carry_declared_length(task, rest);
                let all = reports(task, events);
                let later = reports(task, rest);
                assert forall|i: int| 0 <= i < all.len() implies Some(
                    (#[trigger] all[i]).total,
                ) == outcome(task, events).total by {
                    assert(all[i] == later[i]);
                }
            },
        }
    }
}

/// Whether the task is past the creation of its file.
pub open spec fn streaming(task: DownloadModel) -> bool {
    task.phase == DownloadPhase::Reading || task.phase == DownloadPhase::Writing || task.phase
        == DownloadPhase::Reporting
}

/// What a run of a task comes to, from any phase, when the events tell the
/// truth about the destination: no path is lost; at most one request is
/// sent, and only by a task that has not looked at its destination yet; a
/// task that finds its destination there sends none and asks for nothing
/// but its return; and a download that returns a path leaves that path in
/// existence, having sent exactly one request if the path was not there
/// before.
pub proof fn lemma_run_of_a_task(
    task: DownloadModel,
    files: Set<Seq<char>>,
    events: Seq<DownloadEventView>,
)
    requires
        truthful(task, files, events),
        streaming(task) ==> files.contains(task.destination),
    ensures
        forall|path: Seq<char>|
            files.contains(path) ==> #[trigger] files_after(task, files, events).contains(path),
        request_count(task, events) <= (if task.phase == DownloadPhase::Preparing {
            1nat
        } else {
            0nat
        }),
        task.phase == DownloadPhase::Preparing && files.contains(task.destination) ==> {
            &&& request_count(task, events) == 0
            &&& action_count(task, events) <= 1
            &&& !(answer(task, events) matches Some(Ok(path)) && path != task.destination)
        },
        answer(task, events) matches Some(Ok(path)) ==> {
            &&& path == task.destination
            &&& files_after(task, files, events).contains(path)
            &&& task.phase == DownloadPhase::Preparing && !files.contains(task.destination)
                ==> request_count(task, events) == 1
        },
    decreases events.len(),
{
    if events.len() > 0 {
        let rest = events.drop_first();
        match download_step(task, events[0]) {
            Some(next) => {
                let then = if task.phase == DownloadPhase::Creating && events[0] is FileCreated {
                    files.insert(task.destination)
                } else {
                    files
                };
                lemma_run_of_a_task(next.task, then, rest);
                assert(files_after(task, files, events) == files_after(next.task, then, rest));
                assert forall|path: Seq<char>| files.contains(path) implies #[trigger] files_after(
                    task,
                    files,
                    events,
                ).contains(path) by {
                    assert(then.contains(path));
                    assert(files_after(next.task, then, rest).contains(path));
                }
                if next.task.phase == DownloadPhase::Finished {
                    lemma_finished_is_final(next.task, rest);
                    lemma_files_stay(next.task, then, rest);
                }
            },
            None => {
                lemma_run_of_a_task(task, files, rest);
                assert forall|path: Seq<char>| files.contains(path) implies #[trigger] files_after(
                    task,
                    files,
                    events,
                ).contains(path) by {
                    assert(files_after(task, files, rest).contains(path));
                }
            },
        }
    }
}

/// A download that has returned leaves the file system as it is.
pub proof fn lemma_files_stay(
    task: DownloadModel,
    files: Set<Seq<char>>,
    events: Seq<DownloadEventView>,
)
    requires
        task.phase == DownloadPhase::Finished,
    ensures
        files_after(task, files, events) == files,
    decreases events.len(),
{
    if events.len() > 0 {
        lemma_files_stay(task, files, events.drop_first());
    }
}

/// A download whose destination exists sends no request: it asks for
/// nothing but its return, and what it returns is the destination or the
/// failure to look at it.
pub proof fn lemma_existing_destination_is_returned_at_once(
    url: Seq<char>,
    destination: Seq<char>,
    files: Set<Seq<char>>,
    events: Seq<DownloadEventView>,
)
    requires
        files.contains(destination),
        truthful(download_begin(url, destination).task, files, events),
    ensures
        request_count(download_begin(url, destination).task, events) == 0,
        action_count(download_begin(url, destination).task, events) <= 1,
        answer(download_begin(url, destination).task, events) matches Some(Ok(path)) ==> path
            == destination,
{
    lemma_run_of_a_task(download_begin(url, destination).task, files, events);
}

/// Downloading twice to one destination sends one request. The first
/// download, to a destination that is not there, returns the path; the
/// second, from whatever address, then finds the path there, sends nothing,
/// and asks for nothing but its return.
pub proof fn lemma_second_download_sends_no_request(
    first_url: Seq<char>,
    second_url: Seq<char>,
    destination: Seq<char>,
    files: Set<Seq<char>>,
    first: Seq<DownloadEventView>,
    second: Seq<DownloadEventView>,
)
    requires
        !files.contains(destination),
        truthful(download_begin(first_url, destination).task, files, first),
        answer(download_begin(first_url, destination).task, first) matches Some(Ok(_)),
        truthful(
            download_begin(second_url, destination).task,
            files_after(download_begin(first_url, destination).task, files, first),
            second,
        ),
    ensures
        request_count(download_begin(first_url, destination).task, first) == 1,
        request_count(download_begin(second_url, destination).task, second) == 0,
        action_count(download_begin(second_url, destination).task, second) <= 1,
        answer(download_begin(second_url, destination).task, second) matches Some(Ok(path))
            ==> path == destination,
{
    let one = download_begin(first_url, destination).task;
    lemma_run_of_a_task(one, files, first);
    lemma_existing_destination_is_returned_at_once(
        second_url,
        destination,
        files_after(one, files, first),
        second,
    );
}

} // verus!
