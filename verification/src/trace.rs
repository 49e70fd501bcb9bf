//! Runs of a session: what holds after any sequence of events.
//!
//! Everything here is stated over the model of the session,
//! `crate::session::step`, which `Session::handle` follows exactly.

use vstd::prelude::*;
use crate::chunk::chunk_count;
use crate::config::config_text;
use crate::files::{selected, DirEntryView, FileRole};
use crate::net::ReplyView;
use crate::plan::{chunks_in_all, upload_plan};
use crate::session::{aborted, action_of, refusal, reportable, step, uploaded, well_formed};
use crate::session::{ActionView, EventView, SessionErrorView, SessionState, SessionView};
use crate::session::UploadProgress;

verus! {

/// The session that `s` becomes when `events` are reported one after the
/// other.
pub open spec fn run(s: SessionView, events: Seq<EventView>) -> SessionView
    decreases events.len(),
{
    if events.len() == 0 {
        s
    } else {
        step(run(s, events.drop_last()), events.last())
    }
}

/// Replies, as the events that report them.
pub open spec fn reported(replies: Seq<ReplyView>) -> Seq<EventView> {
    replies.map_values(|reply: ReplyView| EventView::Replied { reply })
}

/// Whether a session is done or aborted.
pub open spec fn finished(s: SessionView) -> bool {
    s.state == SessionState::Done || s.state == SessionState::Aborted
}

/// The rank of a state in the order in which states are passed.
pub open spec fn rank(state: SessionState) -> nat {
    match state {
        SessionState::Idle => 0,
        SessionState::Enumerating => 1,
        SessionState::Uploading => 2,
        SessionState::Committing => 3,
        SessionState::Done => 4,
        SessionState::Aborted => 5,
    }
}

/// The session `s` with every chunk of every file acknowledged.
pub open spec fn all_acknowledged(s: SessionView) -> SessionView {
    uploaded(
        SessionView {
            file_index: s.files.len() as usize,
            chunk_index: 0,
            progress: UploadProgress {
                files_done: s.files.len() as usize,
                chunks_done: s.progress.total_chunks,
                total_chunks: s.progress.total_chunks,
            },
            ..s
        },
    )
}

/// A session that is done or aborted stays as it is, whatever is reported.
pub proof fn lemma_finished_stays(s: SessionView, events: Seq<EventView>)
    requires
        finished(s),
    ensures
        run(s, events) == s,
    decreases events.len(),
{
    if events.len() > 0 {
        lemma_finished_stays(s, events.drop_last());
    }
}

/// No state is visited again: an event either leaves the state as it is or
/// leads to a state further on.
pub proof fn lemma_no_state_revisited(s: SessionView, event: EventView)
    ensures
        step(s, event).state == s.state || rank(step(s, event).state) > rank(s.state),
{
}

/// Whatever is reported, in whatever order, a session stays well formed and
/// no counter of its progress falls.
pub proof fn lemma_run_keeps_well_formed(s: SessionView, events: Seq<EventView>)
    requires
        well_formed(s),
        forall|i: int| 0 <= i < events.len() ==> reportable(#[trigger] events[i]),
    ensures
        well_formed(run(s, events)),
        s.progress.files_done <= run(s, events).progress.files_done,
        s.progress.chunks_done <= run(s, events).progress.chunks_done,
        rank(s.state) <= rank(run(s, events).state),
    decreases events.len(),
{
    if events.len() > 0 {
        let front = events.drop_last();
        assert forall|i: int| 0 <= i < front.len() implies reportable(#[trigger] front[i]) by {
            assert(front[i] == events[i]);
        }
        lemma_run_keeps_well_formed(s, front);
        crate::session::lemma_step_keeps_well_formed(run(s, front), events.last());
        crate::session::lemma_progress_never_falls(run(s, front), events.last());
        lemma_no_state_revisited(run(s, front), events.last());
    }
}

/// A request is handed out only when it is due: one that uploads a chunk
/// only while uploading, and the commit only in the state in which every
/// chunk of every file was acknowledged. Before the files are enumerated,
/// and once the session is done or aborted, no request is handed out.
pub proof fn lemma_requests_only_when_due(s: SessionView)
    requires
        well_formed(s),
    ensures
        action_of(s) is Upload <==> s.state == SessionState::Uploading,
        action_of(s) is Commit <==> s.state == SessionState::Committing,
        action_of(s) is Commit ==> s.progress.chunks_done == s.progress.total_chunks
            && s.progress.files_done == s.files.len() && s.progress.total_chunks == chunks_in_all(
            s.files,
            s.chunk_size,
        ),
        action_of(s) is Upload ==> s.progress.chunks_done < s.progress.total_chunks,
        finished(s) ==> action_of(s) is Finish,
{
    if s.state == SessionState::Uploading {
        crate::plan::lemma_plan_length(s.files, s.chunk_size, (s.file_index + 1) as nat);
    }
}

/// Every request that a session hands out carries the credential of its
/// client.
pub proof fn lemma_session_requests_carry_credential(s: SessionView)
    requires
        well_formed(s),
    ensures
        match action_of(s) {
            ActionView::Upload { request, .. } => request.headers[0]
                == crate::client::credential_header(s.client),
            ActionView::Commit { request } => request.headers[0]
                == crate::client::credential_header(s.client),
            _ => true,
        },
{
}

/// While uploading, the chunk that is due is the one that stands in the
/// upload plan behind the chunks that were acknowledged.
pub proof fn lemma_upload_follows_plan(s: SessionView)
    requires
        well_formed(s),
        s.state == SessionState::Uploading,
    ensures
        s.progress.chunks_done < upload_plan(s.files, s.chunk_size).len(),
        action_of(s) matches ActionView::Upload { chunk, .. } && chunk == upload_plan(
            s.files,
            s.chunk_size,
        )[s.progress.chunks_done as int],
{
    crate::plan::lemma_plan_position(
        s.files,
        s.chunk_size,
        s.file_index as nat,
        s.chunk_index as nat,
    );
}

/// One acknowledged chunk counts as one: the session goes on uploading
/// while chunks are left, and has every chunk acknowledged when none is.
proof fn lemma_acknowledged_counts(s: SessionView, reply: ReplyView)
    requires
        well_formed(s),
        s.state == SessionState::Uploading,
        refusal(reply) is None,
    ensures
        s.progress.chunks_done < s.progress.total_chunks,
        step(s, EventView::Replied { reply }).progress.chunks_done == s.progress.chunks_done + 1,
        s.progress.chunks_done + 1 < s.progress.total_chunks ==> {
            let next = step(s, EventView::Replied { reply });
            &&& next.state == SessionState::Uploading
            &&& next == SessionView {
                file_index: next.file_index,
                chunk_index: next.chunk_index,
                progress: next.progress,
                ..s
            }
            &&& next.progress.total_chunks == s.progress.total_chunks
        },
        s.progress.chunks_done + 1 == s.progress.total_chunks ==> step(
            s,
            EventView::Replied { reply },
        ) == all_acknowledged(s),
{
    let file = s.file_index as nat;
    let next = step(s, EventView::Replied { reply });
    crate::plan::lemma_plan_length(s.files, s.chunk_size, file + 1);
    crate::chunk::lemma_count_fits(s.files[file as int].size as nat, s.chunk_size as nat);
    crate::session::lemma_step_keeps_well_formed(s, EventView::Replied { reply });
    if s.chunk_index + 1 < chunk_count(s.files[file as int].size as nat, s.chunk_size as nat) {
    } else {
        if file + 1 < s.files.len() {
            crate::chunk::lemma_count_fits(
                s.files[file as int + 1].size as nat,
                s.chunk_size as nat,
            );
            crate::plan::lemma_plan_length(s.files, s.chunk_size, file + 2);
        } else {
            assert(file + 1 == s.files.len());
        }
    }
}

/// What a run of acknowledged chunks leaves of a session that is uploading.
spec fn after_acknowledged(s: SessionView, next: SessionView, count: nat) -> bool {
    &&& well_formed(next)
    &&& next.progress.chunks_done == s.progress.chunks_done + count
    &&& if s.progress.chunks_done + count < s.progress.total_chunks {
        &&& next.state == SessionState::Uploading
        &&& next == SessionView {
            file_index: next.file_index,
            chunk_index: next.chunk_index,
            progress: next.progress,
            ..s
        }
        &&& next.progress.total_chunks == s.progress.total_chunks
    } else {
        next == all_acknowledged(s)
    }
}

proof fn lemma_acknowledged_run(s: SessionView, replies: Seq<ReplyView>)
    requires
        well_formed(s),
        s.state == SessionState::Uploading,
        s.progress.chunks_done + replies.len() <= s.progress.total_chunks,
        forall|i: int| 0 <= i < replies.len() ==> refusal(#[trigger] replies[i]) is None,
    ensures
        after_acknowledged(s, run(s, reported(replies)), replies.len()),
    decreases replies.len(),
{
    lemma_requests_only_when_due(s);
    if replies.len() > 0 {
        let front = replies.drop_last();
        assert(reported(replies).drop_last() =~= reported(front));
        assert(reported(replies).last() == EventView::Replied { reply: replies.last() });
        assert forall|i: int| 0 <= i < front.len() implies refusal(#[trigger] front[i]) is None by {
            assert(front[i] == replies[i]);
        }
        lemma_acknowledged_run(s, front);
        let middle = run(s, reported(front));
        let next = run(s, reported(replies));
        assert(next == step(middle, EventView::Replied { reply: replies.last() }));
        assert(after_acknowledged(s, middle, front.len()));
        assert(middle.state == SessionState::Uploading);
        lemma_acknowledged_counts(middle, replies.last());
        crate::session::lemma_step_keeps_well_formed(
            middle,
            EventView::Replied { reply: replies.last() },
        );
        assert(well_formed(next));
        assert(next.progress.chunks_done == s.progress.chunks_done + replies.len());
        if s.progress.chunks_done + replies.len() < s.progress.total_chunks {
            assert(next.state == SessionState::Uploading);
            assert(next == SessionView {
                file_index: next.file_index,
                chunk_index: next.chunk_index,
                progress: next.progress,
                ..s
            });
        } else {
            assert(next == all_acknowledged(middle));
            assert(all_acknowledged(middle) == all_acknowledged(s));
        }
    } else {
        assert(reported(replies).len() == 0);
        assert(run(s, reported(replies)) == s);
    }
}

/// The commit follows exactly when every chunk of every file was
/// acknowledged. While fewer replies than chunks were reported, all of them
/// acknowledgements, the session goes on uploading and hands out no commit;
/// with the acknowledgement of the last chunk every file is done, and the
/// commit is due (or, where the manifest cannot be written, the session is
/// aborted for that).
pub proof fn lemma_commit_after_all_chunks(s: SessionView, replies: Seq<ReplyView>)
    requires
        well_formed(s),
        s.state == SessionState::Uploading,
        s.progress.chunks_done + replies.len() <= s.progress.total_chunks,
        forall|i: int| 0 <= i < replies.len() ==> refusal(#[trigger] replies[i]) is None,
    ensures
        run(s, reported(replies)).progress.chunks_done == s.progress.chunks_done + replies.len(),
        s.progress.chunks_done + replies.len() < s.progress.total_chunks ==> run(
            s,
            reported(replies),
        ).state == SessionState::Uploading,
        s.progress.chunks_done + replies.len() == s.progress.total_chunks ==> run(
            s,
            reported(replies),
        ) == all_acknowledged(s),
        action_of(run(s, reported(replies))) is Commit <==> s.progress.chunks_done + replies.len()
            == s.progress.total_chunks && config_text(s.config) is Some,
{
    lemma_acknowledged_run(s, replies);
    lemma_requests_only_when_due(run(s, reported(replies)));
}

/// The first chunk that is not acknowledged aborts the session. The error
/// names the chunk that was due, counted from one, its file, counted from
/// one, and the cause. The commit is never handed out afterwards, nor any
/// other request, whatever is reported later.
pub proof fn lemma_first_refusal_aborts(
    s: SessionView,
    replies: Seq<ReplyView>,
    failed: int,
    later: Seq<EventView>,
)
    requires
        well_formed(s),
        s.state == SessionState::Uploading,
        0 <= failed < replies.len(),
        s.progress.chunks_done + failed < s.progress.total_chunks,
        forall|i: int| 0 <= i < failed ==> refusal(#[trigger] replies[i]) is None,
        refusal(replies[failed]) is Some,
    ensures
        ({
            let end = run(run(s, reported(replies)), later);
            let due = upload_plan(s.files, s.chunk_size)[s.progress.chunks_done + failed];
            &&& end.state == SessionState::Aborted
            &&& end.progress.chunks_done == s.progress.chunks_done + failed
            &&& end.error == Some(
                SessionErrorView::ChunkUpload {
                    file: (due.file + 1) as usize,
                    chunk: (due.index + 1) as u64,
                    path: s.files[due.file as int].path,
                    cause: refusal(replies[failed]).unwrap(),
                },
            )
            &&& action_of(end) is Finish
        }),
{
    let before = replies.take(failed);
    assert forall|i: int| 0 <= i < before.len() implies refusal(#[trigger] before[i]) is None by {
        assert(before[i] == replies[i]);
    }
    lemma_acknowledged_run(s, before);
    let middle = run(s, reported(before));
    lemma_upload_follows_plan(middle);
    let broken = step(middle, EventView::Replied { reply: replies[failed] });
    assert(broken.state == SessionState::Aborted);
    assert(reported(replies.take(failed + 1)).drop_last() =~= reported(before));
    assert(reported(replies.take(failed + 1)).last() == EventView::Replied {
        reply: replies[failed],
    });
    assert(run(s, reported(replies.take(failed + 1))) == broken);
    lemma_refused_prefix(s, replies, failed + 1);
    lemma_finished_stays(run(s, reported(replies)), later);
}

/// Once a run has aborted the session, reporting more replies changes
/// nothing.
proof fn lemma_refused_prefix(s: SessionView, replies: Seq<ReplyView>, k: int)
    requires
        0 <= k <= replies.len(),
        finished(run(s, reported(replies.take(k)))),
    ensures
        run(s, reported(replies)) == run(s, reported(replies.take(k))),
    decreases replies.len() - k,
{
    if k < replies.len() {
        let longer = replies.take(k + 1);
        assert(reported(longer).drop_last() =~= reported(replies.take(k)));
        lemma_refused_prefix(s, replies, k + 1);
    } else {
        assert(replies.take(k) =~= replies);
    }
}

/// A server directory that cannot be read aborts the session when the
/// listings are reported, before any request was handed out: nothing is
/// left to do, and nothing that is reported later changes that.
pub proof fn lemma_missing_server_directory_aborts(
    s: SessionView,
    frontend: Seq<DirEntryView>,
    reason: Seq<char>,
    later: Seq<EventView>,
)
    requires
        well_formed(s),
        s.state == SessionState::Enumerating,
    ensures
        !(action_of(s) is Upload) && !(action_of(s) is Commit),
        ({
            let end = run(step(s, EventView::Listed { frontend, server: Err(reason) }), later);
            &&& end.state == SessionState::Aborted
            &&& end.error == Some(SessionErrorView::Enumeration { message: reason })
            &&& action_of(end) is Finish
            &&& end.progress.chunks_done == 0
        }),
{
    lemma_finished_stays(step(s, EventView::Listed { frontend, server: Err(reason) }), later);
}

/// A frontend without files is no error: the files of the deployment are
/// then the artifacts of the server alone, and the session goes on to
/// upload them, or straight to the commit where there are none.
pub proof fn lemma_empty_frontend_is_valid(s: SessionView, server: Seq<DirEntryView>)
    requires
        well_formed(s),
        s.state == SessionState::Enumerating,
    ensures
        ({
            let next = step(s, EventView::Listed { frontend: Seq::empty(), server: Ok(server) });
            &&& next.files == selected(server, FileRole::ServerArtifact)
            &&& next.files.len() > 0 ==> next.state == SessionState::Uploading
            &&& next.files.len() == 0 && config_text(s.config) is Some ==> next.state
                == SessionState::Committing
            &&& !(next.error matches Some(SessionErrorView::Enumeration { .. }))
        }),
{
    assert(selected(Seq::<DirEntryView>::empty(), FileRole::FrontendAsset) =~= Seq::empty());
    assert(Seq::<crate::files::FileEntryView>::empty() + selected(server, FileRole::ServerArtifact)
        =~= selected(server, FileRole::ServerArtifact));
}

/// A build that fails aborts the session before anything is listed or
/// sent.
pub proof fn lemma_failed_build_aborts(s: SessionView, reason: Seq<char>, later: Seq<EventView>)
    requires
        well_formed(s),
        s.state == SessionState::Idle,
    ensures
        action_of(s) is Build,
        ({
            let end = run(step(s, EventView::Built { result: Err(reason) }), later);
            &&& end.state == SessionState::Aborted
            &&& end.error == Some(SessionErrorView::Build { message: reason })
            &&& action_of(end) is Finish
        }),
{
    lemma_finished_stays(step(s, EventView::Built { result: Err(reason) }), later);
}

/// The reply to the commit decides the end: an acknowledgement ends the
/// session as done, anything else aborts it with an error that tells that
/// the commit failed, and why. Either way the commit is handed out once:
/// whatever is reported later, nothing is left to do.
pub proof fn lemma_commit_reply_decides(s: SessionView, reply: ReplyView, later: Seq<EventView>)
    requires
        well_formed(s),
        s.state == SessionState::Committing,
    ensures
        ({
            let end = step(s, EventView::Replied { reply });
            &&& match refusal(reply) {
                None => end.state == SessionState::Done && end.error is None,
                Some(cause) => end == aborted(s, SessionErrorView::Commit { cause }),
            }
            &&& run(end, later) == end
            &&& action_of(run(end, later)) is Finish
        }),
{
    lemma_finished_stays(step(s, EventView::Replied { reply }), later);
}

} // verus!
