//! The guarantees of the update protocol, stated and proved over the
//! machine's transition relation and the record format.

use crate::metadata::CoreInfoV;
use crate::metadata::spec_update_needed;
use crate::metadata::tokens_match;
use crate::record::parseable;
use crate::record::spec_load;
use crate::updater::ActionV;
use crate::updater::CoreV;
use crate::updater::EventV;
use crate::updater::Outcome;
use crate::updater::UpdaterV;
use crate::updater::spec_step;
use vstd::prelude::*;

verus! {

/// The actions a run emits from state `u` when answered with the event
/// sequence `events`, in order.
pub open spec fn run_actions(u: UpdaterV, events: Seq<EventV>) -> Seq<ActionV>
    decreases events.len(),
{
    if events.len() == 0 {
        Seq::empty()
    } else {
        seq![spec_step(u, events[0]).1] + run_actions(
            spec_step(u, events[0]).0,
            events.drop_first(),
        )
    }
}

/// An action that writes to the filesystem.
pub open spec fn is_write(a: ActionV) -> bool {
    a is WriteArtifactFile || a is WriteSignatureFile || a is WriteRecordFile
}

/// An action that goes out to the network.
pub open spec fn is_fetch(a: ActionV) -> bool {
    a is FetchArtifact || a is FetchSignature
}

/// A finished run stays finished: from `Done` every event leaves the state
/// unchanged and asks the driver to stop.
pub proof fn law_done_is_final(o: Outcome, e: EventV)
    ensures
        spec_step(UpdaterV::Done { outcome: o }, e) == (
            UpdaterV::Done { outcome: o },
            ActionV::Stop(o),
        ),
{
}

/// After a run has finished, every action it ever emits is `Stop`: nothing
/// is fetched and nothing is written any more.
pub proof fn law_done_run_is_silent(o: Outcome, events: Seq<EventV>)
    ensures
        forall|i: int|
            0 <= i < run_actions(UpdaterV::Done { outcome: o }, events).len()
                ==> run_actions(UpdaterV::Done { outcome: o }, events)[i] is Stop,
    decreases events.len(),
{
    let acts = run_actions(UpdaterV::Done { outcome: o }, events);
    if events.len() > 0 {
        let tail = run_actions(UpdaterV::Done { outcome: o }, events.drop_first());
        law_done_run_is_silent(o, events.drop_first());
        assert forall|i: int| 0 <= i < acts.len() implies acts[i] is Stop by {
            if i == 0 {
                assert(acts[0] == ActionV::Stop(o));
            } else {
                assert(acts[i] == tail[i - 1]);
            }
        }
    }
}

/// Idempotence of the no-op: when the cached validation token equals the
/// token observed on the artifact response, the machine reports "nothing to
/// do" at once, and no step of the rest of the run fetches or writes
/// anything.
pub proof fn law_matching_tokens_is_noop(cached: CoreInfoV, core: CoreV, events: Seq<EventV>)
    requires
        tokens_match(cached.etag, core.info.etag),
    ensures
        ({
            let first = spec_step(
                UpdaterV::AwaitArtifact { cached },
                EventV::ArtifactResponse(Some(core)),
            );
            &&& first.1 == ActionV::Stop(Outcome::NothingToDo)
            &&& first.0 == UpdaterV::Done { outcome: Outcome::NothingToDo }
            &&& forall|i: int|
                0 <= i < run_actions(first.0, events).len() ==> !is_write(
                    run_actions(first.0, events)[i],
                ) && !is_fetch(run_actions(first.0, events)[i])
        }),
{
    law_done_run_is_silent(Outcome::NothingToDo, events);
}

/// The first run always fetches: a missing or unreadable record file loads
/// as the empty record, whose absent token matches no observed token, so
/// the machine never answers "nothing to do" from that state — whatever the
/// remote reports, it asks for the signature and goes on to commit.
pub proof fn law_first_run_always_updates(remote: CoreInfoV, core: CoreV)
    ensures
        spec_load(None) == CoreInfoV::empty(),
        spec_update_needed(CoreInfoV::empty(), remote),
        spec_step(
            UpdaterV::AwaitArtifact { cached: CoreInfoV::empty() },
            EventV::ArtifactResponse(Some(core)),
        ).1 == ActionV::FetchSignature,
{
}

/// Commit ordering: the metadata record is written only right after the
/// signature write succeeded, the signature file only right after the
/// artifact write succeeded, and the artifact file only once the signature
/// bytes are in hand. A run that fails between the artifact write and the
/// record write therefore leaves the old record on disk.
pub proof fn law_record_write_comes_last(u: UpdaterV, e: EventV)
    ensures
        spec_step(u, e).1 is WriteRecordFile ==> u is AwaitSignatureWrite && e == EventV::WriteDone(
            true,
        ),
        spec_step(u, e).1 is WriteSignatureFile ==> u is AwaitArtifactWrite && e
            == EventV::WriteDone(true),
        spec_step(u, e).1 is WriteArtifactFile ==> u is AwaitSignature && (e matches
        EventV::SignatureResponse(s) && s is Some),
{
}

/// Which state a write action is emitted from, and which action is emitted
/// on entering a write-waiting state.
proof fn lemma_write_action_state(u: UpdaterV, e: EventV)
    ensures
        spec_step(u, e).1 is WriteRecordFile ==> u is AwaitSignatureWrite,
        spec_step(u, e).1 is WriteSignatureFile ==> u is AwaitArtifactWrite,
        spec_step(u, e).1 is WriteArtifactFile ==> u is AwaitSignature,
        spec_step(u, e).0 is AwaitSignatureWrite ==> spec_step(u, e).1 is WriteSignatureFile,
        spec_step(u, e).0 is AwaitArtifactWrite ==> spec_step(u, e).1 is WriteArtifactFile,
{
}

/// Commit ordering over a whole run: wherever a record write is emitted,
/// the immediately preceding action was the signature write, and wherever a
/// signature write is emitted, the immediately preceding action was the
/// artifact write — the three writes always happen back to back, artifact
/// first, record last.
pub proof fn law_writes_are_ordered(u: UpdaterV, events: Seq<EventV>, i: int)
    requires
        1 <= i < run_actions(u, events).len(),
    ensures
        run_actions(u, events)[i] is WriteRecordFile ==> run_actions(u, events)[i
            - 1] is WriteSignatureFile,
        run_actions(u, events)[i] is WriteSignatureFile ==> run_actions(u, events)[i
            - 1] is WriteArtifactFile,
    decreases events.len(),
{
    let r = run_actions(u, events);
    let u1 = spec_step(u, events[0]).0;
    let rest = events.drop_first();
    let tail = run_actions(u1, rest);
    assert(r == seq![spec_step(u, events[0]).1] + tail);
    if i >= 2 {
        law_writes_are_ordered(u1, rest, i - 1);
        assert(r[i] == tail[i - 1]);
        assert(r[i - 1] == tail[i - 2]);
    } else {
        assert(r[1] == tail[0]);
        assert(r[0] == spec_step(u, events[0]).1);
        assert(tail[0] == spec_step(u1, rest[0]).1);
        lemma_write_action_state(u1, rest[0]);
        lemma_write_action_state(u, events[0]);
    }
}

/// Recovery after an interrupted commit: as long as the durable record's
/// token differs from the freshly observed one, the next run decides to
/// update again.
pub proof fn law_stale_record_retries(cached: CoreInfoV, remote: CoreInfoV)
    requires
        cached.etag != remote.etag,
    ensures
        spec_update_needed(cached, remote),
{
}

/// Corrupt cache degrades safely: record-file content that is not the
/// rendered form of any well-formed record loads exactly like a missing
/// file — the empty record, which forces a full fetch.
pub proof fn law_corrupt_cache_loads_empty(s: Seq<char>)
    requires
        !parseable(s),
    ensures
        spec_load(Some(s)) == CoreInfoV::empty(),
        spec_load(Some(s)) == spec_load(None),
{
}

/// The registration gate: when the registration probe answers "not
/// registered", the run stops at once, and no step of the whole run emits
/// any fetch or write action.
pub proof fn law_unregistered_run_is_inert(events: Seq<EventV>)
    ensures
        ({
            let first = spec_step(UpdaterV::CheckRegistration, EventV::Registration(false));
            &&& first.1 == ActionV::Stop(Outcome::NotRegistered)
            &&& first.0 == UpdaterV::Done { outcome: Outcome::NotRegistered }
            &&& forall|i: int|
                0 <= i < run_actions(first.0, events).len() ==> !is_write(
                    run_actions(first.0, events)[i],
                ) && !is_fetch(run_actions(first.0, events)[i])
        }),
{
    law_done_run_is_silent(Outcome::NotRegistered, events);
}

/// Network actions stand behind the registration gate: the record file is
/// read only on a positive registration answer, the artifact fetch follows
/// only that read, and the signature fetch only a fresh artifact response.
pub proof fn law_fetch_needs_registration(u: UpdaterV, e: EventV)
    ensures
        spec_step(u, e).1 is ReadCacheFile ==> u is CheckRegistration && e == EventV::Registration(
            true,
        ),
        spec_step(u, e).1 is FetchArtifact ==> u is LoadCache,
        spec_step(u, e).1 is FetchSignature ==> u is AwaitArtifact,
{
}

} // verus!
