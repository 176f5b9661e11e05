use insights_core_updater::registration::registration_decision;
use insights_core_updater::Action;
use insights_core_updater::Core;
use insights_core_updater::Event;
use insights_core_updater::Outcome;
use insights_core_updater::Updater;

#[test]
fn full_update_cycle_commits_in_order() {
    // Cached record holds token "abc"; the remote answers with token "xyz"
    // and body `B`: the run writes artifact, signature, then the record
    // carrying the new token, and reports the update.
    let (u, a) = Updater::start();
    assert!(matches!(a, Action::ProbeRegistration));

    let (u, a) = u.step(Event::Registration(true));
    assert!(matches!(a, Action::ReadCacheFile));

    let (u, a) = u.step(Event::CacheContent(Some("etag=abc\nlast_modified-\n".to_string())));
    assert!(matches!(a, Action::FetchArtifact));

    let core = Core::from_response(
        Some("xyz".to_string()),
        Some("today".to_string()),
        b"B".to_vec(),
    );
    let (u, a) = u.step(Event::ArtifactResponse(Some(core)));
    assert!(matches!(a, Action::FetchSignature));

    let (u, a) = u.step(Event::SignatureResponse(Some(b"SIG".to_vec())));
    match &a {
        Action::WriteArtifactFile(data) => assert_eq!(data, &b"B".to_vec()),
        _ => panic!("expected the artifact write to come first"),
    }

    let (u, a) = u.step(Event::WriteDone(true));
    match &a {
        Action::WriteSignatureFile(data) => assert_eq!(data, &b"SIG".to_vec()),
        _ => panic!("expected the signature write to come second"),
    }

    let (u, a) = u.step(Event::WriteDone(true));
    match &a {
        Action::WriteRecordFile(text) => {
            assert_eq!(text, "etag=xyz\nlast_modified=today\n");
        },
        _ => panic!("expected the record write to come last"),
    }

    let (_, a) = u.step(Event::WriteDone(true));
    assert!(matches!(a, Action::Stop(Outcome::Updated)));
}

#[test]
fn matching_tokens_stop_without_writes() {
    // Cached record holds token "abc" and the remote echoes "abc": the run
    // reports "nothing to do" and never asks for a write.
    let (u, _) = Updater::start();
    let (u, _) = u.step(Event::Registration(true));
    let (u, a) = u.step(Event::CacheContent(Some("etag=abc\nlast_modified-\n".to_string())));
    assert!(matches!(a, Action::FetchArtifact));

    let core = Core::from_response(Some("abc".to_string()), None, b"same bytes".to_vec());
    let (u, a) = u.step(Event::ArtifactResponse(Some(core)));
    assert!(matches!(a, Action::Stop(Outcome::NothingToDo)));

    // Whatever is fed afterwards, the machine only ever asks to stop.
    let (_, a) = u.step(Event::WriteDone(true));
    assert!(matches!(a, Action::Stop(Outcome::NothingToDo)));
}

#[test]
fn first_run_fetches_regardless_of_remote_token() {
    // No record file at all: the loaded record is empty, and even a remote
    // token of any value calls for a full update.
    let (u, _) = Updater::start();
    let (u, _) = u.step(Event::Registration(true));
    let (u, a) = u.step(Event::CacheContent(None));
    assert!(matches!(a, Action::FetchArtifact));

    let core = Core::from_response(Some("abc".to_string()), None, b"payload".to_vec());
    let (_, a) = u.step(Event::ArtifactResponse(Some(core)));
    assert!(matches!(a, Action::FetchSignature));
}

#[test]
fn remote_without_token_still_fetches() {
    // The remote reports no entity tag at all: absence never counts as a
    // match, so the update proceeds.
    let (u, _) = Updater::start();
    let (u, _) = u.step(Event::Registration(true));
    let (u, _) = u.step(Event::CacheContent(Some("etag=abc\nlast_modified-\n".to_string())));
    let core = Core::from_response(None, None, b"payload".to_vec());
    let (_, a) = u.step(Event::ArtifactResponse(Some(core)));
    assert!(matches!(a, Action::FetchSignature));
}

#[test]
fn corrupt_cache_is_treated_as_missing() {
    // Malformed record content loads as the empty record and triggers a
    // fetch, even when the remote token would have matched the bytes on
    // disk before they were corrupted.
    let (u, _) = Updater::start();
    let (u, _) = u.step(Event::Registration(true));
    let (u, a) = u.step(Event::CacheContent(Some("{\"etag\": \"abc\"".to_string())));
    assert!(matches!(a, Action::FetchArtifact));

    let core = Core::from_response(Some("abc".to_string()), None, b"payload".to_vec());
    let (_, a) = u.step(Event::ArtifactResponse(Some(core)));
    assert!(matches!(a, Action::FetchSignature));
}

#[test]
fn unregistered_host_stops_at_once() {
    let (u, _) = Updater::start();
    let (u, a) = u.step(Event::Registration(false));
    assert!(matches!(a, Action::Stop(Outcome::NotRegistered)));

    // The finished run emits nothing but stop requests afterwards.
    let (_, a) = u.step(Event::CacheContent(None));
    assert!(matches!(a, Action::Stop(Outcome::NotRegistered)));
}

#[test]
fn failure_after_artifact_write_leaves_record_unwritten() {
    // A failure injected after the artifact write but before the signature
    // write aborts the run before any record write is requested.
    let (u, _) = Updater::start();
    let (u, _) = u.step(Event::Registration(true));
    let (u, _) = u.step(Event::CacheContent(Some("etag=abc\nlast_modified-\n".to_string())));
    let core = Core::from_response(Some("xyz".to_string()), None, b"new".to_vec());
    let (u, _) = u.step(Event::ArtifactResponse(Some(core)));
    let (u, a) = u.step(Event::SignatureResponse(Some(b"SIG".to_vec())));
    assert!(matches!(a, Action::WriteArtifactFile(_)));

    // The artifact write succeeded; the signature write fails.
    let (u, a) = u.step(Event::WriteDone(true));
    assert!(matches!(a, Action::WriteSignatureFile(_)));
    let (u, a) = u.step(Event::WriteDone(false));
    assert!(matches!(a, Action::Stop(Outcome::WriteFailed)));
    let (_, a) = u.step(Event::WriteDone(true));
    assert!(matches!(a, Action::Stop(Outcome::WriteFailed)));

    // The record on disk still holds the old token, so the next run
    // re-detects the mismatch and retries in full.
    let (u, _) = Updater::start();
    let (u, _) = u.step(Event::Registration(true));
    let (u, _) = u.step(Event::CacheContent(Some("etag=abc\nlast_modified-\n".to_string())));
    let core = Core::from_response(Some("xyz".to_string()), None, b"new".to_vec());
    let (_, a) = u.step(Event::ArtifactResponse(Some(core)));
    assert!(matches!(a, Action::FetchSignature));
}

#[test]
fn failed_artifact_fetch_aborts_the_run() {
    let (u, _) = Updater::start();
    let (u, _) = u.step(Event::Registration(true));
    let (u, _) = u.step(Event::CacheContent(None));
    let (_, a) = u.step(Event::ArtifactResponse(None));
    assert!(matches!(a, Action::Stop(Outcome::FetchFailed)));
}

#[test]
fn failed_signature_fetch_aborts_before_any_write() {
    let (u, _) = Updater::start();
    let (u, _) = u.step(Event::Registration(true));
    let (u, _) = u.step(Event::CacheContent(None));
    let core = Core::from_response(Some("xyz".to_string()), None, b"new".to_vec());
    let (u, _) = u.step(Event::ArtifactResponse(Some(core)));
    let (_, a) = u.step(Event::SignatureResponse(None));
    assert!(matches!(a, Action::Stop(Outcome::SignatureFetchFailed)));
}

#[test]
fn failed_record_write_reports_failure() {
    let (u, _) = Updater::start();
    let (u, _) = u.step(Event::Registration(true));
    let (u, _) = u.step(Event::CacheContent(None));
    let core = Core::from_response(Some("xyz".to_string()), None, b"new".to_vec());
    let (u, _) = u.step(Event::ArtifactResponse(Some(core)));
    let (u, _) = u.step(Event::SignatureResponse(Some(b"SIG".to_vec())));
    let (u, _) = u.step(Event::WriteDone(true));
    let (u, _) = u.step(Event::WriteDone(true));
    let (_, a) = u.step(Event::WriteDone(false));
    assert!(matches!(a, Action::Stop(Outcome::WriteFailed)));
}

#[test]
fn mismatched_event_aborts_the_run() {
    let (u, _) = Updater::start();
    let (_, a) = u.step(Event::WriteDone(true));
    assert!(matches!(a, Action::Stop(Outcome::ProtocolError)));
}

#[test]
fn registration_requires_all_three_files() {
    assert!(registration_decision(true, true, true));
    assert!(!registration_decision(false, true, true));
    assert!(!registration_decision(true, false, true));
    assert!(!registration_decision(true, true, false));
    assert!(!registration_decision(false, false, false));
}
