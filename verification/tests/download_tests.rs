use vapr_core::download::{
    installed_game_info, terminal_event, ChunkOutcome, DownloadManager, DownloadRequest,
    DownloadStatus, TerminalEvent,
};
use vapr_core::errors::LauncherError;

fn request(id: &str) -> DownloadRequest {
    DownloadRequest {
        download_id: id.to_string(),
        game_id: "game-1".to_string(),
        game_name: "My Game: Deluxe".to_string(),
        game_cover: Some("https://example.invalid/cover.png".to_string()),
        download_url: "https://example.invalid/game.zip".to_string(),
        version: Some("2.1.0".to_string()),
    }
}

#[test]
fn start_registers_and_rejects_duplicates() {
    let mut m = DownloadManager::new();
    assert!(m.start(request("d1"), 1000).is_ok());
    let again = m.start(request("d1"), 2000);
    assert!(matches!(again, Err(LauncherError::AlreadyRegistered)));
    let snaps = m.list_active();
    assert_eq!(snaps.len(), 1);
    assert_eq!(snaps[0].download_id, "d1");
    assert_eq!(snaps[0].downloaded, 0);
    assert_eq!(snaps[0].total, 0);
    assert_eq!(snaps[0].percent, 0);
    assert_eq!(snaps[0].game_name, "My Game: Deluxe");
    assert_eq!(
        snaps[0].game_cover,
        Some("https://example.invalid/cover.png".to_string())
    );
    assert!(matches!(snaps[0].status, DownloadStatus::Downloading));
}

#[test]
fn operations_on_unknown_ids_fail_with_not_found() {
    let mut m = DownloadManager::new();
    let id = "ghost".to_string();
    assert!(matches!(m.pause(&id), Err(LauncherError::NotFound)));
    assert!(matches!(m.resume(&id, 0), Err(LauncherError::NotFound)));
    assert!(matches!(m.cancel(&id), Err(LauncherError::NotFound)));
    assert!(matches!(m.begin_attempt(&id, 0, 10, 0), Err(LauncherError::NotFound)));
    assert!(matches!(m.on_chunk(&id, 1, 0), Err(LauncherError::NotFound)));
    assert!(matches!(m.finish_attempt(&id), Err(LauncherError::NotFound)));
}

#[test]
fn cancel_twice_fails_the_second_time() {
    let mut m = DownloadManager::new();
    m.start(request("d1"), 0).unwrap();
    let id = "d1".to_string();
    let removed = m.cancel(&id).unwrap();
    assert_eq!(removed.id, "d1");
    assert!(removed.is_paused);
    assert!(matches!(m.cancel(&id), Err(LauncherError::NotFound)));
    assert_eq!(m.list_active().len(), 0);
}

#[test]
fn resume_invariant_total_is_offset_plus_remaining() {
    let mut m = DownloadManager::new();
    m.start(request("d1"), 0).unwrap();
    let id = "d1".to_string();
    let total = m.begin_attempt(&id, 100, 200, 0).unwrap();
    assert_eq!(total, 300);
    let snaps = m.list_active();
    assert_eq!(snaps[0].downloaded, 100);
    assert_eq!(snaps[0].total, 300);
    assert_eq!(snaps[0].percent, 33);
}

#[test]
fn pause_stops_the_attempt_at_the_next_chunk() {
    let mut m = DownloadManager::new();
    m.start(request("d1"), 0).unwrap();
    let id = "d1".to_string();
    m.begin_attempt(&id, 0, 300, 0).unwrap();
    let counted = m.on_chunk(&id, 100, 200).unwrap();
    assert!(matches!(counted, ChunkOutcome::Progress(_)));
    m.pause(&id).unwrap();
    let refused = m.on_chunk(&id, 100, 400).unwrap();
    assert!(matches!(refused, ChunkOutcome::Paused));
    let snaps = m.list_active();
    assert_eq!(snaps[0].downloaded, 100);
    assert!(snaps[0].downloaded <= snaps[0].total);
    assert!(matches!(snaps[0].status, DownloadStatus::Paused));
}

#[test]
fn resume_restarts_from_the_partial_length_and_reaches_the_total() {
    let mut m = DownloadManager::new();
    m.start(request("d1"), 0).unwrap();
    let id = "d1".to_string();
    m.begin_attempt(&id, 0, 300, 0).unwrap();
    m.on_chunk(&id, 100, 200).unwrap();
    m.pause(&id).unwrap();
    assert!(matches!(m.on_chunk(&id, 100, 400).unwrap(), ChunkOutcome::Paused));

    // The partial file holds 100 bytes; the remote reports 200 left.
    m.resume(&id, 10_000).unwrap();
    let total = m.begin_attempt(&id, 100, 200, 10_000).unwrap();
    assert_eq!(total, 300);
    m.on_chunk(&id, 100, 10_200).unwrap();
    m.on_chunk(&id, 100, 10_400).unwrap();
    let closing = m.finish_attempt(&id).unwrap();
    assert_eq!(closing.downloaded, 300);
    assert_eq!(closing.total, 300);
    assert_eq!(closing.percent, 100);
}

#[test]
fn chunks_are_counted_and_throttled_events_carry_exact_values() {
    let mut m = DownloadManager::new();
    m.start(request("d1"), 1000).unwrap();
    let id = "d1".to_string();
    m.begin_attempt(&id, 0, 300, 1000).unwrap();

    // 200 ms after the last event: one is due.
    let first = m.on_chunk(&id, 100, 1200).unwrap();
    match first {
        ChunkOutcome::Progress(Some(e)) => {
            assert_eq!(e.download_id, "d1");
            assert_eq!(e.game_id, "game-1");
            assert_eq!(e.downloaded, 100);
            assert_eq!(e.total, 300);
            assert_eq!(e.percent, 33);
            // 100 bytes in 200 ms of attempt time.
            assert_eq!(e.speed_bps, 500);
            assert_eq!(e.eta_seconds, 0);
        }
        other => panic!("expected a progress event, got {:?}", kind_of(&other)),
    }

    // Only 50 ms later: throttled.
    let second = m.on_chunk(&id, 100, 1250).unwrap();
    assert!(matches!(second, ChunkOutcome::Progress(None)));
    let snaps = m.list_active();
    assert_eq!(snaps[0].downloaded, 200);
    assert_eq!(snaps[0].percent, 66);
}

fn kind_of(outcome: &ChunkOutcome) -> &'static str {
    match outcome {
        ChunkOutcome::Paused => "paused",
        ChunkOutcome::Progress(Some(_)) => "progress with event",
        ChunkOutcome::Progress(None) => "progress without event",
    }
}

#[test]
fn a_full_transfer_ends_at_one_hundred_percent() {
    // A 300-byte file delivered in three 100-byte chunks.
    let mut m = DownloadManager::new();
    m.start(request("d1"), 0).unwrap();
    let id = "d1".to_string();
    m.begin_attempt(&id, 0, 300, 0).unwrap();
    let mut seen = Vec::new();
    let mut now = 0u64;
    for _ in 0..3 {
        now += 200;
        match m.on_chunk(&id, 100, now).unwrap() {
            ChunkOutcome::Progress(Some(e)) => seen.push(e.downloaded),
            ChunkOutcome::Progress(None) => panic!("event was throttled unexpectedly"),
            ChunkOutcome::Paused => panic!("attempt was paused unexpectedly"),
        }
    }
    assert_eq!(seen, vec![100, 200, 300]);
    let closing = m.finish_attempt(&id).unwrap();
    assert_eq!(closing.downloaded, 300);
    assert_eq!(closing.total, 300);
    assert_eq!(closing.percent, 100);
    assert_eq!(closing.speed_bps, 0);
    assert_eq!(closing.eta_seconds, 0);
    assert_eq!(closing.game_name, "My Game: Deluxe");
    assert_eq!(
        closing.game_cover,
        Some("https://example.invalid/cover.png".to_string())
    );
    let snaps = m.list_active();
    assert_eq!(snaps[0].downloaded, 300);
    assert_eq!(snaps[0].percent, 100);
}

#[test]
fn over_delivery_is_rejected_and_counts_nothing() {
    let mut m = DownloadManager::new();
    m.start(request("d1"), 0).unwrap();
    let id = "d1".to_string();
    m.begin_attempt(&id, 0, 5, 0).unwrap();

    // A server that sends more than its declared size breaks the
    // transport contract; the excess chunk is refused and not counted.
    let r = m.on_chunk(&id, 10, 200);
    assert!(matches!(r, Err(LauncherError::Network { .. })));
    let snaps = m.list_active();
    assert_eq!(snaps[0].downloaded, 0);
    assert_eq!(snaps[0].total, 5);

    // The exact remaining size is still accepted; one byte past it not.
    match m.on_chunk(&id, 5, 200).unwrap() {
        ChunkOutcome::Progress(Some(e)) => {
            assert_eq!(e.downloaded, 5);
            assert!(e.downloaded <= e.total);
        }
        _ => panic!("a chunk within the total must be counted"),
    }
    assert!(matches!(m.on_chunk(&id, 1, 400), Err(LauncherError::Network { .. })));
    let closing = m.finish_attempt(&id).unwrap();
    assert_eq!(closing.percent, 100);
}

#[test]
fn counters_never_pass_a_known_total() {
    let mut m = DownloadManager::new();
    m.start(request("d1"), 0).unwrap();
    let id = "d1".to_string();
    m.begin_attempt(&id, 100, 200, 0).unwrap();
    let mut now: u64 = 0;
    for len in [150u64, 60, 50, 40, 10] {
        now += 200;
        let _ = m.on_chunk(&id, len, now);
        let snaps = m.list_active();
        assert!(snaps[0].downloaded <= snaps[0].total);
    }
    let snaps = m.list_active();
    assert_eq!(snaps[0].downloaded, 300);
}

#[test]
fn terminal_event_reports_exactly_the_attempt_result() {
    let done = terminal_event(Ok(("/games/My_Game".to_string(), "/games/My_Game/game.exe".to_string())));
    match done {
        TerminalEvent::Completed { install_path, executable } => {
            assert_eq!(install_path, "/games/My_Game");
            assert_eq!(executable, "/games/My_Game/game.exe");
        }
        TerminalEvent::Failed { .. } => panic!("a successful attempt completes"),
    }
    let failed = terminal_event(Err("Download paused".to_string()));
    match failed {
        TerminalEvent::Failed { error } => assert_eq!(error, "Download paused"),
        TerminalEvent::Completed { .. } => panic!("a failed attempt does not complete"),
    }
}

#[test]
fn installed_game_info_defaults_the_version() {
    let info = installed_game_info(
        "game-1".to_string(),
        "My Game".to_string(),
        "/games/My_Game".to_string(),
        "/games/My_Game/game.exe".to_string(),
        None,
        "2026-01-01T00:00:00Z".to_string(),
    );
    assert_eq!(info.version, "1.0.0");
    assert_eq!(info.executable, "/games/My_Game/game.exe");

    let tagged = installed_game_info(
        "game-1".to_string(),
        "My Game".to_string(),
        "/games/My_Game".to_string(),
        "/games/My_Game/game.exe".to_string(),
        Some("3.4.5".to_string()),
        "2026-01-01T00:00:00Z".to_string(),
    );
    assert_eq!(tagged.version, "3.4.5");
    assert_eq!(tagged.installed_at, "2026-01-01T00:00:00Z");
}

#[test]
fn errors_describe_themselves() {
    assert_eq!(LauncherError::NotFound.describe(), "Download not found");
    assert_eq!(LauncherError::Paused.describe(), "Download paused");
    assert!(LauncherError::Paused.is_pause());
    assert!(!LauncherError::NotFound.is_pause());
    let net = LauncherError::Network { message: "connection reset".to_string() };
    assert_eq!(net.describe(), "Network error: connection reset");
    assert_eq!(LauncherError::ArchiveFormat.describe(), "Invalid archive");
}
