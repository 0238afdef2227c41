//! One whole download lifecycle driven through the library: a file
//! delivered in chunks, the closing event, the extraction plan, and the
//! installed-game record naming the executable.

use std::io::Write;

use vapr_core::archive::{plan_extraction, read_archive, ExtractAction};
use vapr_core::download::{
    installed_game_info, ChunkOutcome, DownloadManager, DownloadRequest,
};
use vapr_core::paths::{partial_file_name, sanitize_name};

#[test]
fn a_download_ends_in_a_plan_naming_the_executable() {
    // The archive that will arrive over the wire.
    let cursor = std::io::Cursor::new(Vec::new());
    let mut writer = zip::ZipWriter::new(cursor);
    let exe_options =
        zip::write::SimpleFileOptions::default().unix_permissions(0o755);
    writer.start_file("game.exe", exe_options).unwrap();
    writer.write_all(b"MZ fake binary").unwrap();
    let plain = zip::write::SimpleFileOptions::default();
    writer.start_file("data/levels.dat", plain).unwrap();
    writer.write_all(&[7u8; 64]).unwrap();
    let image = writer.finish().unwrap().into_inner();

    // The transfer: registered, begun at offset 0, delivered in three
    // chunks, closed at one hundred percent.
    let mut manager = DownloadManager::new();
    manager
        .start(
            DownloadRequest {
                download_id: "d1".to_string(),
                game_id: "game-1".to_string(),
                game_name: "My Game".to_string(),
                game_cover: None,
                download_url: "https://example.invalid/my-game.zip".to_string(),
                version: Some("1.2.3".to_string()),
            },
            0,
        )
        .unwrap();
    let id = "d1".to_string();
    let total = image.len() as u64;
    manager.begin_attempt(&id, 0, total, 0).unwrap();

    let third = image.len() / 3;
    let cuts = [third, 2 * third, image.len()];
    let mut sent = 0usize;
    let mut now = 0u64;
    let mut partial: Vec<u8> = Vec::new();
    for cut in cuts {
        let chunk = &image[sent..cut];
        sent = cut;
        now += 200;
        match manager.on_chunk(&id, chunk.len() as u64, now).unwrap() {
            ChunkOutcome::Progress(Some(e)) => {
                assert_eq!(e.downloaded, partial.len() as u64 + chunk.len() as u64);
                assert_eq!(e.total, total);
            }
            ChunkOutcome::Progress(None) => panic!("the throttle held an event back"),
            ChunkOutcome::Paused => panic!("nothing paused this download"),
        }
        // The partial file only ever grows at its end.
        partial.extend_from_slice(chunk);
        assert_eq!(&image[..partial.len()], partial.as_slice());
    }
    assert_eq!(partial, image);

    let closing = manager.finish_attempt(&id).unwrap();
    assert_eq!(closing.percent, 100);
    assert_eq!(closing.downloaded, total);

    // Extraction: the plan names the executable and its bytes.
    let entries = read_archive(&partial).unwrap();
    let plan = plan_extraction(entries);
    assert_eq!(plan.len(), 2);
    let exe = plan
        .iter()
        .find_map(|a| match a {
            ExtractAction::WriteFile { rel_path, data, unix_mode }
                if rel_path == &b"game.exe".to_vec() =>
            {
                Some((data.clone(), *unix_mode))
            }
            _ => None,
        })
        .expect("the plan must write the executable");
    assert_eq!(exe.0, b"MZ fake binary".to_vec());
    assert_eq!(exe.1, Some(0o100755));

    // The completion record, as the terminal event carries it.
    let install_dir = String::from_utf8(sanitize_name("My Game")).unwrap();
    assert_eq!(install_dir, "My_Game");
    assert_eq!(
        String::from_utf8(partial_file_name("My Game")).unwrap(),
        "My_Game.download"
    );
    let info = installed_game_info(
        "game-1".to_string(),
        "My Game".to_string(),
        format!("/games/{}", install_dir),
        format!("/games/{}/game.exe", install_dir),
        Some("1.2.3".to_string()),
        "2026-02-03T04:05:06Z".to_string(),
    );
    assert_eq!(info.executable, "/games/My_Game/game.exe");
    assert_eq!(info.version, "1.2.3");
}
