// Tests for the availability probe's verdict.

use toolboot::catalog::{downloader_entry, player_entry};
use toolboot::probe::{evaluate_probe, ProbeResult};

#[test]
fn successful_spawn_means_on_path() {
    let ts = player_entry();
    let found = vec![false, false];
    let r = evaluate_probe(&ts, true, &found);
    assert!(matches!(r, ProbeResult::OnPath));
}

#[test]
fn spawn_beats_fallbacks_even_when_both_hold() {
    let ts = player_entry();
    let found = vec![true, true];
    let r = evaluate_probe(&ts, true, &found);
    assert!(matches!(r, ProbeResult::OnPath));
}

#[test]
fn first_existing_fallback_wins() {
    let ts = player_entry();
    let found = vec![true, true];
    let r = evaluate_probe(&ts, false, &found);
    match r {
        ProbeResult::AtFallback { path } => {
            assert_eq!(path, "C:\\Program Files\\VideoLAN\\VLC\\vlc.exe");
        }
        other => panic!("expected AtFallback, got {:?}", other),
    }
}

#[test]
fn later_fallback_is_used_when_earlier_is_absent() {
    let ts = player_entry();
    let found = vec![false, true];
    let r = evaluate_probe(&ts, false, &found);
    match r {
        ProbeResult::AtFallback { path } => {
            assert_eq!(path, "C:\\Program Files (x86)\\VideoLAN\\VLC\\vlc.exe");
        }
        other => panic!("expected AtFallback, got {:?}", other),
    }
}

#[test]
fn nothing_found_means_unavailable() {
    let ts = player_entry();
    let found = vec![false, false];
    let r = evaluate_probe(&ts, false, &found);
    assert!(matches!(r, ProbeResult::Unavailable));
}

#[test]
fn no_fallback_list_means_spawn_decides_alone() {
    let ts = downloader_entry("C:\\Users\\u\\AppData\\Roaming");
    let found: Vec<bool> = Vec::new();
    assert!(matches!(evaluate_probe(&ts, true, &found), ProbeResult::OnPath));
    assert!(matches!(evaluate_probe(&ts, false, &found), ProbeResult::Unavailable));
}
