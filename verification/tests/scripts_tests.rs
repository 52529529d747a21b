use current_song::player::PlayerError;
use current_song::scripts::{
    audio_probe_script, replied_true, run_result, script_result, ScriptOutcome, tab_listing_script, tab_open_script, trimmed_is,
    AUDIO_PROBE_0, TAB_OPEN_2,
};

#[test]
fn scripts_embed_browser_and_url() {
    let s = tab_open_script("Safari", "https://a.com/x");
    assert!(s.contains("application process \"Safari\" exists"));
    assert!(s.contains("if URL of currentTab is \"https://a.com/x\" then"));
    assert!(s.contains(TAB_OPEN_2));
    let p = audio_probe_script("Brave Browser", "youtube.com/watch?v=1");
    assert!(p.starts_with(AUDIO_PROBE_0));
    assert!(p.contains("tell application \"Brave Browser\""));
    assert!(p.contains("if URL of currentTab contains \"youtube.com/watch?v=1\" then"));
    assert!(p.contains("(function() {"));
    let l = tab_listing_script("Google Chrome");
    assert!(l.contains("tell application \"Google Chrome\""));
    assert!(l.contains("return mediaResults"));
}

#[test]
fn replies() {
    assert!(replied_true(true, " true\n"));
    assert!(!replied_true(false, "true"));
    assert!(!replied_true(true, "false"));
    assert!(trimmed_is(" playing ", "playing"));
    match script_result(true, " out \n", "") {
        Ok(s) => assert_eq!(s, "out"),
        Err(e) => panic!("unexpected {:?}", e),
    }
    match script_result(false, "x", "  boom ") {
        Err(PlayerError::AppleScript(m)) => assert_eq!(m, "boom"),
        other => panic!("unexpected {:?}", other),
    }
}

#[test]
fn run_results_follow_how_the_run_ended() {
    let ok = run_result(ScriptOutcome::Exited { success: true, stdout: " playing\n".into(), stderr: String::new() });
    assert_eq!(ok.unwrap(), "playing");
    match run_result(ScriptOutcome::Exited { success: false, stdout: "x".into(), stderr: " boom\n".into() }) {
        Err(PlayerError::AppleScript(m)) => assert_eq!(m, "boom"),
        other => panic!("unexpected {:?}", other),
    }
    match run_result(ScriptOutcome::SpawnFailed("No such file".into())) {
        Err(PlayerError::AppleScript(m)) => assert_eq!(m, "No such file"),
        other => panic!("unexpected {:?}", other),
    }
}
