//! Quality selection, filename sanitization and the target decision layer.

use yaydl::processor::sanitize_title;
use yaydl::processor::InputOutputPaths;
use yaydl::processor::ReadyToProcess;
use yaydl::processor::TargetFile;
use yaydl::youtube::select_stream;
use yaydl::youtube::SourceEntry;

fn entry(label: &str, src: &str) -> SourceEntry {
    SourceEntry {
        label: String::from(label),
        mimetype: Some(String::from("video/mp4; codecs=x")),
        src: Some(String::from(src)),
    }
}

#[test]
fn quality_selection_later_differing_label_wins() {
    let sources = vec![
        entry("low", "a"),
        entry("medium", "b"),
        entry("medium", "c"),
        entry("high", "d"),
    ];
    let chosen = select_stream(&sources, "best").unwrap().unwrap();
    assert_eq!(chosen.0, "d");
    assert_eq!(chosen.1, "video/mp4");
}

#[test]
fn quality_selection_sentinel_locks_choice() {
    let sources = vec![
        entry("low", "a"),
        entry("medium", "b"),
        entry("medium", "c"),
        entry("high", "d"),
    ];
    let chosen = select_stream(&sources, "medium").unwrap().unwrap();
    assert_eq!(chosen.0, "b");
}

#[test]
fn quality_selection_skips_consecutive_equal_labels() {
    let sources = vec![entry("low", "a"), entry("low", "b")];
    let chosen = select_stream(&sources, "best").unwrap().unwrap();
    assert_eq!(chosen.0, "a");
}

#[test]
fn quality_selection_empty_list_chooses_nothing() {
    let sources: Vec<SourceEntry> = Vec::new();
    assert!(select_stream(&sources, "medium").unwrap().is_none());
}

#[test]
fn quality_selection_unlabelled_first_candidate_is_skipped() {
    // An absent label reads as empty, which equals the initial state.
    let sources = vec![
        SourceEntry { label: String::new(), mimetype: None, src: None },
        entry("high", "b"),
    ];
    let chosen = select_stream(&sources, "medium").unwrap().unwrap();
    assert_eq!(chosen.0, "b");
}

#[test]
fn quality_selection_missing_attribute_on_accepted_candidate() {
    let sources = vec![SourceEntry {
        label: String::from("high"),
        mimetype: None,
        src: Some(String::from("/b")),
    }];
    assert!(select_stream(&sources, "medium").is_err());
}

#[test]
fn sanitize_strips_forbidden_and_appends_extension() {
    let ready = ReadyToProcess {
        title: String::from(r#"My: Video? "Final"/2024"#),
        url: String::from("http://inst.test/a"),
        ext: String::from("mp4"),
        is_playlist: false,
    };
    let target = TargetFile::from_ready(ready);
    assert_eq!(target.target_filename, "My Video Final2024.mp4");
    assert!(target.target_filename.ends_with(".mp4"));
    for c in ['|', '\'', '"', ':', '\\', '/', '?', '*'] {
        assert!(!target.target_filename.contains(c));
    }
}

#[test]
fn sanitize_is_idempotent_on_ordinary_titles() {
    let once = sanitize_title(r#"  My: Video? "Final"/2024  "#);
    let twice = sanitize_title(&once);
    assert_eq!(once, twice);
    assert_eq!(once, "My Video Final2024");
}

#[test]
fn playlist_forces_ffmpeg_and_single_file_does_not() {
    let playlist = ReadyToProcess {
        title: String::from("t"),
        url: String::from("u"),
        ext: String::from("mp4"),
        is_playlist: true,
    };
    assert!(TargetFile::from_ready(playlist).force_ffmpeg);
    let single = ReadyToProcess {
        title: String::from("t"),
        url: String::from("u"),
        ext: String::from("mp4"),
        is_playlist: false,
    };
    assert!(!TargetFile::from_ready(single).force_ffmpeg);
}

fn target(ext: &str, force_ffmpeg: bool) -> TargetFile {
    TargetFile {
        target_ext: String::from(ext),
        target_filename: format!("clip.{ext}"),
        force_ffmpeg,
    }
}

#[test]
fn postprocessing_trigger_covers_all_four_cases() {
    // force_ffmpeg OR (onlyaudio AND downloaded ext != requested format)
    assert!(!target("mp4", false).needs_postprocessing(false, "mp3"));
    assert!(target("mp4", false).needs_postprocessing(true, "mp3"));
    assert!(target("mp4", true).needs_postprocessing(false, "mp3"));
    assert!(target("mp4", true).needs_postprocessing(true, "mp3"));
    // audio already in the requested format: only force_ffmpeg triggers
    assert!(!target("mp3", false).needs_postprocessing(true, "mp3"));
    assert!(target("mp3", true).needs_postprocessing(true, "mp3"));
}

#[test]
fn paths_start_at_the_downloaded_file() {
    let tf = target("mp4", false);
    let paths = InputOutputPaths::from_target(&tf);
    assert_eq!(paths.input, "clip.mp4");
    assert_eq!(paths.output, "clip.mp4");
}

#[test]
fn set_ext_output_rewrites_the_extension() {
    let tf = target("mp4", false);
    let mut paths = InputOutputPaths::from_target(&tf);
    paths.set_ext_output("mp3");
    assert_eq!(paths.input, "clip.mp4");
    assert_eq!(paths.output, "clip.mp3");
}

#[test]
fn set_ext_output_appends_when_the_name_has_no_extension() {
    let mut paths = InputOutputPaths {
        input: String::from("noext"),
        output: String::from("noext"),
    };
    paths.set_ext_output("mp3");
    assert_eq!(paths.output, "noext.mp3");

    let mut hidden = InputOutputPaths {
        input: String::from(".bashrc"),
        output: String::from(".bashrc"),
    };
    hidden.set_ext_output("mp3");
    assert_eq!(hidden.output, ".bashrc.mp3");
}

#[test]
fn to_audio_mut_targets_requested_audio_or_normalized_video() {
    let tf = target("webm", false);
    let mut paths = InputOutputPaths::from_target(&tf);
    paths.to_audio_mut(true, "mp3");
    assert_eq!(paths.output, "clip.mp3");

    let mut paths = InputOutputPaths::from_target(&tf);
    paths.to_audio_mut(false, "mp3");
    assert_eq!(paths.output, "clip.mp4");
    assert_eq!(paths.input, "clip.webm");
    assert_eq!(paths.output_to_string(), "clip.mp4");
}
