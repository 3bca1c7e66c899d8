//! Dispatch, fetch memoization and resolution pipeline behaviour.

use yaydl::definitions::web_driver_gate_blocks;
use yaydl::definitions::HandlerError;
use yaydl::definitions::Registry;
use yaydl::definitions::SiteHandler;
use yaydl::prelude::no_site_definition_message;
use yaydl::prelude::Printer;
use yaydl::processor::process_video;
use yaydl::processor::ReadyToProcess;
use yaydl::processor::VideoProcessingResult;
use yaydl::args::Args;
use yaydl::youtube::extract_video_id;
use yaydl::youtube::FetchDecision;
use yaydl::youtube::YouTubeHandler;
use yaydl::VIDEO;

fn plain_args() -> Args {
    Args {
        onlyaudio: false,
        keeptempfile: false,
        verbose: false,
        audioformat: String::from("mp3"),
        outputfile: None,
        webdriver: None,
        url: String::new(),
        invidious_instance: None,
    }
}

#[test]
fn dispatch_miss_for_unknown_url() {
    let registry = Registry::new(None);
    assert!(registry.find_handler("https://example.org/some/page").is_none());
    assert!(registry.find_handler("").is_none());
}

#[test]
fn dispatch_miss_message_and_exit_text() {
    let registry = Registry::new(None);
    let url = "https://example.org/clip";
    assert!(registry.find_handler(url).is_none());
    let msg = no_site_definition_message(url);
    assert_eq!(
        msg,
        "yaydl could not find a site definition that would satisfy https://example.org/clip. Exiting."
    );
}

#[test]
fn dispatch_finds_handler_for_known_shapes() {
    let registry = Registry::new(None);
    for url in [
        "https://www.youtube.com/watch?v=abc",
        "https://youtu.be/abc",
        "https://invidious.example.org/watch?v=abc",
        "https://www.youtube.com/shorts/abc",
    ] {
        let found = registry.find_handler(url);
        assert!(found.is_some(), "expected a handler for {url}");
        let handler = found.unwrap();
        assert_eq!(handler.display_name(), "Invidious");
        assert!(!handler.web_driver_required());
    }
}

#[test]
fn extract_video_id_known_shapes() {
    assert_eq!(
        extract_video_id("https://www.youtube.com/watch?v=abc123&t=5").as_deref(),
        Some("abc123")
    );
    assert_eq!(extract_video_id("https://youtu.be/xyz").as_deref(), Some("xyz"));
    assert_eq!(
        extract_video_id("https://www.youtube.com/shorts/S0RT").as_deref(),
        Some("S0RT")
    );
    assert_eq!(extract_video_id("https://example.org/page"), None);
}

#[test]
fn fetch_request_builds_watch_url() {
    let handler = YouTubeHandler::new(None);
    let video = VIDEO::new();
    match handler.fetch_request(&video, "https://youtu.be/abc123") {
        FetchDecision::Fetch(u) => {
            assert_eq!(u, "https://invidious.privacyredirect.com/watch?v=abc123");
        }
        _ => panic!("expected a fetch request on an empty context"),
    }
}

#[test]
fn fetch_request_honours_instance_override() {
    let handler = YouTubeHandler::new(Some(String::from("http://mirror.test")));
    let video = VIDEO::new();
    match handler.fetch_request(&video, "https://www.youtube.com/watch?v=q&x=1") {
        FetchDecision::Fetch(u) => assert_eq!(u, "http://mirror.test/watch?v=q"),
        _ => panic!("expected a fetch request on an empty context"),
    }
}

#[test]
fn fetch_request_never_refetches_once_memoized() {
    let handler = YouTubeHandler::new(None);
    let mut video = VIDEO::new();
    video.supply_info("<html></html>");
    for _ in 0..3 {
        assert!(matches!(
            handler.fetch_request(&video, "https://youtu.be/abc"),
            FetchDecision::AlreadyFetched
        ));
    }
}

#[test]
fn fetch_request_reports_missing_video_id() {
    let handler = YouTubeHandler::new(None);
    let video = VIDEO::new();
    assert!(matches!(
        handler.fetch_request(&video, "https://youtube.com/feed"),
        FetchDecision::NoVideoId
    ));
}

#[test]
fn does_video_exist_tracks_memoized_body() {
    let handler = YouTubeHandler::new(None);
    let mut video = VIDEO::new();
    assert_eq!(
        handler.does_video_exist(&video, "https://youtu.be/a", 0).unwrap(),
        false
    );
    video.supply_info("<html></html>");
    assert_eq!(
        handler.does_video_exist(&video, "https://youtu.be/a", 0).unwrap(),
        true
    );
}

fn handler_for_tests() -> SiteHandler {
    let registry = Registry::new(Some(String::from("http://inst.test")));
    registry
        .find_handler("https://youtu.be/a")
        .expect("a handler must match")
        .clone()
}

#[test]
fn pipeline_empty_context_is_video_not_found() {
    let handler = handler_for_tests();
    let args = plain_args();
    let mut video = VIDEO::new();
    let outcome = process_video(&handler, &args, &mut video, "https://youtu.be/a", 0).unwrap();
    assert!(matches!(outcome, VideoProcessingResult::VideoNotFound));
}

#[test]
fn pipeline_body_without_title_is_title_not_found() {
    let handler = handler_for_tests();
    let args = plain_args();
    let mut video = VIDEO::new();
    video.supply_info("<html><head></head><body></body></html>");
    let outcome = process_video(&handler, &args, &mut video, "https://youtu.be/a", 0).unwrap();
    assert!(matches!(outcome, VideoProcessingResult::TitleNotFound));
}

#[test]
fn pipeline_title_but_no_sources_is_no_working_video() {
    let handler = handler_for_tests();
    let args = plain_args();
    let mut video = VIDEO::new();
    video.supply_info(
        r#"<html><head><meta property="og:title" content="A Title"></head><body></body></html>"#,
    );
    let err = process_video(&handler, &args, &mut video, "https://youtu.be/a", 0).unwrap_err();
    assert!(matches!(err, HandlerError::NoWorkingVideo));
    assert_eq!(err.message(), "Could not find a working video - aborting.");
}

#[test]
fn pipeline_missing_source_attribute_is_reported() {
    let handler = handler_for_tests();
    let args = plain_args();
    let mut video = VIDEO::new();
    video.supply_info(
        r#"<html><head><meta property="og:title" content="T"></head><body><source label="high" src="/b"></body></html>"#,
    );
    let err = process_video(&handler, &args, &mut video, "https://youtu.be/a", 0).unwrap_err();
    assert!(matches!(err, HandlerError::MissingSourceAttribute));
}

#[test]
fn pipeline_resolves_title_stream_and_extension() {
    let handler = handler_for_tests();
    let args = plain_args();
    let mut video = VIDEO::new();
    video.supply_info(
        r#"<html><head><meta property="og:title" content="A Title"></head><body>
        <source label="low" type="video/mp4; codecs=&quot;avc1&quot;" src="/a">
        <source label="high" type="video/webm; codecs=&quot;vp9&quot;" src="/b">
        </body></html>"#,
    );
    let outcome = process_video(&handler, &args, &mut video, "https://youtu.be/a", 0).unwrap();
    let ready = ReadyToProcess::from_result(outcome);
    assert_eq!(ready.title, "A Title");
    assert_eq!(ready.url, "http://inst.test/b");
    assert_eq!(ready.ext, "webm");
    assert!(!ready.is_playlist);
    assert_eq!(video.mime, "video/webm");
}

#[test]
fn registry_handler_selects_last_differing_label_in_document_order() {
    // The registry's own configuration: consecutive equal labels are
    // skipped and a later differing label overrides, so the last candidate
    // of an ascending-quality document wins.
    let handler = handler_for_tests();
    let args = plain_args();
    let mut video = VIDEO::new();
    video.supply_info(
        r#"<html><head><meta property="og:title" content="T"></head><body>
        <source label="low" type="video/mp4; codecs=x" src="/a">
        <source label="medium" type="video/mp4; codecs=x" src="/b">
        <source label="medium" type="video/mp4; codecs=x" src="/c">
        <source label="high" type="video/mp4; codecs=x" src="/d">
        </body></html>"#,
    );
    let outcome = process_video(&handler, &args, &mut video, "https://youtu.be/a", 0).unwrap();
    let ready = ReadyToProcess::from_result(outcome);
    assert_eq!(ready.url, "http://inst.test/d");
}

#[test]
fn configured_sentinel_locks_the_handler_choice() {
    let handler = SiteHandler::Invidious(YouTubeHandler::with_sentinel(
        Some(String::from("http://inst.test")),
        String::from("medium"),
    ));
    let args = plain_args();
    let mut video = VIDEO::new();
    video.supply_info(
        r#"<html><head><meta property="og:title" content="T"></head><body>
        <source label="low" type="video/mp4; codecs=x" src="/a">
        <source label="medium" type="video/mp4; codecs=x" src="/b">
        <source label="high" type="video/mp4; codecs=x" src="/c">
        </body></html>"#,
    );
    let outcome = process_video(&handler, &args, &mut video, "https://youtu.be/a", 0).unwrap();
    let ready = ReadyToProcess::from_result(outcome);
    assert_eq!(ready.url, "http://inst.test/b");
}

#[test]
fn extension_mapping_from_mime() {
    let handler = YouTubeHandler::new(None);
    let mut video = VIDEO::new();
    video.mime = String::from("video/webm");
    assert_eq!(
        handler.find_video_file_extension(&video, "u", 0, false).unwrap(),
        "webm"
    );
    video.mime = String::from("audio/mp4");
    assert_eq!(
        handler.find_video_file_extension(&video, "u", 0, false).unwrap(),
        "m4a"
    );
    video.mime = String::from("video/mp4");
    assert_eq!(
        handler.find_video_file_extension(&video, "u", 0, true).unwrap(),
        "mp4"
    );
    video.mime = String::new();
    assert_eq!(
        handler.find_video_file_extension(&video, "u", 0, false).unwrap(),
        "mp4"
    );
}

#[test]
fn web_driver_gate_never_blocks_the_invidious_handler() {
    let handler = handler_for_tests();
    assert!(!web_driver_gate_blocks(&handler, 0));
    assert!(!web_driver_gate_blocks(&handler, 4444));
}

#[test]
fn find_video_title_reads_the_metadata_node() {
    let handler = YouTubeHandler::new(None);
    let mut video = VIDEO::new();
    video.supply_info(
        r#"<html><head><meta property="og:title" content="Some Title"></head><body></body></html>"#,
    );
    assert_eq!(
        handler.find_video_title(&video, "u", 0).unwrap(),
        "Some Title"
    );
}

#[test]
fn find_video_title_errors_without_metadata_node() {
    let handler = YouTubeHandler::new(None);
    let mut video = VIDEO::new();
    video.supply_info("<html><body><p>nothing here</p></body></html>");
    let err = handler.find_video_title(&video, "u", 0).unwrap_err();
    assert!(matches!(err, HandlerError::NoTitle));
    assert_eq!(err.message(), "The page has no og:title metadata.");
}

#[test]
fn missing_source_attribute_message() {
    let err = HandlerError::MissingSourceAttribute;
    assert_eq!(
        err.message(),
        "A stream source lacks its type or src attribute - aborting."
    );
}

#[test]
fn is_playlist_is_a_definite_no() {
    let handler = YouTubeHandler::new(None);
    assert_eq!(handler.is_playlist("https://youtu.be/a", 0).unwrap(), false);
}

#[test]
fn printer_buffers_and_flushes() {
    let mut printer = Printer::new();
    assert_eq!(printer.buf, "\x1b[?25l");
    printer.add("Fetching from ");
    printer.add("Invidious.");
    let out = printer.flush();
    assert_eq!(out, "\x1b[?25lFetching from Invidious.");
    assert_eq!(printer.buf, "");
}

#[test]
fn printer_web_driver_remediation_message() {
    let mut printer = Printer::new();
    let _ = printer.flush();
    let msg = printer.web_driver_req("Invidious");
    assert_eq!(
        msg,
        "Invidious requires a web driver installed and running as described in the README. Please tell yaydl which port to use (yaydl --webdriver <PORT>) and try again."
    );
    assert_eq!(printer.buf, "");
}

#[test]
fn parse_webdriver_defaults_to_zero() {
    let mut args = plain_args();
    assert_eq!(args.parse_webdriver(), 0);
    args.webdriver = Some(4444);
    assert_eq!(args.parse_webdriver(), 4444);
}
