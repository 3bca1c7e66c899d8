//! The capability surface shared by all site handlers: the handler error
//! taxonomy, the handler sum type, and the registry that dispatches a URL to
//! the first handler whose predicate claims it.

use vstd::prelude::*;
use vstd::string::StringExecFns;

use crate::youtube;
use crate::youtube::FetchDecision;
use crate::youtube::YouTubeHandler;
use crate::VIDEO;

verus! {

/// The hard failures a handler can signal while resolving a page.
#[derive(Clone, Copy, Debug)]
pub enum HandlerError {
    /// The page exposes no stream source at all, or none was accepted.
    NoWorkingVideo,
    /// An accepted stream source lacks its media-type or source attribute.
    MissingSourceAttribute,
    /// The page has no title metadata node to read.
    NoTitle,
}

impl HandlerError {
    /// The user-facing message for this failure.
    pub fn message(&self) -> (r: String)
        ensures
            r@ == (match self {
                HandlerError::NoWorkingVideo => "Could not find a working video - aborting."@,
                HandlerError::MissingSourceAttribute => "A stream source lacks its type or src attribute - aborting."@,
                HandlerError::NoTitle => "The page has no og:title metadata."@,
            }),
    {
        match self {
            HandlerError::NoWorkingVideo => String::from_str(
                "Could not find a working video - aborting.",
            ),
            HandlerError::MissingSourceAttribute => String::from_str(
                "A stream source lacks its type or src attribute - aborting.",
            ),
            HandlerError::NoTitle => String::from_str("The page has no og:title metadata."),
        }
    }
}

/// One registered site handler. Every supported site family adds a variant
/// here; dispatch and the pipeline work against this sum type.
#[derive(Clone)]
pub enum SiteHandler {
    Invidious(YouTubeHandler),
}

impl SiteHandler {
    /// The dispatch predicate of this handler, as a spec-level statement.
    pub open spec fn spec_can_handle(&self, url: Seq<char>) -> bool {
        match self {
            SiteHandler::Invidious(_) => youtube::spec_can_handle(url),
        }
    }

    /// The mirror instance page and stream URLs are built against.
    pub open spec fn spec_instance(&self) -> Seq<char> {
        match self {
            SiteHandler::Invidious(h) => h.instance@,
        }
    }

    /// The quality label that locks stream selection.
    pub open spec fn spec_sentinel(&self) -> Seq<char> {
        match self {
            SiteHandler::Invidious(h) => h.sentinel@,
        }
    }

    /// Whether this handler needs a running web-automation driver.
    pub open spec fn spec_web_driver_required(&self) -> bool {
        match self {
            SiteHandler::Invidious(_) => false,
        }
    }

    /// Pure dispatch predicate over URL strings; no fetch happens here.
    pub fn can_handle_url(&self, url: &str) -> (r: bool)
        ensures
            r == self.spec_can_handle(url@),
    {
        match self {
            SiteHandler::Invidious(h) => h.can_handle_url(url),
        }
    }

    /// The memoization decision; see [`YouTubeHandler::fetch_request`].
    /// Once `info` is non-empty, no handler call ever requests another
    /// fetch within the same run.
    pub fn fetch_request(&self, video: &VIDEO, url: &str) -> (r: FetchDecision)
        ensures
            video.info@.len() > 0 ==> r is AlreadyFetched,
            (video.info@.len() == 0 && youtube::spec_video_id(url@) is None) ==> r is NoVideoId,
            (video.info@.len() == 0 && youtube::spec_video_id(url@) is Some) ==> (r matches
                FetchDecision::Fetch(u) && u@ == self.spec_instance() + "/watch?v="@
                + youtube::spec_video_id(url@).unwrap()),
    {
        match self {
            SiteHandler::Invidious(h) => h.fetch_request(video, url),
        }
    }

    /// See [`YouTubeHandler::does_video_exist`].
    pub fn does_video_exist(&self, video: &VIDEO, url: &str, webdriver_port: u16) -> (r: Result<
        bool,
        HandlerError,
    >)
        ensures
            r matches Ok(b) && b == (video.info@.len() > 0),
    {
        match self {
            SiteHandler::Invidious(h) => h.does_video_exist(video, url, webdriver_port),
        }
    }

    /// See [`YouTubeHandler::find_video_title`].
    pub fn find_video_title(&self, video: &VIDEO, url: &str, webdriver_port: u16) -> (r: Result<
        String,
        HandlerError,
    >)
        ensures
            match r {
                Ok(t) => youtube::og_title_of(video.info@) == Some(t@),
                Err(e) => e is NoTitle && youtube::og_title_of(video.info@) is None,
            },
    {
        match self {
            SiteHandler::Invidious(h) => h.find_video_title(video, url, webdriver_port),
        }
    }

    /// See [`YouTubeHandler::find_video_direct_url`].
    pub fn find_video_direct_url(
        &self,
        video: &mut VIDEO,
        url: &str,
        webdriver_port: u16,
        onlyaudio: bool,
    ) -> (r: Result<String, HandlerError>)
        ensures
            final(video).info == old(video).info,
            final(video).title == old(video).title,
            match youtube::sel_fold(youtube::sources_of(old(video).info@), self.spec_sentinel()) {
                Some(st) => match st.chosen {
                    Some(pair) => r matches Ok(u) && u@ == self.spec_instance() + pair.0
                        && final(video).mime@ == pair.1,
                    None => r matches Err(e) && e is NoWorkingVideo
                        && final(video).mime == old(video).mime,
                },
                None => r matches Err(e) && e is MissingSourceAttribute
                    && final(video).mime == old(video).mime,
            },
    {
        match self {
            SiteHandler::Invidious(h) => h.find_video_direct_url(
                video,
                url,
                webdriver_port,
                onlyaudio,
            ),
        }
    }

    /// See [`YouTubeHandler::find_video_file_extension`].
    pub fn find_video_file_extension(
        &self,
        video: &VIDEO,
        url: &str,
        webdriver_port: u16,
        onlyaudio: bool,
    ) -> (r: Result<String, HandlerError>)
        ensures
            r matches Ok(e) && e@ == youtube::spec_ext_of_mime(video.mime@),
    {
        match self {
            SiteHandler::Invidious(h) => h.find_video_file_extension(
                video,
                url,
                webdriver_port,
                onlyaudio,
            ),
        }
    }

    /// See [`YouTubeHandler::is_playlist`].
    pub fn is_playlist(&self, url: &str, webdriver_port: u16) -> (r: Result<bool, HandlerError>)
        ensures
            r matches Ok(b) && b == false,
    {
        match self {
            SiteHandler::Invidious(h) => h.is_playlist(url, webdriver_port),
        }
    }

    /// Static display metadata.
    pub fn display_name(&self) -> (r: String)
        ensures
            r@ == "Invidious"@,
    {
        match self {
            SiteHandler::Invidious(h) => h.display_name(),
        }
    }

    /// Whether this handler needs a running web-automation driver.
    pub fn web_driver_required(&self) -> (r: bool)
        ensures
            r == self.spec_web_driver_required(),
    {
        match self {
            SiteHandler::Invidious(h) => h.web_driver_required(),
        }
    }
}

/// The missing-capability precondition: the matched handler needs a web
/// driver and none was configured (port 0 means "none supplied"). When this
/// holds, the run reports the remediation message instead of proceeding —
/// the check comes before any fetch is requested.
pub fn web_driver_gate_blocks(handler: &SiteHandler, webdriver_port: u16) -> (r: bool)
    ensures
        r == (handler.spec_web_driver_required() && webdriver_port == 0),
{
    handler.web_driver_required() && webdriver_port == 0
}

/// The position of the first handler whose predicate claims the URL.
pub open spec fn spec_find_handler(handlers: Seq<SiteHandler>, url: Seq<char>) -> Option<int>
    decreases handlers.len(),
{
    if handlers.len() == 0 {
        None
    } else if handlers[0].spec_can_handle(url) {
        Some(0)
    } else {
        match spec_find_handler(handlers.drop_first(), url) {
            Some(i) => Some(i + 1),
            None => None,
        }
    }
}

/// Law: a URL that no registered predicate claims is dispatched to no
/// handler at all — the pipeline is never entered for it and no fetch is
/// ever requested on its behalf.
pub proof fn lemma_dispatch_miss(handlers: Seq<SiteHandler>, url: Seq<char>)
    requires
        forall|j: int| 0 <= j < handlers.len() ==> !handlers[j].spec_can_handle(url),
    ensures
        spec_find_handler(handlers, url) is None,
    decreases handlers.len(),
{
    if handlers.len() > 0 {
        assert(forall|j: int|
            0 <= j < handlers.drop_first().len() ==> handlers.drop_first()[j] == handlers[j + 1]);
        lemma_dispatch_miss(handlers.drop_first(), url);
    }
}

proof fn lemma_find_handler_properties(handlers: Seq<SiteHandler>, url: Seq<char>)
    ensures
        match spec_find_handler(handlers, url) {
            Some(i) => 0 <= i < handlers.len() && handlers[i].spec_can_handle(url) && (forall|
                j: int,
            | 0 <= j < i ==> !handlers[j].spec_can_handle(url)),
            None => forall|j: int| 0 <= j < handlers.len() ==> !handlers[j].spec_can_handle(url),
        },
    decreases handlers.len(),
{
    if handlers.len() > 0 && !handlers[0].spec_can_handle(url) {
        lemma_find_handler_properties(handlers.drop_first(), url);
        assert(forall|j: int|
            0 <= j < handlers.drop_first().len() ==> handlers.drop_first()[j] == handlers[j + 1]);
    }
}

/// The ordered list of registered site handlers. Dispatch scans it in
/// registration order; the first match wins.
pub struct Registry {
    pub handlers: Vec<SiteHandler>,
}

impl Registry {
    /// The registry assembled at process start: the Invidious/YouTube
    /// handler against the configured (or default) mirror instance, with
    /// the default `best` lock sentinel.
    pub fn new(configured_instance: Option<String>) -> (r: Registry)
        ensures
            r.handlers@.len() == 1,
            r.handlers@[0] matches SiteHandler::Invidious(h) && h.instance@ == (
            match configured_instance {
                Some(s) => s@,
                None => "https://invidious.privacyredirect.com"@,
            }) && h.sentinel@ == "best"@,
    {
        let handler = SiteHandler::Invidious(YouTubeHandler::new(configured_instance));
        let mut handlers: Vec<SiteHandler> = Vec::new();
        handlers.push(handler);
        Registry { handlers }
    }

    /// Scan in registration order and return the first handler whose
    /// predicate claims the URL; `None` reports a dispatch miss.
    pub fn find_handler(&self, url: &str) -> (r: Option<&SiteHandler>)
        ensures
            match r {
                Some(h) => spec_find_handler(self.handlers@, url@) matches Some(i) && *h
                    == self.handlers@[i],
                None => spec_find_handler(self.handlers@, url@) is None,
            },
    {
        proof {
            lemma_find_handler_properties(self.handlers@, url@);
        }
        let mut i: usize = 0;
        while i < self.handlers.len()
            invariant
                i <= self.handlers@.len(),
                forall|j: int| 0 <= j < i ==> !self.handlers@[j].spec_can_handle(url@),
                match spec_find_handler(self.handlers@, url@) {
                    Some(k) => 0 <= k < self.handlers@.len()
                        && self.handlers@[k].spec_can_handle(url@) && (forall|j: int|
                        0 <= j < k ==> !self.handlers@[j].spec_can_handle(url@)),
                    None => forall|j: int|
                        0 <= j < self.handlers@.len() ==> !self.handlers@[j].spec_can_handle(
                            url@,
                        ),
                },
            decreases self.handlers@.len() - i,
        {
            if self.handlers[i].can_handle_url(url) {
                proof {
                    let k = spec_find_handler(self.handlers@, url@).unwrap();
                    if spec_find_handler(self.handlers@, url@) is None {
                        assert(!self.handlers@[i as int].spec_can_handle(url@));
                    }
                    if k < i {
                        assert(!self.handlers@[k].spec_can_handle(url@));
                    }
                    if k > i {
                        assert(!self.handlers@[i as int].spec_can_handle(url@));
                    }
                }
                return Some(&self.handlers[i]);
            }
            i += 1;
        }
        None
    }
}

} // verus!
