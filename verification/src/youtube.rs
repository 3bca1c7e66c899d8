//! The reference site handler: resolves YouTube/Invidious page URLs against a
//! configurable Invidious mirror instance. The page body is fetched outside
//! this crate and supplied as a plain value; everything the handler decides —
//! which URL to fetch, which stream to choose, which extension the chosen
//! mime type implies — is verified here.

use vstd::prelude::*;
use vstd::string::StrSliceExecFns;
use vstd::string::StringExecFns;

use crate::definitions::HandlerError;
use crate::text::has_substring;
use crate::text::match_at;
use crate::text::take_until;
use crate::text::take_until_char;
use crate::text::matches_at;
use crate::VIDEO;

verus! {

/// The built-in mirror instance used when no override is configured.
pub fn default_invidious_instance() -> (r: String)
    ensures
        r@ == "https://invidious.privacyredirect.com"@,
{
    String::from_str("https://invidious.privacyredirect.com")
}

/// The mirror instance to use: the configured override when present,
/// otherwise the built-in default.
pub fn get_invidious_instance(configured: Option<String>) -> (r: String)
    ensures
        r@ == (match configured {
            Some(s) => s@,
            None => "https://invidious.privacyredirect.com"@,
        }),
{
    match configured {
        Some(s) => s,
        None => default_invidious_instance(),
    }
}

/// The URL shapes that carry a video identifier.
pub open spec fn marker_v() -> Seq<char> {
    seq!['v', '=']
}

/// See [`marker_v`].
pub open spec fn marker_be() -> Seq<char> {
    seq!['.', 'b', 'e', '/']
}

/// See [`marker_v`].
pub open spec fn marker_shorts() -> Seq<char> {
    seq!['s', 'h', 'o', 'r', 't', 's', '/']
}

/// One of the identifier markers starts at position `i` of `s`.
pub open spec fn marker_at(s: Seq<char>, i: int) -> bool {
    match_at(s, marker_v(), i) || match_at(s, marker_be(), i) || match_at(s, marker_shorts(), i)
}

/// The length of the marker starting at `i` (the markers start with distinct
/// characters, so at most one matches at a given position).
pub open spec fn marker_len(s: Seq<char>, i: int) -> int {
    if match_at(s, marker_shorts(), i) {
        7
    } else if match_at(s, marker_be(), i) {
        4
    } else {
        2
    }
}

/// Some identifier marker occurs in `s`.
pub open spec fn has_marker(s: Seq<char>) -> bool {
    exists|i: int| marker_at(s, i)
}

/// The position of the leftmost identifier marker in `s`.
pub open spec fn first_marker(s: Seq<char>) -> int {
    choose|i: int|
        marker_at(s, i) && (forall|j: int| 0 <= j < i ==> !marker_at(s, j))
}

/// The video identifier carried by a URL: the text after the leftmost
/// identifier marker, cut at the first `&`; `None` when no marker occurs.
pub open spec fn spec_video_id(s: Seq<char>) -> Option<Seq<char>> {
    if has_marker(s) {
        let i = first_marker(s);
        Some(take_until(s.subrange(i + marker_len(s, i), s.len() as int), '&'))
    } else {
        None
    }
}

/// Extract the video identifier from a page URL.
pub fn extract_video_id(url: &str) -> (r: Option<String>)
    ensures
        match r {
            Some(id) => spec_video_id(url@) == Some(id@),
            None => spec_video_id(url@) is None,
        },
{
    let n = url.unicode_len();
    let mut i: usize = 0;
    while i < n
        invariant
            i <= n,
            n == url@.len(),
            forall|j: int| 0 <= j < i ==> !marker_at(url@, j),
        decreases n - i,
    {
        proof {
            reveal_strlit("shorts/");
            reveal_strlit(".be/");
            reveal_strlit("v=");
            assert("shorts/"@ =~= marker_shorts());
            assert(".be/"@ =~= marker_be());
            assert("v="@ =~= marker_v());
        }
        let ml: usize = if n - i >= 7 && matches_at(url, "shorts/", i) {
            7
        } else if n - i >= 4 && matches_at(url, ".be/", i) {
            4
        } else if n - i >= 2 && matches_at(url, "v=", i) {
            2
        } else {
            0
        };
        if ml > 0 {
            proof {
                assert(marker_at(url@, i as int));
                assert(marker_len(url@, i as int) == ml as int);
                let pred = |k: int|
                    marker_at(url@, k) && (forall|j: int| 0 <= j < k ==> !marker_at(url@, j));
                assert(pred(i as int));
                let fi = first_marker(url@);
                assert(marker_at(url@, fi) && (forall|j: int| 0 <= j < fi ==> !marker_at(
                    url@,
                    j,
                ))) by {
                    assert(pred(i as int));
                }
                if fi < i as int {
                    assert(!marker_at(url@, fi));
                }
                if fi > i as int {
                    assert(!marker_at(url@, i as int));
                }
                assert(fi == i as int);
            }
            let j = i + ml;
            let rest = url.substring_char(j, n);
            let id = take_until_char(rest, '&');
            return Some(id);
        }
        i += 1;
    }
    proof {
        assert forall|j: int| !marker_at(url@, j) by {
            if 0 <= j < n {
                assert(!marker_at(url@, j));
            } else {
                assert(!match_at(url@, marker_v(), j));
                assert(!match_at(url@, marker_be(), j));
                assert(!match_at(url@, marker_shorts(), j));
            }
        }
        assert(!has_marker(url@));
    }
    None
}

/// A URL this handler claims: it names an Invidious instance or one of the
/// YouTube page shapes.
pub open spec fn spec_can_handle(url: Seq<char>) -> bool {
    has_substring(url, "invidious."@) || has_substring(url, "youtube.com/"@) || has_substring(
        url,
        "youtu.be/"@,
    )
}

/// Relies on `regex::Regex::is_match` with the fixed pattern
/// `invidious\.|(?:www\.)?youtu(?:be\.com|\.be)/`: the search is unanchored
/// and the `www.` prefix optional, so the pattern matches exactly the texts
/// that contain `invidious.`, `youtube.com/` or `youtu.be/`.
#[verifier::external_body]
fn url_matches_known_site(url: &str) -> (r: bool)
    ensures
        r == spec_can_handle(url@),
{
    regex::Regex::new(r"invidious\.|(?:www\.)?youtu(?:be\.com|\.be)/").unwrap().is_match(url)
}

/// What the page's title metadata node holds. Markup parsing is
/// deterministic, so the value is a function of the markup text alone.
pub uninterp spec fn og_title_of(body: Seq<char>) -> Option<Seq<char>>;

/// Relies on scraper (`Html::parse_document`, `Html::select`,
/// `ElementRef::attr`): the `content` attribute of the first
/// `meta[property="og:title"]` node, in document order, is a function of the
/// markup text alone; `None` when no such node or attribute exists.
#[verifier::external_body]
fn scrape_og_title(body: &str) -> (r: Option<String>)
    ensures
        r matches Some(t) ==> og_title_of(body@) == Some(t@),
        r is None ==> og_title_of(body@) is None,
{
    let doc = scraper::Html::parse_document(body);
    let sel = scraper::Selector::parse(r#"meta[property="og:title"]"#).unwrap();
    match doc.select(&sel).next() {
        Some(el) => el.attr("content").map(|s| s.to_string()),
        None => None,
    }
}

/// One `source` node of the fetched page: its quality label (empty when the
/// attribute is missing), its media-type attribute and its relative stream
/// path.
pub struct SourceEntry {
    pub label: String,
    pub mimetype: Option<String>,
    pub src: Option<String>,
}

/// The plain shape of one stream source: quality label, media type, path.
pub open spec fn entry_model(e: SourceEntry) -> (Seq<char>, Option<Seq<char>>, Option<Seq<char>>) {
    (
        e.label@,
        match e.mimetype {
            Some(m) => Some(m@),
            None => None,
        },
        match e.src {
            Some(u) => Some(u@),
            None => None,
        },
    )
}

/// The stream sources the page exposes, in document order. Markup parsing is
/// deterministic, so the value is a function of the markup text alone.
pub uninterp spec fn sources_of(body: Seq<char>) -> Seq<
    (Seq<char>, Option<Seq<char>>, Option<Seq<char>>),
>;

/// Relies on scraper (`Html::parse_document`, `Html::select`,
/// `ElementRef::attr`): the `source` nodes, in document order, each reduced
/// to its `label`, `type` and `src` attributes, are a function of the markup
/// text alone.
#[verifier::external_body]
fn scrape_sources(body: &str) -> (r: Vec<SourceEntry>)
    ensures
        r@.len() == sources_of(body@).len(),
        forall|i: int| 0 <= i < r@.len() ==> entry_model(r@[i]) == sources_of(body@)[i],
{
    let doc = scraper::Html::parse_document(body);
    let sel = scraper::Selector::parse("source").unwrap();
    doc.select(&sel)
        .map(|el| SourceEntry {
            label: el.attr("label").unwrap_or("").to_string(),
            mimetype: el.attr("type").map(|s| s.to_string()),
            src: el.attr("src").map(|s| s.to_string()),
        })
        .collect()
}

/// The quality-selection state: the chosen relative path and truncated mime
/// type, and the label of the last accepted candidate.
pub struct SelState {
    pub chosen: Option<(Seq<char>, Seq<char>)>,
    pub last: Seq<char>,
}

/// One step of quality selection. A candidate is accepted exactly when its
/// label differs from the last accepted label and the last accepted label is
/// not the sentinel; `None` when an accepted candidate lacks its media-type
/// or source attribute.
pub open spec fn sel_step(
    st: SelState,
    e: (Seq<char>, Option<Seq<char>>, Option<Seq<char>>),
    sentinel: Seq<char>,
) -> Option<SelState> {
    if e.0 != st.last && st.last != sentinel {
        match (e.1, e.2) {
            (Some(m), Some(u)) => Some(
                SelState { chosen: Some((u, take_until(m, ';'))), last: e.0 },
            ),
            _ => None,
        }
    } else {
        Some(st)
    }
}

/// Quality selection over a whole candidate list, in document order,
/// starting from an empty last-accepted label and no choice.
pub open spec fn sel_fold(
    sources: Seq<(Seq<char>, Option<Seq<char>>, Option<Seq<char>>)>,
    sentinel: Seq<char>,
) -> Option<SelState>
    decreases sources.len(),
{
    if sources.len() == 0 {
        Some(SelState { chosen: None, last: Seq::<char>::empty() })
    } else {
        match sel_fold(sources.drop_last(), sentinel) {
            Some(st) => sel_step(st, sources.last(), sentinel),
            None => None,
        }
    }
}

/// The plain shapes of a list of stream sources.
pub open spec fn source_models(s: Seq<SourceEntry>) -> Seq<
    (Seq<char>, Option<Seq<char>>, Option<Seq<char>>),
> {
    s.map_values(|e: SourceEntry| entry_model(e))
}

proof fn lemma_sel_fold_none_extends(
    s: Seq<(Seq<char>, Option<Seq<char>>, Option<Seq<char>>)>,
    sentinel: Seq<char>,
    k: int,
)
    requires
        0 <= k <= s.len(),
        sel_fold(s.subrange(0, k), sentinel) is None,
    ensures
        sel_fold(s, sentinel) is None,
    decreases s.len() - k,
{
    if k == s.len() {
        assert(s.subrange(0, k) =~= s);
    } else {
        assert(s.subrange(0, k + 1).drop_last() =~= s.subrange(0, k));
        lemma_sel_fold_none_extends(s, sentinel, k + 1);
    }
}

/// Enumerate the stream sources in document order and keep the last
/// candidate whose quality label differs from the previously accepted one,
/// until the sentinel label locks the selection. Returns the chosen relative
/// stream path and its mime type truncated at the first `;`, `None` when no
/// candidate was accepted, or an error when an accepted candidate lacks its
/// media-type or source attribute.
pub fn select_stream(sources: &Vec<SourceEntry>, sentinel: &str) -> (r: Result<
    Option<(String, String)>,
    HandlerError,
>)
    ensures
        match r {
            Ok(choice) => sel_fold(source_models(sources@), sentinel@) matches Some(st) && (
            match choice {
                Some(pair) => st.chosen == Some((pair.0@, pair.1@)),
                None => st.chosen is None,
            }),
            Err(e) => e is MissingSourceAttribute && sel_fold(
                source_models(sources@),
                sentinel@,
            ) is None,
        },
{
    let sentinel_owned: String = sentinel.to_owned();
    let mut chosen_src: Option<String> = None;
    let mut chosen_mime: Option<String> = None;
    let mut last_vq: String = String::new();
    let mut idx: usize = 0;
    proof {
        assert(source_models(sources@.subrange(0, 0)) =~= Seq::<
            (Seq<char>, Option<Seq<char>>, Option<Seq<char>>),
        >::empty());
    }
    while idx < sources.len()
        invariant
            idx <= sources@.len(),
            sentinel_owned@ == sentinel@,
            chosen_src is Some <==> chosen_mime is Some,
            sel_fold(source_models(sources@.subrange(0, idx as int)), sentinel@) matches Some(st)
                && st.last == last_vq@ && (match (chosen_src, chosen_mime) {
                (Some(u), Some(m)) => st.chosen == Some((u@, m@)),
                _ => st.chosen is None,
            }),
        decreases sources@.len() - idx,
    {
        let ghost pre = source_models(sources@.subrange(0, idx as int));
        let ghost pre1 = source_models(sources@.subrange(0, idx + 1));
        proof {
            assert(pre1.drop_last() =~= pre);
            assert(pre1.last() == entry_model(sources@[idx as int]));
        }
        let e = &sources[idx];
        let accept = !(e.label == last_vq) && !(last_vq == sentinel_owned);
        if accept {
            match (&e.mimetype, &e.src) {
                (Some(m), Some(u)) => {
                    let cut = take_until_char(m.as_str(), ';');
                    chosen_mime = Some(cut);
                    chosen_src = Some(u.clone());
                    last_vq = e.label.clone();
                },
                _ => {
                    proof {
                        assert(sel_fold(pre1, sentinel@) is None);
                        assert(source_models(sources@).subrange(0, idx + 1) =~= pre1);
                        lemma_sel_fold_none_extends(
                            source_models(sources@),
                            sentinel@,
                            idx + 1,
                        );
                    }
                    return Err(HandlerError::MissingSourceAttribute);
                },
            }
        }
        idx += 1;
    }
    proof {
        assert(sources@.subrange(0, idx as int) =~= sources@);
    }
    match (chosen_src, chosen_mime) {
        (Some(u), Some(m)) => Ok(Some((u, m))),
        _ => Ok(None),
    }
}

/// The file extension implied by a mime type: `webm` containers first, then
/// audio-only mp4, and the normalized video container for everything else.
pub open spec fn spec_ext_of_mime(mime: Seq<char>) -> Seq<char> {
    if has_substring(mime, "/webm"@) {
        "webm"@
    } else if has_substring(mime, "audio/mp4"@) {
        "m4a"@
    } else {
        "mp4"@
    }
}

/// What the caller must do before the next handler query: nothing (the page
/// body is already memoized), fetch the given URL and supply the body, or
/// give up because the URL carries no video identifier.
pub enum FetchDecision {
    AlreadyFetched,
    Fetch(String),
    NoVideoId,
}

/// The YouTube/Invidious resolver: holds the mirror instance that page and
/// stream URLs are built against, and the quality label that locks stream
/// selection once reached (configuration, not part of the mechanism).
#[derive(Clone)]
pub struct YouTubeHandler {
    pub instance: String,
    pub sentinel: String,
}

impl YouTubeHandler {
    /// A handler against the configured mirror instance (the built-in
    /// default when none is given). The lock sentinel defaults to the
    /// designated `best` label: no ordinary ascending-quality label equals
    /// it, so by default a later candidate with a differing label always
    /// overrides the choice.
    pub fn new(configured_instance: Option<String>) -> (r: YouTubeHandler)
        ensures
            r.instance@ == (match configured_instance {
                Some(s) => s@,
                None => "https://invidious.privacyredirect.com"@,
            }),
            r.sentinel@ == "best"@,
    {
        Self::with_sentinel(configured_instance, String::from_str("best"))
    }

    /// A handler whose lock sentinel is configured by the caller: selection
    /// locks once a candidate with exactly this quality label is accepted.
    pub fn with_sentinel(configured_instance: Option<String>, sentinel: String) -> (r:
        YouTubeHandler)
        ensures
            r.instance@ == (match configured_instance {
                Some(s) => s@,
                None => "https://invidious.privacyredirect.com"@,
            }),
            r.sentinel == sentinel,
    {
        YouTubeHandler { instance: get_invidious_instance(configured_instance), sentinel }
    }

    /// Pure dispatch predicate: whether this handler claims the URL.
    pub fn can_handle_url(&self, url: &str) -> (r: bool)
        ensures
            r == spec_can_handle(url@),
    {
        url_matches_known_site(url)
    }

    /// The memoization decision: once `info` is non-empty, no further fetch
    /// is ever requested for this run; otherwise the watch URL to fetch is
    /// built from the mirror instance and the extracted video identifier.
    pub fn fetch_request(&self, video: &VIDEO, url: &str) -> (r: FetchDecision)
        ensures
            video.info@.len() > 0 ==> r is AlreadyFetched,
            video.info@.len() == 0 && spec_video_id(url@) is None ==> r is NoVideoId,
            (video.info@.len() == 0 && spec_video_id(url@) is Some) ==> (r matches
                FetchDecision::Fetch(u) && u@ == self.instance@ + "/watch?v="@ + spec_video_id(
                url@,
            ).unwrap()),
    {
        if !video.info.as_str().is_empty() {
            return FetchDecision::AlreadyFetched;
        }
        match extract_video_id(url) {
            None => FetchDecision::NoVideoId,
            Some(id) => {
                let mut u = self.instance.clone();
                u.append("/watch?v=");
                u.append(id.as_str());
                FetchDecision::Fetch(u)
            },
        }
    }

    /// Whether a parseable page was obtained: true exactly when a fetched
    /// body is memoized. A missing video is a `false` return, never an error.
    pub fn does_video_exist(&self, video: &VIDEO, url: &str, webdriver_port: u16) -> (r: Result<
        bool,
        HandlerError,
    >)
        ensures
            r matches Ok(b) && b == (video.info@.len() > 0),
    {
        let _ = webdriver_port;
        let _ = url;
        Ok(!video.info.as_str().is_empty())
    }

    /// The human title of the page, read from its title metadata node; an
    /// error when the node or its attribute is missing.
    pub fn find_video_title(&self, video: &VIDEO, url: &str, webdriver_port: u16) -> (r: Result<
        String,
        HandlerError,
    >)
        ensures
            match r {
                Ok(t) => og_title_of(video.info@) == Some(t@),
                Err(e) => e is NoTitle && og_title_of(video.info@) is None,
            },
    {
        let _ = webdriver_port;
        let _ = url;
        match scrape_og_title(video.info.as_str()) {
            Some(t) => Ok(t),
            None => Err(HandlerError::NoTitle),
        }
    }

    /// Run quality selection over the memoized page and return the full
    /// stream URL of the chosen candidate; as a side effect, record the
    /// chosen (truncated) mime type in the context for the later extension
    /// query. Errors: no candidate accepted, or an accepted candidate with a
    /// missing attribute.
    pub fn find_video_direct_url(
        &self,
        video: &mut VIDEO,
        url: &str,
        webdriver_port: u16,
        onlyaudio: bool,
    ) -> (r: Result<String, HandlerError>)
        ensures
            final(video).info == old(video).info,
            final(video).title == old(video).title,
            match sel_fold(sources_of(old(video).info@), self.sentinel@) {
                Some(st) => match st.chosen {
                    Some(pair) => r matches Ok(u) && u@ == self.instance@ + pair.0
                        && final(video).mime@ == pair.1,
                    None => r matches Err(e) && e is NoWorkingVideo
                        && final(video).mime == old(video).mime,
                },
                None => r matches Err(e) && e is MissingSourceAttribute
                    && final(video).mime == old(video).mime,
            },
    {
        let _ = webdriver_port;
        let _ = url;
        let _ = onlyaudio;
        let sources = scrape_sources(video.info.as_str());
        proof {
            assert(source_models(sources@) =~= sources_of(video.info@));
        }
        match select_stream(&sources, self.sentinel.as_str()) {
            Err(e) => Err(e),
            Ok(None) => Err(HandlerError::NoWorkingVideo),
            Ok(Some(pair)) => {
                video.mime = pair.1;
                let mut u = self.instance.clone();
                u.append(pair.0.as_str());
                Ok(u)
            },
        }
    }

    /// The container extension implied by the mime type that stream
    /// selection recorded; `find_video_direct_url` must have run first in
    /// this run for the value to be meaningful.
    pub fn find_video_file_extension(
        &self,
        video: &VIDEO,
        url: &str,
        webdriver_port: u16,
        onlyaudio: bool,
    ) -> (r: Result<String, HandlerError>)
        ensures
            r matches Ok(e) && e@ == spec_ext_of_mime(video.mime@),
    {
        let _ = webdriver_port;
        let _ = url;
        let _ = onlyaudio;
        if crate::text::contains_sub(video.mime.as_str(), "/webm") {
            Ok(String::from_str("webm"))
        } else if crate::text::contains_sub(video.mime.as_str(), "audio/mp4") {
            Ok(String::from_str("m4a"))
        } else {
            Ok(String::from_str("mp4"))
        }
    }

    /// Playlist detection is not implemented for this site family: always a
    /// definite "no", never an error.
    pub fn is_playlist(&self, url: &str, webdriver_port: u16) -> (r: Result<bool, HandlerError>)
        ensures
            r matches Ok(b) && b == false,
    {
        let _ = webdriver_port;
        let _ = url;
        Ok(false)
    }

    /// Static display metadata.
    pub fn display_name(&self) -> (r: String)
        ensures
            r@ == "Invidious"@,
    {
        String::from_str("Invidious")
    }

    /// This handler drives no web-automation browser.
    pub fn web_driver_required(&self) -> (r: bool)
        ensures
            r == false,
    {
        false
    }
}

} // verus!
