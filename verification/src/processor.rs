//! The resolution pipeline and the target decision layer: drive one handler
//! through existence check, title extraction, stream selection and extension
//! detection; then derive the sanitized file name, the downloader choice and
//! the post-processing paths from a successful resolution.

use vstd::prelude::*;
use vstd::string::StrSliceExecFns;
use vstd::string::StringExecFns;

use crate::args::Args;
use crate::definitions::HandlerError;
use crate::definitions::SiteHandler;
use crate::text::is_space;
use crate::text::spec_trim;
use crate::text::strip_forbidden;
use crate::text::strip_forbidden_chars;
use crate::text::trim;
use crate::youtube;
use crate::VIDEO;

verus! {

/// A successful resolution: raw title, direct stream URL, container
/// extension (without dot), and whether the source is a collection that
/// needs a playlist-grade downloader.
#[derive(Debug)]
pub struct ReadyToProcess {
    pub title: String,
    pub url: String,
    pub ext: String,
    pub is_playlist: bool,
}

/// The terminal outcome of one pipeline run: exactly one variant is
/// produced, and there are no further transitions.
#[derive(Debug)]
pub enum VideoProcessingResult {
    VideoNotFound,
    TitleNotFound,
    ReadyToProcess(ReadyToProcess),
}

impl ReadyToProcess {
    /// The payload of a `ReadyToProcess` outcome.
    pub fn from_result(r: VideoProcessingResult) -> (rtp: ReadyToProcess)
        requires
            r is ReadyToProcess,
        ensures
            VideoProcessingResult::ReadyToProcess(rtp) == r,
    {
        match r {
            VideoProcessingResult::ReadyToProcess(x) => x,
            _ => unreached(),
        }
    }
}

/// The title the pipeline works with: present and non-empty.
pub open spec fn spec_title_found(info: Seq<char>) -> bool {
    match youtube::og_title_of(info) {
        Some(t) => t.len() > 0,
        None => false,
    }
}

/// Drive one handler through its four queries and fold the outcomes into a
/// terminal result. The page body must already have been supplied to the
/// context (see `SiteHandler::fetch_request`); the pipeline itself performs
/// no fetch. Steps, in fixed order with short-circuit failure: existence
/// check (`false` is terminal `VideoNotFound`), title extraction (an error
/// or an empty title is terminal `TitleNotFound`), stream selection (its
/// error propagates), then extension detection and playlist check (the
/// latter's error would degrade to `false`).
pub fn process_video(
    handler: &SiteHandler,
    args: &Args,
    video: &mut VIDEO,
    in_url: &str,
    webdriverport: u16,
) -> (r: Result<VideoProcessingResult, HandlerError>)
    ensures
        final(video).info == old(video).info,
        final(video).title == old(video).title,
        old(video).info@.len() == 0 ==> (r matches Ok(v) && v is VideoNotFound
            && final(video).mime == old(video).mime),
        (old(video).info@.len() > 0 && !spec_title_found(old(video).info@)) ==> (r matches Ok(v)
            && v is TitleNotFound && final(video).mime == old(video).mime),
        (old(video).info@.len() > 0 && spec_title_found(old(video).info@)) ==> (match youtube::sel_fold(
            youtube::sources_of(old(video).info@),
            handler.spec_sentinel(),
        ) {
            Some(st) => match st.chosen {
                Some(pair) => r matches Ok(v) && v matches VideoProcessingResult::ReadyToProcess(
                    rtp,
                ) && Some(rtp.title@) == youtube::og_title_of(old(video).info@) && rtp.url@
                    == handler.spec_instance() + pair.0 && rtp.ext@ == youtube::spec_ext_of_mime(
                    pair.1,
                ) && rtp.is_playlist == false && final(video).mime@ == pair.1,
                None => r matches Err(e) && e is NoWorkingVideo && final(video).mime == old(
                    video,
                ).mime,
            },
            None => r matches Err(e) && e is MissingSourceAttribute && final(video).mime == old(
                video,
            ).mime,
        }),
{
    let video_exists = match handler.does_video_exist(video, in_url, webdriverport) {
        Ok(b) => b,
        Err(_) => false,
    };
    if !video_exists {
        return Ok(VideoProcessingResult::VideoNotFound);
    }
    let vt: String = match handler.find_video_title(video, in_url, webdriverport) {
        Err(_) => String::new(),
        Ok(title) => title,
    };
    if vt.as_str().is_empty() {
        return Ok(VideoProcessingResult::TitleNotFound);
    }
    let direct_url = match handler.find_video_direct_url(
        video,
        in_url,
        webdriverport,
        args.onlyaudio,
    ) {
        Err(e) => {
            return Err(e);
        },
        Ok(u) => u,
    };
    let ext = match handler.find_video_file_extension(video, in_url, webdriverport, args.onlyaudio) {
        Err(e) => {
            return Err(e);
        },
        Ok(x) => x,
    };
    let is_playlist = match handler.is_playlist(in_url, webdriverport) {
        Ok(b) => b,
        Err(_) => false,
    };
    Ok(
        VideoProcessingResult::ReadyToProcess(
            ReadyToProcess { title: vt, url: direct_url, ext, is_playlist },
        ),
    )
}

/// A title reduced to what may stand in a file name: trimmed at the edges,
/// with the forbidden characters removed.
pub open spec fn spec_sanitize_title(t: Seq<char>) -> Seq<char> {
    strip_forbidden(spec_trim(t))
}

/// Reduce a title to what may stand in a file name.
pub fn sanitize_title(t: &str) -> (r: String)
    ensures
        r@ == spec_sanitize_title(t@),
{
    let trimmed = trim(t);
    strip_forbidden_chars(trimmed.as_str())
}

/// Law: filename sanitization is idempotent — sanitizing an
/// already-sanitized title yields the same string — except on titles whose
/// one-pass result is left with whitespace at an edge (stripping a forbidden
/// character can expose it; a second pass then trims further).
pub proof fn lemma_sanitize_idempotent(t: Seq<char>)
    requires
        spec_sanitize_title(t).len() == 0 || (!is_space(spec_sanitize_title(t).first())
            && !is_space(spec_sanitize_title(t).last())),
    ensures
        spec_sanitize_title(spec_sanitize_title(t)) == spec_sanitize_title(t),
{
    let u = spec_sanitize_title(t);
    assert(spec_trim(u) == u);
    crate::text::lemma_strip_no_forbidden(spec_trim(t));
    crate::text::lemma_strip_identity(u);
}

/// The derived download target: sanitized file name, container extension,
/// and whether post-download processing is forced.
pub struct TargetFile {
    pub target_ext: String,
    pub target_filename: String,
    pub force_ffmpeg: bool,
}

impl TargetFile {
    /// Derive the target from a successful resolution. The file name is the
    /// sanitized title joined with the extension; a playlist source forces
    /// post-processing (`force_ffmpeg`), a single-file source never does.
    pub fn from_ready(rtp: ReadyToProcess) -> (r: TargetFile)
        ensures
            r.target_ext == rtp.ext,
            r.target_filename@ == spec_sanitize_title(rtp.title@) + seq!['.'] + rtp.ext@,
            r.force_ffmpeg == rtp.is_playlist,
    {
        let mut name = sanitize_title(rtp.title.as_str());
        name.append(".");
        name.append(rtp.ext.as_str());
        proof {
            reveal_strlit(".");
            assert("."@ =~= seq!['.']);
            assert(name@ =~= spec_sanitize_title(rtp.title@) + seq!['.'] + rtp.ext@);
        }
        TargetFile {
            target_ext: rtp.ext,
            target_filename: name,
            force_ffmpeg: rtp.is_playlist,
        }
    }

    /// Law: post-processing triggers exactly when the downloader was forced
    /// (`force_ffmpeg`) or audio-only output was requested in a format other
    /// than the downloaded extension.
    pub fn needs_postprocessing(&self, onlyaudio: bool, audioformat: &str) -> (r: bool)
        ensures
            r == ((onlyaudio && self.target_ext@ != audioformat@) || self.force_ffmpeg),
    {
        if self.force_ffmpeg {
            true
        } else if onlyaudio {
            let af: String = audioformat.to_owned();
            !(self.target_ext == af)
        } else {
            false
        }
    }
}

/// The position of the last `.` in a name, if any.
pub open spec fn rfind_dot(s: Seq<char>) -> Option<int>
    decreases s.len(),
{
    if s.len() == 0 {
        None
    } else if s.last() == '.' {
        Some(s.len() - 1)
    } else {
        rfind_dot(s.drop_last())
    }
}

/// A bare file name without its extension: everything before the last `.`,
/// unless that dot leads the name (a leading-dot name has no extension) or
/// there is no dot at all.
pub open spec fn spec_stem(name: Seq<char>) -> Seq<char> {
    match rfind_dot(name) {
        Some(j) => if j > 0 {
            name.subrange(0, j)
        } else {
            name
        },
        None => name,
    }
}

/// A bare file name with its extension replaced by `ext` (appended when the
/// name has none, removed when `ext` is empty). The special names `.`, `..`
/// and the empty name are left untouched.
pub open spec fn spec_set_ext(name: Seq<char>, ext: Seq<char>) -> Seq<char> {
    if name.len() == 0 || name == seq!['.'] || name == seq!['.', '.'] {
        name
    } else if ext.len() == 0 {
        spec_stem(name)
    } else {
        spec_stem(name) + seq!['.'] + ext
    }
}

/// A name holds no path separator: the model covers bare file names only.
pub open spec fn separator_free(s: Seq<char>) -> bool {
    forall|i: int| 0 <= i < s.len() ==> s[i] != '/' && s[i] != '\\'
}

/// The paths around one post-processing step: the just-downloaded `input`
/// file and the `output` file whose extension is rewritten when audio-only
/// extraction (or container normalization) is requested. The transcode
/// itself runs outside this crate, reading `input` and writing `output`.
pub struct InputOutputPaths {
    pub input: String,
    pub output: String,
}

impl InputOutputPaths {
    /// Both paths start as the downloaded target file.
    pub fn from_target(tf: &TargetFile) -> (r: InputOutputPaths)
        ensures
            r.input == tf.target_filename,
            r.output == tf.target_filename,
    {
        InputOutputPaths {
            input: tf.target_filename.clone(),
            output: tf.target_filename.clone(),
        }
    }

    /// Rewrite the extension of the output file name.
    pub fn set_ext_output(&mut self, ext: &str)
        requires
            separator_free(old(self).output@),
            separator_free(ext@),
        ensures
            final(self).input == old(self).input,
            final(self).output@ == spec_set_ext(old(self).output@, ext@),
    {
        let n = self.output.as_str().unicode_len();
        if n == 0 {
            return ;
        }
        if n == 1 && self.output.as_str().get_char(0) == '.' {
            proof {
                assert(self.output@ =~= seq!['.']);
            }
            return ;
        }
        if n == 2 && self.output.as_str().get_char(0) == '.' && self.output.as_str().get_char(1)
            == '.' {
            proof {
                assert(self.output@ =~= seq!['.', '.']);
            }
            return ;
        }
        proof {
            assert(self.output@ != seq!['.'] && self.output@ != seq!['.', '.']) by {
                if self.output@ == seq!['.'] {
                    assert(self.output@.len() == 1 && self.output@[0] == '.');
                }
                if self.output@ == seq!['.', '.'] {
                    assert(self.output@.len() == 2 && self.output@[0] == '.' && self.output@[1]
                        == '.');
                }
            }
        }
        let mut i: usize = 0;
        let mut dot_plus1: usize = 0;
        proof {
            assert(self.output@.subrange(0, 0) =~= Seq::<char>::empty());
        }
        while i < n
            invariant
                i <= n,
                n == self.output@.len(),
                dot_plus1 <= i,
                *self == *old(self),
                (dot_plus1 == 0 && rfind_dot(self.output@.subrange(0, i as int)) is None) || (
                dot_plus1 >= 1 && rfind_dot(self.output@.subrange(0, i as int)) == Some(
                    dot_plus1 - 1,
                )),
            decreases n - i,
        {
            proof {
                let pre1 = self.output@.subrange(0, i + 1);
                assert(pre1.drop_last() =~= self.output@.subrange(0, i as int));
                assert(pre1.last() == self.output@[i as int]);
            }
            if self.output.as_str().get_char(i) == '.' {
                dot_plus1 = i + 1;
            }
            i += 1;
        }
        proof {
            assert(self.output@.subrange(0, n as int) =~= self.output@);
        }
        let stem_end: usize = if dot_plus1 >= 2 {
            dot_plus1 - 1
        } else {
            n
        };
        let stem = self.output.as_str().substring_char(0, stem_end).to_owned();
        let ghost old_output = self.output@;
        let mut newname = stem;
        if !ext.is_empty() {
            newname.append(".");
            newname.append(ext);
        }
        self.output = newname;
        proof {
            reveal_strlit(".");
            assert("."@ =~= seq!['.']);
            assert(spec_stem(old_output) =~= old_output.subrange(0, stem_end as int));
            assert(self.output@ =~= spec_set_ext(old_output, ext@));
        }
    }

    /// Decide the post-processing output: the requested audio format when
    /// audio-only output was asked for, the normalized video container
    /// otherwise. The caller then runs the transcode from `input` to
    /// `output`.
    pub fn to_audio_mut(&mut self, value: bool, ext: &str)
        requires
            separator_free(old(self).output@),
            separator_free(ext@),
        ensures
            final(self).input == old(self).input,
            value ==> final(self).output@ == spec_set_ext(old(self).output@, ext@),
            !value ==> final(self).output@ == spec_set_ext(old(self).output@, "mp4"@),
    {
        if value {
            self.set_ext_output(ext);
        } else {
            proof {
                reveal_strlit("mp4");
            }
            self.set_ext_output("mp4");
        }
    }

    /// The output path, for reporting.
    pub fn output_to_string(self) -> (r: String)
        ensures
            r == self.output,
    {
        self.output
    }
}

} // verus!
