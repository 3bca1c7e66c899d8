//! Resolves a video page URL into a direct, downloadable media stream URL.
//!
//! The crate holds the site-resolution core: a registry of site handlers
//! dispatched by URL predicate, the resolution pipeline that drives a handler
//! through existence check, title extraction, stream selection and extension
//! detection, and the target-file decision layer (filename sanitization,
//! downloader choice, post-processing trigger). Network transport, command
//! line handling and the external download/transcode executables live outside
//! this crate; the page body and the proxy configuration are handed in as
//! plain values.

use vstd::prelude::*;
use vstd::string::StringExecFns;

pub mod args;
pub mod definitions;
pub mod prelude;
pub mod processor;
pub mod text;
pub mod youtube;

verus! {

/// Mutable per-run scratch state threaded through every handler call: the raw
/// fetched page body (`info`, empty until the first fetch is supplied,
/// memoized thereafter), the extracted `title`, and the detected `mime` type
/// of the chosen stream.
#[allow(non_camel_case_types)]
pub struct VIDEO {
    pub info: String,
    pub title: String,
    pub mime: String,
}

impl VIDEO {
    /// A fresh context: nothing fetched, no title, no mime type.
    pub fn new() -> (r: VIDEO)
        ensures
            r.info@ == Seq::<char>::empty(),
            r.title@ == Seq::<char>::empty(),
            r.mime@ == Seq::<char>::empty(),
    {
        VIDEO { info: String::new(), title: String::new(), mime: String::new() }
    }

    /// Append a fetched page body to the memoized `info`. The caller performs
    /// the network fetch itself and hands the body in as a plain value.
    pub fn supply_info(&mut self, body: &str)
        ensures
            final(self).info@ == old(self).info@ + body@,
            final(self).title == old(self).title,
            final(self).mime == old(self).mime,
    {
        self.info.append(body);
    }
}

} // verus!
