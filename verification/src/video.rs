use vstd::prelude::*;
use vstd::string::StringExecFns;
use crate::decimal::dec_int;
use crate::decimal::i32_to_dec;

verus! {

/// A video identifier in one of the platform's two addressing schemes:
/// a numeric "av" id or an alphanumeric "BV" code. The code is opaque;
/// no normalization is performed.
#[derive(Debug, PartialEq, Eq, PartialOrd, Ord, Hash, Clone)]
pub enum VideoId {
    Av(i32),
    Bv(String),
}

/// The platform's canonical page address for a video identifier.
pub open spec fn url_spec(id: &VideoId) -> Seq<char> {
    match id {
        VideoId::Av(n) => "https://www.bilibili.com/video/av"@ + dec_int(*n as int),
        VideoId::Bv(s) => "https://www.bilibili.com/video/BV"@ + s@,
    }
}

impl VideoId {
    /// Derives the canonical browser URL: the numeric scheme renders
    /// under the "av" prefix, the coded scheme under "BV", code verbatim.
    pub fn url(&self) -> (r: String)
        ensures
            r@ == url_spec(self),
    {
        match self {
            VideoId::Av(id) => {
                let mut s = String::from_str("https://www.bilibili.com/video/av");
                let digits = i32_to_dec(*id);
                s.append(digits.as_str());
                s
            },
            VideoId::Bv(id) => {
                let mut s = String::from_str("https://www.bilibili.com/video/BV");
                s.append(id.as_str());
                s
            },
        }
    }
}

/// The domain record for one video, mapped from a successful upstream
/// response and folded into a preview document.
#[derive(Debug, PartialEq, Eq, PartialOrd, Ord, Hash, Clone)]
pub struct VideoInfo {
    pub title: String,
    pub description: Option<String>,
    pub publish_time: i64,
    pub modified_time: i64,
    pub thumbnail_url: Option<String>,
    pub duration: i64,
    pub author_name: String,
}

impl VideoInfo {
    /// Builds the record field by field; the optional fields stay absent
    /// exactly when their arguments are absent.
    pub fn new(
        title: &str,
        description: Option<&str>,
        publish_time: i64,
        modified_time: i64,
        thumbnail_url: Option<&str>,
        duration: i64,
        author_name: &str,
    ) -> (r: VideoInfo)
        ensures
            r.title@ == title@,
            r.description.deep_view() == description.deep_view(),
            r.publish_time == publish_time,
            r.modified_time == modified_time,
            r.thumbnail_url.deep_view() == thumbnail_url.deep_view(),
            r.duration == duration,
            r.author_name@ == author_name@,
    {
        VideoInfo {
            title: String::from_str(title),
            description: match description {
                Some(d) => Some(String::from_str(d)),
                None => None,
            },
            publish_time,
            modified_time,
            thumbnail_url: match thumbnail_url {
                Some(t) => Some(String::from_str(t)),
                None => None,
            },
            duration,
            author_name: String::from_str(author_name),
        }
    }
}

} // verus!
