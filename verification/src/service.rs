use vstd::prelude::*;
use vstd::string::StringExecFns;
use crate::decimal::dec_digits;
use crate::decimal::dec_int;
use crate::decimal::i32_to_dec;
use crate::errors::BilibiliError;
use crate::opengraph::entries;
use crate::opengraph::utc_display_of;
use crate::opengraph::OpenGraph;
use crate::opengraph::MAX_RELEASE_TIMESTAMP;
use crate::response::BilibiliApiResponse;
use crate::response::VideoInfoResponse;
use crate::video::url_spec;
use crate::video::VideoId;
use crate::video::VideoInfo;

verus! {

/// The single query parameter of the upstream lookup: the numeric scheme
/// sends "aid" with the decimal id, the coded scheme sends "bvid" with
/// the raw code. Exactly one parameter, never both.
pub fn request_query(video_id: &VideoId) -> (r: (String, String))
    ensures
        match video_id {
            VideoId::Av(n) => r.0@ == "aid"@ && r.1@ == dec_int(*n as int),
            VideoId::Bv(s) => r.0@ == "bvid"@ && r.1@ == s@,
        },
{
    match video_id {
        VideoId::Av(av_id) => (String::from_str("aid"), i32_to_dec(*av_id)),
        VideoId::Bv(bv_id) => (String::from_str("bvid"), bv_id.clone()),
    }
}

/// Maps the upstream envelope into the domain record: an absent payload
/// fails with the envelope's message verbatim; a present payload maps
/// field by field, always wrapping the thumbnail.
pub fn video_info_from_response(response: BilibiliApiResponse<VideoInfoResponse>) -> (r: Result<
    VideoInfo,
    BilibiliError,
>)
    ensures
        match response.data {
            None => match r {
                Err(BilibiliError::Api(m)) => m@ == response.message@,
                _ => false,
            },
            Some(d) => match r {
                Ok(v) => v.title@ == d.title@ && v.description.deep_view() == d.desc.deep_view()
                    && v.publish_time == d.pubdate && v.modified_time == d.ctime && (match v
                    .thumbnail_url {
                    Some(t) => t@ == d.pic@,
                    None => false,
                }) && v.duration == d.duration && v.author_name@ == d.owner.name@,
                Err(_) => false,
            },
        },
{
    match response.data {
        None => Err(BilibiliError::Api(response.message)),
        Some(data) => {
            let desc: Option<&str> = match &data.desc {
                Some(d) => Some(d.as_str()),
                None => None,
            };
            let info = VideoInfo::new(
                data.title.as_str(),
                desc,
                data.pubdate,
                data.ctime,
                Some(data.pic.as_str()),
                data.duration,
                data.owner.name.as_str(),
            );
            Ok(info)
        },
    }
}

/// The entry list of the document that embed resolution produces for a
/// video: the implicit title, the fixed site name and type, the optional
/// description and image exactly when their sources are present, then
/// the release date and the duration.
pub open spec fn resolved_entries(info: &VideoInfo) -> Seq<(Seq<char>, Seq<char>)> {
    seq![("title"@, info.title@), ("site_name"@, "Bilibili"@), ("type"@, "video.episode"@)]
        + (match info.description {
        Some(d) => seq![("description"@, d@)],
        None => Seq::empty(),
    }) + (match info.thumbnail_url {
        Some(t) => seq![("image"@, t@)],
        None => Seq::empty(),
    }) + seq![
        ("video:release_date"@, utc_display_of(info.publish_time as u64)),
        ("video:duration"@, dec_digits(info.duration as nat)),
    ]
}

/// Builds the preview document for a fetched video: seeded with the
/// canonical URL and the fetched title, then the fixed site name and
/// type, the conditional description and image, the release date and
/// the duration. The timestamps come from a trusted upstream field and
/// are taken as non-negative and within the representable date range.
pub fn video_info_og(video_id: &VideoId, info: &VideoInfo) -> (og: OpenGraph)
    requires
        0 <= info.publish_time <= MAX_RELEASE_TIMESTAMP,
        0 <= info.duration,
    ensures
        og.url@ == url_spec(video_id),
        og.title@ == info.title@,
        entries(og.nodes@) == resolved_entries(info),
{
    let url = video_id.url();
    let mut og = OpenGraph::new(url.as_str(), info.title.as_str());
    og.site_name("Bilibili");
    og.set_type("video.episode");

    match &info.description {
        Some(description) => og.description(description.as_str()),
        None => (),
    }
    match &info.thumbnail_url {
        Some(thumb) => og.image(thumb.as_str()),
        None => (),
    }

    og.video_release_date(info.publish_time as u64);
    og.video_duration(info.duration as u64);
    proof {
        assert(entries(og.nodes@) =~= resolved_entries(info));
    }
    og
}

} // verus!
