use vstd::prelude::*;

verus! {

/// The upstream API's outer JSON envelope: a status code, a message,
/// a time-to-live, and an optional payload.
#[derive(Clone, Debug, PartialEq)]
pub struct BilibiliApiResponse<T> {
    pub code: i32,
    pub message: String,
    pub ttl: i32,
    pub data: Option<T>,
}

/// The payload of a video metadata lookup.
#[derive(Default, Debug, Clone, PartialEq)]
pub struct VideoInfoResponse {
    pub bvid: String,
    pub aid: i64,
    pub videos: i64,
    pub pic: String,
    pub title: String,
    pub pubdate: i64,
    pub ctime: i64,
    pub desc: Option<String>,
    pub desc_v2: Option<Vec<DescV2>>,
    pub state: i64,
    pub duration: i64,
    pub owner: Owner,
    pub cid: i64,
    pub dimension: Dimension,
}

/// The payload's frame dimensions; carried through, never consumed here.
#[derive(Default, Debug, Clone, PartialEq)]
pub struct Dimension {
    pub width: i64,
    pub height: i64,
    pub rotate: i64,
}

/// One part of the structured description variant; only the plain-string
/// description is consumed by the mapping.
#[derive(Default, Debug, Clone, PartialEq)]
pub struct DescV2 {
    pub raw_text: String,
    pub type_field: i64,
    pub biz_id: i64,
}

/// The uploader: id, display name, avatar URL.
#[derive(Default, Debug, Clone, PartialEq)]
pub struct Owner {
    pub mid: i64,
    pub name: String,
    pub face: String,
}

} // verus!
