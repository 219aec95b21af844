use vstd::prelude::*;
use vstd::string::StrSliceExecFns;
use vstd::string::StringExecFns;
use crate::video::url_spec;
use crate::video::VideoId;

verus! {

/// Whether the needle occurs contiguously somewhere in the haystack.
pub open spec fn has_substr(hay: Seq<char>, needle: Seq<char>) -> bool {
    exists|i: int|
        0 <= i && i + needle.len() <= hay.len() && #[trigger] hay.subrange(i, i + needle.len())
            == needle
}

fn contains_substr(hay: &str, needle: &str) -> (r: bool)
    ensures
        r == has_substr(hay@, needle@),
{
    let hlen = hay.unicode_len();
    let nlen = needle.unicode_len();
    if nlen > hlen {
        return false;
    }
    let mut i: usize = 0;
    while i <= hlen - nlen
        invariant
            nlen <= hlen,
            hlen == hay@.len(),
            nlen == needle@.len(),
            i <= hlen - nlen + 1,
            forall|k: int|
                0 <= k < i ==> #[trigger] hay@.subrange(k, k + needle@.len()) != needle@,
        decreases hlen - nlen + 1 - i,
    {
        let mut j: usize = 0;
        let mut matched = true;
        while j < nlen
            invariant
                nlen <= hlen,
                hlen == hay@.len(),
                nlen == needle@.len(),
                i + nlen <= hlen,
                j <= nlen,
                matched == (forall|t: int| 0 <= t < j ==> hay@[i + t] == needle@[t]),
            decreases nlen - j,
        {
            if hay.get_char(i + j) != needle.get_char(j) {
                matched = false;
            }
            j += 1;
        }
        if matched {
            proof {
                assert(hay@.subrange(i as int, i + needle@.len()) =~= needle@);
            }
            return true;
        }
        proof {
            let t0 = choose|t: int| !(0 <= t < nlen ==> hay@[i + t] == needle@[t]);
            assert(hay@.subrange(i as int, i + needle@.len())[t0] == hay@[i + t0]);
            assert(hay@.subrange(i as int, i + needle@.len()) != needle@);
        }
        i += 1;
    }
    proof {
        assert forall|k: int| 0 <= k && k + needle@.len() <= hay@.len() implies #[trigger] hay@
            .subrange(k, k + needle@.len()) != needle@ by {
            assert(k < i);
        }
    }
    false
}

/// How a request's declared client identity classifies: absent means not
/// a browser; present means a browser exactly when the text carries the
/// literal token "Mozilla".
pub open spec fn is_browser_spec(user_agent: Option<&str>) -> bool {
    match user_agent {
        Some(ua) => has_substr(ua@, "Mozilla"@),
        None => false,
    }
}

/// Classifies the request's declared client identity: a deliberately
/// coarse substring heuristic — mainstream browsers all carry the token,
/// while most link-unfurling bots omit it.
pub fn is_browser(user_agent: Option<&str>) -> (r: bool)
    ensures
        r == is_browser_spec(user_agent),
{
    match user_agent {
        None => false,
        Some(ua) => contains_substr(ua, "Mozilla"),
    }
}

/// The two ways a video request is answered before any network call: a
/// permanent redirect to the canonical page, or a go-ahead to resolve
/// the embed against the upstream API.
pub enum RouteDecision {
    Redirect { location: String, body: String },
    FetchEmbed,
}

/// Decides a video request from the declared client identity alone. A
/// browser-identified request is answered with a permanent redirect to
/// the canonical page, and never reaches the upstream API; every other
/// request proceeds to embed resolution.
pub fn route_video(user_agent: Option<&str>, video_id: &VideoId) -> (d: RouteDecision)
    ensures
        match d {
            RouteDecision::Redirect { location, body } => is_browser_spec(user_agent) && location@
                == url_spec(video_id) && body@ == "Redirect to "@ + url_spec(video_id),
            RouteDecision::FetchEmbed => !is_browser_spec(user_agent),
        },
{
    if is_browser(user_agent) {
        let location = video_id.url();
        let mut body = String::from_str("Redirect to ");
        body.append(location.as_str());
        RouteDecision::Redirect { location, body }
    } else {
        RouteDecision::FetchEmbed
    }
}

} // verus!
