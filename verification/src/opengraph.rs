use vstd::prelude::*;
use vstd::string::StringExecFns;
use crate::decimal::dec_digits;
use crate::decimal::u64_to_dec;

verus! {

/// One metadata entry of the preview document: a property name and its
/// content string.
#[derive(Debug, PartialEq, PartialOrd, Eq)]
pub struct MetaNode {
    pub metadata_name: String,
    pub value: String,
}

/// The rendered form of one metadata entry.
pub open spec fn node_html(name: Seq<char>, value: Seq<char>) -> Seq<char> {
    "<meta property=\""@ + name + "\" content=\""@ + value + "\" />"@
}

/// The (name, value) views of a sequence of metadata entries; the
/// contracts below speak of these pairs.
pub open spec fn entries(nodes: Seq<MetaNode>) -> Seq<(Seq<char>, Seq<char>)> {
    nodes.map_values(|n: MetaNode| (n.metadata_name@, n.value@))
}

impl MetaNode {
    /// A platform-neutral entry, name and value verbatim.
    pub fn new(metadata_name: &str, value: &str) -> (r: MetaNode)
        ensures
            r.metadata_name@ == metadata_name@,
            r.value@ == value@,
    {
        MetaNode { metadata_name: String::from_str(metadata_name), value: String::from_str(value) }
    }

    /// An entry whose name carries the "og:" prefix.
    pub fn new_og(metadata_name: &str, value: &str) -> (r: MetaNode)
        ensures
            r.metadata_name@ == "og:"@ + metadata_name@,
            r.value@ == value@,
    {
        let mut name = String::from_str("og:");
        name.append(metadata_name);
        MetaNode { metadata_name: name, value: String::from_str(value) }
    }

    /// An entry whose name carries the "twitter:" prefix.
    pub fn new_twitter(metadata_name: &str, value: &str) -> (r: MetaNode)
        ensures
            r.metadata_name@ == "twitter:"@ + metadata_name@,
            r.value@ == value@,
    {
        let mut name = String::from_str("twitter:");
        name.append(metadata_name);
        MetaNode { metadata_name: name, value: String::from_str(value) }
    }

    /// Renders the entry as a meta tag.
    pub fn to_html(&self) -> (r: String)
        ensures
            r@ == node_html(self.metadata_name@, self.value@),
    {
        let mut s = String::from_str("<meta property=\"");
        s.append(self.metadata_name.as_str());
        s.append("\" content=\"");
        s.append(self.value.as_str());
        s.append("\" />");
        s
    }
}

/// The preview document under construction: the target URL, the display
/// title, and the metadata entries in insertion order.
#[derive(Debug, PartialEq, PartialOrd, Eq)]
pub struct OpenGraph {
    pub title: String,
    pub url: String,
    pub nodes: Vec<MetaNode>,
}

/// Meta tags joined line by line, in order.
pub open spec fn join_entries(es: Seq<(Seq<char>, Seq<char>)>) -> Seq<char>
    decreases es.len(),
{
    if es.len() == 0 {
        Seq::empty()
    } else if es.len() == 1 {
        node_html(es[0].0, es[0].1)
    } else {
        join_entries(es.drop_last()) + "\n"@ + node_html(es.last().0, es.last().1)
    }
}

/// The complete rendered document for a title, a URL and the explicitly
/// accumulated entries: the head holds a meta refresh to the URL, every
/// entry in insertion order, then the three entries added at render time
/// (og:title, a duplicate plain title, og:url), then the title element;
/// the body repeats the title as a heading.
pub open spec fn og_html(title: Seq<char>, url: Seq<char>, es: Seq<(Seq<char>, Seq<char>)>) -> Seq<
    char,
> {
    let all = es + seq![("og:title"@, title), ("title"@, title), ("og:url"@, url)];
    "<!DOCTYPE html>\n<html lang=\"en\">\n<head>\n    <meta charset=\"UTF-8\">\n    <meta name=\"viewport\" content=\"width=device-width, initial-scale=1.0\">\n    <meta http-equiv=\"refresh\" content=\"0; url="@
        + url + "\" />\n    "@ + join_entries(all) + "\n    <title>"@ + title
        + "</title>\n</head>\n<body>\n    <h1>"@ + title + "</h1>\n</body>\n</html>"@
}

/// The last instant representable in the release-date rendering: the end
/// of year 9999 in epoch seconds.
pub const MAX_RELEASE_TIMESTAMP: u64 = 253402300799;

/// The text that the date library renders for an epoch-seconds instant
/// in UTC; it depends on the seconds value alone.
pub uninterp spec fn utc_display_of(secs: u64) -> Seq<char>;

/// Relies on chrono's conversion from std::time::SystemTime to
/// DateTime<Utc> and on its Display rendering: for a given seconds value
/// the rendered text is fixed, independent of process and machine.
#[verifier::external_body]
fn utc_timestamp_string(secs: u64) -> (r: String)
    requires
        secs <= MAX_RELEASE_TIMESTAMP,
    ensures
        r@ == utc_display_of(secs),
{
    let instant: chrono::DateTime<chrono::Utc> = std::time::SystemTime::UNIX_EPOCH
        .checked_add(std::time::Duration::from_secs(secs))
        .unwrap()
        .into();
    instant.to_string()
}

impl OpenGraph {
    /// Starts a document with one implicit plain "title" entry.
    pub fn new(url: &str, title: &str) -> (r: OpenGraph)
        ensures
            r.title@ == title@,
            r.url@ == url@,
            entries(r.nodes@) == seq![("title"@, title@)],
    {
        let title_node = MetaNode::new("title", title);
        let mut nodes: Vec<MetaNode> = Vec::new();
        nodes.push(title_node);
        let r = OpenGraph { title: String::from_str(title), url: String::from_str(url), nodes };
        proof {
            assert(entries(r.nodes@) =~= seq![("title"@, title@)]);
        }
        r
    }

    /// Appends a "type" entry.
    pub fn set_type(&mut self, og_type: &str)
        ensures
            final(self).title == old(self).title,
            final(self).url == old(self).url,
            entries(final(self).nodes@) == entries(old(self).nodes@).push(("type"@, og_type@)),
    {
        self.nodes.push(MetaNode::new("type", og_type));
        proof {
            assert(entries(self.nodes@) =~= entries(old(self).nodes@).push(("type"@, og_type@)));
        }
    }

    /// Appends an "image" entry.
    pub fn image(&mut self, image: &str)
        ensures
            final(self).title == old(self).title,
            final(self).url == old(self).url,
            entries(final(self).nodes@) == entries(old(self).nodes@).push(("image"@, image@)),
    {
        self.nodes.push(MetaNode::new("image", image));
        proof {
            assert(entries(self.nodes@) =~= entries(old(self).nodes@).push(("image"@, image@)));
        }
    }

    /// Appends a "description" entry.
    pub fn description(&mut self, description: &str)
        ensures
            final(self).title == old(self).title,
            final(self).url == old(self).url,
            entries(final(self).nodes@) == entries(old(self).nodes@).push(
                ("description"@, description@),
            ),
    {
        self.nodes.push(MetaNode::new("description", description));
        proof {
            assert(entries(self.nodes@) =~= entries(old(self).nodes@).push(
                ("description"@, description@),
            ));
        }
    }

    /// Appends a "site_name" entry.
    pub fn site_name(&mut self, site_name: &str)
        ensures
            final(self).title == old(self).title,
            final(self).url == old(self).url,
            entries(final(self).nodes@) == entries(old(self).nodes@).push(
                ("site_name"@, site_name@),
            ),
    {
        self.nodes.push(MetaNode::new("site_name", site_name));
        proof {
            assert(entries(self.nodes@) =~= entries(old(self).nodes@).push(
                ("site_name"@, site_name@),
            ));
        }
    }

    /// Appends a "video:release_date" entry carrying the timestamp
    /// rendered as a UTC date-time string. A timestamp past the
    /// representable range is a programming error and is excluded here.
    pub fn video_release_date(&mut self, release_timestamp: u64)
        requires
            release_timestamp <= MAX_RELEASE_TIMESTAMP,
        ensures
            final(self).title == old(self).title,
            final(self).url == old(self).url,
            entries(final(self).nodes@) == entries(old(self).nodes@).push(
                ("video:release_date"@, utc_display_of(release_timestamp)),
            ),
    {
        let rendered = utc_timestamp_string(release_timestamp);
        self.nodes.push(
            MetaNode { metadata_name: String::from_str("video:release_date"), value: rendered },
        );
        proof {
            assert(entries(self.nodes@) =~= entries(old(self).nodes@).push(
                ("video:release_date"@, utc_display_of(release_timestamp)),
            ));
        }
    }

    /// Appends a "video:duration" entry carrying the seconds in decimal.
    pub fn video_duration(&mut self, duration: u64)
        ensures
            final(self).title == old(self).title,
            final(self).url == old(self).url,
            entries(final(self).nodes@) == entries(old(self).nodes@).push(
                ("video:duration"@, dec_digits(duration as nat)),
            ),
    {
        let rendered = u64_to_dec(duration);
        self.nodes.push(
            MetaNode { metadata_name: String::from_str("video:duration"), value: rendered },
        );
        proof {
            assert(entries(self.nodes@) =~= entries(old(self).nodes@).push(
                ("video:duration"@, dec_digits(duration as nat)),
            ));
        }
    }

    /// Renders the complete document, consuming the builder: the entries
    /// appear in insertion order, then og:title, a duplicate plain title
    /// and og:url, always last and in that fixed order.
    pub fn into_html(self) -> (r: String)
        ensures
            r@ == og_html(self.title@, self.url@, entries(self.nodes@)),
    {
        let OpenGraph { title, url, mut nodes } = self;
        nodes.push(MetaNode::new_og("title", title.as_str()));
        nodes.push(MetaNode::new("title", title.as_str()));
        nodes.push(MetaNode::new_og("url", url.as_str()));
        let ghost all = entries(self.nodes@) + seq![
            ("og:title"@, self.title@),
            ("title"@, self.title@),
            ("og:url"@, self.url@),
        ];
        proof {
            reveal_strlit("og:");
            reveal_strlit("title");
            reveal_strlit("og:title");
            reveal_strlit("url");
            reveal_strlit("og:url");
            assert("og:"@ + "title"@ =~= "og:title"@);
            assert("og:"@ + "url"@ =~= "og:url"@);
            assert(entries(nodes@) =~= all);
        }

        let mut joined = String::new();
        let mut i: usize = 0;
        while i < nodes.len()
            invariant
                i <= nodes@.len(),
                entries(nodes@) == all,
                joined@ == join_entries(all.subrange(0, i as int)),
            decreases nodes@.len() - i,
        {
            let line = nodes[i].to_html();
            if i > 0 {
                joined.append("\n");
            }
            joined.append(line.as_str());
            proof {
                let pre = all.subrange(0, i as int);
                let ext = all.subrange(0, i as int + 1);
                assert(ext.drop_last() =~= pre);
                assert(ext.last() == all[i as int]);
                assert(all[i as int] == (nodes@[i as int].metadata_name@, nodes@[i as int].value@));
                if i == 0 {
                    assert(joined@ =~= node_html(all[0].0, all[0].1));
                }
            }
            i += 1;
        }
        proof {
            assert(all.subrange(0, all.len() as int) =~= all);
        }

        let mut out = String::from_str(
            "<!DOCTYPE html>\n<html lang=\"en\">\n<head>\n    <meta charset=\"UTF-8\">\n    <meta name=\"viewport\" content=\"width=device-width, initial-scale=1.0\">\n    <meta http-equiv=\"refresh\" content=\"0; url=",
        );
        out.append(url.as_str());
        out.append("\" />\n    ");
        out.append(joined.as_str());
        out.append("\n    <title>");
        out.append(title.as_str());
        out.append("</title>\n</head>\n<body>\n    <h1>");
        out.append(title.as_str());
        out.append("</h1>\n</body>\n</html>");
        out
    }
}

} // verus!
