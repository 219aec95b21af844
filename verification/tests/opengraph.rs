use fxbilibili::opengraph::MetaNode;
use fxbilibili::opengraph::OpenGraph;

#[test]
fn build_og_meta_node() {
    let node = MetaNode::new_og("title", "Example Site");
    assert_eq!(node.metadata_name, "og:title");
    assert_eq!(node.value, "Example Site");
    assert_eq!(
        node.to_html(),
        "<meta property=\"og:title\" content=\"Example Site\" />"
    );
}

#[test]
fn build_meta_node() {
    let node = MetaNode::new("title", "Example Site");
    assert_eq!(node.metadata_name, "title");
    assert_eq!(node.value, "Example Site");
    assert_eq!(
        node.to_html(),
        "<meta property=\"title\" content=\"Example Site\" />"
    );
}

#[test]
fn build_twitter_meta_node() {
    let node = MetaNode::new_twitter("title", "Example Site");
    assert_eq!(node.metadata_name, "twitter:title");
    assert_eq!(node.value, "Example Site");
    assert_eq!(
        node.to_html(),
        "<meta property=\"twitter:title\" content=\"Example Site\" />"
    );
}

#[test]
fn build_opengraph() {
    let mut og = OpenGraph::new("https://example.com", "Example Site");
    og.description("The example site");
    og.site_name("Example Site");
    let html = og.into_html();
    assert_eq!(
        html,
        "<!DOCTYPE html>\n<html lang=\"en\">\n<head>\n    <meta charset=\"UTF-8\">\n    <meta name=\"viewport\" content=\"width=device-width, initial-scale=1.0\">\n    <meta http-equiv=\"refresh\" content=\"0; url=https://example.com\" />\n    <meta property=\"title\" content=\"Example Site\" />\n<meta property=\"description\" content=\"The example site\" />\n<meta property=\"site_name\" content=\"Example Site\" />\n<meta property=\"og:title\" content=\"Example Site\" />\n<meta property=\"title\" content=\"Example Site\" />\n<meta property=\"og:url\" content=\"https://example.com\" />\n    <title>Example Site</title>\n</head>\n<body>\n    <h1>Example Site</h1>\n</body>\n</html>"
    )
}

#[test]
fn release_date_renders_epoch_start() {
    let mut og = OpenGraph::new("https://example.com", "Example Site");
    og.video_release_date(0);
    let node = og.nodes.last().unwrap();
    assert_eq!(node.metadata_name, "video:release_date");
    assert_eq!(node.value, "1970-01-01 00:00:00 UTC");
}

#[test]
fn release_date_renders_a_fixed_instant() {
    let mut og = OpenGraph::new("https://example.com", "Example Site");
    og.video_release_date(1700000000);
    let node = og.nodes.last().unwrap();
    assert_eq!(node.value, "2023-11-14 22:13:20 UTC");
}

#[test]
fn duration_is_rendered_in_decimal() {
    let mut og = OpenGraph::new("https://example.com", "Example Site");
    og.video_duration(754);
    let node = og.nodes.last().unwrap();
    assert_eq!(node.metadata_name, "video:duration");
    assert_eq!(node.value, "754");
}

#[test]
fn builder_keeps_insertion_order() {
    let mut og = OpenGraph::new("https://example.com", "Example Site");
    og.set_type("video.episode");
    og.image("https://example.com/a.png");
    og.description("The example site");
    og.site_name("Example Site");
    let names: Vec<&str> = og.nodes.iter().map(|n| n.metadata_name.as_str()).collect();
    assert_eq!(
        names,
        vec!["title", "type", "image", "description", "site_name"]
    );
}
