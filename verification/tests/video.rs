use fxbilibili::decimal::parse_i32;
use fxbilibili::video::VideoId;
use fxbilibili::video::VideoInfo;

#[test]
fn numeric_id_url() {
    assert_eq!(
        VideoId::Av(170001).url(),
        "https://www.bilibili.com/video/av170001"
    );
    assert_eq!(VideoId::Av(0).url(), "https://www.bilibili.com/video/av0");
    assert_eq!(VideoId::Av(-7).url(), "https://www.bilibili.com/video/av-7");
}

#[test]
fn coded_id_url_preserves_case() {
    assert_eq!(
        VideoId::Bv("1xx411c7XW".to_string()).url(),
        "https://www.bilibili.com/video/BV1xx411c7XW"
    );
    assert_eq!(
        VideoId::Bv(String::new()).url(),
        "https://www.bilibili.com/video/BV"
    );
}

#[test]
fn video_info_keeps_fields() {
    let info = VideoInfo::new(
        "Example video 1",
        Some("The example video"),
        5,
        6,
        Some("https://example.com/thumbnail.png"),
        7,
        "example user",
    );
    assert_eq!(info.title, "Example video 1");
    assert_eq!(info.description.as_deref(), Some("The example video"));
    assert_eq!(info.publish_time, 5);
    assert_eq!(info.modified_time, 6);
    assert_eq!(
        info.thumbnail_url.as_deref(),
        Some("https://example.com/thumbnail.png")
    );
    assert_eq!(info.duration, 7);
    assert_eq!(info.author_name, "example user");
}

#[test]
fn video_info_keeps_absent_options_absent() {
    let info = VideoInfo::new("t", None, 0, 0, None, 0, "a");
    assert_eq!(info.description, None);
    assert_eq!(info.thumbnail_url, None);
}

#[test]
fn parse_decimal_ids() {
    assert_eq!(parse_i32("123"), Some(123));
    assert_eq!(parse_i32("0"), Some(0));
    assert_eq!(parse_i32("0012"), Some(12));
    assert_eq!(parse_i32("+41"), Some(41));
    assert_eq!(parse_i32("-2147483648"), Some(-2147483648));
    assert_eq!(parse_i32("2147483647"), Some(2147483647));
}

#[test]
fn parse_rejects_malformed_ids() {
    assert_eq!(parse_i32(""), None);
    assert_eq!(parse_i32("+"), None);
    assert_eq!(parse_i32("-"), None);
    assert_eq!(parse_i32("12a"), None);
    assert_eq!(parse_i32(" 12"), None);
    assert_eq!(parse_i32("2147483648"), None);
    assert_eq!(parse_i32("-2147483649"), None);
    assert_eq!(parse_i32("99999999999999999999"), None);
}
