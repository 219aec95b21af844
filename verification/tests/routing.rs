use fxbilibili::routing::is_browser;
use fxbilibili::routing::route_video;
use fxbilibili::routing::RouteDecision;
use fxbilibili::video::VideoId;

#[test]
fn classifier_scenarios() {
    assert_eq!(is_browser(None), false);
    assert_eq!(is_browser(Some("curl/7.0")), false);
    assert_eq!(
        is_browser(Some("Mozilla/5.0 (X11; Linux x86_64) Chrome/120.0.0.0")),
        true
    );
}

#[test]
fn classifier_needs_the_exact_token() {
    assert_eq!(is_browser(Some("")), false);
    assert_eq!(is_browser(Some("mozilla/5.0")), false);
    assert_eq!(is_browser(Some("Mozilla")), true);
    assert_eq!(is_browser(Some("bot (compatible; Mozilla)")), true);
}

// A substitute for the metadata client that only counts how often it
// would have been called.
struct CountingFetcher {
    calls: usize,
}

impl CountingFetcher {
    fn fetch(&mut self) {
        self.calls += 1;
    }
}

#[test]
fn browser_request_never_fetches() {
    let id = VideoId::Bv("1xx411c7XW".to_string());
    let mut fetcher = CountingFetcher { calls: 0 };
    let decision = route_video(Some("Mozilla/5.0 (X11; Linux x86_64) Chrome/120.0.0.0"), &id);
    match decision {
        RouteDecision::Redirect { location, body } => {
            assert_eq!(location, "https://www.bilibili.com/video/BV1xx411c7XW");
            assert_eq!(body, "Redirect to https://www.bilibili.com/video/BV1xx411c7XW");
        }
        RouteDecision::FetchEmbed => fetcher.fetch(),
    }
    assert_eq!(fetcher.calls, 0);
}

#[test]
fn crawler_request_proceeds_to_fetch() {
    let id = VideoId::Av(170001);
    let mut fetcher = CountingFetcher { calls: 0 };
    let decision = route_video(Some("TelegramBot (like TwitterBot)"), &id);
    match decision {
        RouteDecision::Redirect { .. } => {}
        RouteDecision::FetchEmbed => fetcher.fetch(),
    }
    assert_eq!(fetcher.calls, 1);

    let decision = route_video(None, &id);
    assert!(matches!(decision, RouteDecision::FetchEmbed));
}
