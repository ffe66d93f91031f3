use hn_reader::config::AppConfig;
use hn_reader::story::{
    derive_displays, time_ago_at, Story, StoryDisplay, MAX_UNIX_SECOND,
};
use hn_reader::text::u64_to_string;
use hn_reader::theme::{palette, GruvboxDark, GruvboxLight, GruvboxTheme, Rgb};

fn story_with_url(id: u64, url: Option<&str>) -> Story {
    Story {
        id,
        title: "a title".to_string(),
        url: url.map(|u| u.to_string()),
        by: "someone".to_string(),
        score: -3,
        time: 1_700_000_000,
        descendants: None,
    }
}

#[test]
fn decimal_rendering() {
    assert_eq!(u64_to_string(0), "0");
    assert_eq!(u64_to_string(7), "7");
    assert_eq!(u64_to_string(30), "30");
    assert_eq!(u64_to_string(12345), "12345");
    assert_eq!(u64_to_string(u64::MAX), "18446744073709551615");
}

#[test]
fn permalink_is_built_from_the_identifier() {
    let d = StoryDisplay::from_story(story_with_url(8863, None));
    assert_eq!(d.hn_url(), "https://news.ycombinator.com/item?id=8863");
}

#[test]
fn domain_is_the_parsed_host() {
    let d = StoryDisplay::from_story(story_with_url(1, Some("https://example.com/a/page?x=1")));
    assert_eq!(d.domain.as_deref(), Some("example.com"));
}

#[test]
fn text_post_has_no_domain() {
    let d = StoryDisplay::from_story(story_with_url(2, None));
    assert!(d.domain.is_none());
}

#[test]
fn unparseable_url_has_no_domain() {
    let d = StoryDisplay::from_story(story_with_url(3, Some("not a url")));
    assert!(d.domain.is_none());
}

#[test]
fn age_buckets() {
    let t: u64 = 1_700_000_000;
    let now = t as i64;
    assert_eq!(time_ago_at(t, now), "just now");
    assert_eq!(time_ago_at(t, now + 59), "just now");
    assert_eq!(time_ago_at(t, now + 60), "1 minutes ago");
    assert_eq!(time_ago_at(t, now + 3 * 60), "3 minutes ago");
    assert_eq!(time_ago_at(t, now + 3600), "1 hours ago");
    assert_eq!(time_ago_at(t, now + 5 * 3600), "5 hours ago");
    // 24 whole hours is still reported in hours; past that, days.
    assert_eq!(time_ago_at(t, now + 24 * 3600 + 1800), "24 hours ago");
    assert_eq!(time_ago_at(t, now + 25 * 3600), "1 days ago");
    assert_eq!(time_ago_at(t, now + 10 * 86400), "10 days ago");
}

#[test]
fn age_of_future_story_is_just_now() {
    let t: u64 = 1_700_000_000;
    assert_eq!(time_ago_at(t, t as i64 - 500), "just now");
}

#[test]
fn age_outside_datetime_range_is_unknown() {
    assert_eq!(time_ago_at(MAX_UNIX_SECOND as u64 + 1, 1_700_000_000), "unknown time");
    // A huge unsigned value wraps to a small negative signed reading, which
    // is a representable ancient date, not an unknown one.
    assert_eq!(time_ago_at(u64::MAX, 0), "just now");
}

#[test]
fn displays_keep_story_order() {
    let stories = vec![story_with_url(5, None), story_with_url(4, Some("https://a.b/c"))];
    let displays = derive_displays(&stories);
    assert_eq!(displays.len(), 2);
    assert_eq!(displays[0].story.id, 5);
    assert_eq!(displays[1].story.id, 4);
    assert_eq!(displays[1].domain.as_deref(), Some("a.b"));
}

#[test]
fn default_config_is_dark() {
    assert_eq!(AppConfig::default().theme, GruvboxTheme::Dark);
    assert_eq!(GruvboxTheme::default(), GruvboxTheme::Dark);
}

#[test]
fn theme_toggles_between_the_two() {
    assert_eq!(GruvboxTheme::Dark.toggled(), GruvboxTheme::Light);
    assert_eq!(GruvboxTheme::Light.toggled(), GruvboxTheme::Dark);
    assert_eq!(GruvboxTheme::Dark.display_name(), "Dark");
    assert_eq!(GruvboxTheme::Light.display_name(), "Light");
}

#[test]
fn dark_palette_roles() {
    let p = palette(&GruvboxTheme::Dark);
    let c = GruvboxDark::colors();
    assert!(p.dark_mode);
    assert_eq!(p.panel_fill, Rgb { r: 0x28, g: 0x28, b: 0x28 });
    assert_eq!(p.faint_bg, c.bg1);
    assert_eq!(p.extreme_bg, c.bg0);
    assert_eq!(p.code_bg, c.bg1);
    assert_eq!(p.warn_fg, c.orange);
    assert_eq!(p.error_fg, Rgb { r: 0xfb, g: 0x49, b: 0x34 });
    assert_eq!(p.selection_bg, c.blue);
    assert_eq!(p.hyperlink, c.blue);
    assert_eq!(p.text, c.fg);
    assert_eq!(p.inactive_fg, c.fg3);
}

#[test]
fn light_palette_roles() {
    let p = palette(&GruvboxTheme::Light);
    let c = GruvboxLight::colors();
    assert!(!p.dark_mode);
    assert_eq!(p.panel_fill, Rgb { r: 0xfb, g: 0xf1, b: 0xc7 });
    assert_eq!(p.error_fg, Rgb { r: 0x9d, g: 0x00, b: 0x06 });
    assert_eq!(p.active_bg, c.bg2);
    assert_eq!(p.hovered_bg, c.bg1);
    assert_eq!(p.inactive_bg, c.bg);
    assert_eq!(p.noninteractive_fg, c.fg3);
    assert_eq!(p.selection_stroke, c.blue);
}
