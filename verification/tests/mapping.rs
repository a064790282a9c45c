//! The mapping from program and episode records to a feed.

use pbsfm_rss_feed::airnet::types::{Episode, ProgramDetails};
use pbsfm_rss_feed::datetime::DateTime;
use pbsfm_rss_feed::{convert_to_items_v2, convert_to_rss_v2, rm_query_params};

fn program(name: &str, slug: &str) -> ProgramDetails {
    ProgramDetails {
        url: None,
        name: name.to_string(),
        broadcasters: "Adam Rudegeair".to_string(),
        description: "Jazz and funk...".to_string(),
        grid_description: Some("Jazz".to_string()),
        slug: slug.to_string(),
        banner_image_url: String::new(),
        banner_image_small: String::new(),
        profile_image_url: "https://profile-img.jpg?x=1".to_string(),
        profile_image_small: String::new(),
        episodes_rest_url: String::new(),
    }
}

fn episode(start: DateTime, title: Option<&str>, description: Option<&str>) -> Episode {
    Episode {
        url: None,
        start,
        end: start,
        duration: 3600,
        title: title.map(|t| t.to_string()),
        description: description.map(|d| d.to_string()),
        image_url: None,
        episode_rest_url: String::new(),
    }
}

#[test]
fn title_falls_back_to_untitled_with_date() {
    let start = DateTime::new(2025, 8, 25, 11, 0, 0).unwrap();
    let p = program("Black Wax", "black-wax");
    let items = convert_to_items_v2(&p, vec![episode(start, None, None)]);
    let xml = items[0].to_xml();
    assert_eq!(xml.matches("<title>Untitled - 2025-08-25</title>").count(), 1);
}

#[test]
fn episode_title_is_used_when_present() {
    let start = DateTime::new(2025, 8, 25, 11, 0, 0).unwrap();
    let p = program("Black Wax", "black-wax");
    let items = convert_to_items_v2(&p, vec![episode(start, Some("A show"), None)]);
    let xml = items[0].to_xml();
    assert_eq!(xml.matches("<title>A show</title>").count(), 1);
}

#[test]
fn enclosure_url_uses_plus_between_date_and_time() {
    let start = DateTime::new(2025, 6, 16, 11, 0, 0).unwrap();
    let p = program("Black Wax", "black-wax");
    let items = convert_to_items_v2(&p, vec![episode(start, None, None)]);
    let xml = items[0].to_xml();
    assert!(xml.contains(
        "url=\"https://airnet.org.au/omnystudio/3pbs/black-wax/2025-06-16+11:00:00/aac_mid.m4a\""
    ));
    assert!(xml.contains("type=\"audio/mp4\""));
    assert_eq!(xml.matches("length").count(), 0);
}

#[test]
fn image_url_query_string_is_stripped() {
    assert_eq!(
        rm_query_params("https://profile-img.jpg?cacbeb=80406601"),
        "https://profile-img.jpg"
    );
    assert_eq!(rm_query_params("https://plain.jpg"), "https://plain.jpg");
    assert_eq!(rm_query_params("?x=1"), "");
    assert_eq!(rm_query_params(""), "");
    assert_eq!(rm_query_params("a?b?c"), "a");
}

#[test]
fn channel_image_uses_stripped_url() {
    let p = program("Black Wax", "black-wax");
    let rss = convert_to_rss_v2(p, vec![]).unwrap();
    let xml = rss.to_xml();
    assert_eq!(xml.matches("<url>https://profile-img.jpg</url>").count(), 1);
    assert_eq!(xml.matches("?x=1").count(), 0);
}

#[test]
fn episode_order_is_preserved() {
    let p = program("Black Wax", "black-wax");
    let episodes = vec![
        episode(DateTime::new(2025, 6, 2, 11, 0, 0).unwrap(), Some("E1"), None),
        episode(DateTime::new(2025, 6, 16, 11, 0, 0).unwrap(), Some("E2"), None),
        episode(DateTime::new(2025, 6, 9, 11, 0, 0).unwrap(), Some("E3"), None),
    ];
    let rss = convert_to_rss_v2(p, episodes).unwrap();
    let xml = rss.to_xml();
    let p1 = xml.find("<title>E1</title>").unwrap();
    let p2 = xml.find("<title>E2</title>").unwrap();
    let p3 = xml.find("<title>E3</title>").unwrap();
    assert!(p1 < p2 && p2 < p3);
    assert_eq!(xml.matches("<item>").count(), 3);
}

#[test]
fn missing_grid_description_becomes_empty_category() {
    let mut p = program("Black Wax", "black-wax");
    p.grid_description = None;
    let rss = convert_to_rss_v2(p, vec![]).unwrap();
    let xml = rss.to_xml();
    assert_eq!(xml.matches("<category></category>").count(), 1);
}

#[test]
fn end_to_end_single_episode_feed() {
    let p = ProgramDetails {
        url: None,
        name: "Black Wax".to_string(),
        broadcasters: "Adam Rudegeair".to_string(),
        description: "Jazz and funk...".to_string(),
        grid_description: Some("Jazz".to_string()),
        slug: "black-wax".to_string(),
        banner_image_url: String::new(),
        banner_image_small: String::new(),
        profile_image_url: "https://profile-img.jpg?x=1".to_string(),
        profile_image_small: String::new(),
        episodes_rest_url: String::new(),
    };
    let e = episode(
        DateTime::new(2025, 8, 25, 11, 0, 0).unwrap(),
        None,
        Some("some description"),
    );
    let rss = convert_to_rss_v2(p, vec![e]).unwrap();
    let xml = rss.to_xml();

    let link = "https://www.pbsfm.org.au/program/black-wax/2025-08-25/11-00-00";
    assert_eq!(xml.matches("<item>").count(), 1);
    assert_eq!(xml.matches("<title>Untitled - 2025-08-25</title>").count(), 1);
    assert_eq!(xml.matches(&format!("<link>{link}</link>")).count(), 1);
    assert_eq!(xml.matches(&format!("<guid>{link}</guid>")).count(), 1);
    assert_eq!(xml.matches("<description>some description</description>").count(), 1);
    assert_eq!(xml.matches("<pubDate>2025-08-25</pubDate>").count(), 1);

    // The channel around the item; the image repeats the program name and
    // the program link.
    assert_eq!(xml.matches("<title>Black Wax</title>").count(), 2);
    assert_eq!(
        xml.matches("<link>https://www.pbsfm.org.au/program/black-wax</link>").count(),
        2
    );
    assert_eq!(xml.matches("<description>Jazz and funk...</description>").count(), 1);
    assert_eq!(xml.matches("<language>en</language>").count(), 1);
    assert_eq!(xml.matches("<category>Jazz</category>").count(), 1);
    assert_eq!(xml.matches("<author>Adam Rudegeair</author>").count(), 1);
}

#[test]
fn missing_episode_description_becomes_empty() {
    let start = DateTime::new(2025, 8, 25, 11, 0, 0).unwrap();
    let p = program("Black Wax", "black-wax");
    let items = convert_to_items_v2(&p, vec![episode(start, Some("t"), None)]);
    let xml = items[0].to_xml();
    assert_eq!(xml.matches("<description></description>").count(), 1);
}

#[test]
fn slug_is_embedded_verbatim() {
    // Escaping happens at serialization time only: a slug with an ampersand
    // reaches the URL strings unchanged and is escaped in the XML text.
    let start = DateTime::new(2025, 1, 5, 23, 59, 59).unwrap();
    let p = program("P", "a&b");
    let items = convert_to_items_v2(&p, vec![episode(start, Some("t"), None)]);
    let xml = items[0].to_xml();
    assert!(xml.contains("<link>https://www.pbsfm.org.au/program/a&amp;b/2025-01-05/23-59-59</link>"));
}
