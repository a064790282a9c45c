//! Serialized XML: exact shape, fixed order, escaping, and omission of
//! absent optional fields.

use pbsfm_rss_feed::rss::{
    CategoryBuilder, ChannelBuilder, Enclosure, ImageBuilder, ItemBuilder, ItemGuidBuilder,
    ItemSourceBuilder, Rss, RssVersion,
};

#[test]
fn test_serialize_without_domain() {
    let category = CategoryBuilder::new("my category").build().unwrap();
    assert_eq!(category.to_xml(), "<category>my category</category>");
}

#[test]
fn test_serialize_with_domain() {
    let category = CategoryBuilder::new("my category")
        .domain("some domain")
        .build()
        .unwrap();
    assert_eq!(
        category.to_xml(),
        "<category domain=\"some domain\">my category</category>"
    );
}

#[test]
fn enclosure_test_serialize() {
    let enclosure = Enclosure::new("url", Some(182), "media-type");
    assert_eq!(
        enclosure.to_xml(),
        "<enclosure url=\"url\" length=\"182\" type=\"media-type\"/>"
    );
}

#[test]
fn test_serialize_without_length() {
    let enclosure = Enclosure::new("url", None, "media-type");
    assert_eq!(
        enclosure.to_xml(),
        "<enclosure url=\"url\" type=\"media-type\"/>"
    );
}

#[test]
fn image_test_serialize_with_minimum_params() {
    let image = ImageBuilder::new("url", "title", "link").build().unwrap();
    assert_eq!(
        image.to_xml(),
        "<image>\
            <url>url</url>\
            <title>title</title>\
            <link>link</link>\
        </image>"
    );
}

#[test]
fn image_test_serialize_with_all_params() {
    let image = ImageBuilder::new("url", "title", "link")
        .width(1u32)
        .height(2u32)
        .description("description")
        .build()
        .unwrap();
    assert_eq!(
        image.to_xml(),
        "<image>\
            <url>url</url>\
            <title>title</title>\
            <link>link</link>\
            <width>1</width>\
            <height>2</height>\
            <description>description</description>\
        </image>"
    );
}

#[test]
fn test_serialize_without_permalink() {
    let guid = ItemGuidBuilder::new("https://guid").build().unwrap();
    assert_eq!(guid.to_xml(), "<guid>https://guid</guid>");
}

#[test]
fn test_serialize_with_permalink() {
    let guid = ItemGuidBuilder::new("https://guid")
        .is_permalink(true)
        .build()
        .unwrap();
    assert_eq!(
        guid.to_xml(),
        "<guid isPermalink=\"true\">https://guid</guid>"
    );
}

#[test]
fn test_serialize_without_text() {
    let source = ItemSourceBuilder::new("url").build().unwrap();
    assert_eq!(source.to_xml(), "<source url=\"url\"/>");
}

#[test]
fn test_serialize_with_text() {
    let source = ItemSourceBuilder::new("url").text("some text").build().unwrap();
    assert_eq!(source.to_xml(), "<source url=\"url\">some text</source>");
}

#[test]
fn test_serialize_with_title() {
    let item = ItemBuilder::with_title("title").build().unwrap();
    assert_eq!(
        item.to_xml(),
        "<item>\
            <title>title</title>\
        </item>"
    );
}

#[test]
fn test_serialize_with_description() {
    let item = ItemBuilder::with_description("description").build().unwrap();
    assert_eq!(
        item.to_xml(),
        "<item>\
            <description>description</description>\
        </item>"
    );
}

#[test]
fn test_serialize_with_all_fields() {
    let item = ItemBuilder::with_title("Item")
        .link("https://www.google.com")
        .description("An item description")
        .author("The Author")
        .category(
            CategoryBuilder::new("category")
                .domain("https://category.domain")
                .build()
                .unwrap(),
        )
        .comments("https://some.com/link-to-comments")
        .enclosure(Enclosure::new(
            "https://enclosure/url.mp3",
            Some(1234),
            "audio/mpeg",
        ))
        .guid(
            ItemGuidBuilder::new("https://inessential.com/123")
                .is_permalink(true)
                .build()
                .unwrap(),
        )
        .pub_date("2015-01-01T00:00:00Z")
        .source(
            ItemSourceBuilder::new("https://inessential.com/123")
                .text("The Source")
                .build()
                .unwrap(),
        )
        .build()
        .unwrap();
    assert_eq!(
        item.to_xml(),
        "<item>\
            <title>Item</title>\
            <link>https://www.google.com</link>\
            <description>An item description</description>\
            <author>The Author</author>\
            <category domain=\"https://category.domain\">category</category>\
            <comments>https://some.com/link-to-comments</comments>\
            <enclosure url=\"https://enclosure/url.mp3\" length=\"1234\" type=\"audio/mpeg\"/>\
            <guid isPermalink=\"true\">https://inessential.com/123</guid>\
            <pubDate>2015-01-01T00:00:00Z</pubDate>\
            <source url=\"https://inessential.com/123\">The Source</source>\
        </item>"
    );
}

#[test]
fn channel_test_serialize_with_minimum_params() {
    let channel = ChannelBuilder::new("title", "link", "description").build().unwrap();
    assert_eq!(
        channel.to_xml(),
        "<channel>\
            <title>title</title>\
            <link>link</link>\
            <description>description</description>\
        </channel>"
    );
}

#[test]
fn channel_test_serialize_with_all_params() {
    let channel = ChannelBuilder::new(
        "some-title",
        "https://www.google.com",
        "A description: such & such.",
    )
    .language("en")
    .image(
        ImageBuilder::new(
            "https://some/channel/image.png",
            "The Channel Image",
            "https://link/to/channe/from/image",
        )
        .build()
        .unwrap(),
    )
    .item(vec![ItemBuilder::with_title("Item")
        .link("https://www.google.com")
        .description("An item description")
        .author("The Author")
        .category(
            CategoryBuilder::new("category")
                .domain("https://category.domain")
                .build()
                .unwrap(),
        )
        .comments("https://some.com/link-to-comments")
        .enclosure(Enclosure::new(
            "https://enclosure/url.mp3",
            Some(1234),
            "audio/mpeg",
        ))
        .guid(
            ItemGuidBuilder::new("https://inessential.com/123")
                .is_permalink(true)
                .build()
                .unwrap(),
        )
        .pub_date("2015-01-01T00:00:00Z")
        .source(
            ItemSourceBuilder::new("https://inessential.com/123")
                .text("The Source")
                .build()
                .unwrap(),
        )
        .build()
        .unwrap()])
    .build()
    .unwrap();
    assert_eq!(
        channel.to_xml(),
        "<channel>\
            <title>some-title</title>\
            <link>https://www.google.com</link>\
            <description>A description: such &amp; such.</description>\
            <language>en</language>\
            <image>\
                <url>https://some/channel/image.png</url>\
                <title>The Channel Image</title>\
                <link>https://link/to/channe/from/image</link>\
            </image>\
            <item>\
                <title>Item</title>\
                <link>https://www.google.com</link>\
                <description>An item description</description>\
                <author>The Author</author>\
                <category domain=\"https://category.domain\">category</category>\
                <comments>https://some.com/link-to-comments</comments>\
                <enclosure url=\"https://enclosure/url.mp3\" length=\"1234\" type=\"audio/mpeg\"/>\
                <guid isPermalink=\"true\">https://inessential.com/123</guid>\
                <pubDate>2015-01-01T00:00:00Z</pubDate>\
                <source url=\"https://inessential.com/123\">The Source</source>\
            </item>\
        </channel>"
    );
}

#[test]
fn mod_test_serialize() {
    let data = Rss::new(
        ChannelBuilder::new(
            "some-title",
            "https://www.google.com",
            "A description: such & such.",
        )
        .language("en")
        .image(
            ImageBuilder::new(
                "https://some/channel/image.png",
                "The Channel Image",
                "https://link/to/channe/from/image",
            )
            .build()
            .unwrap(),
        )
        .item(vec![ItemBuilder::with_title("Item")
            .link("https://www.google.com")
            .description("An item description")
            .author("The Author")
            .category(
                CategoryBuilder::new("category")
                    .domain("https://category.domain")
                    .build()
                    .unwrap(),
            )
            .comments("https://some.com/link-to-comments")
            .enclosure(Enclosure::new(
                "https://enclosure/url.mp3",
                Some(1234),
                "audio/mpeg",
            ))
            .guid(
                ItemGuidBuilder::new("https://inessential.com/123")
                    .is_permalink(true)
                    .build()
                    .unwrap(),
            )
            .pub_date("2015-01-01T00:00:00Z")
            .source(
                ItemSourceBuilder::new("https://inessential.com/123")
                    .text("The Source")
                    .build()
                    .unwrap(),
            )
            .build()
            .unwrap()])
        .build()
        .unwrap(),
    );
    assert_eq!(
        data.to_xml(),
        "<rss version=\"2.0\">\
            <channel>\
                <title>some-title</title>\
                <link>https://www.google.com</link>\
                <description>A description: such &amp; such.</description>\
                <language>en</language>\
                <image>\
                    <url>https://some/channel/image.png</url>\
                    <title>The Channel Image</title>\
                    <link>https://link/to/channe/from/image</link>\
                </image>\
                <item>\
                    <title>Item</title>\
                    <link>https://www.google.com</link>\
                    <description>An item description</description>\
                    <author>The Author</author>\
                    <category domain=\"https://category.domain\">category</category>\
                    <comments>https://some.com/link-to-comments</comments>\
                    <enclosure url=\"https://enclosure/url.mp3\" length=\"1234\" type=\"audio/mpeg\"/>\
                    <guid isPermalink=\"true\">https://inessential.com/123</guid>\
                    <pubDate>2015-01-01T00:00:00Z</pubDate>\
                    <source url=\"https://inessential.com/123\">The Source</source>\
                </item>\
            </channel>\
        </rss>"
    );
}

#[test]
fn test_skips_serialization_of_option() {
    let data = Rss::new(
        ChannelBuilder::new(
            "some-title",
            "https://www.google.com",
            "A description: such & such.",
        )
        .build()
        .unwrap(),
    );
    assert_eq!(
        data.to_xml(),
        "<rss version=\"2.0\">\
            <channel>\
                <title>some-title</title>\
                <link>https://www.google.com</link>\
                <description>A description: such &amp; such.</description>\
            </channel>\
        </rss>"
    );
}

#[test]
fn rss_version_as_str() {
    assert_eq!(RssVersion::RSS2_0.as_str(), "2.0");
}

#[test]
fn document_carries_xml_declaration() {
    let data = Rss::new(ChannelBuilder::new("t", "l", "d").build().unwrap());
    let doc = data.to_xml_document();
    assert!(doc.starts_with("<?xml version=\"1.0\" encoding=\"utf-8\"?><rss version=\"2.0\">"));
    assert!(doc.ends_with("</rss>"));
}

#[test]
fn optional_field_absent_then_present_occurs_zero_then_once() {
    // Every optional channel field set here appears exactly once; unset, it
    // leaves no trace at all.
    let bare = ChannelBuilder::new("t", "l", "d").build().unwrap().to_xml();
    for tag in [
        "<language>",
        "<copyright>",
        "<managingEditor>",
        "<webMaster>",
        "<pubDate>",
        "<lastBuildDate>",
        "<category",
        "<generator>",
        "<docs>",
        "<ttl>",
        "<image>",
        "<rating>",
        "<skipHours>",
        "<skipDays>",
        "<item>",
    ] {
        assert_eq!(bare.matches(tag).count(), 0, "{tag} in {bare}");
    }

    let full = ChannelBuilder::new("t", "l", "d")
        .language("en")
        .copyright("c")
        .managing_editor("me")
        .web_master("wm")
        .pub_date("pd")
        .last_build_date("lbd")
        .category(CategoryBuilder::new("cat").build().unwrap())
        .generator("g")
        .docs("docs")
        .ttl(60)
        .image(ImageBuilder::new("u", "t", "l").build().unwrap())
        .rating("r")
        .skip_hours(1)
        .skip_days("Monday")
        .item(vec![ItemBuilder::with_title("i").build().unwrap()])
        .build()
        .unwrap()
        .to_xml();
    for (tag, value) in [
        ("<language>", "<language>en</language>"),
        ("<copyright>", "<copyright>c</copyright>"),
        ("<managingEditor>", "<managingEditor>me</managingEditor>"),
        ("<webMaster>", "<webMaster>wm</webMaster>"),
        ("<lastBuildDate>", "<lastBuildDate>lbd</lastBuildDate>"),
        ("<category", "<category>cat</category>"),
        ("<generator>", "<generator>g</generator>"),
        ("<docs>", "<docs>docs</docs>"),
        ("<ttl>", "<ttl>60</ttl>"),
        ("<rating>", "<rating>r</rating>"),
        ("<skipHours>", "<skipHours>1</skipHours>"),
        ("<skipDays>", "<skipDays>Monday</skipDays>"),
        ("<item>", "<item><title>i</title></item>"),
    ] {
        assert_eq!(full.matches(tag).count(), 1, "{tag} in {full}");
        assert_eq!(full.matches(value).count(), 1, "{value} in {full}");
    }
    // `pubDate` stands once on the channel; the one item here has none.
    assert_eq!(full.matches("<pubDate>pd</pubDate>").count(), 1);
    assert_eq!(full.matches("<image>").count(), 1);
}

#[test]
fn item_optional_fields_occur_zero_then_once() {
    let bare = ItemBuilder::default().build().unwrap().to_xml();
    for tag in ["<title>", "<link>", "<description>", "<author>", "<comments>", "<pubDate>"] {
        assert_eq!(bare.matches(tag).count(), 0, "{tag} in {bare}");
    }

    let full = ItemBuilder::with_title("t")
        .link("l")
        .description("d")
        .author("a")
        .comments("c")
        .pub_date("p")
        .build()
        .unwrap()
        .to_xml();
    for tag in ["<title>", "<link>", "<description>", "<author>", "<comments>", "<pubDate>"] {
        assert_eq!(full.matches(tag).count(), 1, "{tag} in {full}");
    }
}

#[test]
fn pub_date_count_adds_channel_and_items() {
    let channel = ChannelBuilder::new("t", "l", "d")
        .pub_date("2020-01-01")
        .item(vec![
            ItemBuilder::with_title("a").pub_date("2020-01-02").build().unwrap(),
            ItemBuilder::with_title("b").build().unwrap(),
            ItemBuilder::with_title("c").pub_date("2020-01-03").build().unwrap(),
        ])
        .build()
        .unwrap();
    assert_eq!(channel.to_xml().matches("<pubDate>").count(), 3);
}

#[test]
fn optional_attributes_absent_then_present() {
    let bare = Enclosure::new("u", None, "m").to_xml();
    assert_eq!(bare.matches("length").count(), 0);
    let full = Enclosure::new("u", Some(7), "m").to_xml();
    assert_eq!(full.matches("length=\"7\"").count(), 1);

    let bare = ItemGuidBuilder::new("g").build().unwrap().to_xml();
    assert_eq!(bare.matches("isPermalink").count(), 0);
    let full = ItemGuidBuilder::new("g").is_permalink(false).build().unwrap().to_xml();
    assert_eq!(full.matches("isPermalink=\"false\"").count(), 1);

    let bare = CategoryBuilder::new("c").build().unwrap().to_xml();
    assert_eq!(bare.matches("domain").count(), 0);
    let full = CategoryBuilder::new("c").domain("d").build().unwrap().to_xml();
    assert_eq!(full.matches("domain=\"d\"").count(), 1);
}

#[test]
fn escaping_covers_markup_characters() {
    let channel = ChannelBuilder::new("a < b", "l&r", "\"quoted\" & 'plain' > rest")
        .build()
        .unwrap();
    assert_eq!(
        channel.to_xml(),
        "<channel>\
            <title>a &lt; b</title>\
            <link>l&amp;r</link>\
            <description>&quot;quoted&quot; &amp; &apos;plain&apos; &gt; rest</description>\
        </channel>"
    );
}
