//! Builder behaviour: required fields enforced, optional fields free.

use pbsfm_rss_feed::rss::{
    CategoryBuilder, ChannelBuilder, ImageBuilder, ItemBuilder, ItemGuidBuilder, ItemSourceBuilder,
    RssError,
};

#[test]
fn category_no_required_fields_added_to_constructor() {
    CategoryBuilder::new("category").build().unwrap();
}

#[test]
fn channel_no_required_fields_added_to_constructor() {
    ChannelBuilder::new("title", "link", "description").build().unwrap();
}

#[test]
fn image_no_required_fields_added_to_constructor() {
    ImageBuilder::new("url", "title", "link").build().unwrap();
}

#[test]
fn item_no_required_fields_added_to_constructor() {
    ItemBuilder::with_title("title").build().unwrap();
    ItemBuilder::with_description("description").build().unwrap();
}

#[test]
fn item_guid_no_required_fields_added_to_constructor() {
    ItemGuidBuilder::new("guid").build().unwrap();
}

#[test]
fn item_source_no_required_fields_added_to_constructor() {
    ItemSourceBuilder::new("url").build().unwrap();
}

fn missing_field(e: RssError) -> String {
    let RssError::MissingRequiredField(f) = e;
    f
}

#[test]
fn channel_builder_reports_each_missing_required_field() {
    let e = ChannelBuilder::default().build().unwrap_err();
    assert_eq!(missing_field(e), "title");

    let e = ChannelBuilder::default().title("t").build().unwrap_err();
    assert_eq!(missing_field(e), "link");

    let e = ChannelBuilder::default().title("t").link("l").build().unwrap_err();
    assert_eq!(missing_field(e), "description");

    assert!(ChannelBuilder::default()
        .title("t")
        .link("l")
        .description("d")
        .build()
        .is_ok());
}

#[test]
fn image_builder_reports_each_missing_required_field() {
    let e = ImageBuilder::default().build().unwrap_err();
    assert_eq!(missing_field(e), "url");

    let e = ImageBuilder::default().url("u").build().unwrap_err();
    assert_eq!(missing_field(e), "title");

    let e = ImageBuilder::default().url("u").title("t").build().unwrap_err();
    assert_eq!(missing_field(e), "link");

    assert!(ImageBuilder::default().url("u").title("t").link("l").build().is_ok());
}

#[test]
fn category_builder_reports_missing_text() {
    let e = CategoryBuilder::default().build().unwrap_err();
    assert_eq!(missing_field(e), "text");
    assert!(CategoryBuilder::default().text("t").build().is_ok());
}

#[test]
fn item_guid_builder_reports_missing_guid() {
    let e = ItemGuidBuilder::default().build().unwrap_err();
    assert_eq!(missing_field(e), "guid");
    assert!(ItemGuidBuilder::default().guid("g").build().is_ok());
}

#[test]
fn item_source_builder_reports_missing_url() {
    let e = ItemSourceBuilder::default().build().unwrap_err();
    assert_eq!(missing_field(e), "url");
    assert!(ItemSourceBuilder::default().url("u").build().is_ok());
}

#[test]
fn item_builder_never_fails() {
    assert!(ItemBuilder::default().build().is_ok());
}

#[test]
fn error_names_the_field() {
    let e = ChannelBuilder::default().build().unwrap_err();
    assert_eq!(e.field_name(), "title");
}

#[test]
fn explicitly_empty_string_is_not_missing() {
    // An empty title was set, so building succeeds: "set to empty" differs
    // from "never set".
    let channel = ChannelBuilder::new("", "", "").build().unwrap();
    assert_eq!(
        channel.to_xml(),
        "<channel><title></title><link></link><description></description></channel>"
    );
}
