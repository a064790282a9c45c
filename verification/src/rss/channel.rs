//! The `<channel>` element: the feed container. Title, link and description
//! are required; every other field is optional; items keep insertion order.

use crate::rss::category::{lemma_category_no_foreign_tag, spec_category_xml, Category,
    CategoryModel};
use crate::rss::image::{lemma_image_no_foreign_tag, spec_image_xml, Image, ImageModel};
use crate::rss::item::{count_pub_dates, items_view, lemma_items_xml_gt,
    lemma_items_xml_no_foreign_tag, lemma_items_xml_pub_date_occurrences,
    spec_items_xml, write_items, Item, ItemModel};
use crate::rss::{RssError, RssErrorModel};
use crate::xmltext::{close_tag, gt_terminated, interior_no_gt, lemma_frame_no_foreign_tag,
    lemma_gt_terminated_concat, lemma_num_elem_no_foreign_tag, lemma_num_elem_own_tag,
    lemma_occurrences_concat, lemma_opt_other_tag_no_element, lemma_opt_text_elem_gt,
    lemma_other_tag_no_element, lemma_present_field_one_element, num_elem, occurrences, open_tag,
    opt_text_elem, tag_wf, tags_differ, text_elem, view_opt, write_num_elem, write_opt_text_elem,
    write_text_elem};
use vstd::prelude::*;
use vstd::string::StringExecFns;

verus! {

/// The feed container: its metadata and its ordered list of items.
#[derive(Clone, Debug, PartialEq, Eq)]
pub struct Channel {
    title: String,
    link: String,
    description: String,
    language: Option<String>,
    copyright: Option<String>,
    managing_editor: Option<String>,
    web_master: Option<String>,
    pub_date: Option<String>,
    last_build_date: Option<String>,
    category: Option<Category>,
    generator: Option<String>,
    docs: Option<String>,
    ttl: Option<u64>,
    image: Option<Image>,
    rating: Option<String>,
    skip_hours: Option<u8>,
    skip_days: Option<String>,
    item: Vec<Item>,
}

/// The model of a [`Channel`].
pub ghost struct ChannelModel {
    pub title: Seq<char>,
    pub link: Seq<char>,
    pub description: Seq<char>,
    pub language: Option<Seq<char>>,
    pub copyright: Option<Seq<char>>,
    pub managing_editor: Option<Seq<char>>,
    pub web_master: Option<Seq<char>>,
    pub pub_date: Option<Seq<char>>,
    pub last_build_date: Option<Seq<char>>,
    pub category: Option<CategoryModel>,
    pub generator: Option<Seq<char>>,
    pub docs: Option<Seq<char>>,
    pub ttl: Option<u64>,
    pub image: Option<ImageModel>,
    pub rating: Option<Seq<char>>,
    pub skip_hours: Option<u8>,
    pub skip_days: Option<Seq<char>>,
    pub items: Seq<ItemModel>,
}

/// The view of an optional category.
pub open spec fn view_opt_category(o: Option<Category>) -> Option<CategoryModel> {
    match o {
        Some(c) => Some(c@),
        None => None,
    }
}

/// The view of an optional image.
pub open spec fn view_opt_image(o: Option<Image>) -> Option<ImageModel> {
    match o {
        Some(im) => Some(im@),
        None => None,
    }
}

impl View for Channel {
    type V = ChannelModel;

    closed spec fn view(&self) -> ChannelModel {
        ChannelModel {
            title: self.title@,
            link: self.link@,
            description: self.description@,
            language: view_opt(self.language),
            copyright: view_opt(self.copyright),
            managing_editor: view_opt(self.managing_editor),
            web_master: view_opt(self.web_master),
            pub_date: view_opt(self.pub_date),
            last_build_date: view_opt(self.last_build_date),
            category: view_opt_category(self.category),
            generator: view_opt(self.generator),
            docs: view_opt(self.docs),
            ttl: self.ttl,
            image: view_opt_image(self.image),
            rating: view_opt(self.rating),
            skip_hours: self.skip_hours,
            skip_days: view_opt(self.skip_days),
            items: items_view(self.item@),
        }
    }
}

/// The XML form: title, link and description, then each optional metadata
/// field that is set, in declared order, then the items in insertion order.
pub open spec fn spec_channel_xml(m: ChannelModel) -> Seq<char> {
    "<channel>"@ + text_elem("title"@, m.title) + text_elem("link"@, m.link) + text_elem(
        "description"@,
        m.description,
    ) + opt_text_elem("language"@, m.language) + opt_text_elem("copyright"@, m.copyright)
        + opt_text_elem("managingEditor"@, m.managing_editor) + opt_text_elem(
        "webMaster"@,
        m.web_master,
    ) + opt_text_elem("pubDate"@, m.pub_date) + opt_text_elem("lastBuildDate"@, m.last_build_date)
        + match m.category {
        Some(c) => spec_category_xml(c),
        None => Seq::empty(),
    } + opt_text_elem("generator"@, m.generator) + opt_text_elem("docs"@, m.docs) + match m.ttl {
        Some(n) => num_elem("ttl"@, n as nat),
        None => Seq::empty(),
    } + match m.image {
        Some(im) => spec_image_xml(im),
        None => Seq::empty(),
    } + opt_text_elem("rating"@, m.rating) + match m.skip_hours {
        Some(n) => num_elem("skipHours"@, n as nat),
        None => Seq::empty(),
    } + opt_text_elem("skipDays"@, m.skip_days) + spec_items_xml(m.items) + "</channel>"@
}

impl Channel {
    /// Serializes the channel to its XML form.
    pub fn to_xml(&self) -> (r: String)
        ensures
            r@ == spec_channel_xml(self@),
    {
        let mut out = String::new();
        out.append("<channel>");
        write_text_elem(&mut out, "title", self.title.as_str());
        write_text_elem(&mut out, "link", self.link.as_str());
        write_text_elem(&mut out, "description", self.description.as_str());
        write_opt_text_elem(&mut out, "language", &self.language);
        write_opt_text_elem(&mut out, "copyright", &self.copyright);
        write_opt_text_elem(&mut out, "managingEditor", &self.managing_editor);
        write_opt_text_elem(&mut out, "webMaster", &self.web_master);
        write_opt_text_elem(&mut out, "pubDate", &self.pub_date);
        write_opt_text_elem(&mut out, "lastBuildDate", &self.last_build_date);
        match &self.category {
            Some(c) => {
                let x = c.to_xml();
                out.append(x.as_str());
            },
            None => (),
        }
        write_opt_text_elem(&mut out, "generator", &self.generator);
        write_opt_text_elem(&mut out, "docs", &self.docs);
        match self.ttl {
            Some(n) => write_num_elem(&mut out, "ttl", n),
            None => (),
        }
        match &self.image {
            Some(im) => {
                let x = im.to_xml();
                out.append(x.as_str());
            },
            None => (),
        }
        write_opt_text_elem(&mut out, "rating", &self.rating);
        match self.skip_hours {
            Some(n) => write_num_elem(&mut out, "skipHours", n as u64),
            None => (),
        }
        write_opt_text_elem(&mut out, "skipDays", &self.skip_days);
        write_items(&mut out, &self.item);
        out.append("</channel>");
        proof {
            assert(out@ =~= spec_channel_xml(self@));
        }
        out
    }
}

/// Occurrence counting over a whole serialized channel splits into its
/// parts: every part ends in `>`, and a tag needle holds `>` only at its
/// end, so no occurrence can straddle a boundary.
proof fn lemma_channel_xml_occurrence_sum(m: ChannelModel, needle: Seq<char>)
    requires
        needle.len() > 0,
        interior_no_gt(needle),
    ensures
        occurrences(spec_channel_xml(m), needle) == occurrences("<channel>"@, needle)
            + occurrences(text_elem("title"@, m.title), needle) + occurrences(
            text_elem("link"@, m.link),
            needle,
        ) + occurrences(text_elem("description"@, m.description), needle) + occurrences(
            opt_text_elem("language"@, m.language),
            needle,
        ) + occurrences(opt_text_elem("copyright"@, m.copyright), needle) + occurrences(
            opt_text_elem("managingEditor"@, m.managing_editor),
            needle,
        ) + occurrences(opt_text_elem("webMaster"@, m.web_master), needle) + occurrences(
            opt_text_elem("pubDate"@, m.pub_date),
            needle,
        ) + occurrences(opt_text_elem("lastBuildDate"@, m.last_build_date), needle) + occurrences(
            match m.category {
                Some(c) => spec_category_xml(c),
                None => Seq::empty(),
            },
            needle,
        ) + occurrences(opt_text_elem("generator"@, m.generator), needle) + occurrences(
            opt_text_elem("docs"@, m.docs),
            needle,
        ) + occurrences(
            match m.ttl {
                Some(n) => num_elem("ttl"@, n as nat),
                None => Seq::empty(),
            },
            needle,
        ) + occurrences(
            match m.image {
                Some(im) => spec_image_xml(im),
                None => Seq::empty(),
            },
            needle,
        ) + occurrences(opt_text_elem("rating"@, m.rating), needle) + occurrences(
            match m.skip_hours {
                Some(n) => num_elem("skipHours"@, n as nat),
                None => Seq::empty(),
            },
            needle,
        ) + occurrences(opt_text_elem("skipDays"@, m.skip_days), needle) + occurrences(
            spec_items_xml(m.items),
            needle,
        ) + occurrences("</channel>"@, needle),
{
    reveal_strlit("<channel>");
    reveal_strlit("</channel>");
    reveal_strlit(">");
    reveal_strlit("</category>");
    reveal_strlit("</image>");
    let part1 = text_elem("title"@, m.title);
    let part2 = text_elem("link"@, m.link);
    let part3 = text_elem("description"@, m.description);
    let part4 = opt_text_elem("language"@, m.language);
    let part5 = opt_text_elem("copyright"@, m.copyright);
    let part6 = opt_text_elem("managingEditor"@, m.managing_editor);
    let part7 = opt_text_elem("webMaster"@, m.web_master);
    let part8 = opt_text_elem("pubDate"@, m.pub_date);
    let part9 = opt_text_elem("lastBuildDate"@, m.last_build_date);
    let part10 = match m.category {
        Some(c) => spec_category_xml(c),
        None => Seq::empty(),
    };
    let part11 = opt_text_elem("generator"@, m.generator);
    let part12 = opt_text_elem("docs"@, m.docs);
    let part13 = match m.ttl {
        Some(n) => num_elem("ttl"@, n as nat),
        None => Seq::empty(),
    };
    let part14 = match m.image {
        Some(im) => spec_image_xml(im),
        None => Seq::empty(),
    };
    let part15 = opt_text_elem("rating"@, m.rating);
    let part16 = match m.skip_hours {
        Some(n) => num_elem("skipHours"@, n as nat),
        None => Seq::empty(),
    };
    let part17 = opt_text_elem("skipDays"@, m.skip_days);
    let part18 = spec_items_xml(m.items);
    lemma_opt_text_elem_gt("title"@, Some(m.title));
    lemma_opt_text_elem_gt("link"@, Some(m.link));
    lemma_opt_text_elem_gt("description"@, Some(m.description));
    lemma_opt_text_elem_gt("language"@, m.language);
    lemma_opt_text_elem_gt("copyright"@, m.copyright);
    lemma_opt_text_elem_gt("managingEditor"@, m.managing_editor);
    lemma_opt_text_elem_gt("webMaster"@, m.web_master);
    lemma_opt_text_elem_gt("pubDate"@, m.pub_date);
    lemma_opt_text_elem_gt("lastBuildDate"@, m.last_build_date);
    lemma_opt_text_elem_gt("generator"@, m.generator);
    lemma_opt_text_elem_gt("docs"@, m.docs);
    lemma_opt_text_elem_gt("rating"@, m.rating);
    lemma_opt_text_elem_gt("skipDays"@, m.skip_days);
    match m.category {
        Some(c) => {
            assert(spec_category_xml(c).last() == "</category>"@.last());
        },
        None => (),
    }
    assert(gt_terminated(part10));
    match m.ttl {
        Some(n) => {
            assert(num_elem("ttl"@, n as nat).last() == close_tag("ttl"@).last());
            assert(close_tag("ttl"@).last() == '>');
        },
        None => (),
    }
    assert(gt_terminated(part13));
    match m.image {
        Some(im) => {
            assert(spec_image_xml(im).last() == "</image>"@.last());
        },
        None => (),
    }
    assert(gt_terminated(part14));
    match m.skip_hours {
        Some(n) => {
            assert(num_elem("skipHours"@, n as nat).last() == close_tag("skipHours"@).last());
            assert(close_tag("skipHours"@).last() == '>');
        },
        None => (),
    }
    assert(gt_terminated(part16));
    lemma_items_xml_gt(m.items);
    let p0 = "<channel>"@;
    assert(gt_terminated(p0));
    lemma_occurrences_concat(p0, part1, needle);
    lemma_gt_terminated_concat(p0, part1);
    let p1 = p0 + part1;
    lemma_occurrences_concat(p1, part2, needle);
    lemma_gt_terminated_concat(p1, part2);
    let p2 = p1 + part2;
    lemma_occurrences_concat(p2, part3, needle);
    lemma_gt_terminated_concat(p2, part3);
    let p3 = p2 + part3;
    lemma_occurrences_concat(p3, part4, needle);
    lemma_gt_terminated_concat(p3, part4);
    let p4 = p3 + part4;
    lemma_occurrences_concat(p4, part5, needle);
    lemma_gt_terminated_concat(p4, part5);
    let p5 = p4 + part5;
    lemma_occurrences_concat(p5, part6, needle);
    lemma_gt_terminated_concat(p5, part6);
    let p6 = p5 + part6;
    lemma_occurrences_concat(p6, part7, needle);
    lemma_gt_terminated_concat(p6, part7);
    let p7 = p6 + part7;
    lemma_occurrences_concat(p7, part8, needle);
    lemma_gt_terminated_concat(p7, part8);
    let p8 = p7 + part8;
    lemma_occurrences_concat(p8, part9, needle);
    lemma_gt_terminated_concat(p8, part9);
    let p9 = p8 + part9;
    lemma_occurrences_concat(p9, part10, needle);
    lemma_gt_terminated_concat(p9, part10);
    let p10 = p9 + part10;
    lemma_occurrences_concat(p10, part11, needle);
    lemma_gt_terminated_concat(p10, part11);
    let p11 = p10 + part11;
    lemma_occurrences_concat(p11, part12, needle);
    lemma_gt_terminated_concat(p11, part12);
    let p12 = p11 + part12;
    lemma_occurrences_concat(p12, part13, needle);
    lemma_gt_terminated_concat(p12, part13);
    let p13 = p12 + part13;
    lemma_occurrences_concat(p13, part14, needle);
    lemma_gt_terminated_concat(p13, part14);
    let p14 = p13 + part14;
    lemma_occurrences_concat(p14, part15, needle);
    lemma_gt_terminated_concat(p14, part15);
    let p15 = p14 + part15;
    lemma_occurrences_concat(p15, part16, needle);
    lemma_gt_terminated_concat(p15, part16);
    let p16 = p15 + part16;
    lemma_occurrences_concat(p16, part17, needle);
    lemma_gt_terminated_concat(p16, part17);
    let p17 = p16 + part17;
    lemma_occurrences_concat(p17, part18, needle);
    lemma_gt_terminated_concat(p17, part18);
    let p18 = p17 + part18;
    lemma_occurrences_concat(p18, "</channel>"@, needle);
    assert(spec_channel_xml(m) == p18 + "</channel>"@);
}

/// Law: in a whole serialized channel, each optional text field whose tag
/// belongs to the channel alone occurs exactly once when the field was set
/// and not at all when it was left unset, whatever every field and item
/// holds. The channel's `pubDate` is left out: items carry a `pubDate` of
/// their own, so at the document level its count is not the channel
/// field's alone.
pub proof fn lemma_channel_language_occurrences(m: ChannelModel)
    ensures
        occurrences(spec_channel_xml(m), open_tag("language"@)) == (if m.language is Some {
            1nat
        } else {
            0nat
        }),
{
    lemma_channel_field_occ_common(m, "language"@);
}

/// Law: as [`lemma_channel_language_occurrences`], for the copyright field.
pub proof fn lemma_channel_copyright_occurrences(m: ChannelModel)
    ensures
        occurrences(spec_channel_xml(m), open_tag("copyright"@)) == (if m.copyright is Some {
            1nat
        } else {
            0nat
        }),
{
    lemma_channel_field_occ_common(m, "copyright"@);
}

/// Law: as [`lemma_channel_language_occurrences`], for the managing editor.
pub proof fn lemma_channel_managing_editor_occurrences(m: ChannelModel)
    ensures
        occurrences(spec_channel_xml(m), open_tag("managingEditor"@)) == (
        if m.managing_editor is Some {
            1nat
        } else {
            0nat
        }),
{
    lemma_channel_field_occ_common(m, "managingEditor"@);
}

/// Law: as [`lemma_channel_language_occurrences`], for the web master.
pub proof fn lemma_channel_web_master_occurrences(m: ChannelModel)
    ensures
        occurrences(spec_channel_xml(m), open_tag("webMaster"@)) == (if m.web_master is Some {
            1nat
        } else {
            0nat
        }),
{
    lemma_channel_field_occ_common(m, "webMaster"@);
}

/// Law: as [`lemma_channel_language_occurrences`], for the last build date.
pub proof fn lemma_channel_last_build_date_occurrences(m: ChannelModel)
    ensures
        occurrences(spec_channel_xml(m), open_tag("lastBuildDate"@)) == (
        if m.last_build_date is Some {
            1nat
        } else {
            0nat
        }),
{
    lemma_channel_field_occ_common(m, "lastBuildDate"@);
}

/// Law: as [`lemma_channel_language_occurrences`], for the generator field.
pub proof fn lemma_channel_generator_occurrences(m: ChannelModel)
    ensures
        occurrences(spec_channel_xml(m), open_tag("generator"@)) == (if m.generator is Some {
            1nat
        } else {
            0nat
        }),
{
    lemma_channel_field_occ_common(m, "generator"@);
}

/// Law: as [`lemma_channel_language_occurrences`], for the docs field.
pub proof fn lemma_channel_docs_occurrences(m: ChannelModel)
    ensures
        occurrences(spec_channel_xml(m), open_tag("docs"@)) == (if m.docs is Some {
            1nat
        } else {
            0nat
        }),
{
    lemma_channel_field_occ_common(m, "docs"@);
}

/// Law: as [`lemma_channel_language_occurrences`], for the rating field.
pub proof fn lemma_channel_rating_occurrences(m: ChannelModel)
    ensures
        occurrences(spec_channel_xml(m), open_tag("rating"@)) == (if m.rating is Some {
            1nat
        } else {
            0nat
        }),
{
    lemma_channel_field_occ_common(m, "rating"@);
}

/// Law: as [`lemma_channel_language_occurrences`], for the skip days field.
pub proof fn lemma_channel_skip_days_occurrences(m: ChannelModel)
    ensures
        occurrences(spec_channel_xml(m), open_tag("skipDays"@)) == (if m.skip_days is Some {
            1nat
        } else {
            0nat
        }),
{
    lemma_channel_field_occ_common(m, "skipDays"@);
}

/// Law: as [`lemma_channel_language_occurrences`], for the numeric time to
/// live.
pub proof fn lemma_channel_ttl_occurrences(m: ChannelModel)
    ensures
        occurrences(spec_channel_xml(m), open_tag("ttl"@)) == (if m.ttl is Some {
            1nat
        } else {
            0nat
        }),
{
    lemma_channel_num_occ_common(m, "ttl"@);
}

/// Law: as [`lemma_channel_language_occurrences`], for the numeric skip
/// hours.
pub proof fn lemma_channel_skip_hours_occurrences(m: ChannelModel)
    ensures
        occurrences(spec_channel_xml(m), open_tag("skipHours"@)) == (if m.skip_hours is Some {
            1nat
        } else {
            0nat
        }),
{
    lemma_channel_num_occ_common(m, "skipHours"@);
}

/// Law: as [`lemma_channel_language_occurrences`], for the image: the
/// document holds exactly one `<image>` when one was set and none
/// otherwise, whatever the image and every other field holds.
pub proof fn lemma_channel_image_occurrences(m: ChannelModel)
    ensures
        occurrences(spec_channel_xml(m), open_tag("image"@)) == (if m.image is Some {
            1nat
        } else {
            0nat
        }),
{
    let tag = "image"@;
    let needle = open_tag(tag);
    lemma_channel_tags_wf();
    reveal_strlit("<");
    reveal_strlit(">");
    reveal_strlit("</");
    reveal_strlit("<channel>");
    reveal_strlit("</channel>");
    reveal_strlit("channel");
    reveal_strlit("title");
    reveal_strlit("link");
    reveal_strlit("description");
    reveal_strlit("language");
    reveal_strlit("copyright");
    reveal_strlit("managingEditor");
    reveal_strlit("webMaster");
    reveal_strlit("pubDate");
    reveal_strlit("lastBuildDate");
    reveal_strlit("category");
    reveal_strlit("generator");
    reveal_strlit("docs");
    reveal_strlit("ttl");
    reveal_strlit("image");
    reveal_strlit("rating");
    reveal_strlit("skipHours");
    reveal_strlit("skipDays");
    reveal_strlit("item");
    reveal_strlit("author");
    reveal_strlit("comments");
    reveal_strlit("enclosure");
    reveal_strlit("guid");
    reveal_strlit("source");
    assert forall|k: int| 0 <= k < needle.len() - 1 implies #[trigger] needle[k] != '>' by {
        if k > 0 {
            assert(needle[k] == tag[k - 1]);
        }
    }
    lemma_channel_xml_occurrence_sum(m, needle);
    assert(tags_differ(tag, "channel"@)) by {
        assert(tag[0] != "channel"@[0]);
    }
    lemma_frame_no_foreign_tag(tag, "channel"@);
    assert("<channel>"@ =~= open_tag("channel"@));
    assert("</channel>"@ =~= close_tag("channel"@));
    assert(tags_differ(tag, "title"@)) by {
        assert(tag[0] != "title"@[0]);
    }
    lemma_other_tag_no_element(tag, "title"@, m.title);
    assert(tags_differ(tag, "link"@)) by {
        assert(tag[0] != "link"@[0]);
    }
    lemma_other_tag_no_element(tag, "link"@, m.link);
    assert(tags_differ(tag, "description"@)) by {
        assert(tag[0] != "description"@[0]);
    }
    lemma_other_tag_no_element(tag, "description"@, m.description);
    assert(tags_differ(tag, "language"@)) by {
        assert(tag[0] != "language"@[0]);
    }
    lemma_opt_other_tag_no_element(tag, "language"@, m.language);
    assert(tags_differ(tag, "copyright"@)) by {
        assert(tag[0] != "copyright"@[0]);
    }
    lemma_opt_other_tag_no_element(tag, "copyright"@, m.copyright);
    assert(tags_differ(tag, "managingEditor"@)) by {
        assert(tag[0] != "managingEditor"@[0]);
    }
    lemma_opt_other_tag_no_element(tag, "managingEditor"@, m.managing_editor);
    assert(tags_differ(tag, "webMaster"@)) by {
        assert(tag[0] != "webMaster"@[0]);
    }
    lemma_opt_other_tag_no_element(tag, "webMaster"@, m.web_master);
    assert(tags_differ(tag, "pubDate"@)) by {
        assert(tag[0] != "pubDate"@[0]);
    }
    lemma_opt_other_tag_no_element(tag, "pubDate"@, m.pub_date);
    assert(tags_differ(tag, "lastBuildDate"@)) by {
        assert(tag[0] != "lastBuildDate"@[0]);
    }
    lemma_opt_other_tag_no_element(tag, "lastBuildDate"@, m.last_build_date);
    assert(tags_differ(tag, "category"@)) by {
        assert(tag[0] != "category"@[0]);
    }
    match m.category {
        Some(c) => lemma_category_no_foreign_tag(tag, c),
        None => (),
    }
    assert(tags_differ(tag, "generator"@)) by {
        assert(tag[0] != "generator"@[0]);
    }
    lemma_opt_other_tag_no_element(tag, "generator"@, m.generator);
    assert(tags_differ(tag, "docs"@)) by {
        assert(tag[0] != "docs"@[0]);
    }
    lemma_opt_other_tag_no_element(tag, "docs"@, m.docs);
    assert(tags_differ(tag, "ttl"@)) by {
        assert(tag[0] != "ttl"@[0]);
    }
    match m.ttl {
        Some(n) => lemma_num_elem_no_foreign_tag(tag, "ttl"@, n as nat),
        None => (),
    }
    assert(tags_differ(tag, "rating"@)) by {
        assert(tag[0] != "rating"@[0]);
    }
    lemma_opt_other_tag_no_element(tag, "rating"@, m.rating);
    assert(tags_differ(tag, "skipHours"@)) by {
        assert(tag[0] != "skipHours"@[0]);
    }
    match m.skip_hours {
        Some(n) => lemma_num_elem_no_foreign_tag(tag, "skipHours"@, n as nat),
        None => (),
    }
    assert(tags_differ(tag, "skipDays"@)) by {
        assert(tag[0] != "skipDays"@[0]);
    }
    lemma_opt_other_tag_no_element(tag, "skipDays"@, m.skip_days);
    assert(tags_differ(tag, "item"@)) by {
        assert(tag[1] != "item"@[1]);
    }
    assert(tags_differ(tag, "author"@)) by {
        assert(tag[0] != "author"@[0]);
    }
    assert(tags_differ(tag, "comments"@)) by {
        assert(tag[0] != "comments"@[0]);
    }
    assert(tags_differ(tag, "enclosure"@)) by {
        assert(tag[0] != "enclosure"@[0]);
    }
    assert(tags_differ(tag, "guid"@)) by {
        assert(tag[0] != "guid"@[0]);
    }
    assert(tags_differ(tag, "source"@)) by {
        assert(tag[0] != "source"@[0]);
    }
    lemma_items_xml_no_foreign_tag(tag, m.items);
    match m.image {
        Some(im) => crate::rss::image::lemma_image_own_tag_occurrences(im),
        None => (),
    }
}

/// Law: the document's `<pubDate>` elements are exactly the channel's own,
/// when one was set, and one per item whose publication date was set: the
/// one optional tag that the channel shares with its items still leaves no
/// trace when nothing set it.
pub proof fn lemma_channel_pub_date_occurrences(m: ChannelModel)
    ensures
        occurrences(spec_channel_xml(m), open_tag("pubDate"@)) == (if m.pub_date is Some {
            1nat
        } else {
            0nat
        }) + count_pub_dates(m.items),
{
    let tag = "pubDate"@;
    let needle = open_tag(tag);
    lemma_channel_tags_wf();
    reveal_strlit("<");
    reveal_strlit(">");
    reveal_strlit("</");
    reveal_strlit("<channel>");
    reveal_strlit("</channel>");
    reveal_strlit("channel");
    reveal_strlit("title");
    reveal_strlit("link");
    reveal_strlit("description");
    reveal_strlit("language");
    reveal_strlit("copyright");
    reveal_strlit("managingEditor");
    reveal_strlit("webMaster");
    reveal_strlit("pubDate");
    reveal_strlit("lastBuildDate");
    reveal_strlit("category");
    reveal_strlit("generator");
    reveal_strlit("docs");
    reveal_strlit("ttl");
    reveal_strlit("image");
    reveal_strlit("url");
    reveal_strlit("width");
    reveal_strlit("height");
    reveal_strlit("rating");
    reveal_strlit("skipHours");
    reveal_strlit("skipDays");
    assert forall|k: int| 0 <= k < needle.len() - 1 implies #[trigger] needle[k] != '>' by {
        if k > 0 {
            assert(needle[k] == tag[k - 1]);
        }
    }
    lemma_channel_xml_occurrence_sum(m, needle);
    assert(tags_differ(tag, "channel"@)) by {
        assert(tag[0] != "channel"@[0]);
    }
    lemma_frame_no_foreign_tag(tag, "channel"@);
    assert("<channel>"@ =~= open_tag("channel"@));
    assert("</channel>"@ =~= close_tag("channel"@));
    assert(tags_differ(tag, "title"@)) by {
        assert(tag[0] != "title"@[0]);
    }
    lemma_other_tag_no_element(tag, "title"@, m.title);
    assert(tags_differ(tag, "link"@)) by {
        assert(tag[0] != "link"@[0]);
    }
    lemma_other_tag_no_element(tag, "link"@, m.link);
    assert(tags_differ(tag, "description"@)) by {
        assert(tag[0] != "description"@[0]);
    }
    lemma_other_tag_no_element(tag, "description"@, m.description);
    assert(tags_differ(tag, "language"@)) by {
        assert(tag[0] != "language"@[0]);
    }
    lemma_opt_other_tag_no_element(tag, "language"@, m.language);
    assert(tags_differ(tag, "copyright"@)) by {
        assert(tag[0] != "copyright"@[0]);
    }
    lemma_opt_other_tag_no_element(tag, "copyright"@, m.copyright);
    assert(tags_differ(tag, "managingEditor"@)) by {
        assert(tag[0] != "managingEditor"@[0]);
    }
    lemma_opt_other_tag_no_element(tag, "managingEditor"@, m.managing_editor);
    assert(tags_differ(tag, "webMaster"@)) by {
        assert(tag[0] != "webMaster"@[0]);
    }
    lemma_opt_other_tag_no_element(tag, "webMaster"@, m.web_master);
    assert(tags_differ(tag, "lastBuildDate"@)) by {
        assert(tag[0] != "lastBuildDate"@[0]);
    }
    lemma_opt_other_tag_no_element(tag, "lastBuildDate"@, m.last_build_date);
    assert(tags_differ(tag, "category"@)) by {
        assert(tag[0] != "category"@[0]);
    }
    match m.category {
        Some(c) => lemma_category_no_foreign_tag(tag, c),
        None => (),
    }
    assert(tags_differ(tag, "generator"@)) by {
        assert(tag[0] != "generator"@[0]);
    }
    lemma_opt_other_tag_no_element(tag, "generator"@, m.generator);
    assert(tags_differ(tag, "docs"@)) by {
        assert(tag[0] != "docs"@[0]);
    }
    lemma_opt_other_tag_no_element(tag, "docs"@, m.docs);
    assert(tags_differ(tag, "ttl"@)) by {
        assert(tag[0] != "ttl"@[0]);
    }
    match m.ttl {
        Some(n) => lemma_num_elem_no_foreign_tag(tag, "ttl"@, n as nat),
        None => (),
    }
    assert(tags_differ(tag, "image"@)) by {
        assert(tag[0] != "image"@[0]);
    }
    assert(tags_differ(tag, "url"@)) by {
        assert(tag[0] != "url"@[0]);
    }
    assert(tags_differ(tag, "width"@)) by {
        assert(tag[0] != "width"@[0]);
    }
    assert(tags_differ(tag, "height"@)) by {
        assert(tag[0] != "height"@[0]);
    }
    match m.image {
        Some(im) => lemma_image_no_foreign_tag(tag, im),
        None => (),
    }
    assert(tags_differ(tag, "rating"@)) by {
        assert(tag[0] != "rating"@[0]);
    }
    lemma_opt_other_tag_no_element(tag, "rating"@, m.rating);
    assert(tags_differ(tag, "skipHours"@)) by {
        assert(tag[0] != "skipHours"@[0]);
    }
    match m.skip_hours {
        Some(n) => lemma_num_elem_no_foreign_tag(tag, "skipHours"@, n as nat),
        None => (),
    }
    assert(tags_differ(tag, "skipDays"@)) by {
        assert(tag[0] != "skipDays"@[0]);
    }
    lemma_opt_other_tag_no_element(tag, "skipDays"@, m.skip_days);
    match m.pub_date {
        Some(t) => lemma_present_field_one_element(tag, t),
        None => (),
    }
    lemma_items_xml_pub_date_occurrences(m.items);
}

proof fn lemma_channel_tags_wf()
    ensures
        tag_wf("channel"@),
        tag_wf("title"@),
        tag_wf("link"@),
        tag_wf("description"@),
        tag_wf("language"@),
        tag_wf("copyright"@),
        tag_wf("managingEditor"@),
        tag_wf("webMaster"@),
        tag_wf("pubDate"@),
        tag_wf("lastBuildDate"@),
        tag_wf("category"@),
        tag_wf("generator"@),
        tag_wf("docs"@),
        tag_wf("ttl"@),
        tag_wf("image"@),
        tag_wf("url"@),
        tag_wf("width"@),
        tag_wf("height"@),
        tag_wf("rating"@),
        tag_wf("skipHours"@),
        tag_wf("skipDays"@),
        tag_wf("item"@),
        tag_wf("author"@),
        tag_wf("comments"@),
        tag_wf("enclosure"@),
        tag_wf("guid"@),
        tag_wf("source"@),
{
    reveal_strlit("channel");
    reveal_strlit("title");
    reveal_strlit("link");
    reveal_strlit("description");
    reveal_strlit("language");
    reveal_strlit("copyright");
    reveal_strlit("managingEditor");
    reveal_strlit("webMaster");
    reveal_strlit("pubDate");
    reveal_strlit("lastBuildDate");
    reveal_strlit("category");
    reveal_strlit("generator");
    reveal_strlit("docs");
    reveal_strlit("ttl");
    reveal_strlit("image");
    reveal_strlit("url");
    reveal_strlit("width");
    reveal_strlit("height");
    reveal_strlit("rating");
    reveal_strlit("skipHours");
    reveal_strlit("skipDays");
    reveal_strlit("item");
    reveal_strlit("author");
    reveal_strlit("comments");
    reveal_strlit("enclosure");
    reveal_strlit("guid");
    reveal_strlit("source");
}

/// The parts of the channel that are foreign to a channel-only tag count
/// zero occurrences of it.
proof fn lemma_channel_foreign_parts(m: ChannelModel, tag: Seq<char>)
    requires
        tag_wf(tag),
        tags_differ(tag, "channel"@),
        tags_differ(tag, "title"@),
        tags_differ(tag, "link"@),
        tags_differ(tag, "description"@),
        tags_differ(tag, "category"@),
        tags_differ(tag, "image"@),
        tags_differ(tag, "url"@),
        tags_differ(tag, "width"@),
        tags_differ(tag, "height"@),
        tags_differ(tag, "item"@),
        tags_differ(tag, "author"@),
        tags_differ(tag, "comments"@),
        tags_differ(tag, "enclosure"@),
        tags_differ(tag, "guid"@),
        tags_differ(tag, "pubDate"@),
        tags_differ(tag, "source"@),
    ensures
        occurrences("<channel>"@, open_tag(tag)) == 0,
        occurrences("</channel>"@, open_tag(tag)) == 0,
        occurrences(text_elem("title"@, m.title), open_tag(tag)) == 0,
        occurrences(text_elem("link"@, m.link), open_tag(tag)) == 0,
        occurrences(text_elem("description"@, m.description), open_tag(tag)) == 0,
        occurrences(
            match m.category {
                Some(c) => spec_category_xml(c),
                None => Seq::empty(),
            },
            open_tag(tag),
        ) == 0,
        occurrences(
            match m.image {
                Some(im) => spec_image_xml(im),
                None => Seq::empty(),
            },
            open_tag(tag),
        ) == 0,
        occurrences(spec_items_xml(m.items), open_tag(tag)) == 0,
        occurrences(opt_text_elem("pubDate"@, m.pub_date), open_tag(tag)) == 0,
{
    reveal_strlit("<channel>");
    reveal_strlit("</channel>");
    reveal_strlit("<");
    reveal_strlit(">");
    reveal_strlit("</");
    lemma_channel_tags_wf();
    reveal_strlit("channel");
    reveal_strlit("title");
    reveal_strlit("link");
    reveal_strlit("description");
    reveal_strlit("language");
    reveal_strlit("copyright");
    reveal_strlit("managingEditor");
    reveal_strlit("webMaster");
    reveal_strlit("pubDate");
    reveal_strlit("lastBuildDate");
    reveal_strlit("category");
    reveal_strlit("generator");
    reveal_strlit("docs");
    reveal_strlit("ttl");
    reveal_strlit("image");
    reveal_strlit("url");
    reveal_strlit("width");
    reveal_strlit("height");
    reveal_strlit("rating");
    reveal_strlit("skipHours");
    reveal_strlit("skipDays");
    reveal_strlit("item");
    reveal_strlit("author");
    reveal_strlit("comments");
    reveal_strlit("enclosure");
    reveal_strlit("guid");
    reveal_strlit("source");
    lemma_frame_no_foreign_tag(tag, "channel"@);
    assert("<channel>"@ =~= open_tag("channel"@));
    assert("</channel>"@ =~= close_tag("channel"@));
    lemma_other_tag_no_element(tag, "title"@, m.title);
    lemma_other_tag_no_element(tag, "link"@, m.link);
    lemma_other_tag_no_element(tag, "description"@, m.description);
    match m.category {
        Some(c) => lemma_category_no_foreign_tag(tag, c),
        None => (),
    }
    match m.image {
        Some(im) => lemma_image_no_foreign_tag(tag, im),
        None => (),
    }
    lemma_items_xml_no_foreign_tag(tag, m.items);
    lemma_opt_other_tag_no_element(tag, "pubDate"@, m.pub_date);
}

/// The shared argument of the nine text-field laws.
#[verifier::rlimit(100)]
proof fn lemma_channel_field_occ_common(m: ChannelModel, tag: Seq<char>)
    requires
        tag == "language"@ || tag == "copyright"@ || tag == "managingEditor"@ || tag == "webMaster"@
            || tag == "lastBuildDate"@ || tag == "generator"@ || tag == "docs"@ || tag == "rating"@
            || tag == "skipDays"@,
    ensures
        tag == "language"@ ==> occurrences(spec_channel_xml(m), open_tag(tag)) == (
        if m.language is Some {
            1nat
        } else {
            0nat
        }),
        tag == "copyright"@ ==> occurrences(spec_channel_xml(m), open_tag(tag)) == (
        if m.copyright is Some {
            1nat
        } else {
            0nat
        }),
        tag == "managingEditor"@ ==> occurrences(spec_channel_xml(m), open_tag(tag)) == (
        if m.managing_editor is Some {
            1nat
        } else {
            0nat
        }),
        tag == "webMaster"@ ==> occurrences(spec_channel_xml(m), open_tag(tag)) == (
        if m.web_master is Some {
            1nat
        } else {
            0nat
        }),
        tag == "lastBuildDate"@ ==> occurrences(spec_channel_xml(m), open_tag(tag)) == (
        if m.last_build_date is Some {
            1nat
        } else {
            0nat
        }),
        tag == "generator"@ ==> occurrences(spec_channel_xml(m), open_tag(tag)) == (
        if m.generator is Some {
            1nat
        } else {
            0nat
        }),
        tag == "docs"@ ==> occurrences(spec_channel_xml(m), open_tag(tag)) == (if m.docs is Some {
            1nat
        } else {
            0nat
        }),
        tag == "rating"@ ==> occurrences(spec_channel_xml(m), open_tag(tag)) == (
        if m.rating is Some {
            1nat
        } else {
            0nat
        }),
        tag == "skipDays"@ ==> occurrences(spec_channel_xml(m), open_tag(tag)) == (
        if m.skip_days is Some {
            1nat
        } else {
            0nat
        }),
{
    lemma_channel_tags_wf();
    reveal_strlit("channel");
    reveal_strlit("title");
    reveal_strlit("link");
    reveal_strlit("description");
    reveal_strlit("language");
    reveal_strlit("copyright");
    reveal_strlit("managingEditor");
    reveal_strlit("webMaster");
    reveal_strlit("pubDate");
    reveal_strlit("lastBuildDate");
    reveal_strlit("category");
    reveal_strlit("generator");
    reveal_strlit("docs");
    reveal_strlit("ttl");
    reveal_strlit("image");
    reveal_strlit("url");
    reveal_strlit("width");
    reveal_strlit("height");
    reveal_strlit("rating");
    reveal_strlit("skipHours");
    reveal_strlit("skipDays");
    reveal_strlit("item");
    reveal_strlit("author");
    reveal_strlit("comments");
    reveal_strlit("enclosure");
    reveal_strlit("guid");
    reveal_strlit("source");
    assert(tag_wf(tag));
    let needle = open_tag(tag);
    reveal_strlit("<");
    reveal_strlit(">");
    assert forall|k: int| 0 <= k < needle.len() - 1 implies #[trigger] needle[k] != '>' by {
        if k > 0 {
            assert(needle[k] == tag[k - 1]);
        }
    }
    lemma_channel_xml_occurrence_sum(m, needle);
    // The tag differs from every name that is not its own; `language` and
    // `lastBuildDate` share `l`/`a`, `copyright` shares prefixes with
    // `category` and `comments`, `docs` with `description`, `webMaster`
    // with `width`, `generator` with `guid`, `skipDays` with `source` and
    // `skipHours`.
    assert(tags_differ(tag, "channel"@)) by {
        if tag == "copyright"@ {
            assert(tag[1] != "channel"@[1]);
        } else {
            assert(tag[0] != "channel"@[0]);
        }
    }
    assert(tags_differ(tag, "title"@)) by {
        assert(tag[0] != "title"@[0]);
    }
    assert(tags_differ(tag, "link"@)) by {
        if tag == "language"@ || tag == "lastBuildDate"@ {
            assert(tag[1] != "link"@[1]);
        } else {
            assert(tag[0] != "link"@[0]);
        }
    }
    assert(tags_differ(tag, "description"@)) by {
        if tag == "docs"@ {
            assert(tag[1] != "description"@[1]);
        } else {
            assert(tag[0] != "description"@[0]);
        }
    }
    assert(tags_differ(tag, "category"@)) by {
        if tag == "copyright"@ {
            assert(tag[1] != "category"@[1]);
        } else {
            assert(tag[0] != "category"@[0]);
        }
    }
    assert(tags_differ(tag, "image"@)) by {
        assert(tag[0] != "image"@[0]);
    }
    assert(tags_differ(tag, "url"@)) by {
        assert(tag[0] != "url"@[0]);
    }
    assert(tags_differ(tag, "width"@)) by {
        if tag == "webMaster"@ {
            assert(tag[1] != "width"@[1]);
        } else {
            assert(tag[0] != "width"@[0]);
        }
    }
    assert(tags_differ(tag, "height"@)) by {
        assert(tag[0] != "height"@[0]);
    }
    assert(tags_differ(tag, "item"@)) by {
        assert(tag[0] != "item"@[0]);
    }
    assert(tags_differ(tag, "author"@)) by {
        assert(tag[0] != "author"@[0]);
    }
    assert(tags_differ(tag, "comments"@)) by {
        if tag == "copyright"@ {
            assert(tag[2] != "comments"@[2]);
        } else {
            assert(tag[0] != "comments"@[0]);
        }
    }
    assert(tags_differ(tag, "enclosure"@)) by {
        assert(tag[0] != "enclosure"@[0]);
    }
    assert(tags_differ(tag, "guid"@)) by {
        if tag == "generator"@ {
            assert(tag[1] != "guid"@[1]);
        } else {
            assert(tag[0] != "guid"@[0]);
        }
    }
    assert(tags_differ(tag, "pubDate"@)) by {
        assert(tag[0] != "pubDate"@[0]);
    }
    assert(tags_differ(tag, "source"@)) by {
        if tag == "skipDays"@ {
            assert(tag[1] != "source"@[1]);
        } else {
            assert(tag[0] != "source"@[0]);
        }
    }
    lemma_channel_foreign_parts(m, tag);
    // The numeric parts.
    assert(tags_differ(tag, "ttl"@)) by {
        assert(tag[0] != "ttl"@[0]);
    }
    match m.ttl {
        Some(n) => lemma_num_elem_no_foreign_tag(tag, "ttl"@, n as nat),
        None => (),
    }
    assert(tags_differ(tag, "skipHours"@)) by {
        if tag == "skipDays"@ {
            assert(tag[4] != "skipHours"@[4]);
        } else {
            assert(tag[0] != "skipHours"@[0]);
        }
    }
    match m.skip_hours {
        Some(n) => lemma_num_elem_no_foreign_tag(tag, "skipHours"@, n as nat),
        None => (),
    }
    // The other optional text parts, and the field's own part.
    let texts: Seq<(Seq<char>, Option<Seq<char>>)> = seq![
        ("language"@, m.language),
        ("copyright"@, m.copyright),
        ("managingEditor"@, m.managing_editor),
        ("webMaster"@, m.web_master),
        ("lastBuildDate"@, m.last_build_date),
        ("generator"@, m.generator),
        ("docs"@, m.docs),
        ("rating"@, m.rating),
        ("skipDays"@, m.skip_days),
    ];
    assert forall|x: int| 0 <= x < texts.len() && texts[x].0 != tag implies occurrences(
        opt_text_elem(texts[x].0, texts[x].1),
        needle,
    ) == 0 by {
        assert(tags_differ(tag, texts[x].0)) by {
            if (tag == "language"@ && texts[x].0 == "lastBuildDate"@) || (tag == "lastBuildDate"@
                && texts[x].0 == "language"@) {
                assert(tag[2] != texts[x].0[2]);
            } else {
                assert(tag[0] != texts[x].0[0]);
            }
        }
        lemma_opt_other_tag_no_element(tag, texts[x].0, texts[x].1);
    }
    let own: Option<Seq<char>> = if tag == "language"@ {
        m.language
    } else if tag == "copyright"@ {
        m.copyright
    } else if tag == "managingEditor"@ {
        m.managing_editor
    } else if tag == "webMaster"@ {
        m.web_master
    } else if tag == "lastBuildDate"@ {
        m.last_build_date
    } else if tag == "generator"@ {
        m.generator
    } else if tag == "docs"@ {
        m.docs
    } else if tag == "rating"@ {
        m.rating
    } else {
        m.skip_days
    };
    match own {
        Some(t) => lemma_present_field_one_element(tag, t),
        None => (),
    }
    assert(occurrences(opt_text_elem("language"@, m.language), needle) == (if tag == "language"@
        && m.language is Some {
        1nat
    } else {
        0nat
    }));
    assert(occurrences(opt_text_elem("copyright"@, m.copyright), needle) == (if tag == "copyright"@
        && m.copyright is Some {
        1nat
    } else {
        0nat
    }));
    assert(occurrences(opt_text_elem("managingEditor"@, m.managing_editor), needle) == (if tag
        == "managingEditor"@ && m.managing_editor is Some {
        1nat
    } else {
        0nat
    }));
    assert(occurrences(opt_text_elem("webMaster"@, m.web_master), needle) == (if tag == "webMaster"@
        && m.web_master is Some {
        1nat
    } else {
        0nat
    }));
    assert(occurrences(opt_text_elem("lastBuildDate"@, m.last_build_date), needle) == (if tag
        == "lastBuildDate"@ && m.last_build_date is Some {
        1nat
    } else {
        0nat
    }));
    assert(occurrences(opt_text_elem("generator"@, m.generator), needle) == (if tag == "generator"@
        && m.generator is Some {
        1nat
    } else {
        0nat
    }));
    assert(occurrences(opt_text_elem("docs"@, m.docs), needle) == (if tag == "docs"@
        && m.docs is Some {
        1nat
    } else {
        0nat
    }));
    assert(occurrences(opt_text_elem("rating"@, m.rating), needle) == (if tag == "rating"@
        && m.rating is Some {
        1nat
    } else {
        0nat
    }));
    assert(occurrences(opt_text_elem("skipDays"@, m.skip_days), needle) == (if tag == "skipDays"@
        && m.skip_days is Some {
        1nat
    } else {
        0nat
    }));
}

/// The shared argument of the two numeric-field laws.
proof fn lemma_channel_num_occ_common(m: ChannelModel, tag: Seq<char>)
    requires
        tag == "ttl"@ || tag == "skipHours"@,
    ensures
        tag == "ttl"@ ==> occurrences(spec_channel_xml(m), open_tag(tag)) == (if m.ttl is Some {
            1nat
        } else {
            0nat
        }),
        tag == "skipHours"@ ==> occurrences(spec_channel_xml(m), open_tag(tag)) == (
        if m.skip_hours is Some {
            1nat
        } else {
            0nat
        }),
{
    lemma_channel_tags_wf();
    reveal_strlit("channel");
    reveal_strlit("title");
    reveal_strlit("link");
    reveal_strlit("description");
    reveal_strlit("language");
    reveal_strlit("copyright");
    reveal_strlit("managingEditor");
    reveal_strlit("webMaster");
    reveal_strlit("pubDate");
    reveal_strlit("lastBuildDate");
    reveal_strlit("category");
    reveal_strlit("generator");
    reveal_strlit("docs");
    reveal_strlit("ttl");
    reveal_strlit("image");
    reveal_strlit("url");
    reveal_strlit("width");
    reveal_strlit("height");
    reveal_strlit("rating");
    reveal_strlit("skipHours");
    reveal_strlit("skipDays");
    reveal_strlit("item");
    reveal_strlit("author");
    reveal_strlit("comments");
    reveal_strlit("enclosure");
    reveal_strlit("guid");
    reveal_strlit("source");
    assert(tag_wf(tag));
    let needle = open_tag(tag);
    reveal_strlit("<");
    reveal_strlit(">");
    assert forall|k: int| 0 <= k < needle.len() - 1 implies #[trigger] needle[k] != '>' by {
        if k > 0 {
            assert(needle[k] == tag[k - 1]);
        }
    }
    lemma_channel_xml_occurrence_sum(m, needle);
    assert(tags_differ(tag, "channel"@)) by {
        assert(tag[0] != "channel"@[0]);
    }
    assert(tags_differ(tag, "title"@)) by {
        if tag == "ttl"@ {
            assert(tag[1] != "title"@[1]);
        } else {
            assert(tag[0] != "title"@[0]);
        }
    }
    assert(tags_differ(tag, "link"@)) by {
        assert(tag[0] != "link"@[0]);
    }
    assert(tags_differ(tag, "description"@)) by {
        assert(tag[0] != "description"@[0]);
    }
    assert(tags_differ(tag, "category"@)) by {
        assert(tag[0] != "category"@[0]);
    }
    assert(tags_differ(tag, "image"@)) by {
        assert(tag[0] != "image"@[0]);
    }
    assert(tags_differ(tag, "url"@)) by {
        assert(tag[0] != "url"@[0]);
    }
    assert(tags_differ(tag, "width"@)) by {
        assert(tag[0] != "width"@[0]);
    }
    assert(tags_differ(tag, "height"@)) by {
        assert(tag[0] != "height"@[0]);
    }
    assert(tags_differ(tag, "item"@)) by {
        assert(tag[0] != "item"@[0]);
    }
    assert(tags_differ(tag, "author"@)) by {
        assert(tag[0] != "author"@[0]);
    }
    assert(tags_differ(tag, "comments"@)) by {
        assert(tag[0] != "comments"@[0]);
    }
    assert(tags_differ(tag, "enclosure"@)) by {
        assert(tag[0] != "enclosure"@[0]);
    }
    assert(tags_differ(tag, "guid"@)) by {
        assert(tag[0] != "guid"@[0]);
    }
    assert(tags_differ(tag, "pubDate"@)) by {
        assert(tag[0] != "pubDate"@[0]);
    }
    assert(tags_differ(tag, "source"@)) by {
        if tag == "skipHours"@ {
            assert(tag[1] != "source"@[1]);
        } else {
            assert(tag[0] != "source"@[0]);
        }
    }
    lemma_channel_foreign_parts(m, tag);
    assert(tags_differ(tag, "language"@)) by {
        assert(tag[0] != "language"@[0]);
    }
    lemma_opt_other_tag_no_element(tag, "language"@, m.language);
    assert(tags_differ(tag, "copyright"@)) by {
        assert(tag[0] != "copyright"@[0]);
    }
    lemma_opt_other_tag_no_element(tag, "copyright"@, m.copyright);
    assert(tags_differ(tag, "managingEditor"@)) by {
        assert(tag[0] != "managingEditor"@[0]);
    }
    lemma_opt_other_tag_no_element(tag, "managingEditor"@, m.managing_editor);
    assert(tags_differ(tag, "webMaster"@)) by {
        assert(tag[0] != "webMaster"@[0]);
    }
    lemma_opt_other_tag_no_element(tag, "webMaster"@, m.web_master);
    assert(tags_differ(tag, "lastBuildDate"@)) by {
        assert(tag[0] != "lastBuildDate"@[0]);
    }
    lemma_opt_other_tag_no_element(tag, "lastBuildDate"@, m.last_build_date);
    assert(tags_differ(tag, "generator"@)) by {
        assert(tag[0] != "generator"@[0]);
    }
    lemma_opt_other_tag_no_element(tag, "generator"@, m.generator);
    assert(tags_differ(tag, "docs"@)) by {
        assert(tag[0] != "docs"@[0]);
    }
    lemma_opt_other_tag_no_element(tag, "docs"@, m.docs);
    assert(tags_differ(tag, "rating"@)) by {
        assert(tag[0] != "rating"@[0]);
    }
    lemma_opt_other_tag_no_element(tag, "rating"@, m.rating);
    assert(tags_differ(tag, "skipDays"@)) by {
        if tag == "skipHours"@ {
            assert(tag[4] != "skipDays"@[4]);
        } else {
            assert(tag[0] != "skipDays"@[0]);
        }
    }
    lemma_opt_other_tag_no_element(tag, "skipDays"@, m.skip_days);
    if tag == "ttl"@ {
        match m.ttl {
            Some(n) => lemma_num_elem_own_tag("ttl"@, n as nat),
            None => (),
        }
        assert(tags_differ(tag, "skipHours"@)) by {
            assert(tag[0] != "skipHours"@[0]);
        }
        match m.skip_hours {
            Some(n) => lemma_num_elem_no_foreign_tag(tag, "skipHours"@, n as nat),
            None => (),
        }
    } else {
        match m.skip_hours {
            Some(n) => lemma_num_elem_own_tag("skipHours"@, n as nat),
            None => (),
        }
        assert(tags_differ(tag, "ttl"@)) by {
            assert(tag[0] != "ttl"@[0]);
        }
        match m.ttl {
            Some(n) => lemma_num_elem_no_foreign_tag(tag, "ttl"@, n as nat),
            None => (),
        }
    }
}

/// Builds a [`Channel`]; title, link and description are required.
#[derive(Clone, Debug)]
pub struct ChannelBuilder {
    title: Option<String>,
    link: Option<String>,
    description: Option<String>,
    language: Option<String>,
    copyright: Option<String>,
    managing_editor: Option<String>,
    web_master: Option<String>,
    pub_date: Option<String>,
    last_build_date: Option<String>,
    category: Option<Category>,
    generator: Option<String>,
    docs: Option<String>,
    ttl: Option<u64>,
    image: Option<Image>,
    rating: Option<String>,
    skip_hours: Option<u8>,
    skip_days: Option<String>,
    item: Vec<Item>,
}

/// The model of a [`ChannelBuilder`]: which fields have been set, and to
/// what; items set so far, in order.
pub ghost struct ChannelBuilderModel {
    pub title: Option<Seq<char>>,
    pub link: Option<Seq<char>>,
    pub description: Option<Seq<char>>,
    pub language: Option<Seq<char>>,
    pub copyright: Option<Seq<char>>,
    pub managing_editor: Option<Seq<char>>,
    pub web_master: Option<Seq<char>>,
    pub pub_date: Option<Seq<char>>,
    pub last_build_date: Option<Seq<char>>,
    pub category: Option<CategoryModel>,
    pub generator: Option<Seq<char>>,
    pub docs: Option<Seq<char>>,
    pub ttl: Option<u64>,
    pub image: Option<ImageModel>,
    pub rating: Option<Seq<char>>,
    pub skip_hours: Option<u8>,
    pub skip_days: Option<Seq<char>>,
    pub items: Seq<ItemModel>,
}

/// The channel-builder model with no field set and no items.
pub open spec fn empty_channel_builder_model() -> ChannelBuilderModel {
    ChannelBuilderModel {
        title: None,
        link: None,
        description: None,
        language: None,
        copyright: None,
        managing_editor: None,
        web_master: None,
        pub_date: None,
        last_build_date: None,
        category: None,
        generator: None,
        docs: None,
        ttl: None,
        image: None,
        rating: None,
        skip_hours: None,
        skip_days: None,
        items: Seq::empty(),
    }
}

impl View for ChannelBuilder {
    type V = ChannelBuilderModel;

    closed spec fn view(&self) -> ChannelBuilderModel {
        ChannelBuilderModel {
            title: view_opt(self.title),
            link: view_opt(self.link),
            description: view_opt(self.description),
            language: view_opt(self.language),
            copyright: view_opt(self.copyright),
            managing_editor: view_opt(self.managing_editor),
            web_master: view_opt(self.web_master),
            pub_date: view_opt(self.pub_date),
            last_build_date: view_opt(self.last_build_date),
            category: view_opt_category(self.category),
            generator: view_opt(self.generator),
            docs: view_opt(self.docs),
            ttl: self.ttl,
            image: view_opt_image(self.image),
            rating: view_opt(self.rating),
            skip_hours: self.skip_hours,
            skip_days: view_opt(self.skip_days),
            items: items_view(self.item@),
        }
    }
}

impl Default for ChannelBuilder {
    /// A builder with no field set and no items.
    fn default() -> (r: ChannelBuilder)
        ensures
            r@ == empty_channel_builder_model(),
    {
        let r = ChannelBuilder {
            title: None,
            link: None,
            description: None,
            language: None,
            copyright: None,
            managing_editor: None,
            web_master: None,
            pub_date: None,
            last_build_date: None,
            category: None,
            generator: None,
            docs: None,
            ttl: None,
            image: None,
            rating: None,
            skip_hours: None,
            skip_days: None,
            item: Vec::new(),
        };
        proof {
            assert(items_view(r.item@) =~= Seq::<ItemModel>::empty());
        }
        r
    }
}

impl ChannelBuilder {
    /// A builder with the three required fields already set.
    pub fn new(title: &str, link: &str, description: &str) -> (r: ChannelBuilder)
        ensures
            r@ == (ChannelBuilderModel {
                title: Some(title@),
                link: Some(link@),
                description: Some(description@),
                ..empty_channel_builder_model()
            }),
    {
        ChannelBuilder::default().title(title).link(link).description(description)
    }

    /// Sets the channel title.
    pub fn title(self, title: &str) -> (r: ChannelBuilder)
        ensures
            r@ == (ChannelBuilderModel { title: Some(title@), ..self@ }),
    {
        ChannelBuilder { title: Some(String::from_str(title)), ..self }
    }

    /// Sets the channel link.
    pub fn link(self, link: &str) -> (r: ChannelBuilder)
        ensures
            r@ == (ChannelBuilderModel { link: Some(link@), ..self@ }),
    {
        ChannelBuilder { link: Some(String::from_str(link)), ..self }
    }

    /// Sets the channel description.
    pub fn description(self, description: &str) -> (r: ChannelBuilder)
        ensures
            r@ == (ChannelBuilderModel { description: Some(description@), ..self@ }),
    {
        ChannelBuilder { description: Some(String::from_str(description)), ..self }
    }

    /// Sets the channel language.
    pub fn language(self, language: &str) -> (r: ChannelBuilder)
        ensures
            r@ == (ChannelBuilderModel { language: Some(language@), ..self@ }),
    {
        ChannelBuilder { language: Some(String::from_str(language)), ..self }
    }

    /// Sets the copyright notice.
    pub fn copyright(self, copyright: &str) -> (r: ChannelBuilder)
        ensures
            r@ == (ChannelBuilderModel { copyright: Some(copyright@), ..self@ }),
    {
        ChannelBuilder { copyright: Some(String::from_str(copyright)), ..self }
    }

    /// Sets the managing editor.
    pub fn managing_editor(self, managing_editor: &str) -> (r: ChannelBuilder)
        ensures
            r@ == (ChannelBuilderModel { managing_editor: Some(managing_editor@), ..self@ }),
    {
        ChannelBuilder { managing_editor: Some(String::from_str(managing_editor)), ..self }
    }

    /// Sets the web master.
    pub fn web_master(self, web_master: &str) -> (r: ChannelBuilder)
        ensures
            r@ == (ChannelBuilderModel { web_master: Some(web_master@), ..self@ }),
    {
        ChannelBuilder { web_master: Some(String::from_str(web_master)), ..self }
    }

    /// Sets the publication date.
    pub fn pub_date(self, pub_date: &str) -> (r: ChannelBuilder)
        ensures
            r@ == (ChannelBuilderModel { pub_date: Some(pub_date@), ..self@ }),
    {
        ChannelBuilder { pub_date: Some(String::from_str(pub_date)), ..self }
    }

    /// Sets the last build date.
    pub fn last_build_date(self, last_build_date: &str) -> (r: ChannelBuilder)
        ensures
            r@ == (ChannelBuilderModel { last_build_date: Some(last_build_date@), ..self@ }),
    {
        ChannelBuilder { last_build_date: Some(String::from_str(last_build_date)), ..self }
    }

    /// Sets the channel category.
    pub fn category(self, category: Category) -> (r: ChannelBuilder)
        ensures
            r@ == (ChannelBuilderModel { category: Some(category@), ..self@ }),
    {
        ChannelBuilder { category: Some(category), ..self }
    }

    /// Sets the generator name.
    pub fn generator(self, generator: &str) -> (r: ChannelBuilder)
        ensures
            r@ == (ChannelBuilderModel { generator: Some(generator@), ..self@ }),
    {
        ChannelBuilder { generator: Some(String::from_str(generator)), ..self }
    }

    /// Sets the docs link.
    pub fn docs(self, docs: &str) -> (r: ChannelBuilder)
        ensures
            r@ == (ChannelBuilderModel { docs: Some(docs@), ..self@ }),
    {
        ChannelBuilder { docs: Some(String::from_str(docs)), ..self }
    }

    /// Sets the time to live, in minutes.
    pub fn ttl(self, ttl: u64) -> (r: ChannelBuilder)
        ensures
            r@ == (ChannelBuilderModel { ttl: Some(ttl), ..self@ }),
    {
        ChannelBuilder { ttl: Some(ttl), ..self }
    }

    /// Sets the channel image.
    pub fn image(self, image: Image) -> (r: ChannelBuilder)
        ensures
            r@ == (ChannelBuilderModel { image: Some(image@), ..self@ }),
    {
        ChannelBuilder { image: Some(image), ..self }
    }

    /// Sets the rating.
    pub fn rating(self, rating: &str) -> (r: ChannelBuilder)
        ensures
            r@ == (ChannelBuilderModel { rating: Some(rating@), ..self@ }),
    {
        ChannelBuilder { rating: Some(String::from_str(rating)), ..self }
    }

    /// Sets the hours readers may skip.
    pub fn skip_hours(self, skip_hours: u8) -> (r: ChannelBuilder)
        ensures
            r@ == (ChannelBuilderModel { skip_hours: Some(skip_hours), ..self@ }),
    {
        ChannelBuilder { skip_hours: Some(skip_hours), ..self }
    }

    /// Sets the days readers may skip.
    pub fn skip_days(self, skip_days: &str) -> (r: ChannelBuilder)
        ensures
            r@ == (ChannelBuilderModel { skip_days: Some(skip_days@), ..self@ }),
    {
        ChannelBuilder { skip_days: Some(String::from_str(skip_days)), ..self }
    }

    /// Sets the channel's items, in the order they are to appear.
    pub fn item(self, item: Vec<Item>) -> (r: ChannelBuilder)
        ensures
            r@ == (ChannelBuilderModel { items: items_view(item@), ..self@ }),
    {
        ChannelBuilder { item, ..self }
    }

    /// Produces the channel, or the name of the first required field, in
    /// declared order, that was never set.
    pub fn build(self) -> (r: Result<Channel, RssError>)
        ensures
            r is Ok <==> self@.title is Some && self@.link is Some && self@.description is Some,
            r matches Ok(c) ==> c@ == (ChannelModel {
                title: self@.title->Some_0,
                link: self@.link->Some_0,
                description: self@.description->Some_0,
                language: self@.language,
                copyright: self@.copyright,
                managing_editor: self@.managing_editor,
                web_master: self@.web_master,
                pub_date: self@.pub_date,
                last_build_date: self@.last_build_date,
                category: self@.category,
                generator: self@.generator,
                docs: self@.docs,
                ttl: self@.ttl,
                image: self@.image,
                rating: self@.rating,
                skip_hours: self@.skip_hours,
                skip_days: self@.skip_days,
                items: self@.items,
            }),
            r matches Err(e) ==> e@ == RssErrorModel::MissingRequiredField(
                if self@.title is None {
                    "title"@
                } else if self@.link is None {
                    "link"@
                } else {
                    "description"@
                },
            ),
    {
        let title = match self.title {
            Some(title) => title,
            None => {
                return Err(RssError::MissingRequiredField(String::from_str("title")));
            },
        };
        let link = match self.link {
            Some(link) => link,
            None => {
                return Err(RssError::MissingRequiredField(String::from_str("link")));
            },
        };
        let description = match self.description {
            Some(description) => description,
            None => {
                return Err(RssError::MissingRequiredField(String::from_str("description")));
            },
        };
        Ok(Channel {
            title,
            link,
            description,
            language: self.language,
            copyright: self.copyright,
            managing_editor: self.managing_editor,
            web_master: self.web_master,
            pub_date: self.pub_date,
            last_build_date: self.last_build_date,
            category: self.category,
            generator: self.generator,
            docs: self.docs,
            ttl: self.ttl,
            image: self.image,
            rating: self.rating,
            skip_hours: self.skip_hours,
            skip_days: self.skip_days,
            item: self.item,
        })
    }
}

} // verus!
