//! The `<item>` element: one feed entry. Every field is optional at the type
//! level; present fields serialize in a fixed order.

use crate::rss::category::{spec_category_xml, Category, CategoryModel};
use crate::rss::enclosure::{spec_enclosure_xml, Enclosure, EnclosureModel};
use crate::rss::item_guid::{spec_item_guid_xml, ItemGuid, ItemGuidModel};
use crate::rss::item_source::{spec_item_source_xml, ItemSource, ItemSourceModel};
use crate::rss::category::lemma_category_no_foreign_tag;
use crate::rss::enclosure::lemma_enclosure_no_foreign_tag;
use crate::rss::item_guid::lemma_guid_no_foreign_tag;
use crate::rss::item_source::lemma_source_no_foreign_tag;
use crate::rss::RssError;
use crate::xmltext::{close_tag, gt_terminated, interior_no_gt, lemma_frame_no_foreign_tag,
    lemma_gt_terminated_concat, lemma_occurrences_concat, lemma_opt_other_tag_no_element,
    lemma_opt_text_elem_gt, lemma_present_field_one_element, match_at, occurrences, open_tag,
    opt_text_elem, tag_wf, tags_differ, view_opt, write_opt_text_elem};
use vstd::prelude::*;
use vstd::string::StringExecFns;

verus! {

/// One feed entry.
#[derive(Clone, Debug, PartialEq, Eq)]
pub struct Item {
    title: Option<String>,
    link: Option<String>,
    description: Option<String>,
    author: Option<String>,
    category: Option<Category>,
    comments: Option<String>,
    enclosure: Option<Enclosure>,
    guid: Option<ItemGuid>,
    pub_date: Option<String>,
    source: Option<ItemSource>,
}

/// The model of an [`Item`]; it doubles as the model of an [`ItemBuilder`],
/// since every field of an item is optional.
pub ghost struct ItemModel {
    pub title: Option<Seq<char>>,
    pub link: Option<Seq<char>>,
    pub description: Option<Seq<char>>,
    pub author: Option<Seq<char>>,
    pub category: Option<CategoryModel>,
    pub comments: Option<Seq<char>>,
    pub enclosure: Option<EnclosureModel>,
    pub guid: Option<ItemGuidModel>,
    pub pub_date: Option<Seq<char>>,
    pub source: Option<ItemSourceModel>,
}

/// The view of an optional category.
pub open spec fn view_opt_category(o: Option<Category>) -> Option<CategoryModel> {
    match o {
        Some(c) => Some(c@),
        None => None,
    }
}

/// The view of an optional enclosure.
pub open spec fn view_opt_enclosure(o: Option<Enclosure>) -> Option<EnclosureModel> {
    match o {
        Some(e) => Some(e@),
        None => None,
    }
}

/// The view of an optional guid.
pub open spec fn view_opt_guid(o: Option<ItemGuid>) -> Option<ItemGuidModel> {
    match o {
        Some(g) => Some(g@),
        None => None,
    }
}

/// The view of an optional source.
pub open spec fn view_opt_source(o: Option<ItemSource>) -> Option<ItemSourceModel> {
    match o {
        Some(s) => Some(s@),
        None => None,
    }
}

impl View for Item {
    type V = ItemModel;

    closed spec fn view(&self) -> ItemModel {
        ItemModel {
            title: view_opt(self.title),
            link: view_opt(self.link),
            description: view_opt(self.description),
            author: view_opt(self.author),
            category: view_opt_category(self.category),
            comments: view_opt(self.comments),
            enclosure: view_opt_enclosure(self.enclosure),
            guid: view_opt_guid(self.guid),
            pub_date: view_opt(self.pub_date),
            source: view_opt_source(self.source),
        }
    }
}

/// The XML form: the present fields in the order title, link, description,
/// author, category, comments, enclosure, guid, pubDate, source; absent
/// fields leave no element.
pub open spec fn spec_item_xml(m: ItemModel) -> Seq<char> {
    "<item>"@ + opt_text_elem("title"@, m.title) + opt_text_elem("link"@, m.link) + opt_text_elem(
        "description"@,
        m.description,
    ) + opt_text_elem("author"@, m.author) + match m.category {
        Some(c) => spec_category_xml(c),
        None => Seq::empty(),
    } + opt_text_elem("comments"@, m.comments) + match m.enclosure {
        Some(e) => spec_enclosure_xml(e),
        None => Seq::empty(),
    } + match m.guid {
        Some(g) => spec_item_guid_xml(g),
        None => Seq::empty(),
    } + opt_text_elem("pubDate"@, m.pub_date) + match m.source {
        Some(s) => spec_item_source_xml(s),
        None => Seq::empty(),
    } + "</item>"@
}

/// The models of a sequence of items, in order.
pub open spec fn items_view(v: Seq<Item>) -> Seq<ItemModel> {
    Seq::new(v.len(), |i: int| v[i]@)
}

/// The XML of a sequence of items, concatenated in order.
pub open spec fn spec_items_xml(items: Seq<ItemModel>) -> Seq<char>
    decreases items.len(),
{
    if items.len() == 0 {
        Seq::empty()
    } else {
        spec_items_xml(items.drop_last()) + spec_item_xml(items.last())
    }
}

impl Item {
    /// Serializes the item to its XML form.
    pub fn to_xml(&self) -> (r: String)
        ensures
            r@ == spec_item_xml(self@),
    {
        let mut out = String::new();
        out.append("<item>");
        write_opt_text_elem(&mut out, "title", &self.title);
        write_opt_text_elem(&mut out, "link", &self.link);
        write_opt_text_elem(&mut out, "description", &self.description);
        write_opt_text_elem(&mut out, "author", &self.author);
        match &self.category {
            Some(c) => {
                let x = c.to_xml();
                out.append(x.as_str());
            },
            None => (),
        }
        write_opt_text_elem(&mut out, "comments", &self.comments);
        match &self.enclosure {
            Some(e) => {
                let x = e.to_xml();
                out.append(x.as_str());
            },
            None => (),
        }
        match &self.guid {
            Some(g) => {
                let x = g.to_xml();
                out.append(x.as_str());
            },
            None => (),
        }
        write_opt_text_elem(&mut out, "pubDate", &self.pub_date);
        match &self.source {
            Some(s) => {
                let x = s.to_xml();
                out.append(x.as_str());
            },
            None => (),
        }
        out.append("</item>");
        proof {
            assert(out@ =~= spec_item_xml(self@));
        }
        out
    }
}

/// Appends the XML of every item to `out`, in order.
pub fn write_items(out: &mut String, items: &Vec<Item>)
    ensures
        final(out)@ == old(out)@ + spec_items_xml(items_view(items@)),
{
    let mut i: usize = 0;
    proof {
        assert(out@ =~= old(out)@ + spec_items_xml(items_view(items@).take(0)));
    }
    while i < items.len()
        invariant
            i <= items@.len(),
            out@ == old(out)@ + spec_items_xml(items_view(items@).take(i as int)),
        decreases items@.len() - i,
    {
        let x = items[i].to_xml();
        out.append(x.as_str());
        proof {
            assert(items_view(items@).take(i + 1).drop_last() =~= items_view(items@).take(i as int));
            assert(items_view(items@).take(i + 1).last() == items@[i as int]@);
            assert(out@ =~= old(out)@ + spec_items_xml(items_view(items@).take(i + 1)));
        }
        i = i + 1;
    }
    proof {
        assert(items_view(items@).take(items@.len() as int) =~= items_view(items@));
    }
}

/// Occurrence counting over a whole serialized item splits into its twelve
/// parts: every part ends in `>`, and a tag needle holds `>` only at its
/// end, so no occurrence can straddle a boundary.
proof fn lemma_item_xml_occurrence_sum(m: ItemModel, needle: Seq<char>)
    requires
        needle.len() > 0,
        interior_no_gt(needle),
    ensures
        occurrences(spec_item_xml(m), needle) == occurrences("<item>"@, needle) + occurrences(
            opt_text_elem("title"@, m.title),
            needle,
        ) + occurrences(opt_text_elem("link"@, m.link), needle) + occurrences(
            opt_text_elem("description"@, m.description),
            needle,
        ) + occurrences(opt_text_elem("author"@, m.author), needle) + occurrences(
            match m.category {
                Some(c) => spec_category_xml(c),
                None => Seq::empty(),
            },
            needle,
        ) + occurrences(opt_text_elem("comments"@, m.comments), needle) + occurrences(
            match m.enclosure {
                Some(e) => spec_enclosure_xml(e),
                None => Seq::empty(),
            },
            needle,
        ) + occurrences(
            match m.guid {
                Some(g) => spec_item_guid_xml(g),
                None => Seq::empty(),
            },
            needle,
        ) + occurrences(opt_text_elem("pubDate"@, m.pub_date), needle) + occurrences(
            match m.source {
                Some(s) => spec_item_source_xml(s),
                None => Seq::empty(),
            },
            needle,
        ) + occurrences("</item>"@, needle),
{
    reveal_strlit("<item>");
    reveal_strlit("</item>");
    reveal_strlit(">");
    reveal_strlit("</category>");
    reveal_strlit("/>");
    reveal_strlit("</guid>");
    reveal_strlit("</source>");
    reveal_strlit("\"/>");
    let f1 = opt_text_elem("title"@, m.title);
    let f2 = opt_text_elem("link"@, m.link);
    let f3 = opt_text_elem("description"@, m.description);
    let f4 = opt_text_elem("author"@, m.author);
    let f5 = match m.category {
        Some(c) => spec_category_xml(c),
        None => Seq::empty(),
    };
    let f6 = opt_text_elem("comments"@, m.comments);
    let f7 = match m.enclosure {
        Some(e) => spec_enclosure_xml(e),
        None => Seq::empty(),
    };
    let f8 = match m.guid {
        Some(g) => spec_item_guid_xml(g),
        None => Seq::empty(),
    };
    let f9 = opt_text_elem("pubDate"@, m.pub_date);
    let f10 = match m.source {
        Some(s) => spec_item_source_xml(s),
        None => Seq::empty(),
    };
    lemma_opt_text_elem_gt("title"@, m.title);
    lemma_opt_text_elem_gt("link"@, m.link);
    lemma_opt_text_elem_gt("description"@, m.description);
    lemma_opt_text_elem_gt("author"@, m.author);
    lemma_opt_text_elem_gt("comments"@, m.comments);
    lemma_opt_text_elem_gt("pubDate"@, m.pub_date);
    match m.category {
        Some(c) => {
            assert(spec_category_xml(c).last() == "</category>"@.last());
        },
        None => (),
    }
    assert(gt_terminated(f5));
    match m.enclosure {
        Some(e) => {
            assert(spec_enclosure_xml(e).last() == "/>"@.last());
        },
        None => (),
    }
    assert(gt_terminated(f7));
    match m.guid {
        Some(g) => {
            assert(spec_item_guid_xml(g).last() == "</guid>"@.last());
        },
        None => (),
    }
    assert(gt_terminated(f8));
    match m.source {
        Some(s) => {
            match s.text {
                Some(_) => {
                    assert(spec_item_source_xml(s).last() == "</source>"@.last());
                },
                None => {
                    assert(spec_item_source_xml(s).last() == "/>"@.last());
                },
            }
        },
        None => (),
    }
    assert(gt_terminated(f10));
    let p0 = "<item>"@;
    assert(gt_terminated(p0));
    lemma_occurrences_concat(p0, f1, needle);
    lemma_gt_terminated_concat(p0, f1);
    let p1 = p0 + f1;
    lemma_occurrences_concat(p1, f2, needle);
    lemma_gt_terminated_concat(p1, f2);
    let p2 = p1 + f2;
    lemma_occurrences_concat(p2, f3, needle);
    lemma_gt_terminated_concat(p2, f3);
    let p3 = p2 + f3;
    lemma_occurrences_concat(p3, f4, needle);
    lemma_gt_terminated_concat(p3, f4);
    let p4 = p3 + f4;
    lemma_occurrences_concat(p4, f5, needle);
    lemma_gt_terminated_concat(p4, f5);
    let p5 = p4 + f5;
    lemma_occurrences_concat(p5, f6, needle);
    lemma_gt_terminated_concat(p5, f6);
    let p6 = p5 + f6;
    lemma_occurrences_concat(p6, f7, needle);
    lemma_gt_terminated_concat(p6, f7);
    let p7 = p6 + f7;
    lemma_occurrences_concat(p7, f8, needle);
    lemma_gt_terminated_concat(p7, f8);
    let p8 = p7 + f8;
    lemma_occurrences_concat(p8, f9, needle);
    lemma_gt_terminated_concat(p8, f9);
    let p9 = p8 + f9;
    lemma_occurrences_concat(p9, f10, needle);
    lemma_gt_terminated_concat(p9, f10);
    let p10 = p9 + f10;
    lemma_occurrences_concat(p10, "</item>"@, needle);
    assert(spec_item_xml(m) == p10 + "</item>"@);
}

/// The item's frame contributes no occurrence of an opening tag: `<item>` is
/// too short and `</item>` starts with a slash.
proof fn lemma_item_frame_no_tag(tag: Seq<char>)
    requires
        tag_wf(tag),
        tag.len() >= 4,
        tags_differ(tag, "item"@),
    ensures
        occurrences("<item>"@, open_tag(tag)) == 0,
        occurrences("</item>"@, open_tag(tag)) == 0,
{
    reveal_strlit("<item>");
    reveal_strlit("</item>");
    reveal_strlit("item");
    reveal_strlit("<");
    reveal_strlit(">");
    let needle = open_tag(tag);
    assert(needle.len() >= 6);
    assert(needle[0] == '<');
    let j = choose|j: int| 0 <= j < tag.len() && j < "item"@.len() && tag[j] != "item"@[j];
    assert(needle[j + 1] == tag[j]);
    let open = "<item>"@;
    assert forall|i: int| !match_at(open, needle, i) by {
        if 0 <= i && i + needle.len() <= open.len() {
            if open.subrange(i, i + needle.len() as int) == needle {
                assert(open[i] == needle[0]);
                if i == 0 {
                    assert(open[j + 1] == needle[j + 1]);
                    assert(open[j + 1] == "item"@[j]);
                    assert(false);
                } else {
                    assert(open[i] != '<');
                    assert(false);
                }
            }
        }
    }
    crate::xmltext::lemma_occurrences_none(open, needle);
    let close = "</item>"@;
    assert forall|i: int| !match_at(close, needle, i) by {
        if 0 <= i && i + needle.len() <= close.len() {
            if close.subrange(i, i + needle.len() as int) == needle {
                assert(close[i] == needle[0]);
                if i == 0 {
                    assert(close[1] == needle[1]);
                    assert(needle[1] == tag[0]);
                    assert(close[1] == '/');
                    assert(false);
                } else {
                    assert(close[i] != '<');
                    assert(false);
                }
            }
        }
    }
    crate::xmltext::lemma_occurrences_none(close, needle);
}

/// A serialized item ends in `>`.
pub proof fn lemma_item_xml_gt(m: ItemModel)
    ensures
        gt_terminated(spec_item_xml(m)),
        spec_item_xml(m).len() > 0,
{
    reveal_strlit("</item>");
    assert(spec_item_xml(m).last() == "</item>"@.last());
}

/// A serialized item carries no opening tag of a name that differs from its
/// own frame and from each of its ten field names.
pub proof fn lemma_item_no_foreign_tag(tag: Seq<char>, m: ItemModel)
    requires
        tag_wf(tag),
        tags_differ(tag, "item"@),
        tags_differ(tag, "title"@),
        tags_differ(tag, "link"@),
        tags_differ(tag, "description"@),
        tags_differ(tag, "author"@),
        tags_differ(tag, "category"@),
        tags_differ(tag, "comments"@),
        tags_differ(tag, "enclosure"@),
        tags_differ(tag, "guid"@),
        tags_differ(tag, "pubDate"@),
        tags_differ(tag, "source"@),
    ensures
        occurrences(spec_item_xml(m), open_tag(tag)) == 0,
{
    let needle = open_tag(tag);
    reveal_strlit("<");
    reveal_strlit(">");
    reveal_strlit("</");
    reveal_strlit("item");
    reveal_strlit("<item>");
    reveal_strlit("</item>");
    reveal_strlit("title");
    reveal_strlit("link");
    reveal_strlit("description");
    reveal_strlit("author");
    reveal_strlit("comments");
    reveal_strlit("pubDate");
    assert(tag_wf("item"@));
    assert(tag_wf("title"@));
    assert(tag_wf("link"@));
    assert(tag_wf("description"@));
    assert(tag_wf("author"@));
    assert(tag_wf("comments"@));
    assert(tag_wf("pubDate"@));
    assert forall|k: int| 0 <= k < needle.len() - 1 implies #[trigger] needle[k] != '>' by {
        if k > 0 {
            assert(needle[k] == tag[k - 1]);
        }
    }
    lemma_item_xml_occurrence_sum(m, needle);
    lemma_frame_no_foreign_tag(tag, "item"@);
    assert("<item>"@ =~= open_tag("item"@));
    assert("</item>"@ =~= close_tag("item"@));
    lemma_opt_other_tag_no_element(tag, "title"@, m.title);
    lemma_opt_other_tag_no_element(tag, "link"@, m.link);
    lemma_opt_other_tag_no_element(tag, "description"@, m.description);
    lemma_opt_other_tag_no_element(tag, "author"@, m.author);
    lemma_opt_other_tag_no_element(tag, "comments"@, m.comments);
    lemma_opt_other_tag_no_element(tag, "pubDate"@, m.pub_date);
    match m.category {
        Some(c) => lemma_category_no_foreign_tag(tag, c),
        None => (),
    }
    match m.enclosure {
        Some(e) => lemma_enclosure_no_foreign_tag(tag, e),
        None => (),
    }
    match m.guid {
        Some(g) => lemma_guid_no_foreign_tag(tag, g),
        None => (),
    }
    match m.source {
        Some(s) => lemma_source_no_foreign_tag(tag, s),
        None => (),
    }
}

/// A serialized item sequence ends in `>` or is empty.
pub proof fn lemma_items_xml_gt(items: Seq<ItemModel>)
    ensures
        gt_terminated(spec_items_xml(items)),
    decreases items.len(),
{
    if items.len() > 0 {
        lemma_items_xml_gt(items.drop_last());
        lemma_item_xml_gt(items.last());
        lemma_gt_terminated_concat(spec_items_xml(items.drop_last()), spec_item_xml(items.last()));
    }
}

/// A serialized item sequence carries no opening tag foreign to items.
pub proof fn lemma_items_xml_no_foreign_tag(tag: Seq<char>, items: Seq<ItemModel>)
    requires
        tag_wf(tag),
        tags_differ(tag, "item"@),
        tags_differ(tag, "title"@),
        tags_differ(tag, "link"@),
        tags_differ(tag, "description"@),
        tags_differ(tag, "author"@),
        tags_differ(tag, "category"@),
        tags_differ(tag, "comments"@),
        tags_differ(tag, "enclosure"@),
        tags_differ(tag, "guid"@),
        tags_differ(tag, "pubDate"@),
        tags_differ(tag, "source"@),
    ensures
        occurrences(spec_items_xml(items), open_tag(tag)) == 0,
    decreases items.len(),
{
    let needle = open_tag(tag);
    reveal_strlit("<");
    reveal_strlit(">");
    if items.len() > 0 {
        lemma_items_xml_no_foreign_tag(tag, items.drop_last());
        lemma_item_no_foreign_tag(tag, items.last());
        lemma_items_xml_gt(items.drop_last());
        assert forall|k: int| 0 <= k < needle.len() - 1 implies #[trigger] needle[k] != '>' by {
            if k > 0 {
                assert(needle[k] == tag[k - 1]);
            }
        }
        lemma_occurrences_concat(
            spec_items_xml(items.drop_last()),
            spec_item_xml(items.last()),
            needle,
        );
    }
}

/// Law: in a whole serialized item, each optional text field's opening tag
/// occurs exactly once when the field was set and not at all when it was
/// left unset, whatever every field holds.
pub proof fn lemma_item_title_occurrences(m: ItemModel)
    ensures
        occurrences(spec_item_xml(m), open_tag("title"@)) == (if m.title is Some {
            1nat
        } else {
            0nat
        }),
{
    lemma_item_field_occ_common(m, "title"@);
}

/// Law: as [`lemma_item_title_occurrences`], for the link field.
pub proof fn lemma_item_link_occurrences(m: ItemModel)
    ensures
        occurrences(spec_item_xml(m), open_tag("link"@)) == (if m.link is Some {
            1nat
        } else {
            0nat
        }),
{
    lemma_item_field_occ_common(m, "link"@);
}

/// Law: as [`lemma_item_title_occurrences`], for the description field.
pub proof fn lemma_item_description_occurrences(m: ItemModel)
    ensures
        occurrences(spec_item_xml(m), open_tag("description"@)) == (if m.description is Some {
            1nat
        } else {
            0nat
        }),
{
    lemma_item_field_occ_common(m, "description"@);
}

/// Law: as [`lemma_item_title_occurrences`], for the author field.
pub proof fn lemma_item_author_occurrences(m: ItemModel)
    ensures
        occurrences(spec_item_xml(m), open_tag("author"@)) == (if m.author is Some {
            1nat
        } else {
            0nat
        }),
{
    lemma_item_field_occ_common(m, "author"@);
}

/// Law: as [`lemma_item_title_occurrences`], for the comments field.
pub proof fn lemma_item_comments_occurrences(m: ItemModel)
    ensures
        occurrences(spec_item_xml(m), open_tag("comments"@)) == (if m.comments is Some {
            1nat
        } else {
            0nat
        }),
{
    lemma_item_field_occ_common(m, "comments"@);
}

/// Law: as [`lemma_item_title_occurrences`], for the pubDate field.
pub proof fn lemma_item_pub_date_occurrences(m: ItemModel)
    ensures
        occurrences(spec_item_xml(m), open_tag("pubDate"@)) == (if m.pub_date is Some {
            1nat
        } else {
            0nat
        }),
{
    lemma_item_field_occ_common(m, "pubDate"@);
}

/// The shared argument of the six laws above: the item's occurrence count
/// splits into its parts, each foreign part counts zero, and the field's own
/// part counts its presence.
proof fn lemma_item_field_occ_common(m: ItemModel, tag: Seq<char>)
    requires
        tag == "title"@ || tag == "link"@ || tag == "description"@ || tag == "author"@ || tag
            == "comments"@ || tag == "pubDate"@,
    ensures
        tag == "title"@ ==> occurrences(spec_item_xml(m), open_tag(tag)) == (if m.title is Some {
            1nat
        } else {
            0nat
        }),
        tag == "link"@ ==> occurrences(spec_item_xml(m), open_tag(tag)) == (if m.link is Some {
            1nat
        } else {
            0nat
        }),
        tag == "description"@ ==> occurrences(spec_item_xml(m), open_tag(tag)) == (
        if m.description is Some {
            1nat
        } else {
            0nat
        }),
        tag == "author"@ ==> occurrences(spec_item_xml(m), open_tag(tag)) == (if m.author is Some {
            1nat
        } else {
            0nat
        }),
        tag == "comments"@ ==> occurrences(spec_item_xml(m), open_tag(tag)) == (
        if m.comments is Some {
            1nat
        } else {
            0nat
        }),
        tag == "pubDate"@ ==> occurrences(spec_item_xml(m), open_tag(tag)) == (
        if m.pub_date is Some {
            1nat
        } else {
            0nat
        }),
{
    reveal_strlit("title");
    reveal_strlit("link");
    reveal_strlit("description");
    reveal_strlit("author");
    reveal_strlit("comments");
    reveal_strlit("pubDate");
    reveal_strlit("category");
    reveal_strlit("enclosure");
    reveal_strlit("guid");
    reveal_strlit("source");
    reveal_strlit("<");
    reveal_strlit(">");
    let needle = open_tag(tag);
    assert(tag_wf("title"@));
    assert(tag_wf("link"@));
    assert(tag_wf("description"@));
    assert(tag_wf("author"@));
    assert(tag_wf("comments"@));
    assert(tag_wf("pubDate"@));
    assert(tag_wf(tag));
    assert forall|k: int| 0 <= k < needle.len() - 1 implies #[trigger] needle[k] != '>' by {
        if k > 0 {
            assert(needle[k] == tag[k - 1]);
        }
    }
    reveal_strlit("item");
    lemma_item_xml_occurrence_sum(m, needle);
    assert(tags_differ(tag, "item"@)) by {
        assert(tag[0] != "item"@[0]);
    }
    lemma_item_frame_no_tag(tag);
    // The field's own part counts its presence.
    let own: Option<Seq<char>> = if tag == "title"@ {
        m.title
    } else if tag == "link"@ {
        m.link
    } else if tag == "description"@ {
        m.description
    } else if tag == "author"@ {
        m.author
    } else if tag == "comments"@ {
        m.comments
    } else {
        m.pub_date
    };
    match own {
        Some(t) => lemma_present_field_one_element(tag, t),
        None => (),
    }
    // Every other text field's part counts zero: the six tags differ
    // pairwise in their first character.
    if tag != "title"@ {
        assert(tags_differ(tag, "title"@)) by {
            assert(tag[0] != "title"@[0]);
        }
        lemma_opt_other_tag_no_element(tag, "title"@, m.title);
    }
    if tag != "link"@ {
        assert(tags_differ(tag, "link"@)) by {
            assert(tag[0] != "link"@[0]);
        }
        lemma_opt_other_tag_no_element(tag, "link"@, m.link);
    }
    if tag != "description"@ {
        assert(tags_differ(tag, "description"@)) by {
            assert(tag[0] != "description"@[0]);
        }
        lemma_opt_other_tag_no_element(tag, "description"@, m.description);
    }
    if tag != "author"@ {
        assert(tags_differ(tag, "author"@)) by {
            assert(tag[0] != "author"@[0]);
        }
        lemma_opt_other_tag_no_element(tag, "author"@, m.author);
    }
    if tag != "comments"@ {
        assert(tags_differ(tag, "comments"@)) by {
            assert(tag[0] != "comments"@[0]);
        }
        lemma_opt_other_tag_no_element(tag, "comments"@, m.comments);
    }
    if tag != "pubDate"@ {
        assert(tags_differ(tag, "pubDate"@)) by {
            assert(tag[0] != "pubDate"@[0]);
        }
        lemma_opt_other_tag_no_element(tag, "pubDate"@, m.pub_date);
    }
    // The nested parts count zero: `comments` shares only its first
    // character with `category`.
    assert(tags_differ(tag, "category"@)) by {
        if tag == "comments"@ {
            assert(tag[1] != "category"@[1]);
        } else {
            assert(tag[0] != "category"@[0]);
        }
    }
    assert(tags_differ(tag, "enclosure"@)) by {
        assert(tag[0] != "enclosure"@[0]);
    }
    assert(tags_differ(tag, "guid"@)) by {
        assert(tag[0] != "guid"@[0]);
    }
    assert(tags_differ(tag, "source"@)) by {
        assert(tag[0] != "source"@[0]);
    }
    match m.category {
        Some(c) => lemma_category_no_foreign_tag(tag, c),
        None => (),
    }
    match m.enclosure {
        Some(e) => lemma_enclosure_no_foreign_tag(tag, e),
        None => (),
    }
    match m.guid {
        Some(g) => lemma_guid_no_foreign_tag(tag, g),
        None => (),
    }
    match m.source {
        Some(s) => lemma_source_no_foreign_tag(tag, s),
        None => (),
    }
}

/// How many of the items carry a publication date.
pub open spec fn count_pub_dates(items: Seq<ItemModel>) -> nat
    decreases items.len(),
{
    if items.len() == 0 {
        0
    } else {
        count_pub_dates(items.drop_last()) + if items.last().pub_date is Some {
            1nat
        } else {
            0nat
        }
    }
}

/// Law: a serialized item sequence holds one `<pubDate>` for each item whose
/// publication date was set, and no other.
pub proof fn lemma_items_xml_pub_date_occurrences(items: Seq<ItemModel>)
    ensures
        occurrences(spec_items_xml(items), open_tag("pubDate"@)) == count_pub_dates(items),
    decreases items.len(),
{
    reveal_strlit("<");
    reveal_strlit(">");
    reveal_strlit("pubDate");
    let needle = open_tag("pubDate"@);
    if items.len() > 0 {
        lemma_items_xml_pub_date_occurrences(items.drop_last());
        lemma_item_pub_date_occurrences(items.last());
        lemma_items_xml_gt(items.drop_last());
        assert(tag_wf("pubDate"@));
        assert forall|k: int| 0 <= k < needle.len() - 1 implies #[trigger] needle[k] != '>' by {
            if k > 0 {
                assert(needle[k] == "pubDate"@[k - 1]);
            }
        }
        lemma_occurrences_concat(
            spec_items_xml(items.drop_last()),
            spec_item_xml(items.last()),
            needle,
        );
    }
}

/// Builds an [`Item`]; every field is optional.
#[derive(Clone, Debug)]
pub struct ItemBuilder {
    title: Option<String>,
    link: Option<String>,
    description: Option<String>,
    author: Option<String>,
    category: Option<Category>,
    comments: Option<String>,
    enclosure: Option<Enclosure>,
    guid: Option<ItemGuid>,
    pub_date: Option<String>,
    source: Option<ItemSource>,
}

impl View for ItemBuilder {
    type V = ItemModel;

    closed spec fn view(&self) -> ItemModel {
        ItemModel {
            title: view_opt(self.title),
            link: view_opt(self.link),
            description: view_opt(self.description),
            author: view_opt(self.author),
            category: view_opt_category(self.category),
            comments: view_opt(self.comments),
            enclosure: view_opt_enclosure(self.enclosure),
            guid: view_opt_guid(self.guid),
            pub_date: view_opt(self.pub_date),
            source: view_opt_source(self.source),
        }
    }
}

/// The item model with no field set.
pub open spec fn empty_item_model() -> ItemModel {
    ItemModel {
        title: None,
        link: None,
        description: None,
        author: None,
        category: None,
        comments: None,
        enclosure: None,
        guid: None,
        pub_date: None,
        source: None,
    }
}

impl Default for ItemBuilder {
    /// A builder with no field set.
    fn default() -> (r: ItemBuilder)
        ensures
            r@ == empty_item_model(),
    {
        ItemBuilder {
            title: None,
            link: None,
            description: None,
            author: None,
            category: None,
            comments: None,
            enclosure: None,
            guid: None,
            pub_date: None,
            source: None,
        }
    }
}

impl ItemBuilder {
    /// A builder with only the title set.
    pub fn with_title(title: &str) -> (r: ItemBuilder)
        ensures
            r@ == (ItemModel { title: Some(title@), ..empty_item_model() }),
    {
        ItemBuilder::default().title(title)
    }

    /// A builder with only the description set.
    pub fn with_description(description: &str) -> (r: ItemBuilder)
        ensures
            r@ == (ItemModel { description: Some(description@), ..empty_item_model() }),
    {
        ItemBuilder::default().description(description)
    }

    /// Sets the item title.
    pub fn title(self, title: &str) -> (r: ItemBuilder)
        ensures
            r@ == (ItemModel { title: Some(title@), ..self@ }),
    {
        ItemBuilder { title: Some(String::from_str(title)), ..self }
    }

    /// Sets the item link.
    pub fn link(self, link: &str) -> (r: ItemBuilder)
        ensures
            r@ == (ItemModel { link: Some(link@), ..self@ }),
    {
        ItemBuilder { link: Some(String::from_str(link)), ..self }
    }

    /// Sets the item description.
    pub fn description(self, description: &str) -> (r: ItemBuilder)
        ensures
            r@ == (ItemModel { description: Some(description@), ..self@ }),
    {
        ItemBuilder { description: Some(String::from_str(description)), ..self }
    }

    /// Sets the item author.
    pub fn author(self, author: &str) -> (r: ItemBuilder)
        ensures
            r@ == (ItemModel { author: Some(author@), ..self@ }),
    {
        ItemBuilder { author: Some(String::from_str(author)), ..self }
    }

    /// Sets the item category.
    pub fn category(self, category: Category) -> (r: ItemBuilder)
        ensures
            r@ == (ItemModel { category: Some(category@), ..self@ }),
    {
        ItemBuilder { category: Some(category), ..self }
    }

    /// Sets the comments link.
    pub fn comments(self, comments: &str) -> (r: ItemBuilder)
        ensures
            r@ == (ItemModel { comments: Some(comments@), ..self@ }),
    {
        ItemBuilder { comments: Some(String::from_str(comments)), ..self }
    }

    /// Sets the enclosure.
    pub fn enclosure(self, enclosure: Enclosure) -> (r: ItemBuilder)
        ensures
            r@ == (ItemModel { enclosure: Some(enclosure@), ..self@ }),
    {
        ItemBuilder { enclosure: Some(enclosure), ..self }
    }

    /// Sets the guid.
    pub fn guid(self, guid: ItemGuid) -> (r: ItemBuilder)
        ensures
            r@ == (ItemModel { guid: Some(guid@), ..self@ }),
    {
        ItemBuilder { guid: Some(guid), ..self }
    }

    /// Sets the publication date.
    pub fn pub_date(self, pub_date: &str) -> (r: ItemBuilder)
        ensures
            r@ == (ItemModel { pub_date: Some(pub_date@), ..self@ }),
    {
        ItemBuilder { pub_date: Some(String::from_str(pub_date)), ..self }
    }

    /// Sets the source.
    pub fn source(self, source: ItemSource) -> (r: ItemBuilder)
        ensures
            r@ == (ItemModel { source: Some(source@), ..self@ }),
    {
        ItemBuilder { source: Some(source), ..self }
    }

    /// Produces the item; with no required fields this always succeeds.
    pub fn build(self) -> (r: Result<Item, RssError>)
        ensures
            r matches Ok(it) && it@ == self@,
    {
        Ok(Item {
            title: self.title,
            link: self.link,
            description: self.description,
            author: self.author,
            category: self.category,
            comments: self.comments,
            enclosure: self.enclosure,
            guid: self.guid,
            pub_date: self.pub_date,
            source: self.source,
        })
    }
}

} // verus!
