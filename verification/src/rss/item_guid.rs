//! The `<guid>` element: required text, optional `isPermalink` attribute.

use crate::rss::{RssError, RssErrorModel};
use crate::xmltext::{esc, escape_str, lemma_esc_no_markup, lemma_occurrences_none,
    lemma_occurrences_single, match_at, occurrences, open_tag, tag_wf, tags_differ, view_opt};
use vstd::prelude::*;
use vstd::string::StringExecFns;

verus! {

/// An item's globally unique identifier.
#[derive(Clone, Debug, PartialEq, Eq)]
pub struct ItemGuid {
    is_permalink: Option<bool>,
    guid: String,
}

/// The model of an [`ItemGuid`].
pub ghost struct ItemGuidModel {
    pub is_permalink: Option<bool>,
    pub guid: Seq<char>,
}

impl View for ItemGuid {
    type V = ItemGuidModel;

    closed spec fn view(&self) -> ItemGuidModel {
        ItemGuidModel { is_permalink: self.is_permalink, guid: self.guid@ }
    }
}

/// The XML form: `<guid>text</guid>`, with an `isPermalink` attribute only
/// when the flag was set, and the text escaped.
pub open spec fn spec_item_guid_xml(m: ItemGuidModel) -> Seq<char> {
    "<guid"@ + match m.is_permalink {
        Some(b) => " isPermalink=\""@ + (if b {
            "true"@
        } else {
            "false"@
        }) + "\""@,
        None => Seq::empty(),
    } + ">"@ + esc(m.guid) + "</guid>"@
}

impl ItemGuid {
    /// Serializes the guid to its XML form.
    pub fn to_xml(&self) -> (r: String)
        ensures
            r@ == spec_item_guid_xml(self@),
    {
        let mut out = String::new();
        out.append("<guid");
        match self.is_permalink {
            Some(b) => {
                out.append(" isPermalink=\"");
                if b {
                    out.append("true");
                } else {
                    out.append("false");
                }
                out.append("\"");
            },
            None => (),
        }
        out.append(">");
        let e = escape_str(self.guid.as_str());
        out.append(e.as_str());
        out.append("</guid>");
        proof {
            assert(out@ =~= spec_item_guid_xml(self@));
        }
        out
    }
}

/// A serialized guid carries no opening tag of another name, whatever its
/// text and flag.
pub proof fn lemma_guid_no_foreign_tag(tag: Seq<char>, m: ItemGuidModel)
    requires
        tag_wf(tag),
        tags_differ(tag, "guid"@),
    ensures
        occurrences(spec_item_guid_xml(m), open_tag(tag)) == 0,
{
    let needle = open_tag(tag);
    let g = esc(m.guid);
    let eg = g.len() as int;
    reveal_strlit("<");
    reveal_strlit(">");
    reveal_strlit("guid");
    reveal_strlit("<guid");
    reveal_strlit("</guid>");
    reveal_strlit("\"");
    reveal_strlit("true");
    reveal_strlit("false");
    reveal_strlit("<guid>");
    reveal_strlit("<guid isPermalink=\"");
    reveal_strlit("\">");
    reveal_strlit(" isPermalink=\"");
    lemma_esc_no_markup(m.guid);
    let j = choose|j: int| 0 <= j < tag.len() && j < "guid"@.len() && tag[j] != "guid"@[j];
    assert(needle[0] == '<');
    assert(needle[j + 1] == tag[j]);
    assert(needle[1] == tag[0]);
    match m.is_permalink {
        None => {
            let hay = "<guid>"@ + g + "</guid>"@;
            assert(spec_item_guid_xml(m) =~= hay);
            let c = 6 + eg;
            assert forall|k: int| 0 <= k < hay.len() && #[trigger] hay[k] == '<' implies k == 0
                || k == c by {
                if k < 6 {
                    assert(hay[k] == "<guid>"@[k]);
                } else if k < 6 + eg {
                    assert(hay[k] == g[k - 6]);
                } else {
                    assert(hay[k] == "</guid>"@[k - 6 - eg]);
                }
            }
            assert forall|k: int| 1 <= k <= 4 implies hay[k] == "guid"@[k - 1] by {
                assert(hay[k] == "<guid>"@[k]);
            }
            assert(hay[c + 1] == "</guid>"@[1]);
            assert forall|i: int| !match_at(hay, needle, i) by {
                if 0 <= i && i + needle.len() <= hay.len() {
                    if hay.subrange(i, i + needle.len() as int) == needle {
                        assert(hay[i] == needle[0]);
                        if i == 0 {
                            assert(hay[j + 1] == needle[j + 1]);
                            assert(false);
                        } else if i == c {
                            assert(hay[i + 1] == needle[1]);
                            assert(hay[i + 1] == '/');
                            assert(false);
                        } else {
                            assert(hay[i] != '<');
                            assert(false);
                        }
                    }
                }
            }
            lemma_occurrences_none(hay, needle);
        },
        Some(b) => {
            let v = if b {
                "true"@
            } else {
                "false"@
            };
            let lv = v.len() as int;
            let hay = "<guid isPermalink=\""@ + v + "\">"@ + g + "</guid>"@;
            assert(spec_item_guid_xml(m) =~= hay);
            let c = 21 + lv + eg;
            assert forall|k: int| 0 <= k < hay.len() && #[trigger] hay[k] == '<' implies k == 0
                || k == c by {
                if k < 19 {
                    assert(hay[k] == "<guid isPermalink=\""@[k]);
                } else if k < 19 + lv {
                    assert(hay[k] == v[k - 19]);
                } else if k < 21 + lv {
                    assert(hay[k] == "\">"@[k - 19 - lv]);
                } else if k < 21 + lv + eg {
                    assert(hay[k] == g[k - 21 - lv]);
                } else {
                    assert(hay[k] == "</guid>"@[k - 21 - lv - eg]);
                }
            }
            assert forall|k: int| 1 <= k <= 4 implies hay[k] == "guid"@[k - 1] by {
                assert(hay[k] == "<guid isPermalink=\""@[k]);
            }
            assert(hay[c + 1] == "</guid>"@[1]);
            assert forall|i: int| !match_at(hay, needle, i) by {
                if 0 <= i && i + needle.len() <= hay.len() {
                    if hay.subrange(i, i + needle.len() as int) == needle {
                        assert(hay[i] == needle[0]);
                        if i == 0 {
                            assert(hay[j + 1] == needle[j + 1]);
                            assert(false);
                        } else if i == c {
                            assert(hay[i + 1] == needle[1]);
                            assert(hay[i + 1] == '/');
                            assert(false);
                        } else {
                            assert(hay[i] != '<');
                            assert(false);
                        }
                    }
                }
            }
            lemma_occurrences_none(hay, needle);
        },
    }
}

/// Law: the permalink attribute is written exactly when the flag was set. In
/// the serialized guid the fragment ` isPermalink="` occurs once when the
/// flag was set, with either value, and not at all when it was left unset,
/// whatever the guid text: the raw quote the fragment ends with can only
/// come from the attribute itself, never from escaped text.
pub proof fn lemma_permalink_attr_occurrences(m: ItemGuidModel)
    ensures
        m.is_permalink is None ==> occurrences(spec_item_guid_xml(m), " isPermalink=\""@) == 0,
        m.is_permalink is Some ==> occurrences(spec_item_guid_xml(m), " isPermalink=\""@) == 1,
{
    let needle = " isPermalink=\""@;
    let g = esc(m.guid);
    let eg = g.len() as int;
    reveal_strlit(" isPermalink=\"");
    reveal_strlit("<guid");
    reveal_strlit(">");
    reveal_strlit("</guid>");
    reveal_strlit("\"");
    reveal_strlit("true");
    reveal_strlit("false");
    reveal_strlit("<guid>");
    reveal_strlit("<guid isPermalink=\"");
    reveal_strlit("\">");
    lemma_esc_no_markup(m.guid);
    assert(needle.len() == 14);
    match m.is_permalink {
        None => {
            let hay = "<guid>"@ + g + "</guid>"@;
            assert(spec_item_guid_xml(m) =~= hay);
            assert forall|k: int| 0 <= k < hay.len() implies #[trigger] hay[k] != '"' by {
                if k < 6 {
                    assert(hay[k] == "<guid>"@[k]);
                } else if k < 6 + eg {
                    assert(hay[k] == g[k - 6]);
                } else {
                    assert(hay[k] == "</guid>"@[k - 6 - eg]);
                }
            }
            assert forall|i: int| !match_at(hay, needle, i) by {
                if 0 <= i && i + 14 <= hay.len() {
                    if hay.subrange(i, i + 14) == needle {
                        assert(hay[i + 13] == needle[13]);
                        assert(needle[13] == '"');
                        assert(false);
                    }
                }
            }
            lemma_occurrences_none(hay, needle);
        },
        Some(b) => {
            let l1 = "<guid isPermalink=\""@;
            let v = if b {
                "true"@
            } else {
                "false"@
            };
            let l2 = "\">"@;
            let l3 = "</guid>"@;
            let lv = v.len() as int;
            let hay = l1 + v + l2 + g + l3;
            assert(spec_item_guid_xml(m) =~= hay);
            assert(l1.len() == 19);
            assert(v[lv - 1] == 'e');
            assert forall|k: int| 0 <= k < hay.len() && #[trigger] hay[k] == '"' implies k == 18
                || k == 19 + lv by {
                if k < 19 {
                    assert(hay[k] == l1[k]);
                } else if k < 19 + lv {
                    assert(hay[k] == v[k - 19]);
                } else if k < 21 + lv {
                    assert(hay[k] == l2[k - 19 - lv]);
                } else if k < 21 + lv + eg {
                    assert(hay[k] == g[k - 21 - lv]);
                } else {
                    assert(hay[k] == l3[k - 21 - lv - eg]);
                }
            }
            let p = 5;
            assert(hay.subrange(p, p + 14) =~= needle);
            assert(match_at(hay, needle, p));
            assert forall|i: int| i != p implies !match_at(hay, needle, i) by {
                if 0 <= i && i + 14 <= hay.len() {
                    if hay.subrange(i, i + 14) == needle {
                        assert(hay[i + 13] == needle[13]);
                        assert(needle[13] == '"');
                        if i + 13 == 19 + lv {
                            assert(hay[i + 12] == v[lv - 1]);
                            assert(needle[12] == '=');
                            assert(false);
                        } else {
                            assert(i == p);
                        }
                    }
                }
            }
            lemma_occurrences_single(hay, needle, p);
        },
    }
}

/// Builds an [`ItemGuid`]; the text is required, the permalink flag optional.
#[derive(Clone, Debug)]
pub struct ItemGuidBuilder {
    is_permalink: Option<bool>,
    guid: Option<String>,
}

/// The model of an [`ItemGuidBuilder`].
pub ghost struct ItemGuidBuilderModel {
    pub is_permalink: Option<bool>,
    pub guid: Option<Seq<char>>,
}

impl View for ItemGuidBuilder {
    type V = ItemGuidBuilderModel;

    closed spec fn view(&self) -> ItemGuidBuilderModel {
        ItemGuidBuilderModel { is_permalink: self.is_permalink, guid: view_opt(self.guid) }
    }
}

impl Default for ItemGuidBuilder {
    /// A builder with no field set.
    fn default() -> (r: ItemGuidBuilder)
        ensures
            r@.is_permalink is None,
            r@.guid is None,
    {
        ItemGuidBuilder { is_permalink: None, guid: None }
    }
}

impl ItemGuidBuilder {
    /// A builder with the required text already set.
    pub fn new(guid: &str) -> (r: ItemGuidBuilder)
        ensures
            r@.is_permalink is None,
            r@.guid == Some(guid@),
    {
        ItemGuidBuilder { is_permalink: None, guid: Some(String::from_str(guid)) }
    }

    /// Sets the guid text.
    pub fn guid(self, guid: &str) -> (r: ItemGuidBuilder)
        ensures
            r@ == (ItemGuidBuilderModel { guid: Some(guid@), ..self@ }),
    {
        ItemGuidBuilder { guid: Some(String::from_str(guid)), ..self }
    }

    /// Sets the permalink flag.
    pub fn is_permalink(self, is_permalink: bool) -> (r: ItemGuidBuilder)
        ensures
            r@ == (ItemGuidBuilderModel { is_permalink: Some(is_permalink), ..self@ }),
    {
        ItemGuidBuilder { is_permalink: Some(is_permalink), ..self }
    }

    /// Produces the guid, or the name of the required field that was never
    /// set.
    pub fn build(self) -> (r: Result<ItemGuid, RssError>)
        ensures
            r is Ok <==> self@.guid is Some,
            r matches Ok(g) ==> g@ == (ItemGuidModel {
                is_permalink: self@.is_permalink,
                guid: self@.guid->Some_0,
            }),
            r matches Err(e) ==> e@ == RssErrorModel::MissingRequiredField("guid"@),
    {
        match self.guid {
            Some(guid) => Ok(ItemGuid { is_permalink: self.is_permalink, guid }),
            None => Err(RssError::MissingRequiredField(String::from_str("guid"))),
        }
    }
}

} // verus!
