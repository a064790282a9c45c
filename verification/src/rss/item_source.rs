//! The `<source>` element: required `url` attribute, optional text; with no
//! text the tag is self-closing.

use crate::rss::{RssError, RssErrorModel};
use crate::xmltext::{attr, esc, escape_str, lemma_esc_no_markup, lemma_occurrences_none, match_at,
    occurrences, open_tag, tag_wf, tags_differ, view_opt, write_attr};
use vstd::prelude::*;
use vstd::string::StringExecFns;

verus! {

/// The feed an item came from.
#[derive(Clone, Debug, PartialEq, Eq)]
pub struct ItemSource {
    url: String,
    text: Option<String>,
}

/// The model of an [`ItemSource`].
pub ghost struct ItemSourceModel {
    pub url: Seq<char>,
    pub text: Option<Seq<char>>,
}

impl View for ItemSource {
    type V = ItemSourceModel;

    closed spec fn view(&self) -> ItemSourceModel {
        ItemSourceModel { url: self.url@, text: view_opt(self.text) }
    }
}

/// The XML form: `<source url="..">text</source>`; with no text the element
/// is written self-closing, `<source url=".."/>`.
pub open spec fn spec_item_source_xml(m: ItemSourceModel) -> Seq<char> {
    match m.text {
        Some(t) => "<source"@ + attr("url"@, m.url) + ">"@ + esc(t) + "</source>"@,
        None => "<source"@ + attr("url"@, m.url) + "/>"@,
    }
}

impl ItemSource {
    /// Serializes the source to its XML form.
    pub fn to_xml(&self) -> (r: String)
        ensures
            r@ == spec_item_source_xml(self@),
    {
        let mut out = String::new();
        out.append("<source");
        write_attr(&mut out, "url", self.url.as_str());
        match &self.text {
            Some(t) => {
                out.append(">");
                let e = escape_str(t.as_str());
                out.append(e.as_str());
                out.append("</source>");
            },
            None => {
                out.append("/>");
            },
        }
        proof {
            assert(out@ =~= spec_item_source_xml(self@));
        }
        out
    }
}

/// A serialized source carries no opening tag of another name, whatever its
/// URL and text.
pub proof fn lemma_source_no_foreign_tag(tag: Seq<char>, m: ItemSourceModel)
    requires
        tag_wf(tag),
        tags_differ(tag, "source"@),
    ensures
        occurrences(spec_item_source_xml(m), open_tag(tag)) == 0,
{
    let needle = open_tag(tag);
    let u = esc(m.url);
    let eu = u.len() as int;
    reveal_strlit("<");
    reveal_strlit(">");
    reveal_strlit("source");
    reveal_strlit("<source");
    reveal_strlit("</source>");
    reveal_strlit(" ");
    reveal_strlit("url");
    reveal_strlit("=\"");
    reveal_strlit("\"");
    reveal_strlit("/>");
    reveal_strlit("<source url=\"");
    reveal_strlit("\">");
    reveal_strlit("\"/>");
    lemma_esc_no_markup(m.url);
    let j = choose|j: int| 0 <= j < tag.len() && j < "source"@.len() && tag[j] != "source"@[j];
    assert(needle[0] == '<');
    assert(needle[j + 1] == tag[j]);
    assert(needle[1] == tag[0]);
    match m.text {
        None => {
            let hay = "<source url=\""@ + u + "\"/>"@;
            assert(spec_item_source_xml(m) =~= hay);
            assert forall|k: int| 0 <= k < hay.len() && #[trigger] hay[k] == '<' implies k
                == 0 by {
                if k < 13 {
                    assert(hay[k] == "<source url=\""@[k]);
                } else if k < 13 + eu {
                    assert(hay[k] == u[k - 13]);
                } else {
                    assert(hay[k] == "\"/>"@[k - 13 - eu]);
                }
            }
            assert forall|k: int| 1 <= k <= 6 implies hay[k] == "source"@[k - 1] by {
                assert(hay[k] == "<source url=\""@[k]);
            }
            assert forall|i: int| !match_at(hay, needle, i) by {
                if 0 <= i && i + needle.len() <= hay.len() {
                    if hay.subrange(i, i + needle.len() as int) == needle {
                        assert(hay[i] == needle[0]);
                        if i == 0 {
                            assert(hay[j + 1] == needle[j + 1]);
                            assert(false);
                        } else {
                            assert(hay[i] != '<');
                            assert(false);
                        }
                    }
                }
            }
            lemma_occurrences_none(hay, needle);
        },
        Some(t) => {
            lemma_esc_no_markup(t);
            let s = esc(t);
            let es = s.len() as int;
            let hay = "<source url=\""@ + u + "\">"@ + s + "</source>"@;
            assert(spec_item_source_xml(m) =~= hay);
            let c = 15 + eu + es;
            assert forall|k: int| 0 <= k < hay.len() && #[trigger] hay[k] == '<' implies k == 0
                || k == c by {
                if k < 13 {
                    assert(hay[k] == "<source url=\""@[k]);
                } else if k < 13 + eu {
                    assert(hay[k] == u[k - 13]);
                } else if k < 15 + eu {
                    assert(hay[k] == "\">"@[k - 13 - eu]);
                } else if k < 15 + eu + es {
                    assert(hay[k] == s[k - 15 - eu]);
                } else {
                    assert(hay[k] == "</source>"@[k - 15 - eu - es]);
                }
            }
            assert forall|k: int| 1 <= k <= 6 implies hay[k] == "source"@[k - 1] by {
                assert(hay[k] == "<source url=\""@[k]);
            }
            assert(hay[c + 1] == "</source>"@[1]);
            assert forall|i: int| !match_at(hay, needle, i) by {
                if 0 <= i && i + needle.len() <= hay.len() {
                    if hay.subrange(i, i + needle.len() as int) == needle {
                        assert(hay[i] == needle[0]);
                        if i == 0 {
                            assert(hay[j + 1] == needle[j + 1]);
                            assert(false);
                        } else if i == c {
                            assert(hay[i + 1] == needle[1]);
                            assert(hay[i + 1] == '/');
                            assert(false);
                        } else {
                            assert(hay[i] != '<');
                            assert(false);
                        }
                    }
                }
            }
            lemma_occurrences_none(hay, needle);
        },
    }
}

/// Builds an [`ItemSource`]; the URL is required, the text optional.
#[derive(Clone, Debug)]
pub struct ItemSourceBuilder {
    url: Option<String>,
    text: Option<String>,
}

/// The model of an [`ItemSourceBuilder`].
pub ghost struct ItemSourceBuilderModel {
    pub url: Option<Seq<char>>,
    pub text: Option<Seq<char>>,
}

impl View for ItemSourceBuilder {
    type V = ItemSourceBuilderModel;

    closed spec fn view(&self) -> ItemSourceBuilderModel {
        ItemSourceBuilderModel { url: view_opt(self.url), text: view_opt(self.text) }
    }
}

impl Default for ItemSourceBuilder {
    /// A builder with no field set.
    fn default() -> (r: ItemSourceBuilder)
        ensures
            r@.url is None,
            r@.text is None,
    {
        ItemSourceBuilder { url: None, text: None }
    }
}

impl ItemSourceBuilder {
    /// A builder with the required URL already set.
    pub fn new(url: &str) -> (r: ItemSourceBuilder)
        ensures
            r@.url == Some(url@),
            r@.text is None,
    {
        ItemSourceBuilder { url: Some(String::from_str(url)), text: None }
    }

    /// Sets the source URL.
    pub fn url(self, url: &str) -> (r: ItemSourceBuilder)
        ensures
            r@ == (ItemSourceBuilderModel { url: Some(url@), ..self@ }),
    {
        ItemSourceBuilder { url: Some(String::from_str(url)), ..self }
    }

    /// Sets the source text.
    pub fn text(self, text: &str) -> (r: ItemSourceBuilder)
        ensures
            r@ == (ItemSourceBuilderModel { text: Some(text@), ..self@ }),
    {
        ItemSourceBuilder { text: Some(String::from_str(text)), ..self }
    }

    /// Produces the source, or the name of the required field that was never
    /// set.
    pub fn build(self) -> (r: Result<ItemSource, RssError>)
        ensures
            r is Ok <==> self@.url is Some,
            r matches Ok(s) ==> s@ == (ItemSourceModel {
                url: self@.url->Some_0,
                text: self@.text,
            }),
            r matches Err(e) ==> e@ == RssErrorModel::MissingRequiredField("url"@),
    {
        match self.url {
            Some(url) => Ok(ItemSource { url, text: self.text }),
            None => Err(RssError::MissingRequiredField(String::from_str("url"))),
        }
    }
}

} // verus!
