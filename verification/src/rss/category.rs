//! The `<category>` element: required text, optional `domain` attribute.

use crate::rss::{RssError, RssErrorModel};
use crate::xmltext::{attr, esc, escape_str, lemma_esc_no_eq, lemma_esc_no_markup,
    lemma_occurrences_none, lemma_occurrences_single, match_at, occurrences, open_tag, tag_wf,
    tags_differ, view_opt, write_attr};
use vstd::prelude::*;
use vstd::string::StringExecFns;

verus! {

/// A feed or item category.
#[derive(Clone, Debug, PartialEq, Eq)]
pub struct Category {
    domain: Option<String>,
    text: String,
}

/// The model of a [`Category`].
pub ghost struct CategoryModel {
    pub domain: Option<Seq<char>>,
    pub text: Seq<char>,
}

impl View for Category {
    type V = CategoryModel;

    closed spec fn view(&self) -> CategoryModel {
        CategoryModel { domain: view_opt(self.domain), text: self.text@ }
    }
}

/// The XML form: `<category>text</category>`, with a `domain` attribute when
/// one is set, and the text escaped.
pub open spec fn spec_category_xml(m: CategoryModel) -> Seq<char> {
    "<category"@ + match m.domain {
        Some(d) => attr("domain"@, d),
        None => Seq::empty(),
    } + ">"@ + esc(m.text) + "</category>"@
}

impl Category {
    /// Serializes the category to its XML form.
    pub fn to_xml(&self) -> (r: String)
        ensures
            r@ == spec_category_xml(self@),
    {
        let mut out = String::new();
        out.append("<category");
        match &self.domain {
            Some(d) => write_attr(&mut out, "domain", d.as_str()),
            None => (),
        }
        out.append(">");
        let e = escape_str(self.text.as_str());
        out.append(e.as_str());
        out.append("</category>");
        proof {
            assert(out@ =~= spec_category_xml(self@));
        }
        out
    }
}

/// Law: the domain attribute is written exactly when a domain was set. In
/// the serialized category the fragment ` domain="` occurs once when a
/// domain was set, for every domain value that holds no `=` of its own (one
/// with `=` could spell the fragment itself), and not at all when none was,
/// whatever the category text.
pub proof fn lemma_domain_attr_occurrences(m: CategoryModel)
    requires
        m.domain matches Some(d) ==> forall|k: int| 0 <= k < d.len() ==> d[k] != '=',
    ensures
        m.domain is None ==> occurrences(spec_category_xml(m), " domain=\""@) == 0,
        m.domain is Some ==> occurrences(spec_category_xml(m), " domain=\""@) == 1,
{
    let needle = " domain=\""@;
    let t = esc(m.text);
    let et = t.len() as int;
    reveal_strlit(" domain=\"");
    reveal_strlit("<category");
    reveal_strlit(">");
    reveal_strlit("</category>");
    reveal_strlit(" ");
    reveal_strlit("domain");
    reveal_strlit("=\"");
    reveal_strlit("\"");
    reveal_strlit("<category>");
    reveal_strlit("<category domain=\"");
    reveal_strlit("\">");
    lemma_esc_no_markup(m.text);
    assert(needle.len() == 9);
    match m.domain {
        None => {
            let hay = "<category>"@ + t + "</category>"@;
            assert(spec_category_xml(m) =~= hay);
            assert forall|k: int| 0 <= k < hay.len() implies #[trigger] hay[k] != '"' by {
                if k < 10 {
                    assert(hay[k] == "<category>"@[k]);
                } else if k < 10 + et {
                    assert(hay[k] == t[k - 10]);
                } else {
                    assert(hay[k] == "</category>"@[k - 10 - et]);
                }
            }
            assert forall|i: int| !match_at(hay, needle, i) by {
                if 0 <= i && i + 9 <= hay.len() {
                    if hay.subrange(i, i + 9) == needle {
                        assert(hay[i + 8] == needle[8]);
                        assert(needle[8] == '"');
                        assert(false);
                    }
                }
            }
            lemma_occurrences_none(hay, needle);
        },
        Some(d) => {
            lemma_esc_no_eq(d);
            lemma_esc_no_markup(d);
            let l1 = "<category domain=\""@;
            let v = esc(d);
            let l2 = "\">"@;
            let l3 = "</category>"@;
            let lv = v.len() as int;
            let hay = l1 + v + l2 + t + l3;
            assert(spec_category_xml(m) =~= hay);
            assert(l1.len() == 18);
            assert forall|k: int| 0 <= k < hay.len() && #[trigger] hay[k] == '"' implies k == 17
                || k == 18 + lv by {
                if k < 18 {
                    assert(hay[k] == l1[k]);
                } else if k < 18 + lv {
                    assert(hay[k] == v[k - 18]);
                } else if k < 20 + lv {
                    assert(hay[k] == l2[k - 18 - lv]);
                } else if k < 20 + lv + et {
                    assert(hay[k] == t[k - 20 - lv]);
                } else {
                    assert(hay[k] == l3[k - 20 - lv - et]);
                }
            }
            let p = 9;
            assert(hay.subrange(p, p + 9) =~= needle);
            assert(match_at(hay, needle, p));
            assert forall|i: int| i != p implies !match_at(hay, needle, i) by {
                if 0 <= i && i + 9 <= hay.len() {
                    if hay.subrange(i, i + 9) == needle {
                        assert(hay[i + 8] == needle[8]);
                        assert(needle[8] == '"');
                        if i + 8 == 18 + lv {
                            assert(needle[7] == '=');
                            assert(hay[i + 7] == needle[7]);
                            if lv > 0 {
                                assert(hay[17 + lv] == v[lv - 1]);
                                assert(false);
                            } else {
                                assert(hay[17 + lv] == l1[17]);
                                assert(false);
                            }
                        } else {
                            assert(i == p);
                        }
                    }
                }
            }
            lemma_occurrences_single(hay, needle, p);
        },
    }
}

/// A serialized category carries no opening tag of another name, whatever
/// its text and domain.
pub proof fn lemma_category_no_foreign_tag(tag: Seq<char>, m: CategoryModel)
    requires
        tag_wf(tag),
        tags_differ(tag, "category"@),
    ensures
        occurrences(spec_category_xml(m), open_tag(tag)) == 0,
{
    let needle = open_tag(tag);
    let t = esc(m.text);
    let et = t.len() as int;
    reveal_strlit("<");
    reveal_strlit(">");
    reveal_strlit("</");
    reveal_strlit("<category");
    reveal_strlit(" ");
    reveal_strlit("domain");
    reveal_strlit("=\"");
    reveal_strlit("\"");
    reveal_strlit("category");
    reveal_strlit("<category>");
    reveal_strlit("<category domain=\"");
    reveal_strlit("\">");
    reveal_strlit("</category>");
    lemma_esc_no_markup(m.text);
    let j = choose|j: int| 0 <= j < tag.len() && j < "category"@.len() && tag[j] != "category"@[j];
    assert(needle[0] == '<');
    assert(needle[j + 1] == tag[j]);
    assert(needle[1] == tag[0]);
    match m.domain {
        None => {
            let hay = "<category>"@ + t + "</category>"@;
            assert(spec_category_xml(m) =~= hay);
            let c = 10 + et;
            assert forall|k: int| 0 <= k < hay.len() && #[trigger] hay[k] == '<' implies k == 0
                || k == c by {
                if k < 10 {
                    assert(hay[k] == "<category>"@[k]);
                } else if k < 10 + et {
                    assert(hay[k] == t[k - 10]);
                } else {
                    assert(hay[k] == "</category>"@[k - 10 - et]);
                }
            }
            assert forall|k: int| 1 <= k <= 8 implies hay[k] == "category"@[k - 1] by {
                assert(hay[k] == "<category>"@[k]);
            }
            assert(hay[c + 1] == "</category>"@[1]);
            assert forall|i: int| !match_at(hay, needle, i) by {
                if 0 <= i && i + needle.len() <= hay.len() {
                    if hay.subrange(i, i + needle.len() as int) == needle {
                        assert(hay[i] == needle[0]);
                        if i == 0 {
                            assert(hay[j + 1] == needle[j + 1]);
                            assert(false);
                        } else if i == c {
                            assert(hay[i + 1] == needle[1]);
                            assert(hay[i + 1] == '/');
                            assert(false);
                        } else {
                            assert(hay[i] != '<');
                            assert(false);
                        }
                    }
                }
            }
            lemma_occurrences_none(hay, needle);
        },
        Some(d) => {
            lemma_esc_no_markup(d);
            let v = esc(d);
            let lv = v.len() as int;
            let hay = "<category domain=\""@ + v + "\">"@ + t + "</category>"@;
            assert(spec_category_xml(m) =~= hay);
            let c = 20 + lv + et;
            assert forall|k: int| 0 <= k < hay.len() && #[trigger] hay[k] == '<' implies k == 0
                || k == c by {
                if k < 18 {
                    assert(hay[k] == "<category domain=\""@[k]);
                } else if k < 18 + lv {
                    assert(hay[k] == v[k - 18]);
                } else if k < 20 + lv {
                    assert(hay[k] == "\">"@[k - 18 - lv]);
                } else if k < 20 + lv + et {
                    assert(hay[k] == t[k - 20 - lv]);
                } else {
                    assert(hay[k] == "</category>"@[k - 20 - lv - et]);
                }
            }
            assert forall|k: int| 1 <= k <= 8 implies hay[k] == "category"@[k - 1] by {
                assert(hay[k] == "<category domain=\""@[k]);
            }
            assert(hay[c + 1] == "</category>"@[1]);
            assert forall|i: int| !match_at(hay, needle, i) by {
                if 0 <= i && i + needle.len() <= hay.len() {
                    if hay.subrange(i, i + needle.len() as int) == needle {
                        assert(hay[i] == needle[0]);
                        if i == 0 {
                            assert(hay[j + 1] == needle[j + 1]);
                            assert(false);
                        } else if i == c {
                            assert(hay[i + 1] == needle[1]);
                            assert(hay[i + 1] == '/');
                            assert(false);
                        } else {
                            assert(hay[i] != '<');
                            assert(false);
                        }
                    }
                }
            }
            lemma_occurrences_none(hay, needle);
        },
    }
}

/// Builds a [`Category`]; the text is required, the domain optional.
#[derive(Clone, Debug)]
pub struct CategoryBuilder {
    domain: Option<String>,
    text: Option<String>,
}

/// The model of a [`CategoryBuilder`]: which fields have been set, and to what.
pub ghost struct CategoryBuilderModel {
    pub domain: Option<Seq<char>>,
    pub text: Option<Seq<char>>,
}

impl View for CategoryBuilder {
    type V = CategoryBuilderModel;

    closed spec fn view(&self) -> CategoryBuilderModel {
        CategoryBuilderModel { domain: view_opt(self.domain), text: view_opt(self.text) }
    }
}

impl Default for CategoryBuilder {
    /// A builder with no field set.
    fn default() -> (r: CategoryBuilder)
        ensures
            r@.domain is None,
            r@.text is None,
    {
        CategoryBuilder { domain: None, text: None }
    }
}

impl CategoryBuilder {
    /// A builder with the required text already set.
    pub fn new(text: &str) -> (r: CategoryBuilder)
        ensures
            r@.domain is None,
            r@.text == Some(text@),
    {
        CategoryBuilder { domain: None, text: Some(String::from_str(text)) }
    }

    /// Sets the category text.
    pub fn text(self, text: &str) -> (r: CategoryBuilder)
        ensures
            r@ == (CategoryBuilderModel { text: Some(text@), ..self@ }),
    {
        CategoryBuilder { text: Some(String::from_str(text)), ..self }
    }

    /// Sets the domain attribute.
    pub fn domain(self, domain: &str) -> (r: CategoryBuilder)
        ensures
            r@ == (CategoryBuilderModel { domain: Some(domain@), ..self@ }),
    {
        CategoryBuilder { domain: Some(String::from_str(domain)), ..self }
    }

    /// Produces the category, or the name of the required field that was
    /// never set.
    pub fn build(self) -> (r: Result<Category, RssError>)
        ensures
            r is Ok <==> self@.text is Some,
            r matches Ok(c) ==> c@ == (CategoryModel {
                domain: self@.domain,
                text: self@.text->Some_0,
            }),
            r matches Err(e) ==> e@ == RssErrorModel::MissingRequiredField("text"@),
    {
        match self.text {
            Some(text) => Ok(Category { domain: self.domain, text }),
            None => Err(RssError::MissingRequiredField(String::from_str("text"))),
        }
    }
}

} // verus!
