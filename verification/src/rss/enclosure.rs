//! The `<enclosure>` element: the item's media attachment, written as an
//! attribute-only, self-closing tag.

use crate::xmltext::{attr, esc, lemma_dec_digits, lemma_esc_no_eq, lemma_esc_no_markup,
    lemma_occurrences_none, lemma_occurrences_single, match_at, num_attr, occurrences, open_tag,
    spec_dec, tag_wf, tags_differ, write_attr, write_num_attr};
use vstd::prelude::*;
use vstd::string::StringExecFns;

verus! {

/// A media attachment: its URL, its length in bytes when known, and its
/// media type.
#[derive(Clone, Debug, PartialEq, Eq)]
pub struct Enclosure {
    url: String,
    length: Option<u64>,
    media_type: String,
}

/// The model of an [`Enclosure`].
pub ghost struct EnclosureModel {
    pub url: Seq<char>,
    pub length: Option<u64>,
    pub media_type: Seq<char>,
}

impl View for Enclosure {
    type V = EnclosureModel;

    closed spec fn view(&self) -> EnclosureModel {
        EnclosureModel { url: self.url@, length: self.length, media_type: self.media_type@ }
    }
}

/// The XML form: `<enclosure url=".." length=".." type=".."/>`; an unknown
/// length leaves the attribute out entirely.
pub open spec fn spec_enclosure_xml(m: EnclosureModel) -> Seq<char> {
    "<enclosure"@ + attr("url"@, m.url) + match m.length {
        Some(n) => num_attr("length"@, n as nat),
        None => Seq::empty(),
    } + attr("type"@, m.media_type) + "/>"@
}

impl Enclosure {
    /// An enclosure from its parts; a length of `None` records that the size
    /// is unknown.
    pub fn new(url: &str, length: Option<u64>, media_type: &str) -> (r: Enclosure)
        ensures
            r@ == (EnclosureModel { url: url@, length, media_type: media_type@ }),
    {
        Enclosure {
            url: String::from_str(url),
            length,
            media_type: String::from_str(media_type),
        }
    }

    /// Serializes the enclosure to its XML form.
    pub fn to_xml(&self) -> (r: String)
        ensures
            r@ == spec_enclosure_xml(self@),
    {
        let mut out = String::new();
        out.append("<enclosure");
        write_attr(&mut out, "url", self.url.as_str());
        match self.length {
            Some(n) => write_num_attr(&mut out, "length", n),
            None => (),
        }
        write_attr(&mut out, "type", self.media_type.as_str());
        out.append("/>");
        proof {
            assert(out@ =~= spec_enclosure_xml(self@));
        }
        out
    }
}

/// A serialized enclosure carries no opening tag of another name: its only
/// `<` is its own first character.
pub proof fn lemma_enclosure_no_foreign_tag(tag: Seq<char>, m: EnclosureModel)
    requires
        tag_wf(tag),
        tags_differ(tag, "enclosure"@),
    ensures
        occurrences(spec_enclosure_xml(m), open_tag(tag)) == 0,
{
    let needle = open_tag(tag);
    let u = esc(m.url);
    let t = esc(m.media_type);
    let eu = u.len() as int;
    let et = t.len() as int;
    reveal_strlit("<");
    reveal_strlit(">");
    reveal_strlit("enclosure");
    reveal_strlit("<enclosure");
    reveal_strlit(" ");
    reveal_strlit("url");
    reveal_strlit("type");
    reveal_strlit("length");
    reveal_strlit("=\"");
    reveal_strlit("\"");
    reveal_strlit("/>");
    reveal_strlit("<enclosure url=\"");
    reveal_strlit("\" type=\"");
    reveal_strlit("\" length=\"");
    reveal_strlit("\"/>");
    lemma_esc_no_markup(m.url);
    lemma_esc_no_markup(m.media_type);
    let j = choose|j: int| 0 <= j < tag.len() && j < "enclosure"@.len() && tag[j]
        != "enclosure"@[j];
    assert(needle[0] == '<');
    assert(needle[j + 1] == tag[j]);
    match m.length {
        None => {
            let hay = "<enclosure url=\""@ + u + "\" type=\""@ + t + "\"/>"@;
            assert(spec_enclosure_xml(m) =~= hay);
            assert forall|k: int| 0 <= k < hay.len() && #[trigger] hay[k] == '<' implies k
                == 0 by {
                if k < 16 {
                    assert(hay[k] == "<enclosure url=\""@[k]);
                } else if k < 16 + eu {
                    assert(hay[k] == u[k - 16]);
                } else if k < 24 + eu {
                    assert(hay[k] == "\" type=\""@[k - 16 - eu]);
                } else if k < 24 + eu + et {
                    assert(hay[k] == t[k - 24 - eu]);
                } else {
                    assert(hay[k] == "\"/>"@[k - 24 - eu - et]);
                }
            }
            assert forall|k: int| 1 <= k <= 9 implies hay[k] == "enclosure"@[k - 1] by {
                assert(hay[k] == "<enclosure url=\""@[k]);
            }
            assert forall|i: int| !match_at(hay, needle, i) by {
                if 0 <= i && i + needle.len() <= hay.len() {
                    if hay.subrange(i, i + needle.len() as int) == needle {
                        assert(hay[i] == needle[0]);
                        if i == 0 {
                            assert(hay[j + 1] == needle[j + 1]);
                            assert(false);
                        } else {
                            assert(hay[i] != '<');
                            assert(false);
                        }
                    }
                }
            }
            lemma_occurrences_none(hay, needle);
        },
        Some(n) => {
            let d = spec_dec(n as nat);
            let dn = d.len() as int;
            lemma_dec_digits(n as nat);
            let hay = "<enclosure url=\""@ + u + "\" length=\""@ + d + "\" type=\""@ + t + "\"/>"@;
            assert(spec_enclosure_xml(m) =~= hay);
            assert forall|k: int| 0 <= k < hay.len() && #[trigger] hay[k] == '<' implies k
                == 0 by {
                if k < 16 {
                    assert(hay[k] == "<enclosure url=\""@[k]);
                } else if k < 16 + eu {
                    assert(hay[k] == u[k - 16]);
                } else if k < 26 + eu {
                    assert(hay[k] == "\" length=\""@[k - 16 - eu]);
                } else if k < 26 + eu + dn {
                    assert(hay[k] == d[k - 26 - eu]);
                } else if k < 34 + eu + dn {
                    assert(hay[k] == "\" type=\""@[k - 26 - eu - dn]);
                } else if k < 34 + eu + dn + et {
                    assert(hay[k] == t[k - 34 - eu - dn]);
                } else {
                    assert(hay[k] == "\"/>"@[k - 34 - eu - dn - et]);
                }
            }
            assert forall|k: int| 1 <= k <= 9 implies hay[k] == "enclosure"@[k - 1] by {
                assert(hay[k] == "<enclosure url=\""@[k]);
            }
            assert forall|i: int| !match_at(hay, needle, i) by {
                if 0 <= i && i + needle.len() <= hay.len() {
                    if hay.subrange(i, i + needle.len() as int) == needle {
                        assert(hay[i] == needle[0]);
                        if i == 0 {
                            assert(hay[j + 1] == needle[j + 1]);
                            assert(false);
                        } else {
                            assert(hay[i] != '<');
                            assert(false);
                        }
                    }
                }
            }
            lemma_occurrences_none(hay, needle);
        },
    }
}

/// Law: the length attribute is written exactly when a length is known. In
/// the serialized enclosure the fragment ` length="` occurs once when a
/// length was set and not at all when none was, for every URL and media type
/// that hold no `=` of their own (the feed's generated URLs and media types
/// never do; a value with `=` could spell the fragment itself).
pub proof fn lemma_length_attr_occurrences(m: EnclosureModel)
    requires
        forall|k: int| 0 <= k < m.url.len() ==> m.url[k] != '=',
        forall|k: int| 0 <= k < m.media_type.len() ==> m.media_type[k] != '=',
    ensures
        m.length is None ==> occurrences(spec_enclosure_xml(m), " length=\""@) == 0,
        m.length is Some ==> occurrences(spec_enclosure_xml(m), " length=\""@) == 1,
{
    let needle = " length=\""@;
    let u = esc(m.url);
    let t = esc(m.media_type);
    let eu = u.len() as int;
    let et = t.len() as int;
    reveal_strlit(" length=\"");
    reveal_strlit("<enclosure");
    reveal_strlit(" ");
    reveal_strlit("url");
    reveal_strlit("type");
    reveal_strlit("length");
    reveal_strlit("=\"");
    reveal_strlit("\"");
    reveal_strlit("/>");
    reveal_strlit("<enclosure url=\"");
    reveal_strlit("\" type=\"");
    reveal_strlit("\" length=\"");
    reveal_strlit("\"/>");
    lemma_esc_no_eq(m.url);
    lemma_esc_no_eq(m.media_type);
    lemma_esc_no_markup(m.url);
    lemma_esc_no_markup(m.media_type);
    let l1 = "<enclosure url=\""@;
    let l2 = "\" type=\""@;
    let l3 = "\"/>"@;
    assert(needle.len() == 9);
    assert(l1.len() == 16);
    assert(l2.len() == 8);
    assert(l3.len() == 3);
    match m.length {
        None => {
            let hay = l1 + u + l2 + t + l3;
            assert(spec_enclosure_xml(m) =~= hay);
            assert forall|k: int| 0 <= k < hay.len() && #[trigger] hay[k] == '=' implies k == 14
                || k == 22 + eu by {
                if k < 16 {
                    assert(hay[k] == l1[k]);
                } else if k < 16 + eu {
                    assert(hay[k] == u[k - 16]);
                } else if k < 24 + eu {
                    assert(hay[k] == l2[k - 16 - eu]);
                } else if k < 24 + eu + et {
                    assert(hay[k] == t[k - 24 - eu]);
                } else {
                    assert(hay[k] == l3[k - 24 - eu - et]);
                }
            }
            assert forall|i: int| !match_at(hay, needle, i) by {
                if 0 <= i && i + 9 <= hay.len() {
                    if hay.subrange(i, i + 9) == needle {
                        assert(hay[i + 7] == needle[7]);
                        assert(hay[i + 7] == '=');
                        if i + 7 == 14 {
                            assert(hay[i + 6] == l1[13]);
                            assert(needle[6] == 'h');
                            assert(false);
                        } else {
                            assert(i + 7 == 22 + eu);
                            assert(hay[i + 6] == l2[5]);
                            assert(needle[6] == 'h');
                            assert(false);
                        }
                    }
                }
            }
            lemma_occurrences_none(hay, needle);
        },
        Some(n) => {
            let d = spec_dec(n as nat);
            let dn = d.len() as int;
            let m1 = "\" length=\""@;
            assert(m1.len() == 10);
            lemma_dec_digits(n as nat);
            let hay = l1 + u + m1 + d + l2 + t + l3;
            assert(spec_enclosure_xml(m) =~= hay);
            assert forall|k: int| 0 <= k < hay.len() && #[trigger] hay[k] == '=' implies k == 14
                || k == 24 + eu || k == 32 + eu + dn by {
                if k < 16 {
                    assert(hay[k] == l1[k]);
                } else if k < 16 + eu {
                    assert(hay[k] == u[k - 16]);
                } else if k < 26 + eu {
                    assert(hay[k] == m1[k - 16 - eu]);
                } else if k < 26 + eu + dn {
                    assert(hay[k] == d[k - 26 - eu]);
                } else if k < 34 + eu + dn {
                    assert(hay[k] == l2[k - 26 - eu - dn]);
                } else if k < 34 + eu + dn + et {
                    assert(hay[k] == t[k - 34 - eu - dn]);
                } else {
                    assert(hay[k] == l3[k - 34 - eu - dn - et]);
                }
            }
            let p = 17 + eu;
            assert(hay.subrange(p, p + 9) =~= needle);
            assert(match_at(hay, needle, p));
            assert forall|i: int| i != p implies !match_at(hay, needle, i) by {
                if 0 <= i && i + 9 <= hay.len() {
                    if hay.subrange(i, i + 9) == needle {
                        assert(hay[i + 7] == needle[7]);
                        assert(hay[i + 7] == '=');
                        if i + 7 == 14 {
                            assert(hay[i + 6] == l1[13]);
                            assert(needle[6] == 'h');
                            assert(false);
                        } else if i + 7 == 32 + eu + dn {
                            assert(hay[i + 6] == l2[5]);
                            assert(needle[6] == 'h');
                            assert(false);
                        } else {
                            assert(i == p);
                        }
                    }
                }
            }
            lemma_occurrences_single(hay, needle, p);
        },
    }
}

} // verus!
