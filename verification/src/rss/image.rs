//! The `<image>` element: required url, title and link; optional width,
//! height and description.

use crate::rss::{RssError, RssErrorModel};
use crate::xmltext::{close_tag, gt_terminated, interior_no_gt, lemma_frame_no_foreign_tag,
    lemma_frame_own_tag, lemma_gt_terminated_concat, lemma_num_elem_no_foreign_tag,
    lemma_occurrences_concat, lemma_opt_other_tag_no_element, lemma_opt_text_elem_gt,
    lemma_other_tag_no_element, num_elem, occurrences, open_tag, opt_text_elem, tag_wf,
    tags_differ, text_elem, view_opt, write_num_elem, write_opt_text_elem, write_text_elem};
use vstd::prelude::*;
use vstd::string::StringExecFns;

verus! {

/// The channel's image.
#[derive(Clone, Debug, PartialEq, Eq)]
pub struct Image {
    url: String,
    title: String,
    link: String,
    width: Option<u32>,
    height: Option<u32>,
    description: Option<String>,
}

/// The model of an [`Image`].
pub ghost struct ImageModel {
    pub url: Seq<char>,
    pub title: Seq<char>,
    pub link: Seq<char>,
    pub width: Option<u32>,
    pub height: Option<u32>,
    pub description: Option<Seq<char>>,
}

impl View for Image {
    type V = ImageModel;

    closed spec fn view(&self) -> ImageModel {
        ImageModel {
            url: self.url@,
            title: self.title@,
            link: self.link@,
            width: self.width,
            height: self.height,
            description: view_opt(self.description),
        }
    }
}

/// The XML form: url, title and link, then each optional field that is set,
/// in declared order; absent fields leave no element.
pub open spec fn spec_image_xml(m: ImageModel) -> Seq<char> {
    "<image>"@ + text_elem("url"@, m.url) + text_elem("title"@, m.title) + text_elem(
        "link"@,
        m.link,
    ) + match m.width {
        Some(w) => num_elem("width"@, w as nat),
        None => Seq::empty(),
    } + match m.height {
        Some(h) => num_elem("height"@, h as nat),
        None => Seq::empty(),
    } + opt_text_elem("description"@, m.description) + "</image>"@
}

impl Image {
    /// Serializes the image to its XML form.
    pub fn to_xml(&self) -> (r: String)
        ensures
            r@ == spec_image_xml(self@),
    {
        let mut out = String::new();
        out.append("<image>");
        write_text_elem(&mut out, "url", self.url.as_str());
        write_text_elem(&mut out, "title", self.title.as_str());
        write_text_elem(&mut out, "link", self.link.as_str());
        match self.width {
            Some(w) => write_num_elem(&mut out, "width", w as u64),
            None => (),
        }
        match self.height {
            Some(h) => write_num_elem(&mut out, "height", h as u64),
            None => (),
        }
        write_opt_text_elem(&mut out, "description", &self.description);
        out.append("</image>");
        proof {
            assert(out@ =~= spec_image_xml(self@));
        }
        out
    }
}

/// Occurrence counting over a whole serialized image splits into its eight
/// parts: every part ends in `>`, and a tag needle holds `>` only at its
/// end, so no occurrence can straddle a boundary.
proof fn lemma_image_xml_occurrence_sum(m: ImageModel, needle: Seq<char>)
    requires
        needle.len() > 0,
        interior_no_gt(needle),
    ensures
        occurrences(spec_image_xml(m), needle) == occurrences("<image>"@, needle) + occurrences(
            text_elem("url"@, m.url),
            needle,
        ) + occurrences(text_elem("title"@, m.title), needle) + occurrences(
            text_elem("link"@, m.link),
            needle,
        ) + occurrences(
            match m.width {
                Some(w) => num_elem("width"@, w as nat),
                None => Seq::empty(),
            },
            needle,
        ) + occurrences(
            match m.height {
                Some(h) => num_elem("height"@, h as nat),
                None => Seq::empty(),
            },
            needle,
        ) + occurrences(opt_text_elem("description"@, m.description), needle) + occurrences(
            "</image>"@,
            needle,
        ),
{
    reveal_strlit(">");
    reveal_strlit("<image>");
    reveal_strlit("</image>");
    let f1 = text_elem("url"@, m.url);
    let f2 = text_elem("title"@, m.title);
    let f3 = text_elem("link"@, m.link);
    let f4 = match m.width {
        Some(w) => num_elem("width"@, w as nat),
        None => Seq::empty(),
    };
    let f5 = match m.height {
        Some(h) => num_elem("height"@, h as nat),
        None => Seq::empty(),
    };
    let f6 = opt_text_elem("description"@, m.description);
    lemma_opt_text_elem_gt("url"@, Some(m.url));
    lemma_opt_text_elem_gt("title"@, Some(m.title));
    lemma_opt_text_elem_gt("link"@, Some(m.link));
    match m.width {
        Some(w) => {
            assert(num_elem("width"@, w as nat).last() == close_tag("width"@).last());
            assert(close_tag("width"@).last() == '>');
        },
        None => (),
    }
    assert(gt_terminated(f4));
    match m.height {
        Some(h) => {
            assert(num_elem("height"@, h as nat).last() == close_tag("height"@).last());
            assert(close_tag("height"@).last() == '>');
        },
        None => (),
    }
    assert(gt_terminated(f5));
    lemma_opt_text_elem_gt("description"@, m.description);
    let p0 = "<image>"@;
    assert(gt_terminated(p0));
    lemma_occurrences_concat(p0, f1, needle);
    lemma_gt_terminated_concat(p0, f1);
    let p1 = p0 + f1;
    lemma_occurrences_concat(p1, f2, needle);
    lemma_gt_terminated_concat(p1, f2);
    let p2 = p1 + f2;
    lemma_occurrences_concat(p2, f3, needle);
    lemma_gt_terminated_concat(p2, f3);
    let p3 = p2 + f3;
    lemma_occurrences_concat(p3, f4, needle);
    lemma_gt_terminated_concat(p3, f4);
    let p4 = p3 + f4;
    lemma_occurrences_concat(p4, f5, needle);
    lemma_gt_terminated_concat(p4, f5);
    let p5 = p4 + f5;
    lemma_occurrences_concat(p5, f6, needle);
    lemma_gt_terminated_concat(p5, f6);
    let p6 = p5 + f6;
    lemma_occurrences_concat(p6, "</image>"@, needle);
    assert(spec_image_xml(m) == p6 + "</image>"@);
}

/// A serialized image carries no opening tag of a name that differs from
/// its own frame and from each of its six field names.
pub proof fn lemma_image_no_foreign_tag(tag: Seq<char>, m: ImageModel)
    requires
        tag_wf(tag),
        tags_differ(tag, "image"@),
        tags_differ(tag, "url"@),
        tags_differ(tag, "title"@),
        tags_differ(tag, "link"@),
        tags_differ(tag, "width"@),
        tags_differ(tag, "height"@),
        tags_differ(tag, "description"@),
    ensures
        occurrences(spec_image_xml(m), open_tag(tag)) == 0,
{
    let needle = open_tag(tag);
    reveal_strlit("<");
    reveal_strlit(">");
    reveal_strlit("</");
    reveal_strlit("image");
    reveal_strlit("<image>");
    reveal_strlit("</image>");
    reveal_strlit("url");
    reveal_strlit("title");
    reveal_strlit("link");
    reveal_strlit("width");
    reveal_strlit("height");
    reveal_strlit("description");
    assert(tag_wf("image"@));
    assert(tag_wf("url"@));
    assert(tag_wf("title"@));
    assert(tag_wf("link"@));
    assert(tag_wf("width"@));
    assert(tag_wf("height"@));
    assert(tag_wf("description"@));
    assert forall|k: int| 0 <= k < needle.len() - 1 implies #[trigger] needle[k] != '>' by {
        if k > 0 {
            assert(needle[k] == tag[k - 1]);
        }
    }
    lemma_image_xml_occurrence_sum(m, needle);
    lemma_frame_no_foreign_tag(tag, "image"@);
    assert("<image>"@ =~= open_tag("image"@));
    assert("</image>"@ =~= close_tag("image"@));
    lemma_other_tag_no_element(tag, "url"@, m.url);
    lemma_other_tag_no_element(tag, "title"@, m.title);
    lemma_other_tag_no_element(tag, "link"@, m.link);
    match m.width {
        Some(w) => lemma_num_elem_no_foreign_tag(tag, "width"@, w as nat),
        None => (),
    }
    match m.height {
        Some(h) => lemma_num_elem_no_foreign_tag(tag, "height"@, h as nat),
        None => (),
    }
    lemma_opt_other_tag_no_element(tag, "description"@, m.description);
}

/// A serialized image holds exactly one occurrence of its own opening tag:
/// its frame, and nothing inside it, spells `<image>`.
pub proof fn lemma_image_own_tag_occurrences(m: ImageModel)
    ensures
        occurrences(spec_image_xml(m), open_tag("image"@)) == 1,
{
    let tag = "image"@;
    let needle = open_tag(tag);
    reveal_strlit("<");
    reveal_strlit(">");
    reveal_strlit("</");
    reveal_strlit("image");
    reveal_strlit("<image>");
    reveal_strlit("</image>");
    reveal_strlit("url");
    reveal_strlit("title");
    reveal_strlit("link");
    reveal_strlit("width");
    reveal_strlit("height");
    reveal_strlit("description");
    assert(tag_wf(tag));
    assert(tag_wf("url"@));
    assert(tag_wf("title"@));
    assert(tag_wf("link"@));
    assert(tag_wf("width"@));
    assert(tag_wf("height"@));
    assert(tag_wf("description"@));
    assert forall|k: int| 0 <= k < needle.len() - 1 implies #[trigger] needle[k] != '>' by {
        if k > 0 {
            assert(needle[k] == tag[k - 1]);
        }
    }
    lemma_image_xml_occurrence_sum(m, needle);
    lemma_frame_own_tag(tag);
    assert("<image>"@ =~= open_tag(tag));
    assert("</image>"@ =~= close_tag(tag));
    assert(tags_differ(tag, "url"@)) by {
        assert(tag[0] != "url"@[0]);
    }
    lemma_other_tag_no_element(tag, "url"@, m.url);
    assert(tags_differ(tag, "title"@)) by {
        assert(tag[0] != "title"@[0]);
    }
    lemma_other_tag_no_element(tag, "title"@, m.title);
    assert(tags_differ(tag, "link"@)) by {
        assert(tag[0] != "link"@[0]);
    }
    lemma_other_tag_no_element(tag, "link"@, m.link);
    assert(tags_differ(tag, "width"@)) by {
        assert(tag[0] != "width"@[0]);
    }
    match m.width {
        Some(w) => lemma_num_elem_no_foreign_tag(tag, "width"@, w as nat),
        None => (),
    }
    assert(tags_differ(tag, "height"@)) by {
        assert(tag[0] != "height"@[0]);
    }
    match m.height {
        Some(h) => lemma_num_elem_no_foreign_tag(tag, "height"@, h as nat),
        None => (),
    }
    assert(tags_differ(tag, "description"@)) by {
        assert(tag[0] != "description"@[0]);
    }
    lemma_opt_other_tag_no_element(tag, "description"@, m.description);
}

/// Builds an [`Image`]; url, title and link are required.
#[derive(Clone, Debug)]
pub struct ImageBuilder {
    url: Option<String>,
    title: Option<String>,
    link: Option<String>,
    width: Option<u32>,
    height: Option<u32>,
    description: Option<String>,
}

/// The model of an [`ImageBuilder`].
pub ghost struct ImageBuilderModel {
    pub url: Option<Seq<char>>,
    pub title: Option<Seq<char>>,
    pub link: Option<Seq<char>>,
    pub width: Option<u32>,
    pub height: Option<u32>,
    pub description: Option<Seq<char>>,
}

impl View for ImageBuilder {
    type V = ImageBuilderModel;

    closed spec fn view(&self) -> ImageBuilderModel {
        ImageBuilderModel {
            url: view_opt(self.url),
            title: view_opt(self.title),
            link: view_opt(self.link),
            width: self.width,
            height: self.height,
            description: view_opt(self.description),
        }
    }
}

impl Default for ImageBuilder {
    /// A builder with no field set.
    fn default() -> (r: ImageBuilder)
        ensures
            r@ == (ImageBuilderModel {
                url: None,
                title: None,
                link: None,
                width: None,
                height: None,
                description: None,
            }),
    {
        ImageBuilder {
            url: None,
            title: None,
            link: None,
            width: None,
            height: None,
            description: None,
        }
    }
}

impl ImageBuilder {
    /// A builder with the three required fields already set.
    pub fn new(url: &str, title: &str, link: &str) -> (r: ImageBuilder)
        ensures
            r@ == (ImageBuilderModel {
                url: Some(url@),
                title: Some(title@),
                link: Some(link@),
                width: None,
                height: None,
                description: None,
            }),
    {
        ImageBuilder {
            url: Some(String::from_str(url)),
            title: Some(String::from_str(title)),
            link: Some(String::from_str(link)),
            width: None,
            height: None,
            description: None,
        }
    }

    /// Sets the image URL.
    pub fn url(self, url: &str) -> (r: ImageBuilder)
        ensures
            r@ == (ImageBuilderModel { url: Some(url@), ..self@ }),
    {
        ImageBuilder { url: Some(String::from_str(url)), ..self }
    }

    /// Sets the image title.
    pub fn title(self, title: &str) -> (r: ImageBuilder)
        ensures
            r@ == (ImageBuilderModel { title: Some(title@), ..self@ }),
    {
        ImageBuilder { title: Some(String::from_str(title)), ..self }
    }

    /// Sets the link the image points at.
    pub fn link(self, link: &str) -> (r: ImageBuilder)
        ensures
            r@ == (ImageBuilderModel { link: Some(link@), ..self@ }),
    {
        ImageBuilder { link: Some(String::from_str(link)), ..self }
    }

    /// Sets the width in pixels.
    pub fn width(self, width: u32) -> (r: ImageBuilder)
        ensures
            r@ == (ImageBuilderModel { width: Some(width), ..self@ }),
    {
        ImageBuilder { width: Some(width), ..self }
    }

    /// Sets the height in pixels.
    pub fn height(self, height: u32) -> (r: ImageBuilder)
        ensures
            r@ == (ImageBuilderModel { height: Some(height), ..self@ }),
    {
        ImageBuilder { height: Some(height), ..self }
    }

    /// Sets the image description.
    pub fn description(self, description: &str) -> (r: ImageBuilder)
        ensures
            r@ == (ImageBuilderModel { description: Some(description@), ..self@ }),
    {
        ImageBuilder { description: Some(String::from_str(description)), ..self }
    }

    /// Produces the image, or the name of the first required field, in
    /// declared order, that was never set.
    pub fn build(self) -> (r: Result<Image, RssError>)
        ensures
            r is Ok <==> self@.url is Some && self@.title is Some && self@.link is Some,
            r matches Ok(im) ==> im@ == (ImageModel {
                url: self@.url->Some_0,
                title: self@.title->Some_0,
                link: self@.link->Some_0,
                width: self@.width,
                height: self@.height,
                description: self@.description,
            }),
            r matches Err(e) ==> e@ == RssErrorModel::MissingRequiredField(
                if self@.url is None {
                    "url"@
                } else if self@.title is None {
                    "title"@
                } else {
                    "link"@
                },
            ),
    {
        let url = match self.url {
            Some(url) => url,
            None => {
                return Err(RssError::MissingRequiredField(String::from_str("url")));
            },
        };
        let title = match self.title {
            Some(title) => title,
            None => {
                return Err(RssError::MissingRequiredField(String::from_str("title")));
            },
        };
        let link = match self.link {
            Some(link) => link,
            None => {
                return Err(RssError::MissingRequiredField(String::from_str("link")));
            },
        };
        Ok(Image {
            url,
            title,
            link,
            width: self.width,
            height: self.height,
            description: self.description,
        })
    }
}

} // verus!
