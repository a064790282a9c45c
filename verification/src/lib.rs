//! Builds RSS 2.0 feed documents for PBS FM radio programs.
//!
//! The crate models the RSS document (channel, items and their leaf values),
//! enforces which fields are required and which are optional, maps fetched
//! program and episode records to the document model, and serializes the
//! result to RSS 2.0 XML with a fixed element order.

pub mod airnet;
pub mod datetime;
pub mod rss;
pub mod xmltext;

use crate::airnet::types::{episodes_view, Episode, EpisodeModel, ProgramDetails,
    ProgramDetailsModel};
use crate::datetime::DateTime;
use crate::rss::category::CategoryModel;
use crate::rss::channel::ChannelModel;
use crate::rss::enclosure::EnclosureModel;
use crate::rss::image::ImageModel;
use crate::rss::item::ItemModel;
use crate::rss::item_guid::ItemGuidModel;
use crate::rss::{CategoryBuilder, ChannelBuilder, Enclosure, ImageBuilder, Item, ItemBuilder,
    ItemGuidBuilder, Rss, RssError, RssModel, RssVersion};
use vstd::pervasive::unreached;
use vstd::prelude::*;
use vstd::string::StrSliceExecFns;
use vstd::string::StringExecFns;

verus! {

/// Strips a query string: everything from the first `?` (inclusive) to the
/// end of the URL is removed; a URL without `?` is returned unchanged.
pub open spec fn spec_strip_query(s: Seq<char>) -> Seq<char>
    decreases s.len(),
{
    if s.len() == 0 {
        Seq::empty()
    } else if s[0] == '?' {
        Seq::empty()
    } else {
        seq![s[0]] + spec_strip_query(s.skip(1))
    }
}

proof fn lemma_strip_query_prefix(s: Seq<char>, i: int)
    requires
        0 <= i <= s.len(),
        forall|j: int| 0 <= j < i ==> s[j] != '?',
        i == s.len() || s[i] == '?',
    ensures
        spec_strip_query(s) == s.take(i),
    decreases i,
{
    if i == 0 {
        assert(spec_strip_query(s) =~= s.take(0));
    } else {
        lemma_strip_query_prefix(s.skip(1), i - 1);
        assert(spec_strip_query(s) =~= s.take(i));
    }
}

/// Removes the query string, from the first `?` to the end, from a URL; a
/// URL without one is returned unchanged.
pub fn rm_query_params(url: &str) -> (r: String)
    ensures
        r@ == spec_strip_query(url@),
{
    let len = url.unicode_len();
    let mut out = String::new();
    let mut i: usize = 0;
    while i < len
        invariant
            len == url@.len(),
            i <= len,
            out@ == url@.take(i as int),
            forall|j: int| 0 <= j < i ==> url@[j] != '?',
        decreases len - i,
    {
        let c = url.get_char(i);
        if c == '?' {
            proof {
                lemma_strip_query_prefix(url@, i as int);
            }
            return out;
        }
        out.push(c);
        proof {
            assert(out@ =~= url@.take(i + 1));
        }
        i = i + 1;
    }
    proof {
        lemma_strip_query_prefix(url@, len as int);
    }
    out
}

/// The program's page: `https://www.pbsfm.org.au/program/{slug}`.
pub open spec fn spec_program_link(slug: Seq<char>) -> Seq<char> {
    "https://www.pbsfm.org.au/program/"@ + slug
}

/// An episode's page: the program link, the start date and the start time,
/// the time with `-` between its fields.
pub open spec fn spec_episode_link(slug: Seq<char>, start: DateTime) -> Seq<char> {
    spec_program_link(slug) + "/"@ + start.spec_date() + "/"@ + start.spec_time('-')
}

/// An episode's audio URL, with `+` between the date and the time of the
/// start stamp.
pub open spec fn spec_enclosure_url(slug: Seq<char>, start: DateTime) -> Seq<char> {
    "https://airnet.org.au/omnystudio/3pbs/"@ + slug + "/"@ + start.spec_date() + "+"@
        + start.spec_time(':') + "/aac_mid.m4a"@
}

/// An item's title: the episode's own, or `Untitled - ` and the start date
/// when the episode has none.
pub open spec fn spec_item_title(title: Option<Seq<char>>, start: DateTime) -> Seq<char> {
    match title {
        Some(t) => t,
        None => "Untitled - "@ + start.spec_date(),
    }
}

/// The item one episode maps to: title with its fallback, link and guid both
/// the episode link, the program's broadcasters as author, the episode
/// description or an empty one, the audio enclosure with unknown length, and
/// the start date as publication date.
pub open spec fn spec_item_for(p: ProgramDetailsModel, e: EpisodeModel) -> ItemModel {
    ItemModel {
        title: Some(spec_item_title(e.title, e.start)),
        link: Some(spec_episode_link(p.slug, e.start)),
        description: Some(
            match e.description {
                Some(d) => d,
                None => Seq::empty(),
            },
        ),
        author: Some(p.broadcasters),
        category: None,
        comments: None,
        enclosure: Some(
            EnclosureModel {
                url: spec_enclosure_url(p.slug, e.start),
                length: None,
                media_type: "audio/mp4"@,
            },
        ),
        guid: Some(ItemGuidModel { is_permalink: None, guid: spec_episode_link(p.slug, e.start) }),
        pub_date: Some(e.start.spec_date()),
        source: None,
    }
}

/// The channel one program maps to: name, page link and description from the
/// program; the grid description, or an empty text, as category; the profile
/// image with its query string stripped; language `en`; one item per episode,
/// in the order the episodes came.
pub open spec fn spec_channel_for(p: ProgramDetailsModel, es: Seq<EpisodeModel>) -> ChannelModel {
    ChannelModel {
        title: p.name,
        link: spec_program_link(p.slug),
        description: p.description,
        language: Some("en"@),
        copyright: None,
        managing_editor: None,
        web_master: None,
        pub_date: None,
        last_build_date: None,
        category: Some(
            CategoryModel {
                domain: None,
                text: match p.grid_description {
                    Some(g) => g,
                    None => Seq::empty(),
                },
            },
        ),
        generator: None,
        docs: None,
        ttl: None,
        image: Some(
            ImageModel {
                url: spec_strip_query(p.profile_image_url),
                title: p.name,
                link: spec_program_link(p.slug),
                width: None,
                height: None,
                description: None,
            },
        ),
        rating: None,
        skip_hours: None,
        skip_days: None,
        items: Seq::new(es.len(), |i: int| spec_item_for(p, es[i])),
    }
}

/// Law: the mapping keeps episode order. The channel holds one item per
/// episode, and the item at each position is the mapping of the episode at
/// the same position: nothing is dropped, added or re-sorted.
pub proof fn lemma_mapping_preserves_order(p: ProgramDetailsModel, es: Seq<EpisodeModel>)
    ensures
        spec_channel_for(p, es).items.len() == es.len(),
        forall|i: int|
            0 <= i < es.len() ==> spec_channel_for(p, es).items[i] == spec_item_for(p, es[i]),
{
}

/// Builds the program's page link.
pub fn program_link(program: &ProgramDetails) -> (r: String)
    ensures
        r@ == spec_program_link(program@.slug),
{
    let mut out = String::from_str("https://www.pbsfm.org.au/program/");
    out.append(program.slug.as_str());
    out
}

/// Builds an episode's page link from the program and the start stamp.
pub fn episode_link(program: &ProgramDetails, start: DateTime) -> (r: String)
    requires
        start.wf(),
    ensures
        r@ == spec_episode_link(program@.slug, start),
{
    let mut out = program_link(program);
    out.append("/");
    start.push_date(&mut out);
    out.append("/");
    start.push_time(&mut out, '-');
    out
}

/// Builds an episode's audio URL from the program and the start stamp.
pub fn enclosure_url(program: &ProgramDetails, start: DateTime) -> (r: String)
    requires
        start.wf(),
    ensures
        r@ == spec_enclosure_url(program@.slug, start),
{
    let mut out = String::from_str("https://airnet.org.au/omnystudio/3pbs/");
    out.append(program.slug.as_str());
    out.append("/");
    start.push_date(&mut out);
    out.append("+");
    start.push_time(&mut out, ':');
    out.append("/aac_mid.m4a");
    out
}

/// The title an episode's item gets: the episode's own, or the dated
/// fallback.
pub fn item_title(episode: &Episode) -> (r: String)
    requires
        episode.start.wf(),
    ensures
        r@ == spec_item_title(episode@.title, episode.start),
{
    match &episode.title {
        Some(t) => t.clone(),
        None => {
            let mut out = String::from_str("Untitled - ");
            episode.start.push_date(&mut out);
            out
        },
    }
}

/// Maps each episode to one feed item, in the order the episodes came.
pub fn convert_to_items_v2(program: &ProgramDetails, episodes: Vec<Episode>) -> (r: Vec<Item>)
    requires
        forall|i: int| 0 <= i < episodes@.len() ==> (#[trigger] episodes@[i]).start.wf(),
    ensures
        r@.len() == episodes@.len(),
        forall|i: int|
            0 <= i < r@.len() ==> (#[trigger] r@[i])@ == spec_item_for(program@, episodes@[i]@),
{
    let mut items: Vec<Item> = Vec::new();
    let mut k: usize = 0;
    while k < episodes.len()
        invariant
            forall|i: int| 0 <= i < episodes@.len() ==> (#[trigger] episodes@[i]).start.wf(),
            k <= episodes@.len(),
            items@.len() == k,
            forall|i: int|
                0 <= i < k ==> (#[trigger] items@[i])@ == spec_item_for(program@, episodes@[i]@),
        decreases episodes@.len() - k,
    {
        let episode = &episodes[k];
        let start = episode.start;

        let link = episode_link(program, start);
        let audio_url = enclosure_url(program, start);
        let title = item_title(episode);

        let builder = ItemBuilder::with_title(title.as_str());
        let builder = match &episode.description {
            Some(d) => builder.description(d.as_str()),
            None => builder.description(""),
        };
        let guid = match ItemGuidBuilder::new(link.as_str()).build() {
            Ok(g) => g,
            Err(_) => unreached(),
        };
        let pub_date = start.date_string();
        let item = match builder.link(link.as_str()).guid(guid).author(
            program.broadcasters.as_str(),
        ).enclosure(Enclosure::new(audio_url.as_str(), None, "audio/mp4")).pub_date(
            pub_date.as_str(),
        ).build() {
            Ok(it) => it,
            Err(_) => unreached(),
        };
        proof {
            reveal_strlit("");
            assert(""@ =~= Seq::<char>::empty());
            assert(item@ == spec_item_for(program@, episodes@[k as int]@));
        }
        items.push(item);
        k = k + 1;
    }
    items
}

/// Maps a program and its episodes to a complete RSS 2.0 feed; with every
/// required channel field supplied by the mapping, building cannot fail.
pub fn convert_to_rss_v2(program: ProgramDetails, episodes: Vec<Episode>) -> (r: Result<
    Rss,
    RssError,
>)
    requires
        forall|i: int| 0 <= i < episodes@.len() ==> (#[trigger] episodes@[i]).start.wf(),
    ensures
        r matches Ok(rss) && rss@ == (RssModel {
            version: RssVersion::RSS2_0,
            channel: spec_channel_for(program@, episodes_view(episodes@)),
        }),
{
    let link = program_link(&program);

    let category = match &program.grid_description {
        Some(g) => CategoryBuilder::new(g.as_str()),
        None => CategoryBuilder::new(""),
    };
    let category = match category.build() {
        Ok(c) => c,
        Err(_) => unreached(),
    };

    let image_url = rm_query_params(program.profile_image_url.as_str());
    let image = match ImageBuilder::new(
        image_url.as_str(),
        program.name.as_str(),
        link.as_str(),
    ).build() {
        Ok(im) => im,
        Err(_) => unreached(),
    };

    let items = convert_to_items_v2(&program, episodes);

    let channel = match ChannelBuilder::new(
        program.name.as_str(),
        link.as_str(),
        program.description.as_str(),
    ).category(category).image(image).language("en").item(items).build() {
        Ok(c) => c,
        Err(_) => unreached(),
    };

    let rss = Rss::new(channel);
    proof {
        reveal_strlit("");
        assert(""@ =~= Seq::<char>::empty());
        assert(rss@.channel.items =~= spec_channel_for(
            program@,
            episodes_view(episodes@),
        ).items);
        assert(rss@.channel =~= spec_channel_for(program@, episodes_view(episodes@)));
    }
    Ok(rss)
}

} // verus!
