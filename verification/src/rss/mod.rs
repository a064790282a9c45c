//! The RSS 2.0 document model: the feed container, its channel, items and
//! leaf values, each with a builder that enforces required fields and a
//! serializer with an exact contract.

pub mod category;
pub mod channel;
pub mod enclosure;
pub mod image;
pub mod item;
pub mod item_guid;
pub mod item_source;

pub use category::{Category, CategoryBuilder, CategoryModel};
pub use channel::{Channel, ChannelBuilder, ChannelModel};
pub use enclosure::{Enclosure, EnclosureModel};
pub use image::{Image, ImageBuilder, ImageModel};
pub use item::{Item, ItemBuilder, ItemModel};
pub use item_guid::{ItemGuid, ItemGuidBuilder, ItemGuidModel};
pub use item_source::{ItemSource, ItemSourceBuilder, ItemSourceModel};

use vstd::prelude::*;

verus! {

/// Why building a document-model value failed.
#[derive(Clone, Debug, PartialEq, Eq)]
pub enum RssError {
    /// A required field was never set; the name of that field.
    MissingRequiredField(String),
}

/// The model of an [`RssError`].
pub ghost enum RssErrorModel {
    MissingRequiredField(Seq<char>),
}

impl View for RssError {
    type V = RssErrorModel;

    closed spec fn view(&self) -> RssErrorModel {
        match self {
            RssError::MissingRequiredField(f) => RssErrorModel::MissingRequiredField(f@),
        }
    }
}

impl RssError {
    /// The name of the field that was never set.
    pub fn field_name(&self) -> (r: &str)
        ensures
            self@ == RssErrorModel::MissingRequiredField(r@),
    {
        match self {
            RssError::MissingRequiredField(f) => f.as_str(),
        }
    }
}

/// The RSS version a feed declares.
#[derive(Clone, Copy, Debug, PartialEq, Eq, Structural)]
pub enum RssVersion {
    RSS2_0,
}

impl RssVersion {
    /// The version as it is written in the `version` attribute.
    pub fn as_str(&self) -> (r: &'static str)
        ensures
            r@ == "2.0"@,
    {
        match self {
            RssVersion::RSS2_0 => "2.0",
        }
    }
}

/// A whole feed: the version attribute and the one channel.
#[derive(Clone, Debug, PartialEq, Eq)]
pub struct Rss {
    version: RssVersion,
    channel: Channel,
}

/// The model of an [`Rss`] feed.
pub ghost struct RssModel {
    pub version: RssVersion,
    pub channel: ChannelModel,
}

impl View for Rss {
    type V = RssModel;

    closed spec fn view(&self) -> RssModel {
        RssModel { version: self.version, channel: self.channel@ }
    }
}

/// The XML form: `<rss version="2.0">` wrapping the one channel.
pub open spec fn spec_rss_xml(m: RssModel) -> Seq<char> {
    "<rss version=\"2.0\">"@ + channel::spec_channel_xml(m.channel) + "</rss>"@
}

/// The XML declaration written at the head of a feed document.
pub open spec fn spec_xml_decl() -> Seq<char> {
    "<?xml version=\"1.0\" encoding=\"utf-8\"?>"@
}

impl Rss {
    /// A feed for the channel, declared as RSS 2.0.
    pub fn new(channel: Channel) -> (r: Rss)
        ensures
            r@ == (RssModel { version: RssVersion::RSS2_0, channel: channel@ }),
    {
        Rss { version: RssVersion::RSS2_0, channel }
    }

    /// Serializes the feed to its XML form, without the XML declaration.
    pub fn to_xml(&self) -> (r: String)
        ensures
            r@ == spec_rss_xml(self@),
    {
        let mut out = String::new();
        out.append("<rss version=\"2.0\">");
        let c = self.channel.to_xml();
        out.append(c.as_str());
        out.append("</rss>");
        proof {
            assert(out@ =~= spec_rss_xml(self@));
        }
        out
    }

    /// Serializes the feed as a self-contained document: the XML declaration,
    /// then the feed.
    pub fn to_xml_document(&self) -> (r: String)
        ensures
            r@ == spec_xml_decl() + spec_rss_xml(self@),
    {
        let mut out = String::new();
        out.append("<?xml version=\"1.0\" encoding=\"utf-8\"?>");
        let x = self.to_xml();
        out.append(x.as_str());
        proof {
            assert(out@ =~= spec_xml_decl() + spec_rss_xml(self@));
        }
        out
    }
}

} // verus!
