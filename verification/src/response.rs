//! The typed records a response decodes into.
//!
//! Every record is a plain value: decoding a response produces a fresh,
//! immutable tree of these, owned by the envelope. Each exec type has a
//! mathematical image (its deep view) over which the decoding contracts in
//! `decode` are stated: strings become character sequences, vectors become
//! sequences, and nested records become their images.
//!
//! Two wire fields are inconsistently typed upstream and are modelled as
//! tagged unions rather than coerced: the metadata's version field
//! (`FyydApiVersion`) and a podcast's episode count (`StringOrU32`).

use vstd::prelude::*;

use crate::addr::FyydIpAddr;
use crate::json::JsonNumber;
use crate::json::JsonNumberV;

verus! {

/// One episode of a podcast.
#[derive(Clone, Debug, PartialEq, Eq)]
pub struct FyydEpisode {
    pub title: String,
    pub num_episode: u64,
    pub num_season: Option<u16>,
    pub id: u64,
    pub guid: String,
    pub url: String,
    pub podcast_id: u64,
    pub img_url: Option<String>,
    pub content_type: Option<String>,
    pub inserted: Option<String>,
    pub pub_date: Option<String>,
    pub duration: Option<u16>,
    pub url_fyyd: Option<String>,
    pub description: Option<String>,
}

/// The mathematical image of a `FyydEpisode`.
#[verifier::ext_equal]
pub struct FyydEpisodeV {
    pub title: Seq<char>,
    pub num_episode: u64,
    pub num_season: Option<u16>,
    pub id: u64,
    pub guid: Seq<char>,
    pub url: Seq<char>,
    pub podcast_id: u64,
    pub img_url: Option<Seq<char>>,
    pub content_type: Option<Seq<char>>,
    pub inserted: Option<Seq<char>>,
    pub pub_date: Option<Seq<char>>,
    pub duration: Option<u16>,
    pub url_fyyd: Option<Seq<char>>,
    pub description: Option<Seq<char>>,
}

impl DeepView for FyydEpisode {
    type V = FyydEpisodeV;

    open spec fn deep_view(&self) -> FyydEpisodeV {
        FyydEpisodeV {
            title: self.title.deep_view(),
            num_episode: self.num_episode,
            num_season: self.num_season,
            id: self.id,
            guid: self.guid.deep_view(),
            url: self.url.deep_view(),
            podcast_id: self.podcast_id,
            img_url: self.img_url.deep_view(),
            content_type: self.content_type.deep_view(),
            inserted: self.inserted.deep_view(),
            pub_date: self.pub_date.deep_view(),
            duration: self.duration,
            url_fyyd: self.url_fyyd.deep_view(),
            description: self.description.deep_view(),
        }
    }
}

/// A wire field that arrives as either a string or an unsigned integer.
/// The decoder tries the numeric reading first, then the string reading
/// (`decode::spec_string_or_u32`).
#[derive(Clone, Debug, PartialEq, Eq)]
pub enum StringOrU32 {
    Str(String),
    U32(u32),
}

/// The mathematical image of a `StringOrU32`.
pub enum StringOrU32V {
    Str(Seq<char>),
    U32(u32),
}

impl DeepView for StringOrU32 {
    type V = StringOrU32V;

    open spec fn deep_view(&self) -> StringOrU32V {
        match self {
            StringOrU32::Str(s) => StringOrU32V::Str(s@),
            StringOrU32::U32(n) => StringOrU32V::U32(*n),
        }
    }
}

/// One podcast of the directory, with its feed and image addresses and,
/// for the episode-listing endpoint, its episodes embedded.
#[derive(Clone, Debug, PartialEq, Eq)]
pub struct FyydPodcast {
    pub title: String,
    pub id: u64,
    pub guid: Option<String>,
    pub xml_url: String,
    pub html_url: Option<String>,
    pub img_url: String,
    pub status: u16,
    pub status_since: String,
    pub slug: String,
    pub layout_image_url: String,
    pub thumb_image_url: String,
    pub small_image_url: String,
    pub micro_image_url: String,
    pub language: Option<String>,
    pub lastpoll: Option<String>,
    pub generator: Option<String>,
    pub categories: Vec<u16>,
    pub lastpub: String,
    pub rank: u16,
    pub url_fyyd: String,
    pub description: String,
    pub subtitle: String,
    pub tcolor: Option<String>,
    pub color: Option<String>,
    pub episode_count: Option<StringOrU32>,
    pub episodes: Option<Vec<FyydEpisode>>,
    pub iflags: Option<String>,
    pub payment_url: Option<String>,
    pub author: Option<String>,
}

/// The mathematical image of a `FyydPodcast`.
#[verifier::ext_equal]
pub struct FyydPodcastV {
    pub title: Seq<char>,
    pub id: u64,
    pub guid: Option<Seq<char>>,
    pub xml_url: Seq<char>,
    pub html_url: Option<Seq<char>>,
    pub img_url: Seq<char>,
    pub status: u16,
    pub status_since: Seq<char>,
    pub slug: Seq<char>,
    pub layout_image_url: Seq<char>,
    pub thumb_image_url: Seq<char>,
    pub small_image_url: Seq<char>,
    pub micro_image_url: Seq<char>,
    pub language: Option<Seq<char>>,
    pub lastpoll: Option<Seq<char>>,
    pub generator: Option<Seq<char>>,
    pub categories: Seq<u16>,
    pub lastpub: Seq<char>,
    pub rank: u16,
    pub url_fyyd: Seq<char>,
    pub description: Seq<char>,
    pub subtitle: Seq<char>,
    pub tcolor: Option<Seq<char>>,
    pub color: Option<Seq<char>>,
    pub episode_count: Option<StringOrU32V>,
    pub episodes: Option<Seq<FyydEpisodeV>>,
    pub iflags: Option<Seq<char>>,
    pub payment_url: Option<Seq<char>>,
    pub author: Option<Seq<char>>,
}

impl DeepView for FyydPodcast {
    type V = FyydPodcastV;

    open spec fn deep_view(&self) -> FyydPodcastV {
        FyydPodcastV {
            title: self.title.deep_view(),
            id: self.id,
            guid: self.guid.deep_view(),
            xml_url: self.xml_url.deep_view(),
            html_url: self.html_url.deep_view(),
            img_url: self.img_url.deep_view(),
            status: self.status,
            status_since: self.status_since.deep_view(),
            slug: self.slug.deep_view(),
            layout_image_url: self.layout_image_url.deep_view(),
            thumb_image_url: self.thumb_image_url.deep_view(),
            small_image_url: self.small_image_url.deep_view(),
            micro_image_url: self.micro_image_url.deep_view(),
            language: self.language.deep_view(),
            lastpoll: self.lastpoll.deep_view(),
            generator: self.generator.deep_view(),
            categories: self.categories.deep_view(),
            lastpub: self.lastpub.deep_view(),
            rank: self.rank,
            url_fyyd: self.url_fyyd.deep_view(),
            description: self.description.deep_view(),
            subtitle: self.subtitle.deep_view(),
            tcolor: self.tcolor.deep_view(),
            color: self.color.deep_view(),
            episode_count: self.episode_count.deep_view(),
            episodes: self.episodes.deep_view(),
            iflags: self.iflags.deep_view(),
            payment_url: self.payment_url.deep_view(),
            author: self.author.deep_view(),
        }
    }
}

/// The version field of the metadata block: the upstream API reports its
/// version sometimes as a string and sometimes as a number, so both
/// readings are kept, losslessly.
#[derive(Clone, Debug)]
pub enum FyydApiVersion {
    ApiVersionString(String),
    ApiVersionNumber(JsonNumber),
}

/// The mathematical image of a `FyydApiVersion`.
pub enum FyydApiVersionV {
    ApiVersionString(Seq<char>),
    ApiVersionNumber(JsonNumberV),
}

impl DeepView for FyydApiVersion {
    type V = FyydApiVersionV;

    open spec fn deep_view(&self) -> FyydApiVersionV {
        match self {
            FyydApiVersion::ApiVersionString(s) => FyydApiVersionV::ApiVersionString(s@),
            FyydApiVersion::ApiVersionNumber(n) => FyydApiVersionV::ApiVersionNumber(
                n.deep_view(),
            ),
        }
    }
}

/// The API's self-description inside the metadata block.
#[derive(Clone, Debug)]
pub struct FyydApiInfo {
    pub api_version: FyydApiVersion,
}

/// The mathematical image of a `FyydApiInfo`.
#[verifier::ext_equal]
pub struct FyydApiInfoV {
    pub api_version: FyydApiVersionV,
}

impl DeepView for FyydApiInfo {
    type V = FyydApiInfoV;

    open spec fn deep_view(&self) -> FyydApiInfoV {
        FyydApiInfoV { api_version: self.api_version.deep_view() }
    }
}

/// The pagination block of a list response. Requesting a page beyond
/// `last_page` is not an error: the server answers with a valid, possibly
/// empty page, and this client passes page numbers through unchecked.
#[derive(Clone, Copy, Debug, PartialEq, Eq)]
pub struct FyydPaging {
    pub count: u16,
    pub page: u16,
    pub first_page: u16,
    pub last_page: i32,
    pub next_page: Option<u16>,
    pub prev_page: Option<u16>,
}

impl DeepView for FyydPaging {
    type V = FyydPaging;

    open spec fn deep_view(&self) -> FyydPaging {
        *self
    }
}

/// The metadata block of a response. Everything but the API info is
/// optional; `paging` appears only on list endpoints.
#[derive(Clone, Debug)]
pub struct FyydMetadata {
    pub count: Option<u16>,
    pub api_info: FyydApiInfo,
    pub paging: Option<FyydPaging>,
    pub server: Option<FyydIpAddr>,
    pub duration: Option<u16>,
}

/// The mathematical image of a `FyydMetadata`.
#[verifier::ext_equal]
pub struct FyydMetadataV {
    pub count: Option<u16>,
    pub api_info: FyydApiInfoV,
    pub paging: Option<FyydPaging>,
    pub server: Option<Seq<char>>,
    pub duration: Option<u16>,
}

impl DeepView for FyydMetadata {
    type V = FyydMetadataV;

    open spec fn deep_view(&self) -> FyydMetadataV {
        FyydMetadataV {
            count: self.count,
            api_info: self.api_info.deep_view(),
            paging: self.paging.deep_view(),
            server: self.server.deep_view(),
            duration: self.duration,
        }
    }
}

/// The top-level envelope of every response: a status, a message, the
/// metadata block, and the payload. The payload is absent when the status
/// reports a failure — absence is "no results", never a decode error.
#[derive(Clone, Debug)]
pub struct FyydResponse<T> {
    pub status: u16,
    pub msg: String,
    pub meta: FyydMetadata,
    pub data: Option<T>,
}

/// The mathematical image of a `FyydResponse<T>`, over the image of its
/// payload type.
#[verifier::ext_equal]
pub struct FyydResponseV<D> {
    pub status: u16,
    pub msg: Seq<char>,
    pub meta: FyydMetadataV,
    pub data: Option<D>,
}

impl<T: DeepView> DeepView for FyydResponse<T> {
    type V = FyydResponseV<<T as DeepView>::V>;

    open spec fn deep_view(&self) -> FyydResponseV<<T as DeepView>::V> {
        FyydResponseV {
            status: self.status,
            msg: self.msg.deep_view(),
            meta: self.meta.deep_view(),
            data: self.data.deep_view(),
        }
    }
}

/// A payload that is either one episode or a list of podcast feeds.
#[derive(Clone, Debug)]
pub enum FyydData {
    FyydEpisode(Box<FyydEpisode>),
    FyydPodcastFeeds(Vec<FyydPodcast>),
}

/// The mathematical image of a `FyydData`.
pub enum FyydDataV {
    FyydEpisode(FyydEpisodeV),
    FyydPodcastFeeds(Seq<FyydPodcastV>),
}

impl DeepView for FyydData {
    type V = FyydDataV;

    open spec fn deep_view(&self) -> FyydDataV {
        match self {
            FyydData::FyydEpisode(e) => FyydDataV::FyydEpisode(e.deep_view()),
            FyydData::FyydPodcastFeeds(f) => FyydDataV::FyydPodcastFeeds(f.deep_view()),
        }
    }
}

/// A list of podcast feeds under its wire name.
#[derive(Clone, Debug, PartialEq, Eq)]
pub struct FyydPodcastFeeds {
    pub feeds: Vec<FyydPodcast>,
}

/// The mathematical image of a `FyydPodcastFeeds`.
#[verifier::ext_equal]
pub struct FyydPodcastFeedsV {
    pub feeds: Seq<FyydPodcastV>,
}

impl DeepView for FyydPodcastFeeds {
    type V = FyydPodcastFeedsV;

    open spec fn deep_view(&self) -> FyydPodcastFeedsV {
        FyydPodcastFeedsV { feeds: self.feeds.deep_view() }
    }
}

/// Usage statistics of a podcast. The upstream API defines no fields for
/// this record yet.
#[derive(Clone, Debug)]
pub struct FyydPodcastStats {}

/// A curated list of episodes.
#[derive(Clone, Debug)]
pub struct FyydCuration {
    pub title: String,
    pub id: u64,
    pub description: String,
    pub layout_image_url: String,
    pub thumb_image_url: String,
    pub micro_image_url: String,
    pub public: u64,
    pub fyyd_type: u16,
    pub slug: String,
    pub user_id: u64,
    pub url: String,
    pub xml_url: String,
    pub episodes: Vec<FyydEpisode>,
}

/// The mathematical image of a `FyydCuration`.
#[verifier::ext_equal]
pub struct FyydCurationV {
    pub title: Seq<char>,
    pub id: u64,
    pub description: Seq<char>,
    pub layout_image_url: Seq<char>,
    pub thumb_image_url: Seq<char>,
    pub micro_image_url: Seq<char>,
    pub public: u64,
    pub fyyd_type: u16,
    pub slug: Seq<char>,
    pub user_id: u64,
    pub url: Seq<char>,
    pub xml_url: Seq<char>,
    pub episodes: Seq<FyydEpisodeV>,
}

impl DeepView for FyydCuration {
    type V = FyydCurationV;

    open spec fn deep_view(&self) -> FyydCurationV {
        FyydCurationV {
            title: self.title.deep_view(),
            id: self.id,
            description: self.description.deep_view(),
            layout_image_url: self.layout_image_url.deep_view(),
            thumb_image_url: self.thumb_image_url.deep_view(),
            micro_image_url: self.micro_image_url.deep_view(),
            public: self.public,
            fyyd_type: self.fyyd_type,
            slug: self.slug.deep_view(),
            user_id: self.user_id,
            url: self.url.deep_view(),
            xml_url: self.xml_url.deep_view(),
            episodes: self.episodes.deep_view(),
        }
    }
}

} // verus!
