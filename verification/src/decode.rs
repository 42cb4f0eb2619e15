//! Decoding of response bodies into the typed records of `response`.
//!
//! The upstream API returns loosely-typed JSON: fields that arrive as a
//! string or as a number, optional blocks, nullable page links. The
//! decoding rules are these:
//!
//! - a required field must be present with the right shape, or the whole
//!   decode fails;
//! - an optional field decodes to an explicit absent value when it is
//!   missing or `null`, and fails on any other wrong shape — absence is
//!   never conflated with an empty or default value;
//! - unknown fields are ignored, so the upstream API may add fields
//!   without breaking the client;
//! - the two union fields (`API_VERSION`, `episode_count`) try the
//!   numeric reading first, then the string reading; no third shape is
//!   accepted.
//!
//! Every decoder is specified against a spec function of the same name
//! (`decode_episode` against `spec_episode`, and so on): the spec
//! function is the meaning of the wire shape, and the exec function is
//! proved to return exactly it.

use vstd::prelude::*;

use crate::addr::FyydIpAddr;
use crate::addr::spec_addr_text;
use crate::error::Error;
use crate::json::JsonNumber;
use crate::json::JsonValue;
use crate::json::lookup;
use crate::json::spec_lookup;
use crate::response::FyydApiInfo;
use crate::response::FyydApiInfoV;
use crate::response::FyydApiVersion;
use crate::response::FyydApiVersionV;
use crate::response::FyydData;
use crate::response::FyydDataV;
use crate::response::FyydEpisode;
use crate::response::FyydEpisodeV;
use crate::response::FyydMetadata;
use crate::response::FyydMetadataV;
use crate::response::FyydPaging;
use crate::response::FyydPodcast;
use crate::response::FyydPodcastV;
use crate::response::FyydResponse;
use crate::response::FyydResponseV;
use crate::response::StringOrU32;
use crate::response::StringOrU32V;

verus! {

// ---------------------------------------------------------------------
// Field readers: one spec function and one exec function per field kind.
// `f` is always the field list of the surrounding JSON object.
// ---------------------------------------------------------------------

/// A required string field: present and a string, or the record fails.
pub open spec fn spec_req_str(f: Seq<(String, JsonValue)>, key: Seq<char>) -> Option<Seq<char>> {
    match spec_lookup(f, key) {
        Some(JsonValue::Str(s)) => Some(s@),
        _ => None,
    }
}

/// An optional string field: absent or `null` reads as absent; a string
/// reads as itself; any other shape fails the record.
pub open spec fn spec_opt_str(f: Seq<(String, JsonValue)>, key: Seq<char>) -> Option<
    Option<Seq<char>>,
> {
    match spec_lookup(f, key) {
        None => Some(None),
        Some(JsonValue::Null) => Some(None),
        Some(JsonValue::Str(s)) => Some(Some(s@)),
        Some(_) => None,
    }
}

/// A required unsigned integer field.
pub open spec fn spec_req_u64(f: Seq<(String, JsonValue)>, key: Seq<char>) -> Option<u64> {
    match spec_lookup(f, key) {
        Some(JsonValue::Num(JsonNumber::PosInt(n))) => Some(n),
        _ => None,
    }
}

/// A required unsigned integer field that must fit in sixteen bits.
pub open spec fn spec_req_u16(f: Seq<(String, JsonValue)>, key: Seq<char>) -> Option<u16> {
    match spec_lookup(f, key) {
        Some(JsonValue::Num(JsonNumber::PosInt(n))) => if n <= 0xffff {
            Some(n as u16)
        } else {
            None
        },
        _ => None,
    }
}

/// An optional unsigned sixteen-bit integer field.
pub open spec fn spec_opt_u16(f: Seq<(String, JsonValue)>, key: Seq<char>) -> Option<Option<u16>> {
    match spec_lookup(f, key) {
        None => Some(None),
        Some(JsonValue::Null) => Some(None),
        Some(JsonValue::Num(JsonNumber::PosInt(n))) => if n <= 0xffff {
            Some(Some(n as u16))
        } else {
            None
        },
        Some(_) => None,
    }
}

/// A required signed thirty-two-bit integer field (the pagination's
/// `last_page`, which the upstream API may report negative).
pub open spec fn spec_req_i32(f: Seq<(String, JsonValue)>, key: Seq<char>) -> Option<i32> {
    match spec_lookup(f, key) {
        Some(JsonValue::Num(JsonNumber::PosInt(n))) => if n <= 0x7fff_ffff {
            Some(n as i32)
        } else {
            None
        },
        Some(JsonValue::Num(JsonNumber::NegInt(m))) => if -0x8000_0000 <= m && m <= 0x7fff_ffff {
            Some(m as i32)
        } else {
            None
        },
        _ => None,
    }
}

/// Finds `key` in the field list; the exec side of `spec_lookup` plus the
/// object check done by every record decoder.
fn get_req_str(f: &Vec<(String, JsonValue)>, key: &str) -> (r: Option<String>)
    ensures
        match r {
            Some(s) => spec_req_str(f@, key@) == Some(s@),
            None => spec_req_str(f@, key@) is None,
        },
{
    match lookup(f, key) {
        Some(JsonValue::Str(s)) => Some(s.clone()),
        _ => None,
    }
}

fn get_opt_str(f: &Vec<(String, JsonValue)>, key: &str) -> (r: Option<Option<String>>)
    ensures
        match r {
            Some(o) => spec_opt_str(f@, key@) == Some(o.deep_view()),
            None => spec_opt_str(f@, key@) is None,
        },
{
    match lookup(f, key) {
        None => Some(None),
        Some(JsonValue::Null) => Some(None),
        Some(JsonValue::Str(s)) => Some(Some(s.clone())),
        Some(_) => None,
    }
}

fn get_req_u64(f: &Vec<(String, JsonValue)>, key: &str) -> (r: Option<u64>)
    ensures
        match r {
            Some(n) => spec_req_u64(f@, key@) == Some(n),
            None => spec_req_u64(f@, key@) is None,
        },
{
    match lookup(f, key) {
        Some(JsonValue::Num(JsonNumber::PosInt(n))) => Some(*n),
        _ => None,
    }
}

fn get_req_u16(f: &Vec<(String, JsonValue)>, key: &str) -> (r: Option<u16>)
    ensures
        match r {
            Some(n) => spec_req_u16(f@, key@) == Some(n),
            None => spec_req_u16(f@, key@) is None,
        },
{
    match lookup(f, key) {
        Some(JsonValue::Num(JsonNumber::PosInt(n))) => if *n <= 0xffff {
            Some(*n as u16)
        } else {
            None
        },
        _ => None,
    }
}

fn get_opt_u16(f: &Vec<(String, JsonValue)>, key: &str) -> (r: Option<Option<u16>>)
    ensures
        match r {
            Some(o) => spec_opt_u16(f@, key@) == Some(o),
            None => spec_opt_u16(f@, key@) is None,
        },
{
    match lookup(f, key) {
        None => Some(None),
        Some(JsonValue::Null) => Some(None),
        Some(JsonValue::Num(JsonNumber::PosInt(n))) => if *n <= 0xffff {
            Some(Some(*n as u16))
        } else {
            None
        },
        Some(_) => None,
    }
}

fn get_req_i32(f: &Vec<(String, JsonValue)>, key: &str) -> (r: Option<i32>)
    ensures
        match r {
            Some(n) => spec_req_i32(f@, key@) == Some(n),
            None => spec_req_i32(f@, key@) is None,
        },
{
    match lookup(f, key) {
        Some(JsonValue::Num(JsonNumber::PosInt(n))) => if *n <= 0x7fff_ffff {
            Some(*n as i32)
        } else {
            None
        },
        Some(JsonValue::Num(JsonNumber::NegInt(m))) => if -0x8000_0000 <= *m && *m <= 0x7fff_ffff {
            Some(*m as i32)
        } else {
            None
        },
        _ => None,
    }
}

// ---------------------------------------------------------------------
// The two union fields.
// ---------------------------------------------------------------------

/// The string-or-unsigned union: the numeric reading is tried first (a
/// non-negative integer that fits in thirty-two bits), then the string
/// reading; anything else fails.
pub open spec fn spec_string_or_u32(j: JsonValue) -> Option<StringOrU32V> {
    match j {
        JsonValue::Num(JsonNumber::PosInt(n)) => if n <= 0xffff_ffff {
            Some(StringOrU32V::U32(n as u32))
        } else {
            None
        },
        JsonValue::Str(s) => Some(StringOrU32V::Str(s@)),
        _ => None,
    }
}

/// Decodes the string-or-unsigned union, as `spec_string_or_u32` reads it.
pub fn decode_string_or_u32(j: &JsonValue) -> (r: Option<StringOrU32>)
    ensures
        match r {
            Some(v) => spec_string_or_u32(*j) == Some(v.deep_view()),
            None => spec_string_or_u32(*j) is None,
        },
{
    match j {
        JsonValue::Num(JsonNumber::PosInt(n)) => if *n <= 0xffff_ffff {
            Some(StringOrU32::U32(*n as u32))
        } else {
            None
        },
        JsonValue::Str(s) => Some(StringOrU32::Str(s.clone())),
        _ => None,
    }
}

/// The optional `episode_count` field of a podcast.
pub open spec fn spec_opt_episode_count(f: Seq<(String, JsonValue)>, key: Seq<char>) -> Option<
    Option<StringOrU32V>,
> {
    match spec_lookup(f, key) {
        None => Some(None),
        Some(JsonValue::Null) => Some(None),
        Some(j) => match spec_string_or_u32(j) {
            Some(v) => Some(Some(v)),
            None => None,
        },
    }
}

fn get_opt_episode_count(f: &Vec<(String, JsonValue)>, key: &str) -> (r: Option<
    Option<StringOrU32>,
>)
    ensures
        match r {
            Some(o) => spec_opt_episode_count(f@, key@) == Some(o.deep_view()),
            None => spec_opt_episode_count(f@, key@) is None,
        },
{
    match lookup(f, key) {
        None => Some(None),
        Some(JsonValue::Null) => Some(None),
        Some(j) => match decode_string_or_u32(j) {
            Some(v) => Some(Some(v)),
            None => None,
        },
    }
}

/// The version union: a number of any of the wire's three numeric forms
/// is kept losslessly, a string is kept as it is; the numeric reading is
/// tried first, then the string reading; anything else fails.
pub open spec fn spec_api_version(j: JsonValue) -> Option<FyydApiVersionV> {
    match j {
        JsonValue::Num(n) => Some(FyydApiVersionV::ApiVersionNumber(n.deep_view())),
        JsonValue::Str(s) => Some(FyydApiVersionV::ApiVersionString(s@)),
        _ => None,
    }
}

/// Decodes the version union, as `spec_api_version` reads it.
pub fn decode_api_version(j: &JsonValue) -> (r: Option<FyydApiVersion>)
    ensures
        match r {
            Some(v) => spec_api_version(*j) == Some(v.deep_view()),
            None => spec_api_version(*j) is None,
        },
{
    match j {
        JsonValue::Num(n) => Some(FyydApiVersion::ApiVersionNumber(dup_number(n))),
        JsonValue::Str(s) => Some(FyydApiVersion::ApiVersionString(s.clone())),
        _ => None,
    }
}

/// A copy of a number with the same mathematical image.
fn dup_number(n: &JsonNumber) -> (r: JsonNumber)
    ensures
        r.deep_view() == n.deep_view(),
{
    match n {
        JsonNumber::PosInt(u) => JsonNumber::PosInt(*u),
        JsonNumber::NegInt(i) => JsonNumber::NegInt(*i),
        JsonNumber::Float(t) => JsonNumber::Float(t.clone()),
    }
}

// ---------------------------------------------------------------------
// Arrays of numbers and of records.
// ---------------------------------------------------------------------

/// An array of unsigned sixteen-bit integers (a podcast's category ids).
pub open spec fn spec_u16_seq(elems: Seq<JsonValue>) -> Option<Seq<u16>>
    decreases elems.len(),
{
    if elems.len() == 0 {
        Some(Seq::empty())
    } else {
        match (spec_u16_seq(elems.drop_last()), elems.last()) {
            (Some(rest), JsonValue::Num(JsonNumber::PosInt(n))) => if n <= 0xffff {
                Some(rest.push(n as u16))
            } else {
                None
            },
            _ => None,
        }
    }
}

proof fn lemma_u16_seq_none(elems: Seq<JsonValue>, i: int)
    requires
        0 <= i < elems.len(),
        match elems[i] {
            JsonValue::Num(JsonNumber::PosInt(n)) => n > 0xffff,
            _ => true,
        },
    ensures
        spec_u16_seq(elems) is None,
    decreases elems.len(),
{
    if i < elems.len() - 1 {
        assert(elems.drop_last()[i] == elems[i]);
        lemma_u16_seq_none(elems.drop_last(), i);
    }
}

fn decode_u16_vec(elems: &Vec<JsonValue>) -> (r: Option<Vec<u16>>)
    ensures
        match r {
            Some(v) => spec_u16_seq(elems@) == Some(v@),
            None => spec_u16_seq(elems@) is None,
        },
{
    let n: usize = elems.len();
    let mut out: Vec<u16> = Vec::new();
    let mut i: usize = 0;
    while i < n
        invariant
            0 <= i <= n,
            n == elems@.len(),
            spec_u16_seq(elems@.take(i as int)) == Some(out@),
        decreases n - i,
    {
        let x: u16 = match &elems[i] {
            JsonValue::Num(JsonNumber::PosInt(u)) => {
                if *u <= 0xffff {
                    *u as u16
                } else {
                    proof {
                        lemma_u16_seq_none(elems@, i as int);
                    }
                    return None;
                }
            },
            _ => {
                proof {
                    lemma_u16_seq_none(elems@, i as int);
                }
                return None;
            },
        };
        out.push(x);
        proof {
            assert(elems@.take(i as int + 1).drop_last() =~= elems@.take(i as int));
            assert(elems@.take(i as int + 1).last() == elems@[i as int]);
        }
        i = i + 1;
    }
    proof {
        assert(elems@.take(n as int) =~= elems@);
    }
    Some(out)
}

/// The optional category list of a podcast: the list is required by the
/// wire format, but tolerated absent nowhere — a podcast without
/// `categories` fails.
pub open spec fn spec_req_u16_list(f: Seq<(String, JsonValue)>, key: Seq<char>) -> Option<Seq<u16>> {
    match spec_lookup(f, key) {
        Some(JsonValue::Arr(elems)) => spec_u16_seq(elems@),
        _ => None,
    }
}

fn get_req_u16_list(f: &Vec<(String, JsonValue)>, key: &str) -> (r: Option<Vec<u16>>)
    ensures
        match r {
            Some(v) => spec_req_u16_list(f@, key@) == Some(v@),
            None => spec_req_u16_list(f@, key@) is None,
        },
{
    match lookup(f, key) {
        Some(JsonValue::Arr(elems)) => decode_u16_vec(elems),
        _ => None,
    }
}

// ---------------------------------------------------------------------
// Episodes.
// ---------------------------------------------------------------------

/// Whether an episode object has every required field in the right shape
/// and every optional field in an accepted shape.
pub open spec fn spec_episode_ok(f: Seq<(String, JsonValue)>) -> bool {
    &&& spec_req_str(f, "title"@) is Some
    &&& spec_req_u64(f, "num_episode"@) is Some
    &&& spec_opt_u16(f, "num_season"@) is Some
    &&& spec_req_u64(f, "id"@) is Some
    &&& spec_req_str(f, "guid"@) is Some
    &&& spec_req_str(f, "url"@) is Some
    &&& spec_req_u64(f, "podcast_id"@) is Some
    &&& spec_opt_str(f, "img_url"@) is Some
    &&& spec_opt_str(f, "content_type"@) is Some
    &&& spec_opt_str(f, "inserted"@) is Some
    &&& spec_opt_str(f, "pub_date"@) is Some
    &&& spec_opt_u16(f, "duration"@) is Some
    &&& spec_opt_str(f, "url_fyyd"@) is Some
    &&& spec_opt_str(f, "description"@) is Some
}

/// The episode an object's fields decode to, assuming `spec_episode_ok`.
pub open spec fn spec_episode_fields(f: Seq<(String, JsonValue)>) -> FyydEpisodeV {
    FyydEpisodeV {
        title: spec_req_str(f, "title"@).unwrap(),
        num_episode: spec_req_u64(f, "num_episode"@).unwrap(),
        num_season: spec_opt_u16(f, "num_season"@).unwrap(),
        id: spec_req_u64(f, "id"@).unwrap(),
        guid: spec_req_str(f, "guid"@).unwrap(),
        url: spec_req_str(f, "url"@).unwrap(),
        podcast_id: spec_req_u64(f, "podcast_id"@).unwrap(),
        img_url: spec_opt_str(f, "img_url"@).unwrap(),
        content_type: spec_opt_str(f, "content_type"@).unwrap(),
        inserted: spec_opt_str(f, "inserted"@).unwrap(),
        pub_date: spec_opt_str(f, "pub_date"@).unwrap(),
        duration: spec_opt_u16(f, "duration"@).unwrap(),
        url_fyyd: spec_opt_str(f, "url_fyyd"@).unwrap(),
        description: spec_opt_str(f, "description"@).unwrap(),
    }
}

/// What a JSON document means as an episode: an object whose fields obey
/// `spec_episode_ok`, read by `spec_episode_fields`.
pub open spec fn spec_episode(j: JsonValue) -> Option<FyydEpisodeV> {
    match j {
        JsonValue::Obj(fields) => if spec_episode_ok(fields@) {
            Some(spec_episode_fields(fields@))
        } else {
            None
        },
        _ => None,
    }
}

/// Decodes one episode, as `spec_episode` reads it.
pub fn decode_episode(j: &JsonValue) -> (r: Option<FyydEpisode>)
    ensures
        match r {
            Some(e) => spec_episode(*j) == Some(e.deep_view()),
            None => spec_episode(*j) is None,
        },
{
    let fields = match j {
        JsonValue::Obj(fields) => fields,
        _ => {
            return None;
        },
    };
    let title = match get_req_str(fields, "title") {
        Some(v) => v,
        None => {
            return None;
        },
    };
    let num_episode = match get_req_u64(fields, "num_episode") {
        Some(v) => v,
        None => {
            return None;
        },
    };
    let num_season = match get_opt_u16(fields, "num_season") {
        Some(v) => v,
        None => {
            return None;
        },
    };
    let id = match get_req_u64(fields, "id") {
        Some(v) => v,
        None => {
            return None;
        },
    };
    let guid = match get_req_str(fields, "guid") {
        Some(v) => v,
        None => {
            return None;
        },
    };
    let url = match get_req_str(fields, "url") {
        Some(v) => v,
        None => {
            return None;
        },
    };
    let podcast_id = match get_req_u64(fields, "podcast_id") {
        Some(v) => v,
        None => {
            return None;
        },
    };
    let img_url = match get_opt_str(fields, "img_url") {
        Some(v) => v,
        None => {
            return None;
        },
    };
    let content_type = match get_opt_str(fields, "content_type") {
        Some(v) => v,
        None => {
            return None;
        },
    };
    let inserted = match get_opt_str(fields, "inserted") {
        Some(v) => v,
        None => {
            return None;
        },
    };
    let pub_date = match get_opt_str(fields, "pub_date") {
        Some(v) => v,
        None => {
            return None;
        },
    };
    let duration = match get_opt_u16(fields, "duration") {
        Some(v) => v,
        None => {
            return None;
        },
    };
    let url_fyyd = match get_opt_str(fields, "url_fyyd") {
        Some(v) => v,
        None => {
            return None;
        },
    };
    let description = match get_opt_str(fields, "description") {
        Some(v) => v,
        None => {
            return None;
        },
    };
    Some(
        FyydEpisode {
            title,
            num_episode,
            num_season,
            id,
            guid,
            url,
            podcast_id,
            img_url,
            content_type,
            inserted,
            pub_date,
            duration,
            url_fyyd,
            description,
        },
    )
}

/// An array of episode objects.
pub open spec fn spec_episode_seq(elems: Seq<JsonValue>) -> Option<Seq<FyydEpisodeV>>
    decreases elems.len(),
{
    if elems.len() == 0 {
        Some(Seq::empty())
    } else {
        match (spec_episode_seq(elems.drop_last()), spec_episode(elems.last())) {
            (Some(rest), Some(e)) => Some(rest.push(e)),
            _ => None,
        }
    }
}

proof fn lemma_episode_seq_none(elems: Seq<JsonValue>, i: int)
    requires
        0 <= i < elems.len(),
        spec_episode(elems[i]) is None,
    ensures
        spec_episode_seq(elems) is None,
    decreases elems.len(),
{
    if i < elems.len() - 1 {
        assert(elems.drop_last()[i] == elems[i]);
        lemma_episode_seq_none(elems.drop_last(), i);
    }
}

fn decode_episode_vec(elems: &Vec<JsonValue>) -> (r: Option<Vec<FyydEpisode>>)
    ensures
        match r {
            Some(v) => spec_episode_seq(elems@) == Some(v.deep_view()),
            None => spec_episode_seq(elems@) is None,
        },
{
    let n: usize = elems.len();
    let mut out: Vec<FyydEpisode> = Vec::new();
    let mut i: usize = 0;
    while i < n
        invariant
            0 <= i <= n,
            n == elems@.len(),
            spec_episode_seq(elems@.take(i as int)) == Some(out.deep_view()),
        decreases n - i,
    {
        let e: FyydEpisode = match decode_episode(&elems[i]) {
            Some(e) => e,
            None => {
                proof {
                    lemma_episode_seq_none(elems@, i as int);
                }
                return None;
            },
        };
        out.push(e);
        proof {
            assert(elems@.take(i as int + 1).drop_last() =~= elems@.take(i as int));
            assert(elems@.take(i as int + 1).last() == elems@[i as int]);
        }
        i = i + 1;
    }
    proof {
        assert(elems@.take(n as int) =~= elems@);
    }
    Some(out)
}

/// The optional embedded episode list of a podcast.
pub open spec fn spec_opt_episodes(f: Seq<(String, JsonValue)>, key: Seq<char>) -> Option<
    Option<Seq<FyydEpisodeV>>,
> {
    match spec_lookup(f, key) {
        None => Some(None),
        Some(JsonValue::Null) => Some(None),
        Some(JsonValue::Arr(elems)) => match spec_episode_seq(elems@) {
            Some(es) => Some(Some(es)),
            None => None,
        },
        Some(_) => None,
    }
}

fn get_opt_episodes(f: &Vec<(String, JsonValue)>, key: &str) -> (r: Option<
    Option<Vec<FyydEpisode>>,
>)
    ensures
        match r {
            Some(o) => spec_opt_episodes(f@, key@) == Some(o.deep_view()),
            None => spec_opt_episodes(f@, key@) is None,
        },
{
    match lookup(f, key) {
        None => Some(None),
        Some(JsonValue::Null) => Some(None),
        Some(JsonValue::Arr(elems)) => match decode_episode_vec(elems) {
            Some(es) => Some(Some(es)),
            None => None,
        },
        Some(_) => None,
    }
}

// ---------------------------------------------------------------------
// Podcasts.
// ---------------------------------------------------------------------

/// Whether a podcast object has every required field in the right shape
/// and every optional field in an accepted shape. The camel-case keys are
/// the wire's names for the image and feed addresses.
pub open spec fn spec_podcast_ok(f: Seq<(String, JsonValue)>) -> bool {
    &&& spec_req_str(f, "title"@) is Some
    &&& spec_req_u64(f, "id"@) is Some
    &&& spec_opt_str(f, "guid"@) is Some
    &&& spec_req_str(f, "xmlURL"@) is Some
    &&& spec_opt_str(f, "htmlURL"@) is Some
    &&& spec_req_str(f, "imgURL"@) is Some
    &&& spec_req_u16(f, "status"@) is Some
    &&& spec_req_str(f, "status_since"@) is Some
    &&& spec_req_str(f, "slug"@) is Some
    &&& spec_req_str(f, "layoutImageURL"@) is Some
    &&& spec_req_str(f, "thumbImageURL"@) is Some
    &&& spec_req_str(f, "smallImageURL"@) is Some
    &&& spec_req_str(f, "microImageURL"@) is Some
    &&& spec_opt_str(f, "language"@) is Some
    &&& spec_opt_str(f, "lastpoll"@) is Some
    &&& spec_opt_str(f, "generator"@) is Some
    &&& spec_req_u16_list(f, "categories"@) is Some
    &&& spec_req_str(f, "lastpub"@) is Some
    &&& spec_req_u16(f, "rank"@) is Some
    &&& spec_req_str(f, "url_fyyd"@) is Some
    &&& spec_req_str(f, "description"@) is Some
    &&& spec_req_str(f, "subtitle"@) is Some
    &&& spec_opt_str(f, "tcolor"@) is Some
    &&& spec_opt_str(f, "color"@) is Some
    &&& spec_opt_episode_count(f, "episode_count"@) is Some
    &&& spec_opt_episodes(f, "episodes"@) is Some
    &&& spec_opt_str(f, "iflags"@) is Some
    &&& spec_opt_str(f, "paymentURL"@) is Some
    &&& spec_opt_str(f, "author"@) is Some
}

/// The podcast an object's fields decode to, assuming `spec_podcast_ok`.
pub open spec fn spec_podcast_fields(f: Seq<(String, JsonValue)>) -> FyydPodcastV {
    FyydPodcastV {
        title: spec_req_str(f, "title"@).unwrap(),
        id: spec_req_u64(f, "id"@).unwrap(),
        guid: spec_opt_str(f, "guid"@).unwrap(),
        xml_url: spec_req_str(f, "xmlURL"@).unwrap(),
        html_url: spec_opt_str(f, "htmlURL"@).unwrap(),
        img_url: spec_req_str(f, "imgURL"@).unwrap(),
        status: spec_req_u16(f, "status"@).unwrap(),
        status_since: spec_req_str(f, "status_since"@).unwrap(),
        slug: spec_req_str(f, "slug"@).unwrap(),
        layout_image_url: spec_req_str(f, "layoutImageURL"@).unwrap(),
        thumb_image_url: spec_req_str(f, "thumbImageURL"@).unwrap(),
        small_image_url: spec_req_str(f, "smallImageURL"@).unwrap(),
        micro_image_url: spec_req_str(f, "microImageURL"@).unwrap(),
        language: spec_opt_str(f, "language"@).unwrap(),
        lastpoll: spec_opt_str(f, "lastpoll"@).unwrap(),
        generator: spec_opt_str(f, "generator"@).unwrap(),
        categories: spec_req_u16_list(f, "categories"@).unwrap(),
        lastpub: spec_req_str(f, "lastpub"@).unwrap(),
        rank: spec_req_u16(f, "rank"@).unwrap(),
        url_fyyd: spec_req_str(f, "url_fyyd"@).unwrap(),
        description: spec_req_str(f, "description"@).unwrap(),
        subtitle: spec_req_str(f, "subtitle"@).unwrap(),
        tcolor: spec_opt_str(f, "tcolor"@).unwrap(),
        color: spec_opt_str(f, "color"@).unwrap(),
        episode_count: spec_opt_episode_count(f, "episode_count"@).unwrap(),
        episodes: spec_opt_episodes(f, "episodes"@).unwrap(),
        iflags: spec_opt_str(f, "iflags"@).unwrap(),
        payment_url: spec_opt_str(f, "paymentURL"@).unwrap(),
        author: spec_opt_str(f, "author"@).unwrap(),
    }
}

/// What a JSON document means as a podcast.
pub open spec fn spec_podcast(j: JsonValue) -> Option<FyydPodcastV> {
    match j {
        JsonValue::Obj(fields) => if spec_podcast_ok(fields@) {
            Some(spec_podcast_fields(fields@))
        } else {
            None
        },
        _ => None,
    }
}

/// Decodes one podcast, as `spec_podcast` reads it.
#[verifier::rlimit(100)]
pub fn decode_podcast(j: &JsonValue) -> (r: Option<FyydPodcast>)
    ensures
        match r {
            Some(p) => spec_podcast(*j) == Some(p.deep_view()),
            None => spec_podcast(*j) is None,
        },
{
    let fields = match j {
        JsonValue::Obj(fields) => fields,
        _ => {
            return None;
        },
    };
    let title = match get_req_str(fields, "title") {
        Some(v) => v,
        None => {
            return None;
        },
    };
    let id = match get_req_u64(fields, "id") {
        Some(v) => v,
        None => {
            return None;
        },
    };
    let guid = match get_opt_str(fields, "guid") {
        Some(v) => v,
        None => {
            return None;
        },
    };
    let xml_url = match get_req_str(fields, "xmlURL") {
        Some(v) => v,
        None => {
            return None;
        },
    };
    let html_url = match get_opt_str(fields, "htmlURL") {
        Some(v) => v,
        None => {
            return None;
        },
    };
    let img_url = match get_req_str(fields, "imgURL") {
        Some(v) => v,
        None => {
            return None;
        },
    };
    let status = match get_req_u16(fields, "status") {
        Some(v) => v,
        None => {
            return None;
        },
    };
    let status_since = match get_req_str(fields, "status_since") {
        Some(v) => v,
        None => {
            return None;
        },
    };
    let slug = match get_req_str(fields, "slug") {
        Some(v) => v,
        None => {
            return None;
        },
    };
    let layout_image_url = match get_req_str(fields, "layoutImageURL") {
        Some(v) => v,
        None => {
            return None;
        },
    };
    let thumb_image_url = match get_req_str(fields, "thumbImageURL") {
        Some(v) => v,
        None => {
            return None;
        },
    };
    let small_image_url = match get_req_str(fields, "smallImageURL") {
        Some(v) => v,
        None => {
            return None;
        },
    };
    let micro_image_url = match get_req_str(fields, "microImageURL") {
        Some(v) => v,
        None => {
            return None;
        },
    };
    let language = match get_opt_str(fields, "language") {
        Some(v) => v,
        None => {
            return None;
        },
    };
    let lastpoll = match get_opt_str(fields, "lastpoll") {
        Some(v) => v,
        None => {
            return None;
        },
    };
    let generator = match get_opt_str(fields, "generator") {
        Some(v) => v,
        None => {
            return None;
        },
    };
    let categories = match get_req_u16_list(fields, "categories") {
        Some(v) => v,
        None => {
            return None;
        },
    };
    let lastpub = match get_req_str(fields, "lastpub") {
        Some(v) => v,
        None => {
            return None;
        },
    };
    let rank = match get_req_u16(fields, "rank") {
        Some(v) => v,
        None => {
            return None;
        },
    };
    let url_fyyd = match get_req_str(fields, "url_fyyd") {
        Some(v) => v,
        None => {
            return None;
        },
    };
    let description = match get_req_str(fields, "description") {
        Some(v) => v,
        None => {
            return None;
        },
    };
    let subtitle = match get_req_str(fields, "subtitle") {
        Some(v) => v,
        None => {
            return None;
        },
    };
    let tcolor = match get_opt_str(fields, "tcolor") {
        Some(v) => v,
        None => {
            return None;
        },
    };
    let color = match get_opt_str(fields, "color") {
        Some(v) => v,
        None => {
            return None;
        },
    };
    let episode_count = match get_opt_episode_count(fields, "episode_count") {
        Some(v) => v,
        None => {
            return None;
        },
    };
    let episodes = match get_opt_episodes(fields, "episodes") {
        Some(v) => v,
        None => {
            return None;
        },
    };
    let iflags = match get_opt_str(fields, "iflags") {
        Some(v) => v,
        None => {
            return None;
        },
    };
    let payment_url = match get_opt_str(fields, "paymentURL") {
        Some(v) => v,
        None => {
            return None;
        },
    };
    let author = match get_opt_str(fields, "author") {
        Some(v) => v,
        None => {
            return None;
        },
    };
    let p = FyydPodcast {
        title,
        id,
        guid,
        xml_url,
        html_url,
        img_url,
        status,
        status_since,
        slug,
        layout_image_url,
        thumb_image_url,
        small_image_url,
        micro_image_url,
        language,
        lastpoll,
        generator,
        categories,
        lastpub,
        rank,
        url_fyyd,
        description,
        subtitle,
        tcolor,
        color,
        episode_count,
        episodes,
        iflags,
        payment_url,
        author,
    };
    proof {
        assert(p.deep_view() =~= spec_podcast_fields(fields@));
    }
    Some(p)
}

/// An array of podcast objects.
pub open spec fn spec_podcast_seq(elems: Seq<JsonValue>) -> Option<Seq<FyydPodcastV>>
    decreases elems.len(),
{
    if elems.len() == 0 {
        Some(Seq::empty())
    } else {
        match (spec_podcast_seq(elems.drop_last()), spec_podcast(elems.last())) {
            (Some(rest), Some(p)) => Some(rest.push(p)),
            _ => None,
        }
    }
}

proof fn lemma_podcast_seq_none(elems: Seq<JsonValue>, i: int)
    requires
        0 <= i < elems.len(),
        spec_podcast(elems[i]) is None,
    ensures
        spec_podcast_seq(elems) is None,
    decreases elems.len(),
{
    if i < elems.len() - 1 {
        assert(elems.drop_last()[i] == elems[i]);
        lemma_podcast_seq_none(elems.drop_last(), i);
    }
}

fn decode_podcast_vec(elems: &Vec<JsonValue>) -> (r: Option<Vec<FyydPodcast>>)
    ensures
        match r {
            Some(v) => spec_podcast_seq(elems@) == Some(v.deep_view()),
            None => spec_podcast_seq(elems@) is None,
        },
{
    let n: usize = elems.len();
    let mut out: Vec<FyydPodcast> = Vec::new();
    let mut i: usize = 0;
    while i < n
        invariant
            0 <= i <= n,
            n == elems@.len(),
            spec_podcast_seq(elems@.take(i as int)) == Some(out.deep_view()),
        decreases n - i,
    {
        let p: FyydPodcast = match decode_podcast(&elems[i]) {
            Some(p) => p,
            None => {
                proof {
                    lemma_podcast_seq_none(elems@, i as int);
                }
                return None;
            },
        };
        out.push(p);
        proof {
            assert(elems@.take(i as int + 1).drop_last() =~= elems@.take(i as int));
            assert(elems@.take(i as int + 1).last() == elems@[i as int]);
        }
        i = i + 1;
    }
    proof {
        assert(elems@.take(n as int) =~= elems@);
    }
    Some(out)
}

/// The either-shape payload: a single episode object is tried first,
/// then a list of podcast feeds — the order the union declares its
/// alternatives in.
pub open spec fn spec_data(j: JsonValue) -> Option<FyydDataV> {
    match spec_episode(j) {
        Some(e) => Some(FyydDataV::FyydEpisode(e)),
        None => match j {
            JsonValue::Arr(elems) => match spec_podcast_seq(elems@) {
                Some(ps) => Some(FyydDataV::FyydPodcastFeeds(ps)),
                None => None,
            },
            _ => None,
        },
    }
}

/// Decodes the either-shape payload, as `spec_data` reads it.
pub fn decode_data(j: &JsonValue) -> (r: Option<FyydData>)
    ensures
        match r {
            Some(d) => spec_data(*j) == Some(d.deep_view()),
            None => spec_data(*j) is None,
        },
{
    match decode_episode(j) {
        Some(e) => Some(FyydData::FyydEpisode(Box::new(e))),
        None => match j {
            JsonValue::Arr(elems) => match decode_podcast_vec(elems) {
                Some(ps) => Some(FyydData::FyydPodcastFeeds(ps)),
                None => None,
            },
            _ => None,
        },
    }
}

// ---------------------------------------------------------------------
// The metadata block.
// ---------------------------------------------------------------------

/// What a JSON document means as the API info block: an object with a
/// required `API_VERSION` union field.
pub open spec fn spec_api_info(j: JsonValue) -> Option<FyydApiInfoV> {
    match j {
        JsonValue::Obj(fields) => match spec_lookup(fields@, "API_VERSION"@) {
            Some(v) => match spec_api_version(v) {
                Some(av) => Some(FyydApiInfoV { api_version: av }),
                None => None,
            },
            None => None,
        },
        _ => None,
    }
}

/// Decodes the API info block, as `spec_api_info` reads it.
pub fn decode_api_info(j: &JsonValue) -> (r: Option<FyydApiInfo>)
    ensures
        match r {
            Some(a) => spec_api_info(*j) == Some(a.deep_view()),
            None => spec_api_info(*j) is None,
        },
{
    let fields = match j {
        JsonValue::Obj(fields) => fields,
        _ => {
            return None;
        },
    };
    match lookup(fields, "API_VERSION") {
        Some(v) => match decode_api_version(v) {
            Some(av) => Some(FyydApiInfo { api_version: av }),
            None => None,
        },
        None => None,
    }
}

/// Whether a pagination object has every field in the right shape.
pub open spec fn spec_paging_ok(f: Seq<(String, JsonValue)>) -> bool {
    &&& spec_req_u16(f, "count"@) is Some
    &&& spec_req_u16(f, "page"@) is Some
    &&& spec_req_u16(f, "first_page"@) is Some
    &&& spec_req_i32(f, "last_page"@) is Some
    &&& spec_opt_u16(f, "next_page"@) is Some
    &&& spec_opt_u16(f, "prev_page"@) is Some
}

/// The pagination block an object's fields decode to, assuming
/// `spec_paging_ok`.
pub open spec fn spec_paging_fields(f: Seq<(String, JsonValue)>) -> FyydPaging {
    FyydPaging {
        count: spec_req_u16(f, "count"@).unwrap(),
        page: spec_req_u16(f, "page"@).unwrap(),
        first_page: spec_req_u16(f, "first_page"@).unwrap(),
        last_page: spec_req_i32(f, "last_page"@).unwrap(),
        next_page: spec_opt_u16(f, "next_page"@).unwrap(),
        prev_page: spec_opt_u16(f, "prev_page"@).unwrap(),
    }
}

/// What a JSON document means as a pagination block.
pub open spec fn spec_paging(j: JsonValue) -> Option<FyydPaging> {
    match j {
        JsonValue::Obj(fields) => if spec_paging_ok(fields@) {
            Some(spec_paging_fields(fields@))
        } else {
            None
        },
        _ => None,
    }
}

/// Decodes the pagination block, as `spec_paging` reads it.
pub fn decode_paging(j: &JsonValue) -> (r: Option<FyydPaging>)
    ensures
        match r {
            Some(p) => spec_paging(*j) == Some(p),
            None => spec_paging(*j) is None,
        },
{
    let fields = match j {
        JsonValue::Obj(fields) => fields,
        _ => {
            return None;
        },
    };
    let count = match get_req_u16(fields, "count") {
        Some(v) => v,
        None => {
            return None;
        },
    };
    let page = match get_req_u16(fields, "page") {
        Some(v) => v,
        None => {
            return None;
        },
    };
    let first_page = match get_req_u16(fields, "first_page") {
        Some(v) => v,
        None => {
            return None;
        },
    };
    let last_page = match get_req_i32(fields, "last_page") {
        Some(v) => v,
        None => {
            return None;
        },
    };
    let next_page = match get_opt_u16(fields, "next_page") {
        Some(v) => v,
        None => {
            return None;
        },
    };
    let prev_page = match get_opt_u16(fields, "prev_page") {
        Some(v) => v,
        None => {
            return None;
        },
    };
    Some(FyydPaging { count, page, first_page, last_page, next_page, prev_page })
}

/// The required `API_INFO` block inside the metadata object.
pub open spec fn spec_req_api_info(f: Seq<(String, JsonValue)>) -> Option<FyydApiInfoV> {
    match spec_lookup(f, "API_INFO"@) {
        Some(j) => spec_api_info(j),
        None => None,
    }
}

/// The optional pagination block inside the metadata object.
pub open spec fn spec_opt_paging(f: Seq<(String, JsonValue)>) -> Option<Option<FyydPaging>> {
    match spec_lookup(f, "paging"@) {
        None => Some(None),
        Some(JsonValue::Null) => Some(None),
        Some(j) => match spec_paging(j) {
            Some(p) => Some(Some(p)),
            None => None,
        },
    }
}

/// The optional server address inside the metadata object: a string over
/// the address alphabet, or absent.
pub open spec fn spec_opt_server(f: Seq<(String, JsonValue)>) -> Option<Option<Seq<char>>> {
    match spec_lookup(f, "SERVER"@) {
        None => Some(None),
        Some(JsonValue::Null) => Some(None),
        Some(JsonValue::Str(s)) => if spec_addr_text(s@) {
            Some(Some(s@))
        } else {
            None
        },
        Some(_) => None,
    }
}

fn get_opt_server(f: &Vec<(String, JsonValue)>) -> (r: Option<Option<FyydIpAddr>>)
    ensures
        match r {
            Some(o) => spec_opt_server(f@) == Some(o.deep_view()),
            None => spec_opt_server(f@) is None,
        },
{
    match lookup(f, "SERVER") {
        None => Some(None),
        Some(JsonValue::Null) => Some(None),
        Some(JsonValue::Str(s)) => match FyydIpAddr::parse(s.as_str()) {
            Some(a) => Some(Some(a)),
            None => None,
        },
        Some(_) => None,
    }
}

/// Whether a metadata object has every block in an accepted shape.
pub open spec fn spec_metadata_ok(f: Seq<(String, JsonValue)>) -> bool {
    &&& spec_opt_u16(f, "count"@) is Some
    &&& spec_req_api_info(f) is Some
    &&& spec_opt_paging(f) is Some
    &&& spec_opt_server(f) is Some
    &&& spec_opt_u16(f, "duration"@) is Some
}

/// The metadata an object's fields decode to, assuming `spec_metadata_ok`.
pub open spec fn spec_metadata_fields(f: Seq<(String, JsonValue)>) -> FyydMetadataV {
    FyydMetadataV {
        count: spec_opt_u16(f, "count"@).unwrap(),
        api_info: spec_req_api_info(f).unwrap(),
        paging: spec_opt_paging(f).unwrap(),
        server: spec_opt_server(f).unwrap(),
        duration: spec_opt_u16(f, "duration"@).unwrap(),
    }
}

/// What a JSON document means as the metadata block.
pub open spec fn spec_metadata(j: JsonValue) -> Option<FyydMetadataV> {
    match j {
        JsonValue::Obj(fields) => if spec_metadata_ok(fields@) {
            Some(spec_metadata_fields(fields@))
        } else {
            None
        },
        _ => None,
    }
}

/// Decodes the metadata block, as `spec_metadata` reads it.
pub fn decode_metadata(j: &JsonValue) -> (r: Option<FyydMetadata>)
    ensures
        match r {
            Some(m) => spec_metadata(*j) == Some(m.deep_view()),
            None => spec_metadata(*j) is None,
        },
{
    let fields = match j {
        JsonValue::Obj(fields) => fields,
        _ => {
            return None;
        },
    };
    let count = match get_opt_u16(fields, "count") {
        Some(v) => v,
        None => {
            return None;
        },
    };
    let api_info = match lookup(fields, "API_INFO") {
        Some(aj) => match decode_api_info(aj) {
            Some(a) => a,
            None => {
                return None;
            },
        },
        None => {
            return None;
        },
    };
    let paging = match lookup(fields, "paging") {
        None => None,
        Some(JsonValue::Null) => None,
        Some(pj) => match decode_paging(pj) {
            Some(p) => Some(p),
            None => {
                return None;
            },
        },
    };
    let server = match get_opt_server(fields) {
        Some(v) => v,
        None => {
            return None;
        },
    };
    let duration = match get_opt_u16(fields, "duration") {
        Some(v) => v,
        None => {
            return None;
        },
    };
    Some(FyydMetadata { count, api_info, paging, server, duration })
}

// ---------------------------------------------------------------------
// The envelope.
// ---------------------------------------------------------------------

/// The required `meta` block inside the envelope.
pub open spec fn spec_req_meta(f: Seq<(String, JsonValue)>) -> Option<FyydMetadataV> {
    match spec_lookup(f, "meta"@) {
        Some(j) => spec_metadata(j),
        None => None,
    }
}

/// Whether an envelope object has its three required fields in the right
/// shape: a status, a message, and the metadata block. What `data` must
/// look like depends on the endpoint and is stated separately.
pub open spec fn spec_envelope_ok(f: Seq<(String, JsonValue)>) -> bool {
    &&& spec_req_u16(f, "status"@) is Some
    &&& spec_req_str(f, "msg"@) is Some
    &&& spec_req_meta(f) is Some
}

/// The optional `data` payload of a list endpoint: absent or `null` is
/// "no results", an array must hold podcasts throughout.
pub open spec fn spec_opt_podcast_list(f: Seq<(String, JsonValue)>) -> Option<
    Option<Seq<FyydPodcastV>>,
> {
    match spec_lookup(f, "data"@) {
        None => Some(None),
        Some(JsonValue::Null) => Some(None),
        Some(JsonValue::Arr(elems)) => match spec_podcast_seq(elems@) {
            Some(ps) => Some(Some(ps)),
            None => None,
        },
        Some(_) => None,
    }
}

/// The optional `data` payload of the episode-listing endpoint: absent or
/// `null` is "no results", anything else must be one podcast object (with
/// its episodes embedded).
pub open spec fn spec_opt_podcast_data(f: Seq<(String, JsonValue)>) -> Option<
    Option<FyydPodcastV>,
> {
    match spec_lookup(f, "data"@) {
        None => Some(None),
        Some(JsonValue::Null) => Some(None),
        Some(j) => match spec_podcast(j) {
            Some(p) => Some(Some(p)),
            None => None,
        },
    }
}

/// What a JSON document means as a search response: the envelope with a
/// list of podcasts as payload.
pub open spec fn spec_list_envelope(j: JsonValue) -> Option<FyydResponseV<Seq<FyydPodcastV>>> {
    match j {
        JsonValue::Obj(fields) => {
            let f = fields@;
            if spec_envelope_ok(f) && spec_opt_podcast_list(f) is Some {
                Some(
                    FyydResponseV {
                        status: spec_req_u16(f, "status"@).unwrap(),
                        msg: spec_req_str(f, "msg"@).unwrap(),
                        meta: spec_req_meta(f).unwrap(),
                        data: spec_opt_podcast_list(f).unwrap(),
                    },
                )
            } else {
                None
            }
        },
        _ => None,
    }
}

/// What a JSON document means as an episode-listing response: the
/// envelope with one podcast as payload.
pub open spec fn spec_podcast_envelope(j: JsonValue) -> Option<FyydResponseV<FyydPodcastV>> {
    match j {
        JsonValue::Obj(fields) => {
            let f = fields@;
            if spec_envelope_ok(f) && spec_opt_podcast_data(f) is Some {
                Some(
                    FyydResponseV {
                        status: spec_req_u16(f, "status"@).unwrap(),
                        msg: spec_req_str(f, "msg"@).unwrap(),
                        meta: spec_req_meta(f).unwrap(),
                        data: spec_opt_podcast_data(f).unwrap(),
                    },
                )
            } else {
                None
            }
        },
        _ => None,
    }
}

/// Decodes a search response document, as `spec_list_envelope` reads it.
pub fn decode_list_envelope(j: &JsonValue) -> (r: Option<FyydResponse<Vec<FyydPodcast>>>)
    ensures
        match r {
            Some(resp) => spec_list_envelope(*j) == Some(resp.deep_view()),
            None => spec_list_envelope(*j) is None,
        },
{
    let fields = match j {
        JsonValue::Obj(fields) => fields,
        _ => {
            return None;
        },
    };
    let status = match get_req_u16(fields, "status") {
        Some(v) => v,
        None => {
            return None;
        },
    };
    let msg = match get_req_str(fields, "msg") {
        Some(v) => v,
        None => {
            return None;
        },
    };
    let meta = match lookup(fields, "meta") {
        Some(mj) => match decode_metadata(mj) {
            Some(m) => m,
            None => {
                return None;
            },
        },
        None => {
            return None;
        },
    };
    let data = match lookup(fields, "data") {
        None => None,
        Some(dj) => match dj {
            JsonValue::Null => None,
            JsonValue::Arr(elems) => match decode_podcast_vec(elems) {
                Some(ps) => Some(ps),
                None => {
                    return None;
                },
            },
            _ => {
                return None;
            },
        },
    };
    let resp = FyydResponse { status, msg, meta, data };
    proof {
        assert(resp.deep_view() =~= spec_list_envelope(*j).unwrap());
    }
    Some(resp)
}

/// Decodes an episode-listing response document, as
/// `spec_podcast_envelope` reads it.
pub fn decode_podcast_envelope(j: &JsonValue) -> (r: Option<FyydResponse<FyydPodcast>>)
    ensures
        match r {
            Some(resp) => spec_podcast_envelope(*j) == Some(resp.deep_view()),
            None => spec_podcast_envelope(*j) is None,
        },
{
    let fields = match j {
        JsonValue::Obj(fields) => fields,
        _ => {
            return None;
        },
    };
    let status = match get_req_u16(fields, "status") {
        Some(v) => v,
        None => {
            return None;
        },
    };
    let msg = match get_req_str(fields, "msg") {
        Some(v) => v,
        None => {
            return None;
        },
    };
    let meta = match lookup(fields, "meta") {
        Some(mj) => match decode_metadata(mj) {
            Some(m) => m,
            None => {
                return None;
            },
        },
        None => {
            return None;
        },
    };
    let data = match lookup(fields, "data") {
        None => None,
        Some(dj) => match dj {
            JsonValue::Null => None,
            _ => match decode_podcast(dj) {
                Some(p) => Some(p),
                None => {
                    return None;
                },
            },
        },
    };
    let resp = FyydResponse { status, msg, meta, data };
    proof {
        assert(resp.deep_view() =~= spec_podcast_envelope(*j).unwrap());
    }
    Some(resp)
}

// ---------------------------------------------------------------------
// From bytes to documents: the one trusted step.
// ---------------------------------------------------------------------

#[verifier::external_type_specification]
#[verifier::external_body]
pub struct ExValue(serde_json::Value);

/// The document a byte sequence parses to, if it is well-formed JSON:
/// the meaning of the outside parser, named but not written out. The
/// parsing of text is deterministic — the same bytes always give the
/// same document — which is all the decoding contracts need.
pub uninterp spec fn json_parse(bytes: Seq<u8>) -> Option<JsonValue>;

/// Relies on serde_json::Value's conversion methods: rebuilds the parsed
/// document as a `JsonValue`, keeping integers exact and any other number
/// as its decimal rendering. Used only by `parse_json` below.
#[verifier::external_body]
fn from_value(v: serde_json::Value) -> JsonValue {
    match v {
        serde_json::Value::Null => JsonValue::Null,
        serde_json::Value::Bool(b) => JsonValue::Bool(b),
        serde_json::Value::Number(n) => JsonValue::Num(match (n.as_u64(), n.as_i64()) {
            (Some(u), _) => JsonNumber::PosInt(u),
            (None, Some(i)) => JsonNumber::NegInt(i),
            (None, None) => JsonNumber::Float(format!("{}", n)),
        }),
        serde_json::Value::String(s) => JsonValue::Str(s),
        serde_json::Value::Array(xs) => JsonValue::Arr(xs.into_iter().map(from_value).collect()),
        serde_json::Value::Object(m) => JsonValue::Obj(m.into_iter().map(|(k, x)| (k, from_value(x))).collect()),
    }
}

/// Relies on serde_json::from_slice::<serde_json::Value>: parses the
/// bytes as one JSON document, or reports why they are not one. The
/// error text is the parser's rendering of the failure.
#[verifier::external_body]
fn parse_json(bytes: &[u8]) -> (r: Result<JsonValue, String>)
    ensures
        match r {
            Ok(j) => json_parse(bytes@) == Some(j),
            Err(_) => json_parse(bytes@) is None,
        },
{
    match serde_json::from_slice::<serde_json::Value>(bytes) {
        Ok(v) => Ok(from_value(v)),
        Err(e) => Err(format!("{}", e)),
    }
}

/// What a response body means as a search response: parsed, then read by
/// `spec_list_envelope`.
pub open spec fn spec_search_result(bytes: Seq<u8>) -> Option<FyydResponseV<Seq<FyydPodcastV>>> {
    match json_parse(bytes) {
        Some(j) => spec_list_envelope(j),
        None => None,
    }
}

/// What a response body means as an episode-listing response.
pub open spec fn spec_episodes_result(bytes: Seq<u8>) -> Option<FyydResponseV<FyydPodcastV>> {
    match json_parse(bytes) {
        Some(j) => spec_podcast_envelope(j),
        None => None,
    }
}

/// Decodes the body of a search response. Succeeds exactly when the body
/// is one JSON document of the search envelope shape, and then returns
/// exactly what `spec_search_result` reads from it; otherwise reports
/// `Deserialization`, carrying the body for diagnostics.
pub fn decode_search_response(body: &[u8]) -> (r: Result<FyydResponse<Vec<FyydPodcast>>, Error>)
    ensures
        match r {
            Ok(resp) => spec_search_result(body@) == Some(resp.deep_view()),
            Err(e) => {
                &&& spec_search_result(body@) is None
                &&& e matches Error::Deserialization { cause: _, payload } && payload@ == body@
            },
        },
{
    match parse_json(body) {
        Err(cause) => Err(
            Error::Deserialization { cause, payload: vstd::slice::slice_to_vec(body) },
        ),
        Ok(j) => match decode_list_envelope(&j) {
            Some(resp) => Ok(resp),
            None => Err(
                Error::Deserialization {
                    cause: String::from_str("the body is not a search response envelope"),
                    payload: vstd::slice::slice_to_vec(body),
                },
            ),
        },
    }
}

/// Decodes the body of an episode-listing (or latest-episodes) response.
/// Succeeds exactly when the body is one JSON document of the podcast
/// envelope shape, and then returns exactly what `spec_episodes_result`
/// reads from it; otherwise reports `Deserialization`, carrying the body
/// for diagnostics.
pub fn decode_episodes_response(body: &[u8]) -> (r: Result<FyydResponse<FyydPodcast>, Error>)
    ensures
        match r {
            Ok(resp) => spec_episodes_result(body@) == Some(resp.deep_view()),
            Err(e) => {
                &&& spec_episodes_result(body@) is None
                &&& e matches Error::Deserialization { cause: _, payload } && payload@ == body@
            },
        },
{
    match parse_json(body) {
        Err(cause) => Err(
            Error::Deserialization { cause, payload: vstd::slice::slice_to_vec(body) },
        ),
        Ok(j) => match decode_podcast_envelope(&j) {
            Some(resp) => Ok(resp),
            None => Err(
                Error::Deserialization {
                    cause: String::from_str("the body is not an episode-listing envelope"),
                    payload: vstd::slice::slice_to_vec(body),
                },
            ),
        },
    }
}

// ---------------------------------------------------------------------
// Laws of the decoders.
// ---------------------------------------------------------------------

/// Law: a search envelope whose `data` field is omitted decodes
/// successfully, and its payload is the explicit absent value. Absence of
/// results is never a decode error, whatever the status reports — in
/// particular not for a success status.
pub proof fn lemma_absent_data_is_no_results_list(fields: Vec<(String, JsonValue)>)
    requires
        spec_envelope_ok(fields@),
        spec_lookup(fields@, "data"@) is None,
    ensures
        spec_list_envelope(JsonValue::Obj(fields)) matches Some(r) && r.data is None,
{
}

/// Law: an episode-listing envelope whose `data` field is omitted decodes
/// successfully, and its payload is the explicit absent value.
pub proof fn lemma_absent_data_is_no_results_podcast(fields: Vec<(String, JsonValue)>)
    requires
        spec_envelope_ok(fields@),
        spec_lookup(fields@, "data"@) is None,
    ensures
        spec_podcast_envelope(JsonValue::Obj(fields)) matches Some(r) && r.data is None,
{
}

/// Law: the version union accepts exactly the two wire shapes — any
/// number and any string decode, and nothing else does.
pub proof fn lemma_api_version_union(j: JsonValue)
    ensures
        spec_api_version(j) is Some <==> (j matches JsonValue::Num(_) || j matches JsonValue::Str(
            _,
        )),
{
}

/// Whether two documents carry the same version field content: the same
/// string, character for character, or the same number.
pub open spec fn api_version_equiv(a: JsonValue, b: JsonValue) -> bool {
    match (a, b) {
        (JsonValue::Str(x), JsonValue::Str(y)) => x@ == y@,
        (JsonValue::Num(x), JsonValue::Num(y)) => x.deep_view() == y.deep_view(),
        _ => false,
    }
}

/// Law: decoding the version field loses nothing — any two documents
/// that decode to the same version carry the same content. Together with
/// `encode_api_version`, whose result decodes back to the version it was
/// given, re-encoding a decoded version yields a document equivalent to
/// the one it came from.
pub proof fn lemma_api_version_lossless(a: JsonValue, b: JsonValue)
    requires
        spec_api_version(a) is Some,
        spec_api_version(a) == spec_api_version(b),
    ensures
        api_version_equiv(a, b),
{
}

/// Re-encodes a version field as a document: the round-trip partner of
/// `decode_api_version`, returning a document that decodes to exactly
/// the given version.
pub fn encode_api_version(v: &FyydApiVersion) -> (r: JsonValue)
    ensures
        spec_api_version(r) == Some(v.deep_view()),
{
    match v {
        FyydApiVersion::ApiVersionString(s) => JsonValue::Str(s.clone()),
        FyydApiVersion::ApiVersionNumber(n) => JsonValue::Num(dup_number(n)),
    }
}

/// Law: a podcast object is read only through its field lookups — two
/// objects whose lookups agree on every key decode to the same podcast,
/// or both fail. This is why unknown fields are ignored rather than
/// rejected: a field under a key the decoder never looks up cannot
/// change the outcome.
pub proof fn lemma_podcast_reads_fields_only(
    f1: Vec<(String, JsonValue)>,
    f2: Vec<(String, JsonValue)>,
)
    requires
        forall|k: Seq<char>| spec_lookup(f1@, k) == #[trigger] spec_lookup(f2@, k),
    ensures
        spec_podcast(JsonValue::Obj(f1)) == spec_podcast(JsonValue::Obj(f2)),
{
}

/// Law: the envelope decoders, too, read an object only through its
/// field lookups, for both endpoint shapes.
pub proof fn lemma_envelope_reads_fields_only(
    f1: Vec<(String, JsonValue)>,
    f2: Vec<(String, JsonValue)>,
)
    requires
        forall|k: Seq<char>| spec_lookup(f1@, k) == #[trigger] spec_lookup(f2@, k),
    ensures
        spec_list_envelope(JsonValue::Obj(f1)) == spec_list_envelope(JsonValue::Obj(f2)),
        spec_podcast_envelope(JsonValue::Obj(f1)) == spec_podcast_envelope(JsonValue::Obj(f2)),
{
}

/// Law: the episode-count union accepts exactly a string or an unsigned
/// integer that fits in thirty-two bits; a boolean, an object, any other
/// number — any third shape — fails to decode.
pub proof fn lemma_episode_count_union(j: JsonValue)
    ensures
        spec_string_or_u32(j) is Some <==> (j matches JsonValue::Str(_) || (j
            matches JsonValue::Num(JsonNumber::PosInt(u)) && u <= 0xffff_ffff)),
{
}

} // verus!
