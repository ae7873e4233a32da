//! Public tracking hits: a campaign link's redirect and a tracking pixel's
//! image, each recorded as one event with its query parameters.
use vstd::prelude::*;

use crate::error::{bad_request, bad_request_with, AppError};
use crate::ids::{is_uuid_v4_text, new_uuid_v4};
use crate::routes::collect::{
    extract_utm_from_url, geo_field, ua_field, url_utm, Event, GeoInfo, UaInfo,
};
use crate::routes::links::{build_tracking_destination, tracking_destination, CampaignLink, MAX_TRACKING_URL_BYTES};
use crate::routes::pixels::{pixel_event_url, pixel_event_url_of, MAX_PIXEL_EVENT_URL_BYTES};
use crate::json::{
    json_insert_object, json_insert_string, json_map_new, json_nulls, json_object_text, json_objects, json_plain,
    json_remove, json_strings, json_text,
};
use crate::routes::public::{
    keep_public_param, keeps_param, pairs_view, MAX_PUBLIC_EVENT_DATA_BYTES, MAX_PUBLIC_QUERY_PARAMS,
};
use crate::routes::query::opt_string_view;
use crate::text::{byte_len, chars_eq, chars_of, string_of};

verus! {

/// A tracking pixel, with the fields a hit reads.
pub struct TrackingPixel {
    pub id: String,
    pub website_id: String,
    pub pixel_key: String,
    pub default_url: Option<String>,
    pub is_active: bool,
}

/// What the request of a hit contributes to its event.
pub struct TrackingHit {
    pub client_ip: String,
    pub user_agent: String,
    pub visitor_id: String,
    pub referrer_url: Option<String>,
    pub referrer_domain: Option<String>,
    pub language: Option<String>,
    pub geo: Option<GeoInfo>,
    pub ua: Option<UaInfo>,
    pub now_us: i64,
}

/// The last value given to `key` among query pairs (a query read into a
/// map keeps the last of repeated keys).
pub open spec fn last_value(p: Seq<(Seq<char>, Seq<char>)>, key: Seq<char>) -> Option<Seq<char>>
    decreases p.len(),
{
    if p.len() == 0 {
        None
    } else if p.last().0 == key {
        Some(p.last().1)
    } else {
        last_value(p.drop_last(), key)
    }
}

/// Whether some pair has the key.
pub open spec fn has_key(p: Seq<(Seq<char>, Seq<char>)>, key: Seq<char>) -> bool {
    exists|i: int| 0 <= i < p.len() && #[trigger] p[i].0 == key
}

/// The number of distinct keys among query pairs.
pub open spec fn distinct_keys(p: Seq<(Seq<char>, Seq<char>)>) -> nat
    decreases p.len(),
{
    if p.len() == 0 {
        0
    } else if has_key(p.drop_last(), p.last().0) {
        distinct_keys(p.drop_last())
    } else {
        distinct_keys(p.drop_last()) + 1
    }
}

/// The query parameters copied into a hit's event data: the query read
/// into a map (the last value of a key counts), keeping the members that
/// [`keeps_param`] accepts.
pub open spec fn kept_query(p: Seq<(Seq<char>, Seq<char>)>) -> Map<Seq<char>, Seq<char>>
    decreases p.len(),
{
    if p.len() == 0 {
        Map::empty()
    } else if keeps_param(p.last().0, p.last().1) {
        kept_query(p.drop_last()).insert(p.last().0, p.last().1)
    } else {
        kept_query(p.drop_last()).remove(p.last().0)
    }
}

/// Key of the event data member that holds the kept query parameters.
pub const QUERY_MEMBER: &'static str = "query";

/// The event data of a hit: an object with three string members and the
/// kept query parameters under `query`, as JSON text.
pub open spec fn event_data_of(
    f1: Seq<char>,
    v1: Seq<char>,
    f2: Seq<char>,
    v2: Seq<char>,
    f3: Seq<char>,
    v3: Seq<char>,
    query: Seq<(Seq<char>, Seq<char>)>,
) -> Seq<char> {
    json_object_text(
        Map::<Seq<char>, Seq<char>>::empty().insert(f1, v1).insert(f2, v2).insert(f3, v3).remove(
            QUERY_MEMBER@,
        ),
        Set::<Seq<char>>::empty().remove(f1).remove(f2).remove(f3).remove(QUERY_MEMBER@),
        Map::<Seq<char>, (Map<Seq<char>, Seq<char>>, Set<Seq<char>>)>::empty().remove(f1).remove(f2).remove(
            f3,
        ).insert(QUERY_MEMBER@, (kept_query(query), Set::<Seq<char>>::empty())),
    )
}

/// Serializes the event data of a hit.
fn event_data_text(f1: &str, v1: &str, f2: &str, v2: &str, f3: &str, v3: &str, query: &[(String, String)]) -> (s: String)
    ensures
        s@ == event_data_of(f1@, v1@, f2@, v2@, f3@, v3@, pairs_view(query@)),
{
    let ghost pv = pairs_view(query@);
    let mut q = json_map_new();
    let mut i: usize = 0;
    while i < query.len()
        invariant
            i <= query@.len(),
            pv == pairs_view(query@),
            json_plain(q),
            json_objects(q) == Map::<Seq<char>, (Map<Seq<char>, Seq<char>>, Set<Seq<char>>)>::empty(),
            json_nulls(q) == Set::<Seq<char>>::empty(),
            json_strings(q) == kept_query(pv.take(i as int)),
        decreases query@.len() - i,
    {
        assert(pv.take(i + 1).drop_last() =~= pv.take(i as int));
        assert(pv.take(i + 1).last() == pv[i as int]);
        let k = query[i].0.as_str();
        let v = query[i].1.as_str();
        if keep_public_param(k, v) {
            json_insert_string(&mut q, k, v);
        } else {
            json_remove(&mut q, k);
        }
        assert(json_objects(q) =~= Map::<Seq<char>, (Map<Seq<char>, Seq<char>>, Set<Seq<char>>)>::empty());
        assert(json_nulls(q) =~= Set::<Seq<char>>::empty());
        i = i + 1;
    }
    assert(pv.take(i as int) =~= pv);
    let mut m = json_map_new();
    json_insert_string(&mut m, f1, v1);
    json_insert_string(&mut m, f2, v2);
    json_insert_string(&mut m, f3, v3);
    json_insert_object(&mut m, QUERY_MEMBER, q);
    json_text(&m)
}

fn find_last_value(pairs: &[(String, String)], key: &str) -> (r: Option<String>)
    ensures
        opt_string_view(r) == last_value(pairs_view(pairs@), key@),
{
    let kc = chars_of(key);
    let ghost pv = pairs_view(pairs@);
    let mut i: usize = pairs.len();
    assert(pv.take(i as int) =~= pv);
    while i > 0
        invariant
            i <= pairs@.len(),
            pv == pairs_view(pairs@),
            kc@ == key@,
            last_value(pv.take(i as int), key@) == last_value(pv, key@),
        decreases i,
    {
        assert(pv.take(i as int).last() == pv[i - 1]);
        assert(pv.take(i as int).drop_last() =~= pv.take(i - 1));
        let c = chars_of(pairs[i - 1].0.as_str());
        if chars_eq(c.as_slice(), kc.as_slice()) {
            return Some(pairs[i - 1].1.clone());
        }
        i = i - 1;
    }
    None
}

fn key_among(pairs: &[(String, String)], n: usize, key: &str) -> (b: bool)
    requires
        n <= pairs@.len(),
    ensures
        b == has_key(pairs_view(pairs@).take(n as int), key@),
{
    let ghost pv = pairs_view(pairs@).take(n as int);
    let kc = chars_of(key);
    let mut i: usize = 0;
    while i < n
        invariant
            i <= n <= pairs@.len(),
            pv == pairs_view(pairs@).take(n as int),
            kc@ == key@,
            forall|j: int| 0 <= j < i ==> pv[j].0 != key@,
        decreases n - i,
    {
        let c = chars_of(pairs[i].0.as_str());
        if chars_eq(c.as_slice(), kc.as_slice()) {
            assert(pv[i as int].0 == key@);
            return true;
        }
        i = i + 1;
    }
    false
}

/// The number of distinct keys of a query.
pub fn count_distinct_keys(pairs: &[(String, String)]) -> (n: usize)
    ensures
        n == distinct_keys(pairs_view(pairs@)),
{
    let ghost pv = pairs_view(pairs@);
    let mut count: usize = 0;
    let mut i: usize = 0;
    while i < pairs.len()
        invariant
            i <= pairs@.len(),
            pv == pairs_view(pairs@),
            count == distinct_keys(pv.take(i as int)),
            count <= i,
        decreases pairs@.len() - i,
    {
        assert(pv.take(i + 1).drop_last() =~= pv.take(i as int));
        assert(pv.take(i + 1).last() == pv[i as int]);
        assert(pv.take(i as int) =~= pairs_view(pairs@).take(i as int));
        if !key_among(pairs, i, pairs[i].0.as_str()) {
            count = count + 1;
        }
        i = i + 1;
    }
    assert(pv.take(i as int) =~= pv);
    count
}

/// The fields every hit's event takes from its request.
pub open spec fn hit_fields(e: Event, hit: TrackingHit) -> bool {
    &&& is_uuid_v4_text(e.id@)
    &&& e.tenant_id is None
    &&& e.session_id@ == crate::ingest::SESSION_ID_PENDING@
    &&& e.visitor_id@ == hit.visitor_id@
    &&& e.event_type@ == "event"@
    &&& opt_string_view(e.referrer_url) == opt_string_view(hit.referrer_url)
    &&& opt_string_view(e.referrer_domain) == opt_string_view(hit.referrer_domain)
    &&& opt_string_view(e.country) == geo_field(hit.geo, |g: GeoInfo| g.country)
    &&& opt_string_view(e.region) == geo_field(hit.geo, |g: GeoInfo| g.region)
    &&& opt_string_view(e.city) == geo_field(hit.geo, |g: GeoInfo| g.city)
    &&& opt_string_view(e.browser) == ua_field(hit.ua, |u: UaInfo| Some(u.browser@))
    &&& opt_string_view(e.browser_version) == ua_field(hit.ua, |u: UaInfo| opt_string_view(u.browser_version))
    &&& opt_string_view(e.os) == ua_field(hit.ua, |u: UaInfo| Some(u.os@))
    &&& opt_string_view(e.os_version) == ua_field(hit.ua, |u: UaInfo| opt_string_view(u.os_version))
    &&& opt_string_view(e.device_type) == ua_field(hit.ua, |u: UaInfo| Some(u.device_type@))
    &&& e.screen is None
    &&& opt_string_view(e.language) == opt_string_view(hit.language)
    &&& opt_string_view(e.source_ip) == Some(hit.client_ip@)
    &&& opt_string_view(e.user_agent) == Some(hit.user_agent@)
    &&& !e.is_bot
    &&& e.bot_score == 0
    &&& e.bot_reason is None
    &&& e.created_at_us == hit.now_us
}

fn clone_opt(o: &Option<String>) -> (r: Option<String>)
    ensures
        opt_string_view(r) == opt_string_view(*o),
{
    match o {
        Some(s) => Some(s.clone()),
        None => None,
    }
}

/// The event of a hit with the given URL, name, data, UTM fields and link
/// or pixel.
fn hit_event(
    hit: &TrackingHit,
    website_id: String,
    url: String,
    event_name: &str,
    event_data: String,
    utm: crate::routes::collect::UtmParams,
    link_id: Option<String>,
    pixel_id: Option<String>,
) -> (e: Event)
    ensures
        hit_fields(e, *hit),
        e.website_id@ == website_id@,
        e.url@ == url@,
        opt_string_view(e.event_name) == Some(event_name@),
        opt_string_view(e.event_data) == Some(event_data@),
        opt_string_view(e.utm_source) == opt_string_view(utm.utm_source),
        opt_string_view(e.utm_medium) == opt_string_view(utm.utm_medium),
        opt_string_view(e.utm_campaign) == opt_string_view(utm.utm_campaign),
        opt_string_view(e.utm_term) == opt_string_view(utm.utm_term),
        opt_string_view(e.utm_content) == opt_string_view(utm.utm_content),
        opt_string_view(e.link_id) == opt_string_view(link_id),
        opt_string_view(e.pixel_id) == opt_string_view(pixel_id),
{
    let (country, region, city) = match &hit.geo {
        Some(g) => (clone_opt(&g.country), clone_opt(&g.region), clone_opt(&g.city)),
        None => (None, None, None),
    };
    let (browser, browser_version, os, os_version, device_type) = match &hit.ua {
        Some(u) => (
            Some(u.browser.clone()),
            clone_opt(&u.browser_version),
            Some(u.os.clone()),
            clone_opt(&u.os_version),
            Some(u.device_type.clone()),
        ),
        None => (None, None, None, None, None),
    };
    Event {
        id: new_uuid_v4(),
        website_id,
        tenant_id: None,
        session_id: crate::ingest::SESSION_ID_PENDING.to_owned(),
        visitor_id: hit.visitor_id.clone(),
        event_type: "event".to_owned(),
        url,
        referrer_url: clone_opt(&hit.referrer_url),
        referrer_domain: clone_opt(&hit.referrer_domain),
        event_name: Some(event_name.to_owned()),
        event_data: Some(event_data),
        country,
        region,
        city,
        browser,
        browser_version,
        os,
        os_version,
        device_type,
        screen: None,
        language: clone_opt(&hit.language),
        utm_source: utm.utm_source,
        utm_medium: utm.utm_medium,
        utm_campaign: utm.utm_campaign,
        utm_term: utm.utm_term,
        utm_content: utm.utm_content,
        link_id,
        pixel_id,
        source_ip: Some(hit.client_ip.clone()),
        user_agent: Some(hit.user_agent.clone()),
        is_bot: false,
        bot_score: 0,
        bot_reason: None,
        created_at_us: hit.now_us,
    }
}

/// Records a pixel hit. An unknown or inactive pixel is not found; the
/// recorded URL (the `url` parameter, else the pixel's default, else
/// `pixel://` and its key) may not pass 2048 bytes; at most 32 parameters
/// are taken; the event data (pixel id and key, URL, and the parameters that
/// are kept) may not pass 4096 bytes. The UTM fields come from the URL.
pub fn pixel_view_event(pixel: Option<&TrackingPixel>, query: &[(String, String)], hit: &TrackingHit) -> (r: Result<Event, AppError>)
    ensures
        match pixel {
            None => r matches Err(AppError::NotFound(m)) && m@ == "Tracking pixel not found"@,
            Some(px) => if !px.is_active {
                r matches Err(AppError::NotFound(m)) && m@ == "Tracking pixel not found"@
            } else {
                let url = pixel_event_url_of(
                    last_value(pairs_view(query@), "url"@),
                    opt_string_view(px.default_url),
                    px.pixel_key@,
                );
                let data = event_data_of(
                    "pixel_id"@,
                    px.id@,
                    "pixel_key"@,
                    px.pixel_key@,
                    "url"@,
                    url,
                    pairs_view(query@),
                );
                if byte_len(url) > MAX_PIXEL_EVENT_URL_BYTES {
                    bad_request_with(r, "url exceeds max length"@)
                } else if distinct_keys(pairs_view(query@)) > MAX_PUBLIC_QUERY_PARAMS {
                    bad_request_with(r, "too many query parameters"@)
                } else if byte_len(data) > MAX_PUBLIC_EVENT_DATA_BYTES {
                    r matches Err(AppError::PayloadTooLarge)
                } else {
                    &&& r matches Ok(e)
                    &&& hit_fields(e, *hit)
                    &&& e.website_id@ == px.website_id@
                    &&& e.url@ == url
                    &&& opt_string_view(e.event_name) == Some("pixel_view"@)
                    &&& opt_string_view(e.event_data) == Some(data)
                    &&& opt_string_view(e.utm_source) == url_utm(url, "utm_source"@)
                    &&& opt_string_view(e.utm_medium) == url_utm(url, "utm_medium"@)
                    &&& opt_string_view(e.utm_campaign) == url_utm(url, "utm_campaign"@)
                    &&& opt_string_view(e.utm_term) == url_utm(url, "utm_term"@)
                    &&& opt_string_view(e.utm_content) == url_utm(url, "utm_content"@)
                    &&& e.link_id is None
                    &&& opt_string_view(e.pixel_id) == Some(px.id@)
                }
            },
        },
{
    let px = match pixel {
        Some(p) if p.is_active => p,
        _ => {
            return Err(AppError::NotFound("Tracking pixel not found".to_owned()));
        },
    };
    let url = pixel_event_url(find_last_value(query, "url"), clone_opt(&px.default_url), px.pixel_key.as_str());
    if url.as_str().len() > MAX_PIXEL_EVENT_URL_BYTES {
        return Err(bad_request("url exceeds max length"));
    }
    if count_distinct_keys(query) > MAX_PUBLIC_QUERY_PARAMS {
        return Err(bad_request("too many query parameters"));
    }
    let utm = extract_utm_from_url(url.as_str());
    let data = event_data_text(
        "pixel_id",
        px.id.as_str(),
        "pixel_key",
        px.pixel_key.as_str(),
        "url",
        url.as_str(),
        query,
    );
    if data.as_str().len() > MAX_PUBLIC_EVENT_DATA_BYTES {
        return Err(AppError::PayloadTooLarge);
    }
    Ok(hit_event(hit, px.website_id.clone(), url, "pixel_view", data, utm, None, Some(px.id.clone())))
}

/// Records a click on a campaign link. An unknown or inactive link is not
/// found; the destination with the link's UTM parameters may not pass 2048
/// bytes; at most 32 parameters are taken; the event data (link id and slug,
/// destination, and the parameters that are kept) may not pass 4096 bytes.
/// The UTM fields are the link's own.
pub fn link_click_event(link: Option<&CampaignLink>, query: &[(String, String)], hit: &TrackingHit) -> (r: Result<(Event, String), AppError>)
    ensures
        match link {
            None => r matches Err(AppError::NotFound(m)) && m@ == "Campaign link not found"@,
            Some(l) => if !l.is_active {
                r matches Err(AppError::NotFound(m)) && m@ == "Campaign link not found"@
            } else {
                let dest = tracking_destination(*l);
                let data = event_data_of(
                    "link_id"@,
                    l.id@,
                    "slug"@,
                    l.slug@,
                    "destination_url"@,
                    dest,
                    pairs_view(query@),
                );
                if byte_len(dest) > MAX_TRACKING_URL_BYTES {
                    bad_request_with(r, "destination_url exceeds max length"@)
                } else if distinct_keys(pairs_view(query@)) > MAX_PUBLIC_QUERY_PARAMS {
                    bad_request_with(r, "too many query parameters"@)
                } else if byte_len(data) > MAX_PUBLIC_EVENT_DATA_BYTES {
                    r matches Err(AppError::PayloadTooLarge)
                } else {
                    &&& r matches Ok((e, location))
                    &&& location@ == dest
                    &&& hit_fields(e, *hit)
                    &&& e.website_id@ == l.website_id@
                    &&& e.url@ == dest
                    &&& opt_string_view(e.event_name) == Some("link_click"@)
                    &&& opt_string_view(e.event_data) == Some(data)
                    &&& opt_string_view(e.utm_source) == opt_string_view(l.utm_source)
                    &&& opt_string_view(e.utm_medium) == opt_string_view(l.utm_medium)
                    &&& opt_string_view(e.utm_campaign) == opt_string_view(l.utm_campaign)
                    &&& opt_string_view(e.utm_term) == opt_string_view(l.utm_term)
                    &&& opt_string_view(e.utm_content) == opt_string_view(l.utm_content)
                    &&& opt_string_view(e.link_id) == Some(l.id@)
                    &&& e.pixel_id is None
                }
            },
        },
{
    let l = match link {
        Some(l) if l.is_active => l,
        _ => {
            return Err(AppError::NotFound("Campaign link not found".to_owned()));
        },
    };
    let dest = build_tracking_destination(l);
    if dest.as_str().len() > MAX_TRACKING_URL_BYTES {
        return Err(bad_request("destination_url exceeds max length"));
    }
    if count_distinct_keys(query) > MAX_PUBLIC_QUERY_PARAMS {
        return Err(bad_request("too many query parameters"));
    }
    let data = event_data_text(
        "link_id",
        l.id.as_str(),
        "slug",
        l.slug.as_str(),
        "destination_url",
        dest.as_str(),
        query,
    );
    if data.as_str().len() > MAX_PUBLIC_EVENT_DATA_BYTES {
        return Err(AppError::PayloadTooLarge);
    }
    let utm = crate::routes::collect::UtmParams {
        utm_source: clone_opt(&l.utm_source),
        utm_medium: clone_opt(&l.utm_medium),
        utm_campaign: clone_opt(&l.utm_campaign),
        utm_term: clone_opt(&l.utm_term),
        utm_content: clone_opt(&l.utm_content),
    };
    let location = dest.clone();
    Ok((hit_event(hit, l.website_id.clone(), dest, "link_click", data, utm, Some(l.id.clone()), None), location))
}

} // verus!
