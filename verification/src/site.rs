//! Site records: parsing stored items, listing order, lookup errors, and the
//! results of `site list`, `site inspect` and `site delete`.
use vstd::prelude::*;
use vstd::seq_lib::group_to_multiset_ensures;

use crate::error::{fails_with, ErrorKind, ShimesuError};
use crate::support::{
    item_get, item_lookup, lemma_count_round_trip, marker_key, optional_i64, parse_optional_i64,
    AttributeValue, SiteItem,
};
use crate::text::{
    cat, cat3, decimal, i64_text, lemma_lex_asymmetric, lemma_lex_total, lemma_lex_transitive,
    lex_lt, owned, signed_decimal, text_lt, u64_text, usize_text,
};

verus! {

broadcast use group_to_multiset_ensures;

/// A site as shown to the operator.
#[derive(Debug, Clone)]
pub struct Site {
    pub slug: String,
    pub url: String,
    pub created_at: String,
    pub updated_at: String,
    pub deployment_id: Option<String>,
    pub file_count: Option<i64>,
    pub total_bytes: Option<i64>,
}

pub type SiteView = (
    Seq<char>,
    Seq<char>,
    Seq<char>,
    Seq<char>,
    Option<Seq<char>>,
    Option<i64>,
    Option<i64>,
);

impl View for Site {
    type V = SiteView;

    open spec fn view(&self) -> SiteView {
        (
            self.slug@,
            self.url@,
            self.created_at@,
            self.updated_at@,
            match self.deployment_id {
                Some(d) => Some(d@),
                None => None,
            },
            self.file_count,
            self.total_bytes,
        )
    }
}

/// The string attribute `key` of an item, when present and a string.
pub open spec fn s_attr(item: Seq<(String, AttributeValue)>, key: Seq<char>) -> Option<Seq<char>> {
    match item_get(item, key) {
        Some(AttributeValue::S(v)) => Some(v@),
        _ => None,
    }
}

/// The public URL of a site: `https://{slug}.{base_domain}`.
pub open spec fn site_url(slug: Seq<char>, base_domain: Seq<char>) -> Seq<char> {
    "https://"@ + slug + "."@ + base_domain
}

/// The site an item describes, when it has string `slug`, `created_at` and
/// `updated_at` attributes.
pub open spec fn item_site(item: Seq<(String, AttributeValue)>, base_domain: Seq<char>) -> Option<
    SiteView,
> {
    match (s_attr(item, "slug"@), s_attr(item, "created_at"@), s_attr(item, "updated_at"@)) {
        (Some(slug), Some(created), Some(updated)) => Some(
            (
                slug,
                site_url(slug, base_domain),
                created,
                updated,
                s_attr(item, "deployment_id"@),
                optional_i64(item, "file_count"@),
                optional_i64(item, "total_bytes"@),
            ),
        ),
        _ => None,
    }
}

fn string_attr(item: &SiteItem, key: &str) -> (r: Option<String>)
    ensures
        match r {
            Some(v) => s_attr(item@, key@) == Some(v@),
            None => s_attr(item@, key@) is None,
        },
{
    match item_lookup(item, key) {
        Some(AttributeValue::S(v)) => Some(v.clone()),
        _ => None,
    }
}

pub fn site_from_item(item: &SiteItem, base_domain: &str) -> (r: Option<Site>)
    ensures
        match r {
            Some(site) => item_site(item@, base_domain@) == Some(site@),
            None => item_site(item@, base_domain@) is None,
        },
{
    let slug = string_attr(item, "slug")?;
    let created_at = string_attr(item, "created_at")?;
    let updated_at = string_attr(item, "updated_at")?;
    let deployment_id = string_attr(item, "deployment_id");
    let mut url = cat3("https://", slug.as_str(), ".");
    url.append(base_domain);
    Some(
        Site {
            slug,
            url,
            created_at,
            updated_at,
            deployment_id,
            file_count: parse_optional_i64(item, "file_count"),
            total_bytes: parse_optional_i64(item, "total_bytes"),
        },
    )
}

/// The site for a fetched item, or the lookup error for `slug`.
pub fn site_from_lookup(item: Option<&SiteItem>, base_domain: &str, slug: &str) -> (r: Result<
    Site,
    ShimesuError,
>)
    ensures
        item is None ==> fails_with(r, (ErrorKind::NotFound, "Site '"@ + slug@ + "' not found"@)),
        item is Some && item_site(item->0@, base_domain@) is None ==> fails_with(
            r,
            (ErrorKind::Generic, "Site '"@ + slug@ + "' record is malformed"@),
        ),
        item is Some && item_site(item->0@, base_domain@) is Some ==> r is Ok && Some(r->Ok_0@)
            == item_site(item->0@, base_domain@),
{
    match item {
        Some(site) => match site_from_item(site, base_domain) {
            Some(s) => Ok(s),
            None => Err(ShimesuError::Generic(cat3("Site '", slug, "' record is malformed"))),
        },
        None => Err(ShimesuError::NotFound(cat3("Site '", slug, "' not found"))),
    }
}

/// `{url}  ({file_count or ?} file(s), updated {updated_at})`
pub open spec fn site_summary_text(site: SiteView) -> Seq<char> {
    site.1 + "  ("@ + (match site.5 {
        Some(n) => signed_decimal(n as int),
        None => "?"@,
    }) + " file(s), updated "@ + site.3 + ")"@
}

pub fn site_summary(site: &Site) -> (summary: String)
    ensures
        summary@ == site_summary_text(site@),
{
    let file_count = match site.file_count {
        Some(n) => i64_text(n),
        None => owned("?"),
    };
    let mut out = cat3(site.url.as_str(), "  (", file_count.as_str());
    out.append(" file(s), updated ");
    out.append(site.updated_at.as_str());
    out.append(")");
    out
}

/// The sites described by well-formed items, in item order.
pub open spec fn parsed_sites(items: Seq<SiteItem>, base_domain: Seq<char>) -> Seq<SiteView>
    decreases items.len(),
{
    if items.len() == 0 {
        Seq::empty()
    } else {
        let rest = parsed_sites(items.drop_last(), base_domain);
        match item_site(items.last()@, base_domain) {
            Some(site) => rest.push(site),
            None => rest,
        }
    }
}

/// Ordered by slug, ties allowed.
pub open spec fn sorted_by_slug(sites: Seq<SiteView>) -> bool {
    forall|i: int, j: int| 0 <= i < j < sites.len() ==> !lex_lt(sites[j].0, sites[i].0)
}

pub open spec fn views(sites: Seq<Site>) -> Seq<SiteView> {
    sites.map_values(|s: Site| s@)
}

/// Parses every well-formed item and orders the sites by slug; malformed
/// items are skipped.
pub fn collect_sites(items: &Vec<SiteItem>, base_domain: &str) -> (sites: Vec<Site>)
    ensures
        views(sites@).to_multiset() == parsed_sites(items@, base_domain@).to_multiset(),
        sorted_by_slug(views(sites@)),
{
    let mut sorted: Vec<Site> = Vec::new();
    let mut i: usize = 0;
    while i < items.len()
        invariant
            i <= items.len(),
            views(sorted@).to_multiset() == parsed_sites(items@.take(i as int), base_domain@).to_multiset(),
            sorted_by_slug(views(sorted@)),
        decreases items.len() - i,
    {
        assert(items@.take(i + 1).drop_last() == items@.take(i as int));
        assert(items@.take(i + 1).last() == items@[i as int]);
        match site_from_item(&items[i], base_domain) {
            Some(site) => {
                let mut p: usize = 0;
                while p < sorted.len() && !text_lt(site.slug.as_str(), sorted[p].slug.as_str())
                    invariant
                        p <= sorted.len(),
                        forall|j: int| 0 <= j < p ==> !lex_lt(site@.0, #[trigger] views(sorted@)[j].0),
                    decreases sorted.len() - p,
                {
                    p = p + 1;
                }
                let ghost before = views(sorted@);
                let ghost sv = site@;
                sorted.insert(p, site);
                proof {
                    let after = views(sorted@);
                    assert(after =~= before.insert(p as int, sv));
                    assert forall|a: int, b: int| 0 <= a < b < after.len() implies !lex_lt(
                        after[b].0,
                        after[a].0,
                    ) by {
                        if a == p && b > p {
                            let x = sv.0;
                            let y = before[b - 1].0;
                            assert(lex_lt(x, before[p as int].0));
                            if lex_lt(y, x) {
                                if b - 1 > p {
                                    lemma_lex_transitive(y, x, before[p as int].0);
                                } else {
                                    lemma_lex_asymmetric(x, y);
                                }
                            }
                        }
                    }
                    assert(parsed_sites(items@.take(i + 1), base_domain@) == parsed_sites(
                        items@.take(i as int),
                        base_domain@,
                    ).push(sv));
                }
            },
            None => {},
        }
        i = i + 1;
    }
    assert(items@.take(items.len() as int) == items@);
    sorted
}

/// The report of `site list`: the sites and how many there are.
#[derive(Debug, Clone)]
pub struct SiteListOutput {
    pub sites: Vec<Site>,
    pub count: usize,
}

impl SiteListOutput {
    pub fn new(sites: Vec<Site>) -> (o: Self)
        ensures
            o.sites@ == sites@,
            o.count == sites@.len(),
    {
        let count = sites.len();
        SiteListOutput { sites, count }
    }
}

/// What a deployment records about its site.
#[derive(Debug, Clone, Copy)]
pub struct SiteUpsert<'a> {
    pub slug: &'a str,
    pub deployment_id: &'a str,
    pub updated_at: &'a str,
    pub url: &'a str,
    pub file_count: usize,
    pub total_bytes: u64,
}

/// The update of a deployment record: the creation time is kept once set,
/// every other attribute is replaced.
pub const DEPLOYMENT_UPDATE_EXPRESSION: &'static str = "SET created_at = if_not_exists(created_at, :now), updated_at = :now, deployment_id = :deployment_id, #url = :url, file_count = :file_count, total_bytes = :total_bytes";

pub open spec fn attr_s(a: AttributeValue, v: Seq<char>) -> bool {
    a matches AttributeValue::S(s) && s@ == v
}

pub open spec fn attr_n(a: AttributeValue, n: nat) -> bool {
    a matches AttributeValue::N(s) && s@ == decimal(n)
}

/// The values the update of a deployment record binds: the time, the
/// deployment, the URL and both counts in decimal.
pub fn deployment_values(u: &SiteUpsert) -> (values: Vec<(String, AttributeValue)>)
    ensures
        values@.len() == 5,
        values@[0].0@ == ":now"@ && attr_s(values@[0].1, u.updated_at@),
        values@[1].0@ == ":deployment_id"@ && attr_s(values@[1].1, u.deployment_id@),
        values@[2].0@ == ":url"@ && attr_s(values@[2].1, u.url@),
        values@[3].0@ == ":file_count"@ && attr_n(values@[3].1, u.file_count as nat),
        values@[4].0@ == ":total_bytes"@ && attr_n(values@[4].1, u.total_bytes as nat),
{
    let mut values = Vec::new();
    values.push((owned(":now"), AttributeValue::S(owned(u.updated_at))));
    values.push((owned(":deployment_id"), AttributeValue::S(owned(u.deployment_id))));
    values.push((owned(":url"), AttributeValue::S(owned(u.url))));
    values.push((owned(":file_count"), AttributeValue::N(usize_text(u.file_count))));
    values.push((owned(":total_bytes"), AttributeValue::N(u64_text(u.total_bytes))));
    values
}

/// A deployment record reads back as the deployment that wrote it: an item
/// holding what the update of `u` sets, with the creation time it kept, in
/// any order and beside any other attributes, is read as the site of `u`:
/// its slug, its URL under the base domain, both times, the deployment id,
/// and both counts, for counts that fit in `i64`.
pub proof fn lemma_deployment_reads_back(
    u: SiteUpsert,
    created_at: Seq<char>,
    item: Seq<(String, AttributeValue)>,
    base_domain: Seq<char>,
)
    requires
        item_get(item, "slug"@) matches Some(a) && attr_s(a, u.slug@),
        item_get(item, "created_at"@) matches Some(a) && attr_s(a, created_at),
        item_get(item, "updated_at"@) matches Some(a) && attr_s(a, u.updated_at@),
        item_get(item, "deployment_id"@) matches Some(a) && attr_s(a, u.deployment_id@),
        item_get(item, "file_count"@) matches Some(a) && attr_n(a, u.file_count as nat),
        item_get(item, "total_bytes"@) matches Some(a) && attr_n(a, u.total_bytes as nat),
        u.file_count <= i64::MAX,
        u.total_bytes <= i64::MAX,
    ensures
        item_site(item, base_domain) == Some(
            (
                u.slug@,
                site_url(u.slug@, base_domain),
                created_at,
                u.updated_at@,
                Some(u.deployment_id@),
                Some(u.file_count as i64),
                Some(u.total_bytes as i64),
            ),
        ),
{
    lemma_count_round_trip(u.file_count as nat);
    lemma_count_round_trip(u.total_bytes as nat);
}

} // verus!
