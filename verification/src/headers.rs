//! Reading Zotero's response headers: version numbers, delays and the
//! `Link` header's pagination relations.

use vstd::prelude::*;

use crate::responses::{LinksModel, PaginationLinks, ResponseMetadata, no_links, opt_chars};
use crate::text::{
    chars_eq, chars_of, chars_start_with, parse_u64, parsed_u64, slice_chars, split_chars,
    split_on, starts_with, string_from_chars, trim, trim_char, trim_matching_char,
    trim_start_matches, trim_start_matching, trim_whitespace, views_of,
};

verus! {

/// The number a header holds, when its text is a `u64` in decimal.
pub open spec fn header_u64(value: Option<Seq<char>>) -> Option<u64> {
    match value {
        Some(v) => parsed_u64(v),
        None => None,
    }
}

/// The optional text of an optional `&str`.
pub open spec fn opt_str(o: Option<&str>) -> Option<Seq<char>> {
    match o {
        Some(s) => Some(s@),
        None => None,
    }
}

/// Reads a header holding a non-negative integer (`value` is the header's
/// text, when present and visible ASCII).
pub fn parse_u64_header(value: Option<&str>) -> (r: Option<u64>)
    ensures
        r == header_u64(opt_str(value)),
{
    match value {
        Some(v) => parse_u64(v),
        None => None,
    }
}

/// `s` with a leading `<` and a trailing `>` removed, when it has both.
pub open spec fn bracketed(s: Seq<char>) -> Option<Seq<char>> {
    if s.len() >= 2 && s[0] == '<' && s.last() == '>' {
        Some(s.subrange(1, s.len() - 1))
    } else {
        None
    }
}

/// The relation named by the first of `parts[i..]` that starts with `rel=`
/// (after trimming), with every leading `rel=` and the surrounding quotes
/// removed.
pub open spec fn rel_param(parts: Seq<Seq<char>>, i: int) -> Option<Seq<char>>
    decreases parts.len() - i,
{
    if i < 0 || i >= parts.len() {
        None
    } else if starts_with(trim(parts[i]), "rel="@) {
        Some(trim_char(trim_start_matches(trim(parts[i]), "rel="@), '"'))
    } else {
        rel_param(parts, i + 1)
    }
}

/// The URL and relation named by one comma-separated entry of a `Link`
/// header, when the entry has both.
pub open spec fn link_entry(seg: Seq<char>) -> Option<(Seq<char>, Seq<char>)> {
    let parts = split_on(seg, ';');
    match (bracketed(trim(parts[0])), rel_param(parts, 1)) {
        (Some(url), Some(rel)) => Some((url, rel)),
        _ => None,
    }
}

/// The links after recording one entry: a known relation takes the URL,
/// anything else leaves the links as they were.
pub open spec fn record_link(links: LinksModel, entry: Option<(Seq<char>, Seq<char>)>) -> LinksModel {
    match entry {
        Some((url, rel)) => {
            if rel == "first"@ {
                LinksModel { first: Some(url), ..links }
            } else if rel == "prev"@ {
                LinksModel { prev: Some(url), ..links }
            } else if rel == "next"@ {
                LinksModel { next: Some(url), ..links }
            } else if rel == "last"@ {
                LinksModel { last: Some(url), ..links }
            } else if rel == "alternate"@ {
                LinksModel { alternate: Some(url), ..links }
            } else {
                links
            }
        },
        None => links,
    }
}

/// The links that a sequence of entries records, in order (a later entry of
/// the same relation wins).
pub open spec fn links_of_entries(segs: Seq<Seq<char>>) -> LinksModel
    decreases segs.len(),
{
    if segs.len() == 0 {
        no_links()
    } else {
        record_link(links_of_entries(segs.drop_last()), link_entry(segs.last()))
    }
}

/// The pagination links that a `Link` header's text gives.
pub open spec fn link_header_links(value: Option<Seq<char>>) -> LinksModel {
    match value {
        Some(v) => links_of_entries(split_on(v, ',')),
        None => no_links(),
    }
}

fn find_rel(parts: &Vec<Vec<char>>, rel_prefix: &Vec<char>) -> (r: Option<Vec<char>>)
    requires
        rel_prefix@ == "rel="@,
    ensures
        r matches Some(v) ==> rel_param(views_of(parts@), 1) == Some(v@),
        r is None ==> rel_param(views_of(parts@), 1) is None,
{
    let ghost ps = views_of(parts@);
    let mut i: usize = 1;
    if parts.len() == 0 {
        return None;
    }
    while i < parts.len()
        invariant
            1 <= i <= parts.len(),
            ps == views_of(parts@),
            rel_prefix@ == "rel="@,
            rel_param(ps, 1) == rel_param(ps, i as int),
        decreases parts.len() - i,
    {
        let part = trim_whitespace(&parts[i]);
        assert(ps[i as int] == parts@[i as int]@);
        assert(rel_param(ps, i as int) == if starts_with(trim(ps[i as int]), "rel="@) {
            Some(trim_char(trim_start_matches(trim(ps[i as int]), "rel="@), '"'))
        } else {
            rel_param(ps, i as int + 1)
        });
        if chars_start_with(&part, rel_prefix) {
            let stripped = trim_start_matching(&part, rel_prefix);
            let rel = trim_matching_char(&stripped, '"');
            return Some(rel);
        }
        i = i + 1;
    }
    None
}

fn link_entry_exec(seg: &Vec<char>, rel_prefix: &Vec<char>) -> (r: Option<(Vec<char>, Vec<char>)>)
    requires
        rel_prefix@ == "rel="@,
    ensures
        r matches Some((u, rel)) ==> link_entry(seg@) == Some((u@, rel@)),
        r is None ==> link_entry(seg@) is None,
{
    let parts = split_chars(seg, ';');
    proof { crate::text::lemma_split_on_nonempty(seg@, ';'); }
    let ghost ps = views_of(parts@);
    assert(ps[0] == parts@[0]@);
    let url_part = trim_whitespace(&parts[0]);
    let url = if url_part.len() >= 2 && url_part[0] == '<' && url_part[url_part.len() - 1] == '>' {
        Some(slice_chars(&url_part, 1, url_part.len() - 1))
    } else {
        None
    };
    let rel = find_rel(&parts, rel_prefix);
    match (url, rel) {
        (Some(u), Some(r)) => Some((u, r)),
        _ => None,
    }
}

/// Reads the pagination relations of a `Link` header: each comma-separated
/// entry `<url>; rel="name"` with a known relation sets that relation's URL.
pub fn parse_link_header(value: Option<&str>) -> (links: PaginationLinks)
    ensures
        links@ == link_header_links(opt_str(value)),
{
    let mut links = PaginationLinks::default();
    let v = match value {
        Some(v) => v,
        None => return links,
    };
    let cs = chars_of(v);
    let segs = split_chars(&cs, ',');
    let rel_prefix = chars_of("rel=");
    let first = chars_of("first");
    let prev = chars_of("prev");
    let next = chars_of("next");
    let last = chars_of("last");
    let alternate = chars_of("alternate");
    let ghost ss = views_of(segs@);
    let mut i: usize = 0;
    assert(ss.take(0) =~= Seq::<Seq<char>>::empty());
    while i < segs.len()
        invariant
            i <= segs.len(),
            ss == views_of(segs@),
            ss == split_on(v@, ','),
            rel_prefix@ == "rel="@,
            first@ == "first"@,
            prev@ == "prev"@,
            next@ == "next"@,
            last@ == "last"@,
            alternate@ == "alternate"@,
            links@ == links_of_entries(ss.take(i as int)),
        decreases segs.len() - i,
    {
        assert(ss.take(i as int + 1).drop_last() =~= ss.take(i as int));
        assert(ss.take(i as int + 1).last() == segs@[i as int]@);
        let ghost before = links@;
        match link_entry_exec(&segs[i], &rel_prefix) {
            Some((url, rel)) => {
                if chars_eq(&rel, &first) {
                    links.first = Some(string_from_chars(&url));
                } else if chars_eq(&rel, &prev) {
                    links.prev = Some(string_from_chars(&url));
                } else if chars_eq(&rel, &next) {
                    links.next = Some(string_from_chars(&url));
                } else if chars_eq(&rel, &last) {
                    links.last = Some(string_from_chars(&url));
                } else if chars_eq(&rel, &alternate) {
                    links.alternate = Some(string_from_chars(&url));
                }
            },
            None => {},
        }
        i = i + 1;
    }
    assert(ss.take(segs.len() as int) =~= ss);
    links
}

/// The metadata that a response's headers give: each text is the header's
/// value when present and visible ASCII.
pub fn parse_response_metadata(
    last_modified_version: Option<&str>,
    library_version: Option<&str>,
    backoff: Option<&str>,
    retry_after: Option<&str>,
    link: Option<&str>,
) -> (m: ResponseMetadata)
    ensures
        m.last_modified_version == header_u64(opt_str(last_modified_version)),
        m.library_version == header_u64(opt_str(library_version)),
        m.backoff_seconds == header_u64(opt_str(backoff)),
        m.retry_after_seconds == header_u64(opt_str(retry_after)),
        m.links@ == link_header_links(opt_str(link)),
{
    ResponseMetadata {
        last_modified_version: parse_u64_header(last_modified_version),
        library_version: parse_u64_header(library_version),
        backoff_seconds: parse_u64_header(backoff),
        retry_after_seconds: parse_u64_header(retry_after),
        links: parse_link_header(link),
    }
}

} // verus!
