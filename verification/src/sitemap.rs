//! Sitemaps: the URLs listed in a sitemap.
use vstd::prelude::*;

use crate::address::AbsoluteUrl;

verus! {

/// An entry read from a sitemap.
#[derive(Debug)]
pub enum SitemapEntity {
    /// A page, with its location when it is a valid URL.
    Url(Option<AbsoluteUrl>),
    /// A nested sitemap, with its location when it is a valid URL.
    SiteMap(Option<AbsoluteUrl>),
    /// An entry that could not be read.
    Unreadable,
}

/// The locations of the pages among the entries of a sitemap, in order.
pub open spec fn page_urls(entities: Seq<SitemapEntity>) -> Seq<Seq<char>>
    decreases entities.len(),
{
    if entities.len() == 0 {
        seq![]
    } else {
        let rest = page_urls(entities.drop_last());
        match entities.last() {
            SitemapEntity::Url(Some(u)) => rest.push(u@),
            _ => rest,
        }
    }
}

/// The views of URLs.
pub open spec fn url_views(v: Seq<AbsoluteUrl>) -> Seq<Seq<char>> {
    v.map_values(|u: AbsoluteUrl| u@)
}

/// Reading the URLs of a sitemap. Fetching and parsing the sitemap happen
/// outside; nested sitemaps are listed but not followed, and entries that
/// cannot be read are skipped.
#[derive(Debug)]
pub struct Sitemap {}

impl Sitemap {
    /// The locations of the pages among the entries of a sitemap, in order.
    pub fn urls(entities: Vec<SitemapEntity>) -> (r: Vec<AbsoluteUrl>)
        ensures
            url_views(r@) == page_urls(entities@),
    {
        let mut urls: Vec<AbsoluteUrl> = Vec::new();
        let mut i: usize = 0;
        while i < entities.len()
            invariant
                i <= entities.len(),
                url_views(urls@) == page_urls(entities@.take(i as int)),
            decreases entities.len() - i,
        {
            assert(entities@.take(i as int + 1).drop_last() =~= entities@.take(i as int));
            assert(entities@.take(i as int + 1).last() == entities@[i as int]);
            match &entities[i] {
                SitemapEntity::Url(Some(u)) => {
                    let ghost before = url_views(urls@);
                    let c = u.clone();
                    urls.push(c);
                    assert(url_views(urls@) =~= before.push(u@));
                },
                _ => {},
            }
            i += 1;
        }
        assert(entities@.take(entities.len() as int) =~= entities@);
        urls
    }
}

} // verus!
