//! The site's fixed origin, its path markers and the address of each page
//! that the adapter asks for. Every request is a GET of one of these.

use crate::text::{decimal, render_decimal};
use vstd::prelude::*;
use vstd::string::StringExecFns;

verus! {

/// The site root that every address starts with.
pub const ORIGIN: &'static str = "https://mangafire.to";

/// The path marker of a title page.
pub const TITLE_MARKER: &'static str = "/manga/";

/// The path marker of a chapter page.
pub const CHAPTER_MARKER: &'static str = "/chapter/";

/// The address of `path` on the site: the origin, then `path` as it is.
pub open spec fn absolute(path: Seq<char>) -> Seq<char> {
    ORIGIN@ + path
}

/// The address of page `page` of the catalog, most popular titles first.
pub open spec fn catalog_address(page: int) -> Seq<char> {
    absolute("/home?sort=popular&page="@ + decimal(page))
}

/// The address of the page of the title `manga_id`.
pub open spec fn title_address(manga_id: Seq<char>) -> Seq<char> {
    absolute(TITLE_MARKER@ + manga_id)
}

/// The address of the chapter list of the title `manga_id`.
pub open spec fn chapters_address(manga_id: Seq<char>) -> Seq<char> {
    absolute(TITLE_MARKER@ + manga_id + "/chapters"@)
}

/// The address of the reader page of the chapter `chapter_id`.
pub open spec fn reader_address(chapter_id: Seq<char>) -> Seq<char> {
    absolute(CHAPTER_MARKER@ + chapter_id)
}

/// The address of `path` on the site.
pub fn make_absolute(path: &str) -> (url: String)
    ensures
        url@ == absolute(path@),
{
    let mut url = ORIGIN.to_owned();
    url.append(path);
    url
}

/// The address to fetch for page `page` of the catalog.
pub fn manga_list_url(page: i32) -> (url: String)
    ensures
        url@ == catalog_address(page as int),
{
    let mut path = "/home?sort=popular&page=".to_owned();
    let number = render_decimal(page);
    path.append(number.as_str());
    make_absolute(path.as_str())
}

/// The address to fetch for the details of the title `manga_id`.
pub fn manga_details_url(manga_id: &str) -> (url: String)
    ensures
        url@ == title_address(manga_id@),
{
    let mut path = TITLE_MARKER.to_owned();
    path.append(manga_id);
    make_absolute(path.as_str())
}

/// The address to fetch for the chapters of the title `manga_id`.
pub fn chapter_list_url(manga_id: &str) -> (url: String)
    ensures
        url@ == chapters_address(manga_id@),
{
    let mut path = TITLE_MARKER.to_owned();
    path.append(manga_id);
    path.append("/chapters");
    make_absolute(path.as_str())
}

/// The address to fetch for the pages of the chapter `chapter_id`.
pub fn page_list_url(chapter_id: &str) -> (url: String)
    ensures
        url@ == reader_address(chapter_id@),
{
    let mut path = CHAPTER_MARKER.to_owned();
    path.append(chapter_id);
    make_absolute(path.as_str())
}

} // verus!
