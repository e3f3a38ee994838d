use vstd::prelude::*;
use crate::cache_key::{cache_key_of_url, url_to_cache_key};
use crate::media::texts;

verus! {

/// A page to download: where it belongs, where it comes from, and its cache key.
#[derive(Clone, Debug, PartialEq, Eq)]
pub struct PageTask {
    pub comic_path_word: String,
    pub chapter_uuid: String,
    pub image_index: u32,
    pub url: String,
    pub cache_key: String,
}

/// The pages of a chapter, one per item of its content list, in the list's order.
pub fn build_chapter_pages(group_path_word: &str, chapter_uuid: &str, urls: &Vec<String>) -> (r: Vec<PageTask>)
    requires
        urls.len() <= u32::MAX,
    ensures
        r.len() == urls.len(),
        forall|i: int|
            0 <= i < r.len() ==> {
                &&& (#[trigger] r[i]).comic_path_word@ == group_path_word@
                &&& r[i].chapter_uuid@ == chapter_uuid@
                &&& r[i].image_index == i
                &&& r[i].url@ == urls[i]@
                &&& r[i].cache_key@ == cache_key_of_url(urls[i]@)
            },
{
    let mut out: Vec<PageTask> = Vec::new();
    let mut i: usize = 0;
    while i < urls.len()
        invariant
            i <= urls.len(),
            urls.len() <= u32::MAX,
            out.len() == i,
            forall|j: int|
                0 <= j < i ==> {
                    &&& (#[trigger] out[j]).comic_path_word@ == group_path_word@
                    &&& out[j].chapter_uuid@ == chapter_uuid@
                    &&& out[j].image_index == j
                    &&& out[j].url@ == urls[j]@
                    &&& out[j].cache_key@ == cache_key_of_url(urls[j]@)
                },
        decreases urls.len() - i,
    {
        let u = &urls[i];
        let page = PageTask {
            comic_path_word: group_path_word.to_owned(),
            chapter_uuid: chapter_uuid.to_owned(),
            image_index: i as u32,
            url: u.clone(),
            cache_key: url_to_cache_key(u.as_str()),
        };
        out.push(page);
        i = i + 1;
    }
    out
}

/// The chapter of each page, as text.
pub open spec fn chapter_ids(pages: Seq<PageTask>) -> Seq<Seq<char>> {
    pages.map_values(|p: PageTask| p.chapter_uuid@)
}

fn contains_text(v: &Vec<String>, s: &String) -> (r: bool)
    ensures
        r == texts(v@).contains(s@),
{
    let mut i: usize = 0;
    while i < v.len()
        invariant
            i <= v.len(),
            forall|j: int| 0 <= j < i ==> (#[trigger] v[j])@ != s@,
        decreases v.len() - i,
    {
        if v[i] == *s {
            assert(texts(v@)[i as int] == s@);
            return true;
        }
        i = i + 1;
    }
    assert forall|j: int| 0 <= j < texts(v@).len() implies texts(v@)[j] != s@ by {
        assert(texts(v@)[j] == v[j]@);
    }
    false
}

/// The chapters present in a batch, each once.
pub fn distinct_chapters(pages: &Vec<PageTask>) -> (r: Vec<String>)
    ensures
        texts(r@).no_duplicates(),
        forall|i: int| 0 <= i < pages.len() ==> texts(r@).contains(#[trigger] chapter_ids(pages@)[i]),
        forall|j: int| 0 <= j < r.len() ==> chapter_ids(pages@).contains(#[trigger] texts(r@)[j]),
{
    let mut out: Vec<String> = Vec::new();
    let mut i: usize = 0;
    let ghost ids = chapter_ids(pages@);
    while i < pages.len()
        invariant
            i <= pages.len(),
            ids == chapter_ids(pages@),
            texts(out@).no_duplicates(),
            forall|k: int| 0 <= k < i ==> texts(out@).contains(#[trigger] ids[k]),
            forall|j: int| 0 <= j < out.len() ==> ids.subrange(0, i as int).contains(#[trigger] texts(out@)[j]),
        decreases pages.len() - i,
    {
        let c = &pages[i].chapter_uuid;
        let ghost before = texts(out@);
        assert(ids[i as int] == c@);
        if !contains_text(&out, c) {
            out.push(c.clone());
            assert(texts(out@) == before.push(c@));
        }
        proof {
            let after = texts(out@);
            assert forall|k: int| 0 <= k < i + 1 implies after.contains(#[trigger] ids[k]) by {
                if k < i {
                    let w = choose|w: int| 0 <= w < before.len() && before[w] == ids[k];
                    assert(after[w] == ids[k]);
                } else {
                    if before.contains(c@) {
                        let w = choose|w: int| 0 <= w < before.len() && before[w] == c@;
                        assert(after[w] == ids[k]);
                    } else {
                        assert(after[after.len() - 1] == ids[k]);
                    }
                }
            }
            assert forall|j: int| 0 <= j < out.len() implies ids.subrange(0, i + 1).contains(#[trigger] after[j]) by {
                if j < before.len() {
                    assert(after[j] == before[j]);
                    let w = choose|w: int| 0 <= w < i && ids.subrange(0, i as int)[w] == before[j];
                    assert(ids.subrange(0, i + 1)[w] == after[j]);
                } else {
                    assert(ids.subrange(0, i + 1)[i as int] == after[j]);
                }
            }
        }
        i = i + 1;
    }
    assert(ids.subrange(0, pages.len() as int) == ids);
    out
}

} // verus!
