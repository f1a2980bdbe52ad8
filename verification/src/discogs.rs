//! The catalog provider: what its search results mean.
//!
//! A result carries one combined title, `"Artist - Title"`. The artist is
//! what stands before the first delimiter, without a trailing parenthetical
//! such as `" (2)"`; the title is what stands between the first delimiter
//! and the next, or the end.

use vstd::prelude::*;
use itertools::Itertools;
use crate::error::Error;
use crate::quota::{Quota, NANOS_PER_MINUTE};
use crate::text::{contains, first_index, is_first, is_last, last_index};
use crate::text::{find_first, find_last, lemma_first_index, lemma_last_index, to_chars};

verus! {

/// A release as the catalog provider lists it.
#[derive(Debug, Clone, PartialEq, Eq)]
pub struct Release {
    pub barcode: Vec<String>,
    pub catno: String,
    pub country: String,
    pub title: String,
    pub year: String,
}

/// One entry of a result list. Releases are the only entries known.
#[derive(Debug, Clone, PartialEq, Eq)]
pub enum SearchItem {
    Release(Release),
}

/// A release in the shape the resolution works with.
#[derive(Debug, Clone, PartialEq, Eq)]
pub struct OutputItem {
    pub artist: String,
    pub title: String,
    pub catalogue_number: String,
    pub year: String,
}

/// What a `Release` holds.
pub struct ReleaseView {
    pub barcode: Seq<Seq<char>>,
    pub catno: Seq<char>,
    pub country: Seq<char>,
    pub title: Seq<char>,
    pub year: Seq<char>,
}

/// What a `SearchItem` holds.
pub enum SearchItemView {
    Release(ReleaseView),
}

/// What an `OutputItem` holds.
pub struct CatalogRecord {
    pub artist: Seq<char>,
    pub title: Seq<char>,
    pub catalogue_number: Seq<char>,
    pub year: Seq<char>,
}

impl View for Release {
    type V = ReleaseView;

    open spec fn view(&self) -> ReleaseView {
        ReleaseView {
            barcode: self.barcode@.map_values(|b: String| b@),
            catno: self.catno@,
            country: self.country@,
            title: self.title@,
            year: self.year@,
        }
    }
}

impl View for SearchItem {
    type V = SearchItemView;

    open spec fn view(&self) -> SearchItemView {
        match self {
            SearchItem::Release(r) => SearchItemView::Release(r@),
        }
    }
}

impl View for OutputItem {
    type V = CatalogRecord;

    open spec fn view(&self) -> CatalogRecord {
        CatalogRecord {
            artist: self.artist@,
            title: self.title@,
            catalogue_number: self.catalogue_number@,
            year: self.year@,
        }
    }
}

/// The delimiter between artist and title: `" - "`.
pub open spec fn delimiter() -> Seq<char> {
    seq![' ', '-', ' ']
}

/// What opens a parenthetical after an artist's name: `" ("`.
pub open spec fn paren_open() -> Seq<char> {
    seq![' ', '(']
}

/// The part of a combined title before its first delimiter.
pub open spec fn raw_artist(t: Seq<char>) -> Seq<char> {
    t.take(first_index(t, delimiter()))
}

/// The part of a combined title between its first delimiter and the next
/// one, or the end.
pub open spec fn raw_title(t: Seq<char>) -> Seq<char> {
    let rest = t.skip(first_index(t, delimiter()) + 3);
    if contains(rest, delimiter()) {
        rest.take(first_index(rest, delimiter()))
    } else {
        rest
    }
}

/// The name ends in a closing parenthesis.
pub open spec fn has_parenthetical(a: Seq<char>) -> bool {
    a.len() > 0 && a.last() == ')'
}

/// A combined title that can be taken apart: it holds a delimiter, and an
/// artist part that ends in `)` also holds the `" ("` that opens it.
pub open spec fn well_formed_title(t: Seq<char>) -> bool {
    &&& contains(t, delimiter())
    &&& has_parenthetical(raw_artist(t)) ==> contains(raw_artist(t), paren_open())
}

/// The artist of a well-formed combined title: its artist part, cut before
/// the last `" ("` where it ends in `)`.
pub open spec fn artist_of(t: Seq<char>) -> Seq<char> {
    let a = raw_artist(t);
    if has_parenthetical(a) {
        a.take(last_index(a, paren_open()))
    } else {
        a
    }
}

/// The record that a result entry stands for, where its title is well
/// formed.
pub open spec fn record_of(item: SearchItemView) -> Option<CatalogRecord> {
    match item {
        SearchItemView::Release(r) => if well_formed_title(r.title) {
            Some(
                CatalogRecord {
                    artist: artist_of(r.title),
                    title: raw_title(r.title),
                    catalogue_number: r.catno,
                    year: r.year,
                },
            )
        } else {
            None
        },
    }
}

/// Takes a result entry's combined title apart. Fails with `Error::Parse`
/// exactly where the title is not well formed.
pub fn search_item_to_output_item(search_item: &SearchItem) -> (r: Result<OutputItem, Error>)
    ensures
        match r {
            Ok(item) => record_of(search_item@) == Some(item@),
            Err(e) => e == Error::Parse && record_of(search_item@) is None,
        },
{
    match search_item {
        SearchItem::Release(x) => {
            let text: &str = x.title.as_str();
            let chars = to_chars(text);
            let n: usize = chars.len();
            let delim: Vec<char> = vec![' ', '-', ' '];
            let paren: Vec<char> = vec![' ', '('];
            let ghost t = x.title@;
            assert(delim@ =~= delimiter());
            assert(paren@ =~= paren_open());
            assert(chars@.subrange(0, n as int) =~= t);
            let i: usize = match find_first(&chars, &delim, 0, n) {
                Some(i) => i,
                None => {
                    return Err(Error::Parse);
                },
            };
            proof {
                lemma_first_index(t, delimiter(), i as int);
            }
            let ghost rest = t.skip(i + 3);
            assert(chars@.subrange(i + 3, n as int) =~= rest);
            let title_end: usize = match find_first(&chars, &delim, i + 3, n) {
                Some(j) => {
                    proof {
                        lemma_first_index(rest, delimiter(), j as int);
                    }
                    assert(t.subrange(i + 3, i + 3 + j) =~= rest.take(j as int));
                    i + 3 + j
                },
                None => {
                    assert(t.subrange(i + 3, n as int) =~= rest);
                    n
                },
            };
            let ghost a = raw_artist(t);
            assert(chars@.subrange(0, i as int) =~= a);
            let artist_end: usize = if i > 0 && chars[i - 1] == ')' {
                match find_last(&chars, &paren, 0, i) {
                    Some(k) => {
                        proof {
                            lemma_last_index(a, paren_open(), k as int);
                        }
                        assert(t.subrange(0, k as int) =~= a.take(k as int));
                        k
                    },
                    None => {
                        return Err(Error::Parse);
                    },
                }
            } else {
                assert(t.subrange(0, i as int) =~= a);
                i
            };
            Ok(
                OutputItem {
                    artist: text.substring_char(0, artist_end).to_owned(),
                    title: text.substring_char(i + 3, title_end).to_owned(),
                    catalogue_number: x.catno.clone(),
                    year: x.year.clone(),
                },
            )
        },
    }
}

/// A text with the delimiter after it, and a title after that, comes apart
/// at that delimiter: where the delimiter stands nowhere before it nor in
/// the title.
proof fn lemma_parts_of_joined(artist: Seq<char>, title: Seq<char>)
    requires
        is_first(artist + delimiter() + title, delimiter(), artist.len() as int),
        !contains(title, delimiter()),
    ensures
        contains(artist + delimiter() + title, delimiter()),
        raw_artist(artist + delimiter() + title) == artist,
        raw_title(artist + delimiter() + title) == title,
{
    let joined = artist + delimiter() + title;
    lemma_first_index(joined, delimiter(), artist.len() as int);
    assert(joined.take(artist.len() as int) =~= artist);
    assert(joined.skip(artist.len() as int + 3) =~= title);
}

/// An artist and a title, joined by the delimiter, come apart again as they
/// were: where the delimiter stands nowhere before the join nor in the
/// title, and the artist does not end in `)`.
pub proof fn lemma_joined_title(artist: Seq<char>, title: Seq<char>)
    requires
        is_first(artist + delimiter() + title, delimiter(), artist.len() as int),
        !contains(title, delimiter()),
        !has_parenthetical(artist),
    ensures
        well_formed_title(artist + delimiter() + title),
        artist_of(artist + delimiter() + title) == artist,
        raw_title(artist + delimiter() + title) == title,
{
    lemma_parts_of_joined(artist, title);
}

/// An artist with a parenthetical loses it: where `artist` ends in `)` and
/// its last `" ("` stands at `cut`, the artist of the joined title is what
/// stands before `cut`. The delimiter stands nowhere before the join nor in
/// the title.
pub proof fn lemma_joined_title_with_note(artist: Seq<char>, title: Seq<char>, cut: int)
    requires
        is_first(artist + delimiter() + title, delimiter(), artist.len() as int),
        !contains(title, delimiter()),
        has_parenthetical(artist),
        is_last(artist, paren_open(), cut),
    ensures
        well_formed_title(artist + delimiter() + title),
        artist_of(artist + delimiter() + title) == artist.take(cut),
        raw_title(artist + delimiter() + title) == title,
{
    lemma_parts_of_joined(artist, title);
    lemma_last_index(artist, paren_open(), cut);
}

/// What each item of a list holds.
pub open spec fn records(items: Seq<OutputItem>) -> Seq<CatalogRecord> {
    items.map_values(|x: OutputItem| x@)
}

/// A catalogue number stands in a record of the list.
pub open spec fn has_number(s: Seq<CatalogRecord>, number: Seq<char>) -> bool {
    exists|j: int| 0 <= j < s.len() && (#[trigger] s[j]).catalogue_number == number
}

/// The records whose catalogue number no earlier record has, in their
/// order: of records that share a number the first stays.
pub open spec fn distinct_by_number(s: Seq<CatalogRecord>) -> Seq<CatalogRecord>
    decreases s.len(),
{
    if s.len() == 0 {
        s
    } else if has_number(s.drop_last(), s.last().catalogue_number) {
        distinct_by_number(s.drop_last())
    } else {
        distinct_by_number(s.drop_last()).push(s.last())
    }
}

/// The first record of a list survives deduplication, and stays first.
pub proof fn lemma_first_stays_first(s: Seq<CatalogRecord>)
    requires
        s.len() > 0,
    ensures
        distinct_by_number(s).len() > 0,
        distinct_by_number(s)[0] == s[0],
    decreases s.len(),
{
    if s.len() == 1 {
        assert(s.drop_last().len() == 0);
        assert(!has_number(s.drop_last(), s.last().catalogue_number));
        assert(distinct_by_number(s.drop_last()).len() == 0);
    } else {
        lemma_first_stays_first(s.drop_last());
    }
}

/// No two records that are left share a catalogue number, and each number
/// of the list is still there.
pub proof fn lemma_distinct_numbers(s: Seq<CatalogRecord>)
    ensures
        forall|i: int, j: int|
            0 <= i < j < distinct_by_number(s).len() ==> (#[trigger] distinct_by_number(
                s,
            )[i]).catalogue_number != (#[trigger] distinct_by_number(s)[j]).catalogue_number,
        forall|number: Seq<char>|
            has_number(s, number) <==> #[trigger] has_number(distinct_by_number(s), number),
    decreases s.len(),
{
    let d = distinct_by_number(s);
    if s.len() > 0 {
        let init = s.drop_last();
        let x = s.last();
        let di = distinct_by_number(init);
        lemma_distinct_numbers(init);
        assert forall|number: Seq<char>| has_number(s, number) <==> #[trigger] has_number(
            d,
            number,
        ) by {
            if has_number(s, number) {
                let j = choose|j: int| 0 <= j < s.len() && (#[trigger] s[j]).catalogue_number == number;
                if j < s.len() - 1 {
                    assert(init[j] == s[j]);
                    assert(has_number(init, number));
                    assert(has_number(di, number));
                    let k = choose|k: int| 0 <= k < di.len() && (#[trigger] di[k]).catalogue_number == number;
                    assert(d[k] == di[k]);
                } else if has_number(init, x.catalogue_number) {
                    assert(has_number(di, number));
                } else {
                    assert(d[d.len() - 1] == x);
                }
            }
            if has_number(d, number) {
                let k = choose|k: int| 0 <= k < d.len() && (#[trigger] d[k]).catalogue_number == number;
                if k < di.len() {
                    assert(d[k] == di[k]);
                    assert(has_number(di, number));
                    assert(has_number(init, number));
                    let j = choose|j: int| 0 <= j < init.len() && (#[trigger] init[j]).catalogue_number == number;
                    assert(s[j] == init[j]);
                } else {
                    assert(d[k] == x);
                    assert(s[s.len() - 1] == x);
                }
            }
        }
        assert forall|i: int, j: int| 0 <= i < j < d.len() implies (#[trigger] d[i]).catalogue_number
            != (#[trigger] d[j]).catalogue_number by {
            if j < di.len() {
                assert(d[i] == di[i] && d[j] == di[j]);
            } else {
                assert(d[i] == di[i]);
                assert(has_number(di, di[i].catalogue_number));
            }
        }
    }
}

/// `Itertools::unique_by`, keyed by the catalogue number and collected: the
/// adaptor hands on each item whose key it has not seen before, in the order
/// of the list, so that of items with one key the first stays.
#[verifier::external_body]
fn unique_by_catalogue_number(items: Vec<OutputItem>) -> (out: Vec<OutputItem>)
    ensures
        records(out@) == distinct_by_number(records(items@)),
{
    items.into_iter().unique_by(|x| x.catalogue_number.clone()).collect()
}

/// The items without those whose catalogue number an earlier item has.
pub fn distinct_items(items: Vec<OutputItem>) -> (out: Vec<OutputItem>)
    ensures
        records(out@) == distinct_by_number(records(items@)),
{
    unique_by_catalogue_number(items)
}

/// Every entry of the list has a well-formed title.
pub open spec fn all_well_formed(results: Seq<SearchItem>) -> bool {
    forall|i: int| 0 <= i < results.len() ==> record_of((#[trigger] results[i])@) is Some
}

/// The records of a list of entries whose titles are all well formed.
pub open spec fn records_of(results: Seq<SearchItem>) -> Seq<CatalogRecord> {
    Seq::new(results.len(), |i: int| record_of(results[i]@)->0)
}

/// What a search leaves of a result list: its first record, or none where
/// the list is empty.
///
/// The records are deduplicated by catalogue number and the first of them is
/// kept, which is the record of the first entry. So the first entry alone is
/// taken apart and alone decides: where its title is not well formed the
/// search fails with `Error::Parse`, and what the later entries hold is not
/// read.
pub fn first_record(results: &Vec<SearchItem>) -> (r: Result<Option<OutputItem>, Error>)
    ensures
        match r {
            Ok(Some(item)) => {
                &&& results.len() > 0
                &&& record_of(results[0]@) == Some(item@)
                &&& all_well_formed(results@) ==> item@ == distinct_by_number(
                    records_of(results@),
                )[0]
            },
            Ok(None) => results.len() == 0,
            Err(e) => e == Error::Parse && results.len() > 0 && record_of(results[0]@) is None,
        },
{
    if results.len() == 0 {
        return Ok(None);
    }
    let first = match search_item_to_output_item(&results[0]) {
        Ok(item) => item,
        Err(e) => {
            return Err(e);
        },
    };
    let ghost record = first@;
    let mut read: Vec<OutputItem> = Vec::new();
    read.push(first);
    assert(records(read@) =~= seq![record]);
    let mut distinct = distinct_items(read);
    proof {
        lemma_first_stays_first(seq![record]);
        assert(records(distinct@)[0] == distinct[0]@);
        if all_well_formed(results@) {
            lemma_first_stays_first(records_of(results@));
        }
    }
    Ok(Some(distinct.swap_remove(0)))
}

/// The quota of the catalog provider: sixty requests a minute, so that one
/// more may be made every second.
pub fn quota() -> (q: Quota)
    ensures
        q == (Quota { max_burst: 60, replenish_nanos: 1_000_000_000 }),
        q.well_formed(),
        q.window_nanos() == 60_000_000_000,
{
    let q = Quota::per_minute(60);
    assert(NANOS_PER_MINUTE / 60 == 1_000_000_000);
    q.unwrap()
}

} // verus!
