//! The tracker provider: its release groups, and the three ways of asking
//! for one.
//!
//! The tracker takes the presence of a field as the choice of a mode, so a
//! query fills the fields of one mode and leaves the others out.

use vstd::prelude::*;
use crate::quota::{Quota, NANOS_PER_SECOND};

verus! {

/// One torrent of a release group.
#[derive(Debug, Clone, PartialEq, Eq)]
pub struct Torrent {
    format: String,
    encoding: String,
    pub has_log: bool,
    pub log_score: i8,
    pub time: String,
    pub remastered: bool,
    pub remaster_catalogue_number: String,
    pub remaster_title: String,
    pub remaster_year: u16,
}

/// A release group: one release with its torrents.
#[derive(Debug, Clone, PartialEq, Eq)]
pub struct Group {
    pub artist_name: String,
    pub group_name: String,
    pub group_year: u16,
    pub torrents: Vec<Torrent>,
}

/// What a `Torrent` holds.
pub struct TorrentView {
    pub format: Seq<char>,
    pub encoding: Seq<char>,
    pub has_log: bool,
    pub log_score: i8,
    pub time: Seq<char>,
    pub remastered: bool,
    pub remaster_catalogue_number: Seq<char>,
    pub remaster_title: Seq<char>,
    pub remaster_year: u16,
}

/// What a `Group` holds.
pub struct GroupView {
    pub artist_name: Seq<char>,
    pub group_name: Seq<char>,
    pub group_year: u16,
    pub torrents: Seq<TorrentView>,
}

impl View for Torrent {
    type V = TorrentView;

    closed spec fn view(&self) -> TorrentView {
        TorrentView {
            format: self.format@,
            encoding: self.encoding@,
            has_log: self.has_log,
            log_score: self.log_score,
            time: self.time@,
            remastered: self.remastered,
            remaster_catalogue_number: self.remaster_catalogue_number@,
            remaster_title: self.remaster_title@,
            remaster_year: self.remaster_year,
        }
    }
}

impl View for Group {
    type V = GroupView;

    open spec fn view(&self) -> GroupView {
        GroupView {
            artist_name: self.artist_name@,
            group_name: self.group_name@,
            group_year: self.group_year,
            torrents: self.torrents@.map_values(|t: Torrent| t@),
        }
    }
}

impl Torrent {
    /// A torrent of the given fields.
    pub fn new(
        format: String,
        encoding: String,
        has_log: bool,
        log_score: i8,
        time: String,
        remastered: bool,
        remaster_catalogue_number: String,
        remaster_title: String,
        remaster_year: u16,
    ) -> (t: Torrent)
        ensures
            t@ == (TorrentView {
                format: format@,
                encoding: encoding@,
                has_log,
                log_score,
                time: time@,
                remastered,
                remaster_catalogue_number: remaster_catalogue_number@,
                remaster_title: remaster_title@,
                remaster_year,
            }),
    {
        Torrent {
            format,
            encoding,
            has_log,
            log_score,
            time,
            remastered,
            remaster_catalogue_number,
            remaster_title,
            remaster_year,
        }
    }

    /// The audio format, such as `FLAC`.
    pub fn format(&self) -> (s: &str)
        ensures
            s@ == self@.format,
    {
        self.format.as_str()
    }

    /// The encoding, such as `Lossless`.
    pub fn encoding(&self) -> (s: &str)
        ensures
            s@ == self@.encoding,
    {
        self.encoding.as_str()
    }
}

/// The characters of an optional text.
pub open spec fn text_of(o: Option<&str>) -> Option<Seq<char>> {
    match o {
        Some(s) => Some(s@),
        None => None,
    }
}

/// A query as the tracker receives it: six fields, each present or left out.
#[derive(Debug, Clone, Copy, PartialEq, Eq)]
pub struct SearchQuery<'a> {
    artist_name: Option<&'a str>,
    group_name: Option<&'a str>,
    year: Option<u16>,
    record_label: Option<&'a str>,
    catalogue_number: Option<&'a str>,
    search_str: Option<&'a str>,
}

/// What a `SearchQuery` holds.
pub struct SearchQueryView {
    pub artist_name: Option<Seq<char>>,
    pub group_name: Option<Seq<char>>,
    pub year: Option<u16>,
    pub record_label: Option<Seq<char>>,
    pub catalogue_number: Option<Seq<char>>,
    pub search_str: Option<Seq<char>>,
}

impl SearchQueryView {
    /// The query asks by artist, group and year, and by nothing else.
    pub open spec fn by_names(self) -> bool {
        &&& self.artist_name is Some
        &&& self.group_name is Some
        &&& self.year is Some
        &&& self.record_label is None
        &&& self.catalogue_number is None
        &&& self.search_str is None
    }

    /// The query asks by catalogue number, with or without the label, and by
    /// nothing else.
    pub open spec fn by_catalog(self) -> bool {
        &&& self.artist_name is None
        &&& self.group_name is None
        &&& self.year is None
        &&& self.catalogue_number is Some
        &&& self.search_str is None
    }

    /// The query asks by free text, and by nothing else.
    pub open spec fn by_search_str(self) -> bool {
        &&& self.artist_name is None
        &&& self.group_name is None
        &&& self.year is None
        &&& self.record_label is None
        &&& self.catalogue_number is None
        &&& self.search_str is Some
    }

    /// The query is in one of the three modes.
    pub open spec fn single_mode(self) -> bool {
        self.by_names() || self.by_catalog() || self.by_search_str()
    }
}

impl<'a> View for SearchQuery<'a> {
    type V = SearchQueryView;

    closed spec fn view(&self) -> SearchQueryView {
        SearchQueryView {
            artist_name: text_of(self.artist_name),
            group_name: text_of(self.group_name),
            year: self.year,
            record_label: text_of(self.record_label),
            catalogue_number: text_of(self.catalogue_number),
            search_str: text_of(self.search_str),
        }
    }
}

impl<'a> SearchQuery<'a> {
    /// A query by artist, group and year.
    pub fn from_names(artist_name: &'a str, group_name: &'a str, year: u16) -> (q: Self)
        ensures
            q@ == (SearchQueryView {
                artist_name: Some(artist_name@),
                group_name: Some(group_name@),
                year: Some(year),
                record_label: None,
                catalogue_number: None,
                search_str: None,
            }),
            q@.by_names(),
    {
        Self {
            artist_name: Some(artist_name),
            group_name: Some(group_name),
            year: Some(year),
            record_label: None,
            catalogue_number: None,
            search_str: None,
        }
    }

    /// A query by catalogue number, and by the record label where one is
    /// given.
    pub fn from_catalog(record_label: Option<&'a str>, catalogue_number: &'a str) -> (q: Self)
        ensures
            q@ == (SearchQueryView {
                artist_name: None,
                group_name: None,
                year: None,
                record_label: text_of(record_label),
                catalogue_number: Some(catalogue_number@),
                search_str: None,
            }),
            q@.by_catalog(),
    {
        Self {
            artist_name: None,
            group_name: None,
            year: None,
            record_label,
            catalogue_number: Some(catalogue_number),
            search_str: None,
        }
    }

    /// A query by free text.
    pub fn from_search_str(search_str: &'a str) -> (q: Self)
        ensures
            q@ == (SearchQueryView {
                artist_name: None,
                group_name: None,
                year: None,
                record_label: None,
                catalogue_number: None,
                search_str: Some(search_str@),
            }),
            q@.by_search_str(),
    {
        Self {
            artist_name: None,
            group_name: None,
            year: None,
            record_label: None,
            catalogue_number: None,
            search_str: Some(search_str),
        }
    }
}

impl<'a> SearchQuery<'a> {
    /// The artist asked for, in a query by names.
    pub fn artist_name(&self) -> (r: Option<&'a str>)
        ensures
            text_of(r) == self@.artist_name,
    {
        self.artist_name
    }

    /// The group asked for, in a query by names.
    pub fn group_name(&self) -> (r: Option<&'a str>)
        ensures
            text_of(r) == self@.group_name,
    {
        self.group_name
    }

    /// The year asked for, in a query by names.
    pub fn year(&self) -> (r: Option<u16>)
        ensures
            r == self@.year,
    {
        self.year
    }

    /// The record label asked for, where a query by catalogue number names
    /// one.
    pub fn record_label(&self) -> (r: Option<&'a str>)
        ensures
            text_of(r) == self@.record_label,
    {
        self.record_label
    }

    /// The catalogue number asked for, in a query by catalogue number.
    pub fn catalogue_number(&self) -> (r: Option<&'a str>)
        ensures
            text_of(r) == self@.catalogue_number,
    {
        self.catalogue_number
    }

    /// The text asked for, in a query by free text.
    pub fn search_str(&self) -> (r: Option<&'a str>)
        ensures
            text_of(r) == self@.search_str,
    {
        self.search_str
    }
}

/// No query is in two modes at once.
pub proof fn lemma_modes_exclude(q: SearchQueryView)
    ensures
        !(q.by_names() && q.by_catalog()),
        !(q.by_names() && q.by_search_str()),
        !(q.by_catalog() && q.by_search_str()),
{
}

/// A query in the making: the mode, with the values of that mode alone.
#[derive(Debug, Clone, PartialEq, Eq)]
pub enum TrackerQuery {
    ByCatalog { record_label: Option<String>, catalogue_number: String },
    ByNames { artist_name: String, group_name: String, year: u16 },
    BySearchString { text: String },
}

/// What a `TrackerQuery` holds.
pub enum TrackerQueryView {
    ByCatalog { record_label: Option<Seq<char>>, catalogue_number: Seq<char> },
    ByNames { artist_name: Seq<char>, group_name: Seq<char>, year: u16 },
    BySearchString { text: Seq<char> },
}

impl TrackerQueryView {
    /// The query as the tracker receives it.
    pub open spec fn wire(self) -> SearchQueryView {
        match self {
            TrackerQueryView::ByCatalog { record_label, catalogue_number } => SearchQueryView {
                artist_name: None,
                group_name: None,
                year: None,
                record_label,
                catalogue_number: Some(catalogue_number),
                search_str: None,
            },
            TrackerQueryView::ByNames { artist_name, group_name, year } => SearchQueryView {
                artist_name: Some(artist_name),
                group_name: Some(group_name),
                year: Some(year),
                record_label: None,
                catalogue_number: None,
                search_str: None,
            },
            TrackerQueryView::BySearchString { text } => SearchQueryView {
                artist_name: None,
                group_name: None,
                year: None,
                record_label: None,
                catalogue_number: None,
                search_str: Some(text),
            },
        }
    }
}

impl View for TrackerQuery {
    type V = TrackerQueryView;

    open spec fn view(&self) -> TrackerQueryView {
        match self {
            TrackerQuery::ByCatalog { record_label, catalogue_number } => TrackerQueryView::ByCatalog {
                record_label: match record_label {
                    Some(l) => Some(l@),
                    None => None,
                },
                catalogue_number: catalogue_number@,
            },
            TrackerQuery::ByNames { artist_name, group_name, year } => TrackerQueryView::ByNames {
                artist_name: artist_name@,
                group_name: group_name@,
                year: *year,
            },
            TrackerQuery::BySearchString { text } => TrackerQueryView::BySearchString { text: text@ },
        }
    }
}

impl TrackerQuery {
    /// The query as the tracker receives it, in the one mode of `self`.
    pub fn to_search_query(&self) -> (q: SearchQuery<'_>)
        ensures
            q@ == self@.wire(),
            q@.single_mode(),
    {
        match self {
            TrackerQuery::ByCatalog { record_label, catalogue_number } => {
                let label: Option<&str> = match record_label {
                    Some(l) => Some(l.as_str()),
                    None => None,
                };
                SearchQuery::from_catalog(label, catalogue_number.as_str())
            },
            TrackerQuery::ByNames { artist_name, group_name, year } => SearchQuery::from_names(
                artist_name.as_str(),
                group_name.as_str(),
                *year,
            ),
            TrackerQuery::BySearchString { text } => SearchQuery::from_search_str(text.as_str()),
        }
    }
}

/// Of all the queries that the wire can carry, those in a single mode are
/// the ones that a `TrackerQuery` gives.
pub proof fn lemma_wire_single_mode(q: TrackerQueryView)
    ensures
        q.wire().single_mode(),
        q is ByCatalog <==> q.wire().by_catalog(),
        q is ByNames <==> q.wire().by_names(),
        q is BySearchString <==> q.wire().by_search_str(),
{
}

/// The group that a search keeps of the tracker's result list: the first,
/// or none where the list is empty.
pub fn first_group(results: Vec<Group>) -> (r: Option<Group>)
    ensures
        match r {
            Some(g) => results.len() > 0 && g == results[0],
            None => results.len() == 0,
        },
{
    let mut results = results;
    if results.len() == 0 {
        None
    } else {
        Some(results.swap_remove(0))
    }
}

/// The quota of the tracker: one request a second, and up to ten at once
/// after a pause.
pub fn quota() -> (q: Quota)
    ensures
        q == (Quota { max_burst: 10, replenish_nanos: 1_000_000_000 }),
        q.well_formed(),
{
    let steady = Quota::per_second(1);
    assert(NANOS_PER_SECOND / 1 == 1_000_000_000);
    let q = steady.unwrap().allow_burst(10);
    q.unwrap()
}

} // verus!
