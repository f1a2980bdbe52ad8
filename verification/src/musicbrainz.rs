//! The encyclopedia provider: what the resolution reads of a release.
//!
//! Of the labels and of the credited artists only the first entry counts;
//! of the release date only the year.

use vstd::prelude::*;

verus! {

/// A label's entry on a release.
#[derive(Debug, Clone, PartialEq, Eq)]
pub struct LabelInfo {
    pub catalog_number: Option<String>,
}

/// One credited artist.
#[derive(Debug, Clone, PartialEq, Eq)]
pub struct ArtistCredit {
    pub name: String,
}

/// A release as the encyclopedia lists it.
#[derive(Debug, Clone, PartialEq, Eq)]
pub struct Release {
    pub title: String,
    /// The year of the release date, where the release has a date.
    pub date: Option<i32>,
    pub artist_credit: Option<Vec<ArtistCredit>>,
    pub label_info: Option<Vec<LabelInfo>>,
}

/// What a `Release` holds.
pub struct ReleaseView {
    pub title: Seq<char>,
    pub date: Option<i32>,
    pub artist_credit: Option<Seq<Seq<char>>>,
    pub label_info: Option<Seq<Option<Seq<char>>>>,
}

impl View for LabelInfo {
    type V = Option<Seq<char>>;

    open spec fn view(&self) -> Option<Seq<char>> {
        match self.catalog_number {
            Some(n) => Some(n@),
            None => None,
        }
    }
}

impl View for ArtistCredit {
    type V = Seq<char>;

    open spec fn view(&self) -> Seq<char> {
        self.name@
    }
}

impl View for Release {
    type V = ReleaseView;

    open spec fn view(&self) -> ReleaseView {
        ReleaseView {
            title: self.title@,
            date: self.date,
            artist_credit: match self.artist_credit {
                Some(v) => Some(v@.map_values(|a: ArtistCredit| a@)),
                None => None,
            },
            label_info: match self.label_info {
                Some(v) => Some(v@.map_values(|l: LabelInfo| l@)),
                None => None,
            },
        }
    }
}

impl ReleaseView {
    /// The catalogue number of the first label entry.
    pub open spec fn catalog_number(self) -> Option<Seq<char>> {
        match self.label_info {
            Some(labels) => if labels.len() > 0 {
                labels[0]
            } else {
                None
            },
            None => None,
        }
    }

    /// The name of the first credited artist.
    pub open spec fn first_artist(self) -> Option<Seq<char>> {
        match self.artist_credit {
            Some(credits) => if credits.len() > 0 {
                Some(credits[0])
            } else {
                None
            },
            None => None,
        }
    }
}

impl Release {
    /// The catalogue number of the first label entry, where the release
    /// has label entries and the first of them has a number.
    pub fn catalog_number(&self) -> (r: Option<String>)
        ensures
            match r {
                Some(n) => self@.catalog_number() == Some(n@),
                None => self@.catalog_number() is None,
            },
    {
        match &self.label_info {
            Some(labels) => {
                if labels.len() > 0 {
                    match &labels[0].catalog_number {
                        Some(n) => Some(n.clone()),
                        None => None,
                    }
                } else {
                    None
                }
            },
            None => None,
        }
    }

    /// The name of the first credited artist, where the release credits
    /// one.
    pub fn first_artist(&self) -> (r: Option<String>)
        ensures
            match r {
                Some(n) => self@.first_artist() == Some(n@),
                None => self@.first_artist() is None,
            },
    {
        match &self.artist_credit {
            Some(credits) => {
                if credits.len() > 0 {
                    Some(credits[0].name.clone())
                } else {
                    None
                }
            },
            None => None,
        }
    }
}

/// The release that a search keeps of the encyclopedia's result list: the
/// first, or none where the list is empty.
pub fn first_release(entities: Vec<Release>) -> (r: Option<Release>)
    ensures
        match r {
            Some(e) => entities.len() > 0 && e == entities[0],
            None => entities.len() == 0,
        },
{
    let mut entities = entities;
    if entities.len() == 0 {
        None
    } else {
        Some(entities.swap_remove(0))
    }
}

} // verus!
