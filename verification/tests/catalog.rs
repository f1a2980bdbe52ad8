use cdscanner::discogs::{distinct_items, first_record, quota, search_item_to_output_item};
use cdscanner::discogs::{OutputItem, Release, SearchItem};
use cdscanner::error::Error;
use itertools::Itertools;

fn entry(title: &str, catno: &str, year: &str) -> SearchItem {
    SearchItem::Release(Release {
        barcode: vec!["0123456789012".to_string()],
        catno: catno.to_string(),
        country: "UK".to_string(),
        title: title.to_string(),
        year: year.to_string(),
    })
}

fn item(artist: &str, title: &str, number: &str) -> OutputItem {
    OutputItem {
        artist: artist.to_string(),
        title: title.to_string(),
        catalogue_number: number.to_string(),
        year: "2001".to_string(),
    }
}

#[test]
fn splits_artist_and_title() {
    let out = search_item_to_output_item(&entry("Artist - Title", "CAT1", "1999")).unwrap();
    assert_eq!(out.artist, "Artist");
    assert_eq!(out.title, "Title");
    assert_eq!(out.catalogue_number, "CAT1");
    assert_eq!(out.year, "1999");
}

#[test]
fn strips_parenthetical_after_artist() {
    let out = search_item_to_output_item(&entry("Artist (feat. X) - Title", "C", "2000")).unwrap();
    assert_eq!(out.artist, "Artist");
    assert_eq!(out.title, "Title");
}

#[test]
fn strips_only_the_last_parenthetical() {
    let out = search_item_to_output_item(&entry("Band (UK) (2) - Album", "C", "2000")).unwrap();
    assert_eq!(out.artist, "Band (UK)");
    assert_eq!(out.title, "Album");
}

#[test]
fn keeps_parenthetical_in_title() {
    let out = search_item_to_output_item(&entry("Artist - Title (Deluxe)", "C", "2000")).unwrap();
    assert_eq!(out.artist, "Artist");
    assert_eq!(out.title, "Title (Deluxe)");
}

#[test]
fn title_ends_at_second_delimiter() {
    let out = search_item_to_output_item(&entry("A - B - C", "C", "2000")).unwrap();
    assert_eq!(out.artist, "A");
    assert_eq!(out.title, "B");
}

#[test]
fn delimiters_do_not_overlap() {
    let out = search_item_to_output_item(&entry(" - - ", "C", "2000")).unwrap();
    assert_eq!(out.artist, "");
    assert_eq!(out.title, "- ");
}

#[test]
fn empty_parts_are_kept() {
    let out = search_item_to_output_item(&entry(" - ", "C", "2000")).unwrap();
    assert_eq!(out.artist, "");
    assert_eq!(out.title, "");
}

#[test]
fn positions_count_characters() {
    let out = search_item_to_output_item(&entry("Björk (2) - Début – Live", "C", "2000")).unwrap();
    assert_eq!(out.artist, "Björk");
    assert_eq!(out.title, "Début – Live");
}

#[test]
fn splitting_agrees_with_std() {
    let titles = [
        "Artist - Title",
        "Artist (feat. X) - Title",
        "A - B - C",
        "Sigur Rós - ( )",
        "X (1) (2) - Y - Z (3)",
        "-- - --",
        "a  -  b",
    ];
    for t in titles {
        let mut parts = t.split(" - ");
        let raw_artist = parts.next().unwrap();
        let raw_title = parts.next().unwrap();
        let artist = if raw_artist.ends_with(")") {
            raw_artist.rsplit_once(" (").unwrap().0
        } else {
            raw_artist
        };
        let out = search_item_to_output_item(&entry(t, "C", "2000")).unwrap();
        assert_eq!(out.artist, artist);
        assert_eq!(out.title, raw_title);
    }
}

#[test]
fn title_without_delimiter_is_a_parse_error() {
    assert_eq!(search_item_to_output_item(&entry("Artist-Title", "C", "2000")), Err(Error::Parse));
    assert_eq!(search_item_to_output_item(&entry("", "C", "2000")), Err(Error::Parse));
    assert_eq!(search_item_to_output_item(&entry("Artist -Title", "C", "2000")), Err(Error::Parse));
}

#[test]
fn unopened_parenthetical_is_a_parse_error() {
    assert_eq!(search_item_to_output_item(&entry("Artist) - Title", "C", "2000")), Err(Error::Parse));
    assert_eq!(search_item_to_output_item(&entry("(Artist) - Title", "C", "2000")), Err(Error::Parse));
}

#[test]
fn duplicates_by_catalogue_number_are_dropped() {
    let items = vec![item("a", "first", "A1"), item("b", "second", "A1"), item("c", "third", "B2")];
    let out = distinct_items(items);
    assert_eq!(out, vec![item("a", "first", "A1"), item("c", "third", "B2")]);
}

#[test]
fn distinct_items_keep_their_order() {
    let items = vec![
        item("a", "1", "B2"),
        item("b", "2", "A1"),
        item("c", "3", "B2"),
        item("d", "4", "C3"),
        item("e", "5", "A1"),
    ];
    let out = distinct_items(items);
    assert_eq!(out, vec![item("a", "1", "B2"), item("b", "2", "A1"), item("d", "4", "C3")]);
    assert_eq!(distinct_items(Vec::new()), Vec::new());
}

#[test]
fn first_of_duplicates_is_returned() {
    let results = vec![
        entry("One - First", "A1", "1991"),
        entry("Two - Second", "A1", "1992"),
        entry("Three - Third", "B2", "1993"),
    ];
    let out = first_record(&results).unwrap().unwrap();
    assert_eq!(out.artist, "One");
    assert_eq!(out.title, "First");
    assert_eq!(out.catalogue_number, "A1");
    assert_eq!(out.year, "1991");
}

#[test]
fn empty_result_list_gives_none() {
    assert_eq!(first_record(&Vec::new()), Ok(None));
}

#[test]
fn malformed_first_entry_fails_the_search() {
    let results = vec![entry("Broken", "B2", "1993"), entry("One - First", "A1", "1991")];
    assert_eq!(first_record(&results), Err(Error::Parse));
    let results = vec![entry("Artist) - Title", "B2", "1993")];
    assert_eq!(first_record(&results), Err(Error::Parse));
}

#[test]
fn first_entry_alone_decides() {
    let results = vec![entry("One - First", "A1", "1991"), entry("Broken", "B2", "1993")];
    let out = first_record(&results).unwrap().unwrap();
    assert_eq!(out.artist, "One");
    assert_eq!(out.title, "First");
    assert_eq!(out.catalogue_number, "A1");
    assert_eq!(out.year, "1991");
    let results = vec![
        entry("One (2) - First", "A1", "1991"),
        entry("Broken", "A1", "1992"),
        entry("Unopened) - Third", "B2", "1993"),
    ];
    let out = first_record(&results).unwrap().unwrap();
    assert_eq!(out.artist, "One");
    assert_eq!(out.title, "First");
}

#[test]
fn first_record_is_that_of_the_lazy_chain() {
    let lists = [
        vec![entry("One - First", "A1", "1991"), entry("Two - Second", "A1", "1992")],
        vec![entry("One - First", "A1", "1991"), entry("Broken", "B2", "1993")],
        vec![entry("X (1) (2) - Y - Z", "C3", "2003")],
        Vec::new(),
    ];
    for results in lists {
        let expected = results
            .iter()
            .map(|x| search_item_to_output_item(x).unwrap())
            .unique_by(|x| x.catalogue_number.to_string())
            .next();
        assert_eq!(first_record(&results), Ok(expected));
    }
}

#[test]
fn catalog_quota_is_sixty_a_minute() {
    let q = quota();
    assert_eq!(q.max_burst, 60);
    assert_eq!(q.replenish_nanos, 1_000_000_000);
}
