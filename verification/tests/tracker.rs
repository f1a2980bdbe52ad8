use cdscanner::whatapi::{first_group, quota, Group, SearchQuery, Torrent, TrackerQuery};

fn group(name: &str) -> Group {
    Group {
        artist_name: "Artist".to_string(),
        group_name: name.to_string(),
        group_year: 1999,
        torrents: vec![Torrent::new(
            "FLAC".to_string(),
            "Lossless".to_string(),
            true,
            100,
            "2020-01-01 00:00:00".to_string(),
            false,
            "".to_string(),
            "".to_string(),
            0,
        )],
    }
}

#[test]
fn query_by_names_fills_the_names_only() {
    let q = SearchQuery::from_names("Foo", "Bar", 1999);
    assert_eq!(q.artist_name(), Some("Foo"));
    assert_eq!(q.group_name(), Some("Bar"));
    assert_eq!(q.year(), Some(1999));
    assert_eq!(q.record_label(), None);
    assert_eq!(q.catalogue_number(), None);
    assert_eq!(q.search_str(), None);
}

#[test]
fn query_by_catalog_fills_the_number_only() {
    let q = SearchQuery::from_catalog(None, "CAT1");
    assert_eq!(q.artist_name(), None);
    assert_eq!(q.group_name(), None);
    assert_eq!(q.year(), None);
    assert_eq!(q.record_label(), None);
    assert_eq!(q.catalogue_number(), Some("CAT1"));
    assert_eq!(q.search_str(), None);
}

#[test]
fn query_by_catalog_may_name_the_label() {
    let q = SearchQuery::from_catalog(Some("Warp"), "WARP30");
    assert_eq!(q.record_label(), Some("Warp"));
    assert_eq!(q.catalogue_number(), Some("WARP30"));
    assert_eq!(q.artist_name(), None);
    assert_eq!(q.search_str(), None);
}

#[test]
fn query_by_text_fills_the_text_only() {
    let q = SearchQuery::from_search_str("foo bar");
    assert_eq!(q.artist_name(), None);
    assert_eq!(q.group_name(), None);
    assert_eq!(q.year(), None);
    assert_eq!(q.record_label(), None);
    assert_eq!(q.catalogue_number(), None);
    assert_eq!(q.search_str(), Some("foo bar"));
}

#[test]
fn tracker_query_goes_on_the_wire_in_its_mode() {
    let by_catalog =
        TrackerQuery::ByCatalog { record_label: None, catalogue_number: "CAT1".to_string() };
    assert_eq!(by_catalog.to_search_query(), SearchQuery::from_catalog(None, "CAT1"));
    let with_label = TrackerQuery::ByCatalog {
        record_label: Some("Warp".to_string()),
        catalogue_number: "CAT1".to_string(),
    };
    assert_eq!(with_label.to_search_query(), SearchQuery::from_catalog(Some("Warp"), "CAT1"));
    let by_names = TrackerQuery::ByNames {
        artist_name: "Foo".to_string(),
        group_name: "Bar".to_string(),
        year: 1999,
    };
    assert_eq!(by_names.to_search_query(), SearchQuery::from_names("Foo", "Bar", 1999));
    let by_text = TrackerQuery::BySearchString { text: "foo".to_string() };
    assert_eq!(by_text.to_search_query(), SearchQuery::from_search_str("foo"));
}

#[test]
fn first_group_of_the_results_is_kept() {
    assert_eq!(first_group(vec![group("one"), group("two"), group("three")]), Some(group("one")));
    assert_eq!(first_group(vec![group("only")]), Some(group("only")));
    assert_eq!(first_group(Vec::new()), None);
}

#[test]
fn torrent_keeps_its_fields() {
    let g = group("one");
    let t = &g.torrents[0];
    assert_eq!(t.format(), "FLAC");
    assert_eq!(t.encoding(), "Lossless");
    assert!(t.has_log);
    assert_eq!(t.log_score, 100);
    assert_eq!(t.time, "2020-01-01 00:00:00");
    assert!(!t.remastered);
    assert_eq!(t.remaster_year, 0);
}

#[test]
fn tracker_quota_is_one_a_second_with_a_burst_of_ten() {
    let q = quota();
    assert_eq!(q.max_burst, 10);
    assert_eq!(q.replenish_nanos, 1_000_000_000);
}
