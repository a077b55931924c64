//! The model of the nationality aggregation: grouped counts in
//! descending order, and the silent null filter.

use postgres_connection::agg::{aggregate, filter_nations};
use postgres_connection::data::{ArtistRow, NationRow};
use postgres_connection::machine::{step, Phase, Response};

fn artist(name: &str, nationality: &str) -> ArtistRow {
    ArtistRow {
        name: name.to_string(),
        book_name: String::new(),
        nationality: nationality.to_string(),
    }
}

#[test]
fn three_artists_group_in_descending_order() {
    let rows = vec![artist("A", "Nigeria"), artist("B", "India"), artist("C", "India")];
    let out = aggregate(&rows);
    assert_eq!(out.len(), 2);
    assert_eq!(out[0].nationality, "India");
    assert_eq!(out[0].count, 2);
    assert_eq!(out[1].nationality, "Nigeria");
    assert_eq!(out[1].count, 1);
}

#[test]
fn aggregation_of_no_rows_is_empty() {
    let out = aggregate(&Vec::new());
    assert!(out.is_empty());
}

#[test]
fn aggregation_counts_every_occurrence() {
    let rows = vec![
        artist("A", "India"),
        artist("B", "Nigeria"),
        artist("C", "India"),
        artist("D", "Kenya"),
        artist("E", "India"),
        artist("F", "Nigeria"),
    ];
    let out = aggregate(&rows);
    assert_eq!(out.len(), 3);
    assert_eq!((out[0].nationality.as_str(), out[0].count), ("India", 3));
    assert_eq!((out[1].nationality.as_str(), out[1].count), ("Nigeria", 2));
    assert_eq!((out[2].nationality.as_str(), out[2].count), ("Kenya", 1));
}

#[test]
fn null_rows_are_skipped_without_error() {
    let rows = vec![
        NationRow { nationality: Some("India".to_string()), count: Some(2) },
        NationRow { nationality: None, count: Some(5) },
        NationRow { nationality: Some("Nigeria".to_string()), count: None },
        NationRow { nationality: None, count: None },
        NationRow { nationality: Some("Kenya".to_string()), count: Some(1) },
    ];
    let out = filter_nations(&rows);
    assert_eq!(out.len(), 2);
    assert_eq!((out[0].nationality.as_str(), out[0].count), ("India", 2));
    assert_eq!((out[1].nationality.as_str(), out[1].count), ("Kenya", 1));
}

#[test]
fn null_rows_are_skipped_in_printed_output() {
    let nations = vec![
        NationRow { nationality: Some("India".to_string()), count: Some(2) },
        NationRow { nationality: None, count: Some(9) },
        NationRow { nationality: Some("Nigeria".to_string()), count: None },
    ];
    let out = step(Phase::FetchingNations, Response::NationRows { nations });
    assert_eq!(out.next, Phase::Done);
    assert!(out.fatal.is_none());
    assert_eq!(out.lines, vec!["India 2".to_string()]);
}

#[test]
fn all_null_rows_print_nothing() {
    let nations = vec![
        NationRow { nationality: None, count: None },
        NationRow { nationality: None, count: Some(1) },
    ];
    let out = step(Phase::FetchingNations, Response::NationRows { nations });
    assert_eq!(out.next, Phase::Done);
    assert!(out.fatal.is_none());
    assert!(out.lines.is_empty());
}
