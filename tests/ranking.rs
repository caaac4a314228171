use cc_browse::item::{Item, ItemType};
use cc_browse::rank::rank;

fn file(name: &str) -> Item {
    Item {
        ty: ItemType::File(1),
        name: name.to_string(),
        readonly: false,
        created: 0,
        last_accessed: 0,
        last_written: 0,
    }
}

fn ranked_names(names: &[&str], query: &str) -> Vec<String> {
    let items: Vec<Item> = names.iter().map(|n| file(n)).collect();
    let order = rank(&items, &query.to_string());
    order.iter().map(|&i| items[i].name.clone()).collect()
}

#[test]
fn ranking_is_a_permutation() {
    let names = ["zeta", "Alpha", "beta", "alphabet", "gamma", "x"];
    let items: Vec<Item> = names.iter().map(|n| file(n)).collect();
    let order = rank(&items, &"al".to_string());
    assert_eq!(order.len(), names.len());
    let mut seen = order.clone();
    seen.sort();
    assert_eq!(seen, vec![0, 1, 2, 3, 4, 5]);
}

#[test]
fn case_sensitive_match_precedes() {
    let got = ranked_names(&["Readme", "aaa_readme", "zz_read"], "read");
    assert_eq!(got, vec!["zz_read", "aaa_readme", "Readme"]);
}

#[test]
fn empty_query_is_alphabetical() {
    let got = ranked_names(&["b", "C", "a", "D", "c2"], "");
    assert_eq!(got, vec!["a", "b", "C", "c2", "D"]);
}

#[test]
fn matches_first_then_alphabetical() {
    let got = ranked_names(&["Apple.txt", "banana.txt", "apricot.txt"], "ap");
    assert_eq!(got, vec!["apricot.txt", "Apple.txt", "banana.txt"]);
}

#[test]
fn earlier_folded_match_first() {
    let got = ranked_names(&["xxAB", "xAB", "ABx", "none"], "Q");
    assert_eq!(got, vec!["ABx", "none", "xAB", "xxAB"]);
    let got = ranked_names(&["xxab", "Xab", "ABx", "none"], "AB");
    assert_eq!(got, vec!["ABx", "Xab", "xxab", "none"]);
}

#[test]
fn equal_folded_names_keep_input_order() {
    let got = ranked_names(&["b", "B", "a", "A"], "");
    assert_eq!(got, vec!["a", "A", "b", "B"]);
}

#[test]
fn ranking_of_nothing() {
    assert!(ranked_names(&[], "x").is_empty());
}
