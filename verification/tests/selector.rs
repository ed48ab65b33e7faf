//! Tests of the origin selector and the standard routing table.

use origin_signer::{select, standard_table, Origin};

fn eu_origin() -> Origin {
    Origin {
        backend_name: "eu_origin".to_string(),
        bucket_name: "eu-bucket".to_string(),
        bucket_host: "s3.eu-central-003.example.com".to_string(),
    }
}

fn us_origin() -> Origin {
    Origin {
        backend_name: "us_origin".to_string(),
        bucket_name: "us-bucket".to_string(),
        bucket_host: "s3.us-west-002.example.com".to_string(),
    }
}

#[test]
fn select_returns_mapped_origin_for_every_entry() {
    let eu = eu_origin();
    let us = us_origin();
    let table = standard_table(&eu, &us);
    for entry in &table.entries {
        let chosen = select(&entry.pop, &table, &us);
        assert_eq!(chosen.backend_name, entry.origin.backend_name);
        assert_eq!(chosen.bucket_name, entry.origin.bucket_name);
        assert_eq!(chosen.bucket_host, entry.origin.bucket_host);
    }
}

#[test]
fn select_known_locations() {
    let eu = eu_origin();
    let us = us_origin();
    let table = standard_table(&eu, &us);
    assert_eq!(select("AMS", &table, &us).backend_name, "eu_origin");
    assert_eq!(select("LHR", &table, &us).backend_name, "eu_origin");
    assert_eq!(select("JNB", &table, &us).backend_name, "eu_origin");
    assert_eq!(select("SJC", &table, &us).backend_name, "us_origin");
    assert_eq!(select("SYD", &table, &us).backend_name, "us_origin");
    assert_eq!(select("GRU", &table, &us).backend_name, "us_origin");
}

#[test]
fn select_absent_returns_fallback() {
    let eu = eu_origin();
    let us = us_origin();
    let table = standard_table(&eu, &us);
    assert_eq!(select("ZZZ", &table, &us).backend_name, "us_origin");
    assert_eq!(select("ams", &table, &us).backend_name, "us_origin");
}

#[test]
fn select_is_total_on_any_string() {
    let eu = eu_origin();
    let us = us_origin();
    let table = standard_table(&eu, &us);
    assert_eq!(select("", &table, &us).backend_name, "us_origin");
    assert_eq!(select("ÄMS", &table, &us).backend_name, "us_origin");
    assert_eq!(select("位置", &table, &eu).backend_name, "eu_origin");
    assert_eq!(select("a&b=c\n", &table, &us).backend_name, "us_origin");
}

#[test]
fn standard_table_has_all_locations() {
    let eu = eu_origin();
    let us = us_origin();
    let table = standard_table(&eu, &us);
    assert_eq!(table.entries.len(), 97);
    let eu_count = table
        .entries
        .iter()
        .filter(|e| e.origin.backend_name == "eu_origin")
        .count();
    assert_eq!(eu_count, 24);
}

#[test]
fn standard_table_keys_are_pairwise_distinct() {
    let eu = eu_origin();
    let us = us_origin();
    let table = standard_table(&eu, &us);
    let mut seen = std::collections::HashSet::new();
    for entry in &table.entries {
        assert!(seen.insert(entry.pop.clone()), "duplicate key {}", entry.pop);
    }
}
