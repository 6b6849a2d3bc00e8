use curated_review_file_utils::lookups::HeaderLookups;
use curated_review_file_utils::yaml::{append_encoded, write_yaml};
use serde_yaml::Value;

fn strings(names: &[&str]) -> Vec<String> {
    names.iter().map(|n| n.to_string()).collect()
}

fn encode(names: &[&str]) -> String {
    let mut out = String::new();
    let done = write_yaml(&mut out, &strings(names));
    assert!(done.is_ok());
    out
}

#[test]
fn lookups_pair_each_header_with_its_index() {
    let names = strings(&["Labnumber", "SampleID", "Result"]);
    let lookups = HeaderLookups::from_headers(&names);
    assert_eq!(lookups.column_name_lookup.len(), 3);
    assert_eq!(lookups.index_position_lookup.len(), 3);
    for (i, name) in names.iter().enumerate() {
        assert_eq!(lookups.column_name_lookup[i], (name.clone(), i));
        assert_eq!(lookups.index_position_lookup[i], (i, name.clone()));
    }
}

#[test]
fn lookups_of_no_headers_are_empty() {
    let lookups = HeaderLookups::from_headers(&Vec::new());
    assert!(lookups.column_name_lookup.is_empty());
    assert!(lookups.index_position_lookup.is_empty());
}

#[test]
fn lookups_keep_repeated_names_apart() {
    let lookups = HeaderLookups::from_headers(&strings(&["Result", "Result"]));
    assert_eq!(
        lookups.column_name_lookup,
        vec![("Result".to_string(), 0), ("Result".to_string(), 1)]
    );
    assert_eq!(
        lookups.index_position_lookup,
        vec![(0, "Result".to_string()), (1, "Result".to_string())]
    );
}

#[test]
fn lookup_file_for_three_headers_is_exact() {
    let expected = "column_name_lookup:\n\
- - Labnumber\n  - 0\n\
- - SampleID\n  - 1\n\
- - Result\n  - 2\n\
index_position_lookup:\n\
- - 0\n  - Labnumber\n\
- - 1\n  - SampleID\n\
- - 2\n  - Result\n";
    assert_eq!(encode(&["Labnumber", "SampleID", "Result"]), expected);
}

#[test]
fn lookup_file_for_no_headers_holds_two_empty_lists() {
    assert_eq!(encode(&[]), "column_name_lookup: []\nindex_position_lookup: []\n");
}

#[test]
fn lookup_file_reads_back_to_the_pairs() {
    let names = ["Labnumber", "Sample ID", "123", "true", "a: b", "Result"];
    let document: Value = serde_yaml::from_str(&encode(&names)).unwrap();
    let by_name = document.get("column_name_lookup").unwrap().as_sequence().unwrap();
    let by_index = document.get("index_position_lookup").unwrap().as_sequence().unwrap();
    assert_eq!(document.as_mapping().unwrap().len(), 2);
    assert_eq!(by_name.len(), names.len());
    assert_eq!(by_index.len(), names.len());
    for (i, name) in names.iter().enumerate() {
        let pair = by_name[i].as_sequence().unwrap();
        assert_eq!(pair.len(), 2);
        assert_eq!(pair[0].as_str(), Some(*name));
        assert_eq!(pair[1].as_u64(), Some(i as u64));
        let pair = by_index[i].as_sequence().unwrap();
        assert_eq!(pair.len(), 2);
        assert_eq!(pair[0].as_u64(), Some(i as u64));
        assert_eq!(pair[1].as_str(), Some(*name));
    }
}

#[test]
fn lookup_file_lists_the_names_first() {
    let text = encode(&["Labnumber"]);
    let names_at = text.find("column_name_lookup").unwrap();
    let positions_at = text.find("index_position_lookup").unwrap();
    assert!(names_at < positions_at);
}

#[test]
fn lookup_file_is_appended_to_what_the_buffer_holds() {
    let mut out = String::from("# layout\n");
    assert!(write_yaml(&mut out, &strings(&["A"])).is_ok());
    assert_eq!(out, "# layout\ncolumn_name_lookup:\n- - A\n  - 0\nindex_position_lookup:\n- - 0\n  - A\n");
}

#[test]
fn encoded_text_is_appended() {
    let mut out = String::from("a");
    assert!(append_encoded(&mut out, Ok(String::from("b\n"))).is_ok());
    assert_eq!(out, "ab\n");
}

#[test]
fn failed_encoding_leaves_the_buffer_alone() {
    let failure = serde_yaml::from_str::<u32>("[").unwrap_err();
    let described = failure.to_string();
    let mut out = String::from("a");
    let done = append_encoded(&mut out, Err(failure));
    assert_eq!(out, "a");
    match done {
        Ok(()) => panic!("a failed encoding was reported as done"),
        Err(e) => assert_eq!(e.message, described),
    }
}
