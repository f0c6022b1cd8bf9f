use doi::{extract_doi_from_url, DoiError};

#[test]
fn lib_doi_extract_simple() {
    let url = "https://doi.org/10.1000/182";
    let doi = extract_doi_from_url(url).unwrap();
    assert_eq!(doi.original, "10.1000/182");
    assert_eq!(doi.canonical, "10.1000/182");
}

#[test]
fn lib_doi_extract_with_text() {
    let text = "See paper at 10.1000/182 for details";
    let doi = extract_doi_from_url(text).unwrap();
    assert_eq!(doi.original, "10.1000/182");
}

#[test]
fn lib_doi_extract_uppercase_prefix() {
    let url = "https://doi.org/10.1000/ABC123";
    let doi = extract_doi_from_url(url).unwrap();
    assert_eq!(doi.original, "10.1000/ABC123");
    assert_eq!(doi.canonical, "10.1000/ABC123"); // Prefix lowercased, suffix preserved
}

#[test]
fn lib_doi_extract_mixed_case() {
    let url = "https://doi.org/10.1000/AbC123";
    let doi = extract_doi_from_url(url).unwrap();
    assert_eq!(doi.original, "10.1000/AbC123");
    assert_eq!(doi.canonical, "10.1000/AbC123"); // Only 10. is lowercased, which it already is
}

#[test]
fn lib_doi_extract_trailing_punctuation() {
    let text = "Reference: 10.1000/182.";
    let doi = extract_doi_from_url(text).unwrap();
    assert_eq!(doi.original, "10.1000/182");
}

#[test]
fn lib_doi_extract_trailing_comma() {
    let text = "See 10.1000/182, and more";
    let doi = extract_doi_from_url(text).unwrap();
    assert_eq!(doi.original, "10.1000/182");
}

#[test]
fn lib_doi_extract_trailing_semicolon() {
    let text = "Cite: 10.1000/182;";
    let doi = extract_doi_from_url(text).unwrap();
    assert_eq!(doi.original, "10.1000/182");
}

#[test]
fn lib_doi_extract_trailing_colon() {
    let text = "DOI: 10.1000/182:";
    let doi = extract_doi_from_url(text).unwrap();
    assert_eq!(doi.original, "10.1000/182");
}

#[test]
fn lib_doi_extract_trailing_paren() {
    let text = "(see 10.1000/182)";
    let doi = extract_doi_from_url(text).unwrap();
    assert_eq!(doi.original, "10.1000/182");
}

#[test]
fn lib_doi_extract_trailing_bracket() {
    let text = "[10.1000/182]";
    let doi = extract_doi_from_url(text).unwrap();
    assert_eq!(doi.original, "10.1000/182");
}

#[test]
fn lib_doi_extract_trailing_brace() {
    let text = "{10.1000/182}";
    let doi = extract_doi_from_url(text).unwrap();
    assert_eq!(doi.original, "10.1000/182");
}

#[test]
fn lib_doi_extract_multiple_punctuation() {
    let text = "Ref: 10.1000/182.).";
    let doi = extract_doi_from_url(text).unwrap();
    assert_eq!(doi.original, "10.1000/182");
}

#[test]
fn lib_doi_extract_percent_encoded() {
    let url = "https://doi.org/10.1000%2F182";
    let doi = extract_doi_from_url(url).unwrap();
    assert_eq!(doi.original, "10.1000/182");
}

#[test]
fn lib_doi_extract_percent_encoded_with_suffix() {
    let url = "https://example.com/paper/10.1000%2Fabc123";
    let doi = extract_doi_from_url(url).unwrap();
    assert_eq!(doi.original, "10.1000/abc123");
}

#[test]
fn lib_doi_extract_first_match_wins() {
    let text = "Papers: 10.1000/111 and 10.1000/222";
    let doi = extract_doi_from_url(text).unwrap();
    assert_eq!(doi.original, "10.1000/111");
}

#[test]
fn lib_doi_extract_not_found() {
    let text = "No DOI here";
    let result = extract_doi_from_url(text);
    assert!(matches!(result, Err(DoiError::NotFound)));
}

#[test]
fn lib_doi_extract_invalid_no_registrant() {
    let text = "Invalid: 10.abc/123";
    let result = extract_doi_from_url(text);
    assert!(matches!(result, Err(DoiError::NotFound)));
}

#[test]
fn lib_doi_extract_invalid_no_suffix() {
    let text = "Invalid: 10.1000/";
    let result = extract_doi_from_url(text);
    assert!(matches!(result, Err(DoiError::NotFound)));
}

#[test]
fn lib_doi_extract_empty_input() {
    let result = extract_doi_from_url("");
    assert!(matches!(result, Err(DoiError::InvalidInput(_))));
}

#[test]
fn lib_doi_extract_complex_suffix() {
    let url = "https://doi.org/10.1016/j.cell.2021.01.001";
    let doi = extract_doi_from_url(url).unwrap();
    assert_eq!(doi.original, "10.1016/j.cell.2021.01.001");
    assert_eq!(doi.canonical, "10.1016/j.cell.2021.01.001");
}

#[test]
fn lib_doi_extract_with_query_params() {
    let url = "https://doi.org/10.1000/182?foo=bar";
    let doi = extract_doi_from_url(url).unwrap();
    assert_eq!(doi.original, "10.1000/182");
}

#[test]
fn lib_doi_extract_with_fragment() {
    let url = "https://doi.org/10.1000/182#section1";
    let doi = extract_doi_from_url(url).unwrap();
    assert_eq!(doi.original, "10.1000/182");
}

#[test]
fn lib_doi_extract_in_parentheses() {
    let text = "Smith et al. (10.1000/182) found that...";
    let doi = extract_doi_from_url(text).unwrap();
    assert_eq!(doi.original, "10.1000/182");
}

#[test]
fn lib_doi_extract_long_suffix() {
    let url = "https://doi.org/10.1234/very.long.suffix.with.dots";
    let doi = extract_doi_from_url(url).unwrap();
    assert_eq!(doi.original, "10.1234/very.long.suffix.with.dots");
}

#[test]
fn lib_doi_extract_with_special_chars() {
    let url = "https://doi.org/10.1000/abc-def_ghi";
    let doi = extract_doi_from_url(url).unwrap();
    assert_eq!(doi.original, "10.1000/abc-def_ghi");
}

#[test]
fn doi_extract_canonicalization_preserves_suffix_case() {
    let url = "https://doi.org/10.1000/ABC-xyz";
    let doi = extract_doi_from_url(url).unwrap();
    assert_eq!(doi.original, "10.1000/ABC-xyz");
    assert_eq!(doi.canonical, "10.1000/ABC-xyz"); // 10. already lowercase, suffix preserved
}

#[test]
fn lib_doi_extract_uppercase_10() {
    let text = "DOI: 10.1000/123"; // 10. is already lowercase in input
    let doi = extract_doi_from_url(text).unwrap();
    assert_eq!(doi.original, "10.1000/123");
    assert_eq!(doi.canonical, "10.1000/123");
}

#[test]
fn lib_doi_extract_doi_in_middle_of_path() {
    let url = "https://example.com/papers/10.1000/182/download";
    let doi = extract_doi_from_url(url).unwrap();
    assert_eq!(doi.original, "10.1000/182/download");
}

#[test]
fn lib_doi_extract_with_multiple_slashes_in_suffix() {
    let url = "https://doi.org/10.1000/a/b/c";
    let doi = extract_doi_from_url(url).unwrap();
    assert_eq!(doi.original, "10.1000/a/b/c");
}

#[test]
fn lib_doi_extract_percent_encoded_multiple() {
    let url = "https://example.com/10.1000%2Fabc%2Fdef";
    let doi = extract_doi_from_url(url).unwrap();
    assert_eq!(doi.original, "10.1000/abc/def");
}
