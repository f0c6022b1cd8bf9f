use doi::parse::extract_doi_from_url;

#[test]
/// Extracts DOI from a basic doi.org URL.
fn parse_doi_extract_simple() {
    let url = "https://doi.org/10.1000/182";
    let doi = extract_doi_from_url(url).unwrap();
    assert_eq!(doi.value, "10.1000/182");
}

#[test]
/// Extracts DOI when embedded in surrounding text.
fn parse_doi_extract_with_text() {
    let text = "See paper at 10.1000/182 for details";
    let doi = extract_doi_from_url(text).unwrap();
    assert_eq!(doi.value, "10.1000/182");
}

#[test]
/// Preserves suffix case when DOI prefix is uppercase.
fn parse_doi_extract_uppercase_prefix() {
    let url = "https://doi.org/10.1000/ABC123";
    let doi = extract_doi_from_url(url).unwrap();
    assert_eq!(doi.value, "10.1000/ABC123");
}

#[test]
/// Ensures mixed-case DOI suffix is preserved.
fn parse_doi_extract_mixed_case() {
    let url = "https://doi.org/10.1000/AbC123";
    let doi = extract_doi_from_url(url).unwrap();
    assert_eq!(doi.value, "10.1000/AbC123");
}

#[test]
/// Strips trailing period after DOI.
fn parse_doi_extract_trailing_punctuation() {
    let text = "Reference: 10.1000/182.";
    let doi = extract_doi_from_url(text).unwrap();
    assert_eq!(doi.value, "10.1000/182");
}

#[test]
/// Strips trailing comma after DOI.
fn parse_doi_extract_trailing_comma() {
    let text = "See 10.1000/182, and more";
    let doi = extract_doi_from_url(text).unwrap();
    assert_eq!(doi.value, "10.1000/182");
}

#[test]
/// Strips trailing semicolon after DOI.
fn parse_doi_extract_trailing_semicolon() {
    let text = "Cite: 10.1000/182;";
    let doi = extract_doi_from_url(text).unwrap();
    assert_eq!(doi.value, "10.1000/182");
}

#[test]
/// Strips trailing colon after DOI.
fn parse_doi_extract_trailing_colon() {
    let text = "DOI: 10.1000/182:";
    let doi = extract_doi_from_url(text).unwrap();
    assert_eq!(doi.value, "10.1000/182");
}

#[test]
/// Strips trailing right parenthesis after DOI.
fn parse_doi_extract_trailing_paren() {
    let text = "(see 10.1000/182)";
    let doi = extract_doi_from_url(text).unwrap();
    assert_eq!(doi.value, "10.1000/182");
}

#[test]
/// Strips trailing right bracket after DOI.
fn parse_doi_extract_trailing_bracket() {
    let text = "[10.1000/182]";
    let doi = extract_doi_from_url(text).unwrap();
    assert_eq!(doi.value, "10.1000/182");
}

#[test]
/// Strips trailing right brace after DOI.
fn parse_doi_extract_trailing_brace() {
    let text = "{10.1000/182}";
    let doi = extract_doi_from_url(text).unwrap();
    assert_eq!(doi.value, "10.1000/182");
}

#[test]
/// Strips multiple trailing punctuation characters.
fn parse_doi_extract_multiple_punctuation() {
    let text = "Ref: 10.1000/182.).";
    let doi = extract_doi_from_url(text).unwrap();
    assert_eq!(doi.value, "10.1000/182");
}

#[test]
/// Decodes percent-encoded DOI path separator.
fn parse_doi_extract_percent_encoded() {
    let url = "https://doi.org/10.1000%2F182";
    let doi = extract_doi_from_url(url).unwrap();
    assert_eq!(doi.value, "10.1000/182");
}

#[test]
/// Decodes percent-encoded DOI within a longer path.
fn parse_doi_extract_percent_encoded_with_suffix() {
    let url = "https://example.com/paper/10.1000%2Fabc123";
    let doi = extract_doi_from_url(url).unwrap();
    assert_eq!(doi.value, "10.1000/abc123");
}

#[test]
/// Uses the first DOI when multiple are present.
fn parse_doi_extract_first_match_wins() {
    let text = "Papers: 10.1000/111 and 10.1000/222";
    let doi = extract_doi_from_url(text).unwrap();
    assert_eq!(doi.value, "10.1000/111");
}

#[test]
/// Returns None when no DOI appears in input.
fn parse_doi_extract_not_found() {
    let text = "No DOI here";
    let result = extract_doi_from_url(text);
    assert!(result.is_none());
}

#[test]
/// Returns None for inputs without a registrant number.
fn parse_doi_extract_invalid_no_registrant() {
    let text = "Invalid: 10.abc/123";
    let result = extract_doi_from_url(text);
    assert!(result.is_none());
}

#[test]
/// Returns None for inputs missing a DOI suffix.
fn parse_doi_extract_invalid_no_suffix() {
    let text = "Invalid: 10.1000/";
    let result = extract_doi_from_url(text);
    assert!(result.is_none());
}

#[test]
/// Returns None for empty input strings.
fn parse_doi_extract_empty_input() {
    let result = extract_doi_from_url("");
    assert!(result.is_none());
}

#[test]
/// Extracts DOI with complex, dotted suffix.
fn parse_doi_extract_complex_suffix() {
    let url = "https://doi.org/10.1016/j.cell.2021.01.001";
    let doi = extract_doi_from_url(url).unwrap();
    assert_eq!(doi.value, "10.1016/j.cell.2021.01.001");
}

#[test]
/// Ignores query parameters after DOI.
fn parse_doi_extract_with_query_params() {
    let url = "https://doi.org/10.1000/182?foo=bar";
    let doi = extract_doi_from_url(url).unwrap();
    assert_eq!(doi.value, "10.1000/182");
}

#[test]
/// Ignores URL fragments after DOI.
fn parse_doi_extract_with_fragment() {
    let url = "https://doi.org/10.1000/182#section1";
    let doi = extract_doi_from_url(url).unwrap();
    assert_eq!(doi.value, "10.1000/182");
}

#[test]
/// Extracts DOI when enclosed in parentheses.
fn parse_doi_extract_in_parentheses() {
    let text = "Smith et al. (10.1000/182) found that...";
    let doi = extract_doi_from_url(text).unwrap();
    assert_eq!(doi.value, "10.1000/182");
}

#[test]
/// Extracts DOI with long suffix and dots.
fn parse_doi_extract_long_suffix() {
    let url = "https://doi.org/10.1234/very.long.suffix.with.dots";
    let doi = extract_doi_from_url(url).unwrap();
    assert_eq!(doi.value, "10.1234/very.long.suffix.with.dots");
}

#[test]
/// Extracts DOI containing allowed special characters.
fn parse_doi_extract_with_special_chars() {
    let url = "https://doi.org/10.1000/abc-def_ghi";
    let doi = extract_doi_from_url(url).unwrap();
    assert_eq!(doi.value, "10.1000/abc-def_ghi");
}

#[test]
/// Extracts DOI from real-world article URLs.
fn doi_extract_real_world_links() {
    let frontiers = "https://www.frontiersin.org/journals/microbiology/articles/10.3389/fmicb.2017.01663/pdf ";
    let springer = "https://link.springer.com/chapter/10.1007/978-0-387-74907-5_34 ";
    let tykx =
        "http://tykx.xml-journal.net/cn/article/pdf/preview/10.16469/j.css.2011.06.015.pdf";
    let taylor = "https://www.taylorfrancis.com/chapters/edit/10.4324/9781351254762-9/anatomy-restlessness-megan-perry ";

    let doi = extract_doi_from_url(frontiers).unwrap();
    assert_eq!(doi.value, "10.3389/fmicb.2017.01663");

    let doi = extract_doi_from_url(springer).unwrap();
    assert_eq!(doi.value, "10.1007/978-0-387-74907-5_34");

    let doi = extract_doi_from_url(tykx).unwrap();
    assert_eq!(doi.value, "10.16469/j.css.2011.06.015");

    let doi = extract_doi_from_url(taylor).unwrap();
    assert_eq!(doi.value, "10.4324/9781351254762-9");
}

#[test]
/// Extracts registrant number from the DOI prefix.
fn doi_extract_registrant() {
    let url = "https://doi.org/10.1000/abc-def_ghi";
    let doi = extract_doi_from_url(url).unwrap();
    assert_eq!(doi.registrant_number(), Some("1000"));
}

#[test]
/// Returns the registrant number without the "10." prefix.
fn doi_extract_registrant_number() {
    let url = "https://doi.org/10.5281/zenodo.123";
    let doi = extract_doi_from_url(url).unwrap();
    assert_eq!(doi.registrant_number(), Some("5281"));
}

#[test]
/// Handles uppercase "10." prefix case explicitly.
fn parse_doi_extract_uppercase_10() {
    let text = "DOI: 10.1000/123"; // 10. is already lowercase in input
    let doi = extract_doi_from_url(text).unwrap();
    assert_eq!(doi.value, "10.1000/123");
}

#[test]
/// Extracts DOI embedded in a longer URL path.
fn parse_doi_extract_doi_in_middle_of_path() {
    let url = "https://example.com/papers/10.1000/182/download";
    let doi = extract_doi_from_url(url).unwrap();
    assert_eq!(doi.value, "10.1000/182");
}

#[test]
/// Extracts DOI with only one slash in the suffix.
fn parse_doi_extract_with_multiple_slashes_in_suffix() {
    let url = "https://doi.org/10.1000/a/b/c";
    let doi = extract_doi_from_url(url).unwrap();
    assert_eq!(doi.value, "10.1000/a");
}

#[test]
/// Derives DOI from an arXiv abstract URL.
fn doi_extract_from_arxiv_abs_url() {
    let url = "https://arxiv.org/abs/2101.12345v2";
    let doi = extract_doi_from_url(url).unwrap();
    assert_eq!(doi.value, "10.48550/arXiv.2101.12345");
}

#[test]
/// Derives DOI from an arXiv PDF URL.
fn doi_extract_from_arxiv_pdf_url() {
    let url = "https://arxiv.org/pdf/2101.12345.pdf";
    let doi = extract_doi_from_url(url).unwrap();
    assert_eq!(doi.value, "10.48550/arXiv.2101.12345");
}

#[test]
/// Derives DOI from an arXiv identifier string.
fn doi_extract_from_arxiv_id() {
    let text = "arXiv:2101.12345";
    let doi = extract_doi_from_url(text).unwrap();
    assert_eq!(doi.value, "10.48550/arXiv.2101.12345");
}

#[test]
/// Decodes multiple percent-encoded path separators.
fn parse_doi_extract_percent_encoded_multiple() {
    let url = "https://example.com/10.1000%2Fabc%2Fdef";
    let doi = extract_doi_from_url(url).unwrap();
    assert_eq!(doi.value, "10.1000/abc");
}
