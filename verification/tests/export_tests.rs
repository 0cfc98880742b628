use ruscraper::export::data_url_for_download;

#[test]
fn markdown_download_href() {
    let href = data_url_for_download("scraped_content.md", "hello");
    assert_eq!(href, "data:text/markdown;charset=utf-8;base64,aGVsbG8=");
}

#[test]
fn pdf_named_download_is_labelled_plain_text() {
    let href = data_url_for_download("scraped_content.pdf", "hello");
    assert_eq!(href, "data:text/plain;charset=utf-8;base64,aGVsbG8=");
}

#[test]
fn empty_content_encodes_to_nothing() {
    let href = data_url_for_download("a.md", "");
    assert_eq!(href, "data:text/markdown;charset=utf-8;base64,");
}

#[test]
fn encoding_matches_the_standard_engine() {
    let content = "The quick brown fox jumps over the lazy dog";
    let href = data_url_for_download("fox.md", content);
    let expected = base64::Engine::encode(&base64::engine::general_purpose::STANDARD, content);
    assert_eq!(
        href,
        format!("data:text/markdown;charset=utf-8;base64,{}", expected)
    );
    // Padded standard-alphabet output: four characters per started triple.
    assert_eq!(expected.len(), 4 * ((content.len() + 2) / 3));
}

#[test]
fn short_names_are_markdown() {
    let href = data_url_for_download("pdf", "x");
    assert!(href.starts_with("data:text/markdown;"));
}
