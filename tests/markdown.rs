use rig_tools::{LinkToMarkdown, LinkToMarkdownError};

#[test]
fn heading_and_paragraph_are_kept() {
    let md = LinkToMarkdown.to_markdown("<h1>Title</h1><p>Body</p>");
    assert!(md.contains("Title\n=========="), "{md:?}");
    assert!(md.lines().any(|l| l == "Body"), "{md:?}");
    assert!(md.find("Title").unwrap() < md.find("Body").unwrap());
}

#[test]
fn fetched_page_is_converted() {
    let r = LinkToMarkdown.finish(Some("<h3>Part</h3>".to_string()));
    let md = r.unwrap();
    assert!(md.contains("### Part"), "{md:?}");
    assert!(!md.contains("<h3>"));
}

#[test]
fn failed_fetch_is_the_single_error() {
    let e = LinkToMarkdown.finish(None).unwrap_err();
    assert_eq!(e, LinkToMarkdownError);
    assert_eq!(e.kind(), "FetchOrConvertError");
    assert_eq!(e.to_string(), "Failed to fetch or convert link contents");
}

#[test]
fn same_page_gives_same_markdown() {
    let html = "<ul><li>one</li><li>two</li></ul>";
    assert_eq!(LinkToMarkdown.to_markdown(html), LinkToMarkdown.to_markdown(html));
}
