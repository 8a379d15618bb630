use web_map::tokenizer::{
    classify, collect_links, extract, Attribute, LinkKind, MarkupToken, Tag, TagKind,
    UrlTokenParser, MAX_MARKUP_BYTES,
};

fn attr(name: &str, value: &str) -> Attribute {
    Attribute { name: name.to_string(), value: value.to_string() }
}

fn open(attrs: Vec<Attribute>) -> MarkupToken {
    MarkupToken::Tag(Tag { kind: TagKind::Open, attrs })
}

fn close(attrs: Vec<Attribute>) -> MarkupToken {
    MarkupToken::Tag(Tag { kind: TagKind::Close, attrs })
}

fn fresh() -> UrlTokenParser {
    UrlTokenParser { in_char_run: false, resources: Vec::new(), references: Vec::new() }
}

#[test]
fn test_tokenizer() {
    let resp_text = "<!DOCTYPE html><html><head><title>Jason Graalum</title>\
        <link href=\"style.css\" rel=\"stylesheet\"></head>\
        <body><a href=\"current/index.html\">Current</a>\
        <img src=\"images/me.jpg\" alt=\"me\"></body></html>";
    let sink = extract(resp_text).unwrap();
    println!("References");
    println!("{:?}", sink.references);
    println!("Resources");
    println!("{:?}", sink.resources);
    assert_eq!(sink.references, vec!["style.css", "current/index.html"]);
    assert_eq!(sink.resources, vec!["images/me.jpg"]);
    assert!(!sink.in_char_run);
}

#[test]
fn extract_classifies_href_and_src() {
    let links = extract("<a href=\"/p1\"><img src=\"/r1.png\"></a>").unwrap();
    assert_eq!(links.references, vec!["/p1"]);
    assert_eq!(links.resources, vec!["/r1.png"]);
}

#[test]
fn extract_preserves_document_order() {
    let links = extract(
        "<a href=\"/p1\"></a><img src=\"/r1.png\"><a href=\"/p2\"><img src=\"/r2.png\"></a>\
         <script src=\"/r3.js\"></script><link href=\"/p3\"><a href=\"/p1\">again</a>",
    )
    .unwrap();
    assert_eq!(links.references, vec!["/p1", "/p2", "/p3", "/p1"]);
    assert_eq!(links.resources, vec!["/r1.png", "/r2.png", "/r3.js"]);
}

#[test]
fn extract_reads_both_attributes_of_one_tag() {
    let links = extract("<x src=\"s\" href=\"h\" id=\"i\">").unwrap();
    assert_eq!(links.references, vec!["h"]);
    assert_eq!(links.resources, vec!["s"]);
}

#[test]
fn extract_ignores_text_comments_and_doctype() {
    let links = extract(
        "<!DOCTYPE html><!-- <a href=\"/hidden\"> -->href=\"/text\" src=\"/text\"<p>plain</p>",
    )
    .unwrap();
    assert!(links.references.is_empty());
    assert!(links.resources.is_empty());
}

#[test]
fn extract_ignores_closing_tags() {
    let links = extract("<a></a href=\"/late\" src=\"/late.png\">").unwrap();
    assert!(links.references.is_empty());
    assert!(links.resources.is_empty());
}

#[test]
fn extract_lowercases_names_and_decodes_values() {
    let links = extract("<A HREF=\"/a?x=1&amp;y=2\"><IMG SRC='/b c.png'>").unwrap();
    assert_eq!(links.references, vec!["/a?x=1&y=2"]);
    assert_eq!(links.resources, vec!["/b c.png"]);
}

#[test]
fn extract_of_nothing_is_empty() {
    let links = extract("").unwrap();
    assert!(links.references.is_empty());
    assert!(links.resources.is_empty());
}

#[test]
fn extract_drops_a_tag_cut_off_by_the_end() {
    let links = extract("<a href=\"/whole\">x</a><a href=\"/cut").unwrap();
    assert_eq!(links.references, vec!["/whole"]);
}

#[test]
fn extract_refuses_an_oversized_body() {
    let body = " ".repeat(MAX_MARKUP_BYTES + 1);
    assert!(extract(&body).is_none());
}

#[test]
fn process_token_appends_links_of_an_opening_tag() {
    let mut parser = fresh();
    parser.references.push("/before".to_string());
    parser.process_token(
        &open(vec![attr("href", "/a"), attr("class", "c"), attr("src", "/b"), attr("href", "/c")]),
        7,
    );
    assert_eq!(parser.references, vec!["/before", "/a", "/c"]);
    assert_eq!(parser.resources, vec!["/b"]);
    assert!(!parser.in_char_run);
}

#[test]
fn process_token_matches_names_exactly() {
    let mut parser = fresh();
    parser.process_token(
        &open(vec![attr("HREF", "/a"), attr("hrefs", "/b"), attr("data-src", "/c"), attr("", "")]),
        1,
    );
    assert!(parser.references.is_empty());
    assert!(parser.resources.is_empty());
}

#[test]
fn process_token_ignores_everything_but_opening_tags() {
    let mut parser = UrlTokenParser {
        in_char_run: true,
        resources: vec!["/r".to_string()],
        references: vec!["/p".to_string()],
    };
    let before = parser.clone();
    parser.process_token(&close(vec![attr("href", "/a"), attr("src", "/b")]), 1);
    parser.process_token(&MarkupToken::Doctype, 1);
    parser.process_token(&MarkupToken::Comment, 1);
    parser.process_token(&MarkupToken::Characters, 1);
    parser.process_token(&MarkupToken::NullCharacter, 1);
    parser.process_token(&MarkupToken::ParseError, 1);
    parser.process_token(&MarkupToken::EndOfInput, 1);
    assert_eq!(parser, before);
}

#[test]
fn collect_links_runs_over_the_stream() {
    let tokens = vec![
        MarkupToken::Doctype,
        open(vec![attr("href", "/1")]),
        MarkupToken::Characters,
        open(vec![attr("src", "/2"), attr("href", "/3")]),
        close(vec![attr("href", "/4")]),
        open(vec![]),
        open(vec![attr("src", "/5")]),
        MarkupToken::EndOfInput,
    ];
    let parser = collect_links(&tokens);
    assert_eq!(parser.references, vec!["/1", "/3"]);
    assert_eq!(parser.resources, vec!["/2", "/5"]);
    assert!(!parser.in_char_run);
}

#[test]
fn collect_links_keeps_order_across_a_split() {
    let first = vec![open(vec![attr("href", "/1")]), open(vec![attr("src", "/a")])];
    let second = vec![open(vec![attr("href", "/2")]), open(vec![attr("src", "/b")])];
    let mut whole = first.clone();
    whole.extend(second.clone());
    let mut expected = collect_links(&first);
    let tail = collect_links(&second);
    expected.references.extend(tail.references);
    expected.resources.extend(tail.resources);
    assert_eq!(collect_links(&whole), expected);
}

#[test]
fn new_parser_is_empty() {
    assert_eq!(UrlTokenParser::new(), fresh());
}

#[test]
fn classify_knows_two_names() {
    assert_eq!(classify("href"), Some(LinkKind::Reference));
    assert_eq!(classify("src"), Some(LinkKind::Resource));
    assert_eq!(classify("HREF"), None);
    assert_eq!(classify("hre"), None);
    assert_eq!(classify("hreg"), None);
    assert_eq!(classify("srcset"), None);
    assert_eq!(classify("url"), None);
    assert_eq!(classify(""), None);
}
