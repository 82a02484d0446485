use bubble::{
    Bubble, BubbleParseError, Document, Element, Indexable, IndexableParseError, Scope, Topic,
    TopicCategory, TopicParseError, TopicReference, Uri,
};

fn uri(text: &str) -> Uri {
    Uri::parse(text).unwrap()
}

fn page(body: &str) -> String {
    format!("<html><head><title>T</title></head><body>{}</body></html>", body)
}

#[test]
fn bare_document_yields_empty_bubble() {
    let bubble = Bubble::parse_html("<html><head><title>T</title></head><body></body></html>").unwrap();
    assert_eq!(bubble.title(), "T");
    assert!(bubble.topic().references().is_empty());
    assert!(bubble.indexables().is_empty());
    assert!(bubble.excludes().is_empty());
    assert!(bubble.expands().is_empty());
}

#[test]
fn wikidata_anchor_yields_topic_reference() {
    let html = page(r#"<a class="bubble-wikidata-topic" href="https://www.wikidata.org/wiki/Q8811">HTML</a>"#);
    let bubble = Bubble::parse_html(&html).unwrap();
    assert_eq!(
        bubble.topic().references(),
        vec![TopicReference::new(
            uri("https://www.wikidata.org/wiki/Q8811"),
            "HTML".to_string(),
            TopicCategory::Wikidata,
        )]
    );
}

#[test]
fn search_anchors_in_scope_order() {
    let html = page(
        r#"<a class="bubble-search-page" href="https://example.com/a">a</a>
           <a class="bubble-search-site" href="https://example.com">s</a>
           <a class="bubble-search-path" href="https://example.com/b">b</a>"#,
    );
    let bubble = Bubble::parse_html(&html).unwrap();
    assert_eq!(
        bubble.indexables(),
        vec![
            Indexable::new(uri("https://example.com/a"), Scope::Page, "a".to_string()),
            Indexable::new(uri("https://example.com"), Scope::Site, "s".to_string()),
            Indexable::new(uri("https://example.com/b"), Scope::Path, "b".to_string()),
        ]
    );
}

#[test]
fn search_anchors_reordered_keep_scope_order() {
    let html = page(
        r#"<a class="bubble-search-path" href="https://example.com/b">b</a>
           <a class="bubble-search-site" href="https://example.com">s</a>
           <a class="bubble-search-page" href="https://example.com/a">a</a>"#,
    );
    let bubble = Bubble::parse_html(&html).unwrap();
    assert_eq!(
        bubble.indexables(),
        vec![
            Indexable::new(uri("https://example.com/a"), Scope::Page, "a".to_string()),
            Indexable::new(uri("https://example.com"), Scope::Site, "s".to_string()),
            Indexable::new(uri("https://example.com/b"), Scope::Path, "b".to_string()),
        ]
    );
}

#[test]
fn exclude_anchors_reordered_keep_scope_order() {
    let html = page(
        r#"<a class="bubble-exclude-site" href="https://x.org">s1</a>
           <a class="bubble-exclude-path" href="https://x.org/p">p</a>
           <a class="bubble-exclude-page" href="https://x.org/q">q</a>
           <a class="bubble-exclude-site" href="https://y.org">s2</a>"#,
    );
    let bubble = Bubble::parse_html(&html).unwrap();
    assert_eq!(
        bubble.excludes(),
        vec![
            Indexable::new(uri("https://x.org/q"), Scope::Page, "q".to_string()),
            Indexable::new(uri("https://x.org"), Scope::Site, "s1".to_string()),
            Indexable::new(uri("https://y.org"), Scope::Site, "s2".to_string()),
            Indexable::new(uri("https://x.org/p"), Scope::Path, "p".to_string()),
        ]
    );
}

#[test]
fn topic_anchor_without_href_fails_with_its_markup() {
    let html = page(r#"<a class="bubble-wikipedia-topic">HTML</a>"#);
    assert_eq!(
        Bubble::parse_html(&html).unwrap_err(),
        BubbleParseError::TopicError(TopicParseError::MissingHref(
            r#"<a class="bubble-wikipedia-topic">HTML</a>"#.to_string()
        ))
    );
}

#[test]
fn topic_anchor_with_relative_href_fails_with_its_markup() {
    let html = page(r#"<a class="bubble-wikipedia-topic" href="very-broken">HTML</a>"#);
    assert_eq!(
        Bubble::parse_html(&html).unwrap_err(),
        BubbleParseError::TopicError(TopicParseError::InvalidUrl(
            r#"<a class="bubble-wikipedia-topic" href="very-broken">HTML</a>"#.to_string()
        ))
    );
}

#[test]
fn title_kept_verbatim() {
    let html = "<html><head><title>  Mixed Case Title  </title></head><body></body></html>";
    let bubble = Bubble::parse_html(html).unwrap();
    assert_eq!(bubble.title(), "  Mixed Case Title  ");
}

#[test]
fn first_title_of_first_head_wins() {
    let html = "<html><head><title>First</title><title>Second</title></head><body></body></html>";
    assert_eq!(Bubble::parse_html(html).unwrap().title(), "First");
}

#[test]
fn empty_text_has_no_title() {
    assert_eq!(Bubble::parse_html("").unwrap_err(), BubbleParseError::MissingTitle);
}

#[test]
fn missing_title_comes_before_anchor_failures() {
    let html = r#"<html><head></head><body><a class="bubble-expand">x</a></body></html>"#;
    assert_eq!(Bubble::parse_html(html).unwrap_err(), BubbleParseError::MissingTitle);
}

#[test]
fn search_anchor_without_href_fails_in_indexable_stage() {
    let html = page(r#"<a class="bubble-search-site">S</a>"#);
    assert_eq!(
        Bubble::parse_html(&html).unwrap_err(),
        BubbleParseError::IndexableError(IndexableParseError::MissingHref(
            r#"<a class="bubble-search-site">S</a>"#.to_string()
        ))
    );
}

#[test]
fn exclude_anchor_with_path_only_href_is_invalid() {
    let html = page(r#"<a class="bubble-exclude-path" href="/foo/bar">P</a>"#);
    assert_eq!(
        Bubble::parse_html(&html).unwrap_err(),
        BubbleParseError::IndexableError(IndexableParseError::InvalidUrl(
            r#"<a class="bubble-exclude-path" href="/foo/bar">P</a>"#.to_string()
        ))
    );
}

#[test]
fn expand_anchor_without_href_fails() {
    let html = page(r#"<a class="bubble-expand">More</a>"#);
    assert_eq!(
        Bubble::parse_html(&html).unwrap_err(),
        BubbleParseError::MissingHref(r#"<a class="bubble-expand">More</a>"#.to_string())
    );
}

#[test]
fn expand_anchor_with_relative_href_fails() {
    let html = page(r#"<a class="bubble-expand" href="other.html">More</a>"#);
    assert_eq!(
        Bubble::parse_html(&html).unwrap_err(),
        BubbleParseError::InvalidUrl(r#"<a class="bubble-expand" href="other.html">More</a>"#.to_string())
    );
}

#[test]
fn topic_stage_fails_before_indexable_stage() {
    let html = page(
        r#"<a class="bubble-search-page">S</a>
           <a class="bubble-wikidata-topic">W</a>"#,
    );
    assert_eq!(
        Bubble::parse_html(&html).unwrap_err(),
        BubbleParseError::TopicError(TopicParseError::MissingHref(
            r#"<a class="bubble-wikidata-topic">W</a>"#.to_string()
        ))
    );
}

#[test]
fn first_malformed_anchor_of_a_class_decides() {
    let html = page(
        r#"<a class="bubble-search-page" href="https://ok.org">ok</a>
           <a class="bubble-search-page" href="bad">bad</a>
           <a class="bubble-search-page">none</a>"#,
    );
    assert_eq!(
        Bubble::parse_html(&html).unwrap_err(),
        BubbleParseError::IndexableError(IndexableParseError::InvalidUrl(
            r#"<a class="bubble-search-page" href="bad">bad</a>"#.to_string()
        ))
    );
}

#[test]
fn parsing_twice_gives_equal_bubbles() {
    let html = page(
        r#"<a class="bubble-wikipedia-topic" href="https://en.wikipedia.org/wiki/HTML">HTML</a>
           <a class="bubble-expand" href="https://another.org/b">B</a>
           <a class="bubble-search-site" href="https://example.com">S</a>"#,
    );
    let first = Bubble::parse_html(&html).unwrap();
    let second = Bubble::parse_html(&html).unwrap();
    assert_eq!(first, second);
}

#[test]
fn wikipedia_references_come_before_wikidata() {
    let html = page(
        r#"<a class="bubble-wikidata-topic" href="https://www.wikidata.org/wiki/Q1">D</a>
           <a class="bubble-wikipedia-topic" href="https://en.wikipedia.org/wiki/P">P</a>"#,
    );
    let document = Document::parse(&html);
    let topic = Topic::parse_html(&document).unwrap();
    assert_eq!(topic.references()[0].category(), TopicCategory::Wikipedia);
    assert_eq!(topic.references()[0].label(), "P");
    assert_eq!(topic.references()[1].category(), TopicCategory::Wikidata);
    assert_eq!(topic.references()[1].uri().as_str(), "https://www.wikidata.org/wiki/Q1");
}

#[test]
fn label_concatenates_nested_text() {
    let html = page(r#"<a class="bubble-expand" href="https://a.org">Hello <b>big</b> world</a>"#);
    let bubble = Bubble::parse_html(&html).unwrap();
    assert_eq!(bubble.expands()[0].label(), "Hello big world");
    assert_eq!(bubble.expands()[0].uri().as_str(), "https://a.org");
}

#[test]
fn label_may_be_empty() {
    let html = page(r#"<a class="bubble-wikipedia-topic" href="https://en.wikipedia.org/wiki/X"></a>"#);
    let bubble = Bubble::parse_html(&html).unwrap();
    assert_eq!(bubble.topic().references()[0].label(), "");
}

#[test]
fn uri_accepts_absolute_and_rejects_relative() {
    assert_eq!(uri("https://example.com/x?y=1").as_str(), "https://example.com/x?y=1");
    assert!(Uri::parse("very-broken").is_none());
    assert!(Uri::parse("/foo/bar").is_none());
    assert!(Uri::parse("//foo/bar").is_none());
    assert!(Uri::parse("").is_none());
}

#[test]
fn element_text_joins_text_nodes() {
    let e = Element {
        href: None,
        texts: vec!["a".to_string(), "".to_string(), "bc".to_string()],
        markup: String::new(),
    };
    assert_eq!(e.text(), "abc");
}

#[test]
fn first_title_needs_non_empty_text() {
    let title = |texts: Vec<&str>| Element {
        href: None,
        texts: texts.into_iter().map(String::from).collect(),
        markup: String::new(),
    };
    assert_eq!(Bubble::first_title(&[]), None);
    assert_eq!(Bubble::first_title(&[vec![]]), None);
    assert_eq!(Bubble::first_title(&[vec![title(vec![])]]), None);
    assert_eq!(Bubble::first_title(&[vec![title(vec![""])]]), None);
    assert_eq!(Bubble::first_title(&[vec![title(vec!["A", "B"]), title(vec!["C"])]]), Some("A".to_string()));
    assert_eq!(Bubble::first_title(&[vec![], vec![title(vec!["C"])]]), None);
}

#[test]
fn rules_in_reads_elements_in_order() {
    let anchor = |href: Option<&str>, text: &str, markup: &str| Element {
        href: href.map(String::from),
        texts: vec![text.to_string()],
        markup: markup.to_string(),
    };
    let ok = Indexable::rules_in(
        &[anchor(Some("https://a.org"), "A", "<a>A</a>"), anchor(Some("https://b.org"), "B", "<a>B</a>")],
        Scope::Path,
    );
    assert_eq!(
        ok,
        Ok(vec![
            Indexable::new(uri("https://a.org"), Scope::Path, "A".to_string()),
            Indexable::new(uri("https://b.org"), Scope::Path, "B".to_string()),
        ])
    );
    let err = Indexable::rules_in(
        &[anchor(Some("https://a.org"), "A", "<a>A</a>"), anchor(None, "B", "<a>B</a>"), anchor(Some("x"), "C", "<a>C</a>")],
        Scope::Page,
    );
    assert_eq!(err, Err(IndexableParseError::MissingHref("<a>B</a>".to_string())));
    let refs = Topic::references_in(&[anchor(Some("rel"), "R", "<a>R</a>")], TopicCategory::Wikidata);
    assert_eq!(refs, Err(TopicParseError::InvalidUrl("<a>R</a>".to_string())));
    let expands = Bubble::expands_in(&[anchor(None, "E", "<a>E</a>")]);
    assert_eq!(expands, Err(BubbleParseError::MissingHref("<a>E</a>".to_string())));
}
