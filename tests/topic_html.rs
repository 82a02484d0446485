use bubble::{Document, Topic, TopicCategory, TopicParseError, TopicReference, Uri};

fn uri(text: &str) -> Uri {
    Uri::parse(text).unwrap()
}

#[test]
fn test_parse_wikipedia_topic_description() {
    let html = r#"<html>
            <head>
                <title>Test</title>
            </head>
            <body>
                <div>
                    <a class="bubble-wikipedia-topic" href="https://en.wikipedia.org/wiki/HTML">HTML</a>
                </div>
            </body>
        </html>"#;
    let document = Document::parse(html);
    let topic = Topic::parse_html(&document).unwrap();
    assert_eq!(topic.references().len(), 1);
    assert_eq!(
        topic.references()[0],
        TopicReference::new(
            uri("https://en.wikipedia.org/wiki/HTML"),
            "HTML".to_string(),
            TopicCategory::Wikipedia,
        )
    );
}

#[test]
fn test_parse_wikidata_topic_description() {
    let html = r#"<html>
            <head>
                <title>Test</title>
            </head>
            <body>
                <div>
                    <a class="bubble-wikidata-topic" href="https://www.wikidata.org/wiki/Q8811">HTML</a>
                </div>
            </body>
        </html>"#;
    let document = Document::parse(html);
    let topic = Topic::parse_html(&document).unwrap();
    assert_eq!(topic.references().len(), 1);
    assert_eq!(
        topic.references()[0],
        TopicReference::new(
            uri("https://www.wikidata.org/wiki/Q8811"),
            "HTML".to_string(),
            TopicCategory::Wikidata,
        )
    );
}

#[test]
fn test_parse_combined_topic_description() {
    let html = r#"<html>
            <head>
                <title>Test</title>
            </head>
            <body>
                <div>
                    <a class="bubble-wikipedia-topic" href="https://en.wikipedia.org/wiki/HTML">HTML</a>
                    <a class="bubble-wikidata-topic" href="https://www.wikidata.org/wiki/Q8811">HTML</a>
                </div>
            </body>
        </html>"#;
    let document = Document::parse(html);
    let topic = Topic::parse_html(&document).unwrap();

    assert_eq!(
        topic.references(),
        vec![
            TopicReference::new(
                uri("https://en.wikipedia.org/wiki/HTML"),
                "HTML".to_string(),
                TopicCategory::Wikipedia,
            ),
            TopicReference::new(
                uri("https://www.wikidata.org/wiki/Q8811"),
                "HTML".to_string(),
                TopicCategory::Wikidata,
            ),
        ]
    );
}

#[test]
fn test_parse_wikipedia_topic_description_without_href() {
    let html = r#"<html>
            <head>
                <title>Test</title>
            </head>
            <body>
                <div>
                    <a class="bubble-wikipedia-topic">HTML</a>
                </div>
            </body>
        </html>"#;
    let document = Document::parse(html);
    let err = Topic::parse_html(&document).unwrap_err();
    assert_eq!(
        err,
        TopicParseError::MissingHref(r#"<a class="bubble-wikipedia-topic">HTML</a>"#.to_string())
    );
}

#[test]
fn test_parse_wikipedia_topic_description_wrong_href() {
    let html = r#"<html>
            <head>
                <title>Test</title>
            </head>
            <body>
                <div>
                    <a class="bubble-wikipedia-topic" href="very-broken">HTML</a>
                </div>
            </body>
        </html>"#;
    let document = Document::parse(html);
    let err = Topic::parse_html(&document).unwrap_err();
    assert_eq!(
        err,
        TopicParseError::InvalidUrl(
            r#"<a class="bubble-wikipedia-topic" href="very-broken">HTML</a>"#.to_string()
        )
    );
}
