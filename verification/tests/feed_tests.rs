use feed_relay::feed::{parse, Item};

fn document(entries: &[(Option<&str>, Option<&str>)]) -> Vec<u8> {
    let mut text = String::from(
        "<?xml version=\"1.0\" encoding=\"UTF-8\"?>\n<rss version=\"2.0\"><channel>\
         <title>News</title><link>http://example.org/</link><description>All of it</description>",
    );
    for (title, link) in entries {
        text.push_str("<item>");
        if let Some(title) = title {
            text.push_str(&format!("<title>{}</title>", title));
        }
        if let Some(link) = link {
            text.push_str(&format!("<link>{}</link>", link));
        }
        text.push_str("<description>words</description></item>");
    }
    text.push_str("</channel></rss>");
    text.into_bytes()
}

#[test]
fn items_come_in_feed_order() {
    let bytes = document(&[
        (Some("Zebra"), Some("http://example.org/z")),
        (Some("Apple"), Some("http://example.org/a")),
        (Some("Mango"), Some("http://example.org/m")),
    ]);
    let items = parse(&bytes).unwrap();
    assert_eq!(
        items,
        vec![
            Item {
                title: Some(String::from("Zebra")),
                link: Some(String::from("http://example.org/z"))
            },
            Item {
                title: Some(String::from("Apple")),
                link: Some(String::from("http://example.org/a"))
            },
            Item {
                title: Some(String::from("Mango")),
                link: Some(String::from("http://example.org/m"))
            },
        ]
    );
}

#[test]
fn missing_title_is_no_error() {
    let bytes = document(&[(None, Some("http://example.org/x")), (Some("B"), None)]);
    let items = parse(&bytes).unwrap();
    assert_eq!(
        items,
        vec![
            Item { title: None, link: Some(String::from("http://example.org/x")) },
            Item { title: Some(String::from("B")), link: None },
        ]
    );
}

#[test]
fn channel_without_items_is_an_empty_feed() {
    let items = parse(&document(&[])).unwrap();
    assert_eq!(items, vec![]);
}

#[test]
fn entities_in_titles_are_resolved() {
    let bytes = document(&[(Some("Fish &amp; Chips"), Some("http://example.org/?a=1&amp;b=2"))]);
    let items = parse(&bytes).unwrap();
    assert_eq!(items[0].title, Some(String::from("Fish & Chips")));
    assert_eq!(items[0].link, Some(String::from("http://example.org/?a=1&b=2")));
}

#[test]
fn empty_input_is_no_feed() {
    assert!(parse(b"").is_err());
}

#[test]
fn other_document_is_no_feed() {
    let error = parse(b"<html><body>not a feed</body></html>").unwrap_err();
    assert!(!error.cause.is_empty());
}

#[test]
fn feed_without_channel_is_no_feed() {
    assert!(parse(b"<rss version=\"2.0\"></rss>").is_err());
}

#[test]
fn plain_text_is_no_feed() {
    assert!(parse(b"just words").is_err());
}

#[test]
fn same_bytes_parse_alike() {
    let bytes = document(&[(Some("A"), Some("http://a")), (None, None)]);
    assert_eq!(parse(&bytes), parse(&bytes));
}

#[test]
fn shuffled_markup_is_read_or_refused_but_never_aborts() {
    let pieces = [
        "<item>", "</item>", "<title>", "</title>", "<link>", "</link>", "T", "&amp;", "&", "<x:y>",
        "</x:y>", "<x:y z=\"1\"/>", "<c>", "</c>", "<itunes:category text=\"a\">",
        "</itunes:category>", "<itunes:owner>", "</itunes:owner>", "<itunes:image href=\"h\"/>",
        "<dc:creator>", "</dc:creator>", "<atom:link href=\"l\"/>", "<![CDATA[<b>]]>", "<!-- c -->",
        "<category domain=\"d\">", "</category>", "<enclosure url=\"u\" length=\"1\" type=\"t\"/>",
        "<guid isPermaLink=\"false\">", "</guid>", "<source url=\"s\">", "</source>", "<image>",
        "</image>", "<url>", "</url>", "<channel>", "</channel>", "<textinput>", "</textinput>",
        "<sy:updatePeriod>", "</sy:updatePeriod>", "<", ">", "\"", "'", "/>", "<?pi ?>",
    ];
    let head = "<rss version=\"2.0\" xmlns:itunes=\"http://www.itunes.com/dtds/podcast-1.0.dtd\" \
                xmlns:dc=\"http://purl.org/dc/elements/1.1/\" \
                xmlns:sy=\"http://purl.org/rss/1.0/modules/syndication/\" \
                xmlns:atom=\"http://www.w3.org/2005/Atom\"><channel><title>t</title>";
    let mut seed = 99u64;
    let mut read = 0usize;
    for _ in 0..20_000 {
        let mut text = String::from(head);
        seed = seed.wrapping_mul(6364136223846793005).wrapping_add(1442695040888963407);
        let length = 1 + (seed >> 33) as usize % 25;
        for _ in 0..length {
            seed = seed.wrapping_mul(6364136223846793005).wrapping_add(1442695040888963407);
            text.push_str(pieces[(seed >> 33) as usize % pieces.len()]);
        }
        if (seed >> 20) % 2 == 0 {
            text.push_str("</channel></rss>");
        }
        if parse(text.as_bytes()).is_ok() {
            read += 1;
        }
    }
    assert!(read > 0);
}
