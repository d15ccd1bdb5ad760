use hn_rs::get_items::ItemResponse;
use hn_rs::panels::Comment;

fn default_item() -> ItemResponse {
    ItemResponse::default()
}

#[test]
fn test_old_article_content_matches_crates() {
    // the generated article text must equal what the outside crates render:
    // chrono for the timestamp, html2text's plain mode for the body
    let mut article = hn_rs::article::Article::new(Some(default_item()), false, 0);
    article.set_area(40, 10);
    let body = html2text::config::plain()
        .string_from_read("This is a default item".as_bytes(), 40)
        .unwrap();
    let time = chrono::DateTime::from_timestamp(0, 0)
        .unwrap()
        .format("%Y-%m-%d %H:%M:%S")
        .to_string();
    let expected = format!(
        "Title: No title\nAuthor: Linux\nTime: {}\nURL: No URL\n\n{}",
        time, body
    );
    assert_eq!(article.generate_content(), expected);
}

#[test]
fn test_panel_article_content_matches_crates() {
    let mut item = default_item();
    item.title = Some("A story".to_string());
    item.by = Some("alice".to_string());
    item.time = 1234567890;
    item.url = Some("https://example.org".to_string());
    item.text = Some("<p>one</p><p>two</p>".to_string());
    let mut article = hn_rs::panels::Article::new(Some(item), true);
    article.set_area(42, 10);
    let body = html2text::config::plain()
        .link_footnotes(false)
        .no_link_wrapping()
        .string_from_read("<p>one</p><p>two</p>".as_bytes(), 40)
        .unwrap();
    let expected = format!(
        "Title: A story\nAuthor: alice\nTime: 2009-02-13 23:31:30\nURL: https://example.org\n\n{}",
        body
    );
    assert_eq!(article.generate_content(), expected);
}

#[test]
fn test_article_scroll_uses_rendered_height() {
    // a body that renders to many short lines scrolls further than its
    // single-line source would allow
    let mut item = default_item();
    item.text = Some("<p>one</p><p>two</p><p>three</p>".to_string());
    let mut article = hn_rs::article::Article::new(Some(item), false, 0);
    article.set_area(40, 1);
    for _ in 0..20 {
        article.scroll(false);
    }
    // header (5 rows) + 2 blank-separated body paragraphs render well past
    // one row, so the offset moved several rows down
    assert!(article.scroll_offset >= 5);
    article.scroll(true);
    let before = article.scroll_offset;
    article.scroll(true);
    assert_eq!(article.scroll_offset, before - 1);
}

#[test]
fn test_formater_matches_crates() {
    // the assembled node text runs through html_escape and html2text's rich
    // mode exactly as the panel does
    let comment = Comment::new(vec![]);
    let mut item = default_item();
    item.children = Some(vec![default_item(), default_item()]);

    let line = format!(
        "&lt;&lt;Linux&gt;&gt;: {}",
        html_escape::decode_html_entities("This is a default item")
    );
    let assembled = format!("{}\n  {}\n  {}", line, line.trim_start(), line.trim_start());
    let expected = html2text::config::rich()
        .link_footnotes(false)
        .string_from_read(format!("<pre>{}</pre>", assembled).as_bytes(), 80)
        .unwrap();

    assert_eq!(comment.formater(&item, 80, None), expected);
}

#[test]
fn test_formater() {
    let comment = Comment::new(vec![]);
    let mut item = ItemResponse::default();
    item.children = Some(vec![
        ItemResponse::default(),
        ItemResponse::default(),
        ItemResponse::default(),
    ]);

    let str = comment.formater(&item, 80, None);
    let res = "<<Linux>>: This is a default item\n  \
                    <<Linux>>: This is a default item\n  \
                    <<Linux>>: This is a default item\n  \
                    <<Linux>>: This is a default item\n";

    assert_eq!(str, res);
}

#[test]
fn test_formater_decodes_entities_with_indent() {
    let comment = Comment::new(vec![]);
    let mut item = default_item();
    item.text = Some("a &lt;b&gt; &amp; c".to_string());
    let text = comment.formater(&item, 80, Some(2));
    assert_eq!(text, "  &lt;&lt;Linux&gt;&gt;: a <b> & c");
}

#[test]
fn test_comment_measure() {
    let mut comment = Comment::new(vec![1]);
    comment.merge_comment(default_item());
    let content = comment.measure(42);
    let expected = html2text::config::rich()
        .link_footnotes(false)
        .string_from_read(
            "<pre>&lt;&lt;Linux&gt;&gt;: This is a default item</pre>".as_bytes(),
            40,
        )
        .unwrap();
    assert_eq!(content, expected);
    assert_eq!(comment.block_width, 40);
    assert_eq!(
        comment.content_height,
        hn_rs::text::wrapped_height(&content, 40)
    );
}
