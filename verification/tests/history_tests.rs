use hn_rs::api_url::StoryType;
use hn_rs::storages::codec::encode_history;
use hn_rs::storages::codec::parse_history;
use hn_rs::storages::read_history::ReadHistory;

#[test]
fn test_add_read_item() {
    let mut history = ReadHistory::new(100);
    history.add_read_item(StoryType::Show, 42).unwrap();
    assert!(history.id_is_readed(StoryType::Show, 42));

    history.remove().unwrap();
}

#[test]
fn test_id_is_not_readed() {
    let mut history = ReadHistory::new(100);
    assert!(!history.id_is_readed(StoryType::Show, 100));

    history.remove().unwrap();
}

#[test]
fn test_add_read_item_exceed_max() {
    let mut history = ReadHistory::new(2);
    history.add_read_item(StoryType::Show, 1).unwrap();
    history.add_read_item(StoryType::Show, 2).unwrap();
    history.add_read_item(StoryType::Show, 3).unwrap();

    assert!(!history.id_is_readed(StoryType::Show, 1));
    assert!(history.id_is_readed(StoryType::Show, 2));
    assert!(history.id_is_readed(StoryType::Show, 3));

    history.remove().unwrap();
}

#[test]
fn test_topics_are_independent() {
    let mut history = ReadHistory::new(100);
    history.add_read_item(StoryType::Top, 7).unwrap();
    assert!(history.id_is_readed(StoryType::Top, 7));
    assert!(!history.id_is_readed(StoryType::New, 7));
    assert!(!history.id_is_readed(StoryType::Show, 7));
}

#[test]
fn test_readd_at_cap_still_evicts_lowest() {
    // inserting an already-present id while at the cap still evicts the
    // lowest id first
    let mut history = ReadHistory::new(2);
    history.add_read_item(StoryType::Best, 1).unwrap();
    history.add_read_item(StoryType::Best, 2).unwrap();
    history.add_read_item(StoryType::Best, 2).unwrap();
    assert!(!history.id_is_readed(StoryType::Best, 1));
    assert!(history.id_is_readed(StoryType::Best, 2));
}

#[test]
fn test_encode_canonical_form() {
    let mut history = ReadHistory::new(100);
    history.add_read_item(StoryType::Show, 8864).unwrap();
    history.add_read_item(StoryType::Show, 8863).unwrap();
    history.add_read_item(StoryType::Top, 1).unwrap();
    let doc = history.snapshot();
    let text = encode_history(&doc);
    assert_eq!(
        text,
        "{\"Top\":[1],\"New\":[],\"Show\":[8863,8864],\"Best\":[],\"Jobs\":[]}"
    );
}

#[test]
fn test_round_trip() {
    // persisting a document and reading it back into a fresh store reports
    // identical is_read answers for every previously marked id
    let mut history = ReadHistory::new(100);
    for id in [42usize, 7, 100, 8863] {
        history.add_read_item(StoryType::Show, id).unwrap();
        history.add_read_item(StoryType::Jobs, id + 1).unwrap();
    }
    let text = encode_history(&history.snapshot());

    let mut fresh = ReadHistory::new(100);
    let doc = parse_history(&text).expect("the canonical encoding must parse");
    fresh.restore(doc);

    for id in 0usize..200 {
        for topic in [
            StoryType::Top,
            StoryType::New,
            StoryType::Show,
            StoryType::Best,
            StoryType::Jobs,
        ] {
            assert_eq!(
                fresh.id_is_readed(topic, id),
                history.id_is_readed(topic, id)
            );
        }
    }
}

#[test]
fn test_parse_rejects_corrupt_documents() {
    assert!(parse_history("").is_none());
    assert!(parse_history("{}").is_none());
    assert!(parse_history("not json").is_none());
    assert!(parse_history("{\"Top\":[1],\"New\":[],\"Show\":[],\"Best\":[],\"Jobs\":[]").is_none());
    // trailing bytes are rejected
    assert!(parse_history("{\"Top\":[],\"New\":[],\"Show\":[],\"Best\":[],\"Jobs\":[]}x").is_none());
    // a descending list is rejected
    assert!(
        parse_history("{\"Top\":[2,1],\"New\":[],\"Show\":[],\"Best\":[],\"Jobs\":[]}").is_none()
    );
    // a leading zero is rejected
    assert!(
        parse_history("{\"Top\":[01],\"New\":[],\"Show\":[],\"Best\":[],\"Jobs\":[]}").is_none()
    );
}

#[test]
fn test_parse_accepts_canonical_document() {
    let doc = parse_history("{\"Top\":[1],\"New\":[],\"Show\":[8863,8864],\"Best\":[],\"Jobs\":[]}")
        .expect("canonical form must parse");
    assert_eq!(doc.top, vec![1]);
    assert!(doc.new.is_empty());
    assert_eq!(doc.show, vec![8863, 8864]);
    assert!(doc.best.is_empty());
    assert!(doc.jobs.is_empty());
}
