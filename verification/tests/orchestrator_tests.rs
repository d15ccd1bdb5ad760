use hn_rs::api_url::StoryType;
use hn_rs::get_items::ItemResponse;
use hn_rs::orchestrator::attach_fetched_children;
use hn_rs::orchestrator::collect_fetched;
use hn_rs::orchestrator::AppAction;
use hn_rs::orchestrator::AppData;
use hn_rs::orchestrator::Directive;
use hn_rs::orchestrator::Orchestrator;

fn item_with_id(id: usize) -> ItemResponse {
    let mut item = ItemResponse::default();
    item.id = id;
    item
}

#[test]
fn test_debounce_and_cancel() {
    // issuing Top then immediately New before Top's fetch completes: only
    // New's data is ever published; Top's result never overwrites it
    let mut orch = Orchestrator::new();

    let top_gen = match orch.on_action(AppAction::Story(StoryType::Top)) {
        Directive::FetchTopic { topic, generation } => {
            assert_eq!(topic, StoryType::Top);
            generation
        }
        other => panic!("expected a topic fetch, got {:?}", other),
    };

    let new_gen = match orch.on_action(AppAction::Story(StoryType::New)) {
        Directive::FetchTopic { topic, generation } => {
            assert_eq!(topic, StoryType::New);
            generation
        }
        other => panic!("expected a topic fetch, got {:?}", other),
    };

    // a single-slot publication, guarded by the generation counter
    let mut published: Option<AppData> = None;

    // New's task publishes first
    if orch.may_publish_topic(new_gen) {
        published = Some(AppData::Story(Some(vec![item_with_id(2)])));
    }
    // Top's stale task completes later and its publish must be dropped
    if orch.may_publish_topic(top_gen) {
        published = Some(AppData::Story(Some(vec![item_with_id(1)])));
    }

    match published {
        Some(AppData::Story(Some(items))) => {
            assert_eq!(items.len(), 1);
            assert_eq!(items[0].id, 2);
        }
        other => panic!("expected New's data, got {:?}", other),
    }

    // a repeated identical selection is debounced
    match orch.on_action(AppAction::Story(StoryType::New)) {
        Directive::Debounce => {}
        other => panic!("expected a debounce, got {:?}", other),
    }
    assert!(orch.may_publish_topic(new_gen));
}

#[test]
fn test_items_lane() {
    let mut orch = Orchestrator::new();

    let first_gen = match orch.on_action(AppAction::Items(vec![5, 6])) {
        Directive::FetchItems { ids, generation } => {
            assert_eq!(ids, vec![5, 6]);
            generation
        }
        other => panic!("expected an item fetch, got {:?}", other),
    };

    // the same set again is debounced
    match orch.on_action(AppAction::Items(vec![5, 6])) {
        Directive::Debounce => {}
        other => panic!("expected a debounce, got {:?}", other),
    }

    // an empty set publishes the explicit no-items result at once
    match orch.on_action(AppAction::Items(vec![])) {
        Directive::NoItems { generation } => {
            assert!(!orch.may_publish_items(first_gen));
            assert!(orch.may_publish_items(generation));
        }
        other => panic!("expected the no-items directive, got {:?}", other),
    }

    // the topic lane is untouched by item selections
    match orch.on_action(AppAction::Story(StoryType::Show)) {
        Directive::FetchTopic { .. } => {}
        other => panic!("expected a topic fetch, got {:?}", other),
    }
}

#[test]
fn test_collect_keeps_order_and_drops_failures() {
    // topic list fetch for Show returns [8863, 8864]: both fetched fine
    // gives a list of length 2 in the same order; one failure gives only
    // the other
    let both = collect_fetched(vec![Some(item_with_id(8863)), Some(item_with_id(8864))]);
    assert_eq!(both.len(), 2);
    assert_eq!(both[0].id, 8863);
    assert_eq!(both[1].id, 8864);

    let one = collect_fetched(vec![Some(item_with_id(8863)), None]);
    assert_eq!(one.len(), 1);
    assert_eq!(one[0].id, 8863);

    let none = collect_fetched(vec![None, None]);
    assert!(none.is_empty());
}

#[test]
fn test_tree_leaf_rule() {
    // an item with no kids always yields children = None
    let leaf = attach_fetched_children(ItemResponse::default(), vec![]);
    assert!(leaf.children.is_none());

    // an item with kids = [a, b] where both fetch fine yields two children
    let mut parent = item_with_id(1);
    parent.kids = Some(vec![2, 3]);
    let full = attach_fetched_children(parent, vec![Some(item_with_id(2)), Some(item_with_id(3))]);
    let children = full.children.as_ref().expect("children must be materialized");
    assert_eq!(children.len(), 2);
    assert_eq!(children[0].id, 2);
    assert_eq!(children[1].id, 3);

    // if one of the two fails remotely, only the other remains
    let mut parent = item_with_id(1);
    parent.kids = Some(vec![2, 3]);
    let partial = attach_fetched_children(parent, vec![None, Some(item_with_id(3))]);
    let children = partial.children.as_ref().expect("children must be materialized");
    assert_eq!(children.len(), 1);
    assert_eq!(children[0].id, 3);

    // an empty kids list materializes an empty children list, not None
    let mut parent = item_with_id(1);
    parent.kids = Some(vec![]);
    let empty = attach_fetched_children(parent, vec![]);
    assert_eq!(empty.children.as_ref().map(|c| c.len()), Some(0));
}

#[test]
fn test_show_scenario() {
    // the whole Show flow: the id list arrives, both items fetch, the
    // published list preserves the id-list order
    let mut orch = Orchestrator::new();
    let generation = match orch.on_action(AppAction::Story(StoryType::Show)) {
        Directive::FetchTopic { topic, generation } => {
            assert_eq!(topic, StoryType::Show);
            generation
        }
        other => panic!("expected a topic fetch, got {:?}", other),
    };
    let ids = vec![8863usize, 8864usize];
    let fetched = vec![Some(item_with_id(ids[0])), Some(item_with_id(ids[1]))];
    let items = collect_fetched(fetched);
    assert!(orch.may_publish_topic(generation));
    assert_eq!(items.len(), 2);
    assert_eq!(items[0].id, 8863);
    assert_eq!(items[1].id, 8864);

    // with 8864 failing remotely the published list holds only 8863
    let partial = collect_fetched(vec![Some(item_with_id(8863)), None]);
    assert_eq!(partial.len(), 1);
    assert_eq!(partial[0].id, 8863);
}
