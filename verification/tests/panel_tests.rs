use hn_rs::api_url::StoryType;
use hn_rs::components::Loading;
use hn_rs::get_items::item_eq;
use hn_rs::get_items::ItemResponse;
use hn_rs::panels::list::ListKey;
use hn_rs::panels::Comment;
use hn_rs::panels::ListBlock;

fn item_with_id(id: usize) -> ItemResponse {
    let mut item = ItemResponse::default();
    item.id = id;
    item
}

#[test]
fn test_loading_frames_cycle() {
    let mut loading = Loading::new();
    assert!(loading.is_loading());
    assert_eq!(loading.next_frame(), "⠋");
    assert_eq!(loading.next_frame(), "⠙");
    for _ in 0..8 {
        loading.next_frame();
    }
    // after ten frames the cycle restarts at the first frame
    assert_eq!(loading.next_frame(), "⠋");
    loading.set_loading(false);
    assert!(!loading.is_loading());
}

#[test]
fn test_list_block_topic_cycle() {
    let mut list = ListBlock::new(true);
    assert_eq!(list.topic, StoryType::Show);
    list.next_topic();
    assert_eq!(list.topic, StoryType::Best);
    list.next_topic();
    assert_eq!(list.topic, StoryType::Jobs);
    list.prev_topic();
    list.prev_topic();
    assert_eq!(list.topic, StoryType::Show);
}

#[test]
fn test_list_block_data_and_reset() {
    let mut list = ListBlock::new(false);
    assert!(list.is_loading());
    list.set_data(vec![item_with_id(1), item_with_id(2)]);
    assert!(!list.is_loading());
    assert_eq!(list.data.len(), 2);
    assert_eq!(list.selected, 0);
    list.reset();
    assert!(list.is_loading());
    assert!(list.data.is_empty());
}

#[test]
fn test_list_block_selection_keys() {
    let mut list = ListBlock::new(true);
    list.set_data(vec![item_with_id(1), item_with_id(2), item_with_id(3)]);
    list.set_height(2);
    list.apply_key(ListKey::Down);
    assert_eq!(list.selected, 1);
    list.apply_key(ListKey::Down);
    assert_eq!(list.selected, 2);
    // the window follows the selection
    assert_eq!(list.list_top_cursor, 1);
    // the selection stops at the last row
    list.apply_key(ListKey::Down);
    assert_eq!(list.selected, 2);
    list.apply_key(ListKey::Up);
    list.apply_key(ListKey::Up);
    assert_eq!(list.selected, 0);
    list.apply_key(ListKey::PageForward);
    assert_eq!(list.selected, 1);
    list.apply_key(ListKey::PageBack);
    assert_eq!(list.selected, 0);
    list.apply_key(ListKey::NextTopic);
    assert_eq!(list.topic, StoryType::Best);
}

#[test]
fn test_list_block_set_read() {
    let mut list = ListBlock::new(true);
    list.set_data(vec![item_with_id(42), item_with_id(43)]);
    assert!(!list.is_read(42));
    list.set_read().unwrap();
    assert!(list.is_read(42));
    assert!(!list.is_read(43));
    // the history follows the current topic
    list.next_topic();
    assert!(!list.is_read(42));
}

#[test]
fn test_comment_scroll_bounds() {
    let mut comment = Comment::new(vec![1]);
    comment.content_height = 2;
    comment.scroll(false);
    comment.scroll(false);
    comment.scroll(false);
    // downward movement stops at the measured content height
    assert_eq!(comment.scroll_offset, 2);
    comment.scroll(true);
    assert_eq!(comment.scroll_offset, 1);
    comment.scroll(true);
    comment.scroll(true);
    assert_eq!(comment.scroll_offset, 0);
}

#[test]
fn test_comment_merge_dedups_by_id() {
    let mut comment = Comment::new(vec![1, 2]);
    assert!(comment.data.is_none());
    comment.merge_comment(item_with_id(1));
    comment.merge_comment(item_with_id(2));
    comment.merge_comment(item_with_id(1));
    let shown = comment.data.as_ref().unwrap();
    assert_eq!(shown.len(), 2);
    assert_eq!(shown[0].id, 1);
    assert_eq!(shown[1].id, 2);
}

#[test]
fn test_item_eq_is_deep() {
    let mut a = item_with_id(1);
    let mut b = item_with_id(1);
    assert!(item_eq(&a, &b));
    a.children = Some(vec![item_with_id(2)]);
    b.children = Some(vec![item_with_id(2)]);
    assert!(item_eq(&a, &b));
    b.children = Some(vec![item_with_id(3)]);
    assert!(!item_eq(&a, &b));
    a.children = None;
    assert!(!item_eq(&a, &b));
}
