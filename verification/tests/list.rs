use nodo_tui::entity::{Identifiable, IdentifiableString, Peer, Service};
use nodo_tui::list::StatefulList;

fn names(ids: &[&str]) -> Vec<IdentifiableString> {
    ids.iter().map(|id| IdentifiableString(id.to_string())).collect()
}

fn peer(id: &str) -> Peer {
    Peer { id: id.to_string(), uri: format!("{}.example:4000", id), gas: "1e3".to_string(), rpi: None }
}

#[test]
fn new_list_has_no_selection() {
    let list = StatefulList::with_items(names(&["a", "b", "c"]));
    assert_eq!(list.items().len(), 3);
    assert_eq!(list.selected_index(), None);
    assert_eq!(list.selected_id(), None);
}

#[test]
fn first_step_forward_selects_the_first_item() {
    let mut list = StatefulList::with_items(names(&["a", "b", "c"]));
    list.next();
    assert_eq!(list.selected_index(), Some(0));
    assert_eq!(list.selected_id(), Some("a"));
}

#[test]
fn first_step_back_selects_the_first_item() {
    let mut list = StatefulList::with_items(names(&["a", "b", "c"]));
    list.previous();
    assert_eq!(list.selected_index(), Some(0));
    assert_eq!(list.selected_id(), Some("a"));
}

#[test]
fn next_from_last_goes_to_first_and_previous_goes_back() {
    let mut list = StatefulList::with_items(names(&["a", "b", "c"]));
    list.next();
    list.next();
    list.next();
    assert_eq!(list.selected_index(), Some(2));
    assert_eq!(list.selected_id(), Some("c"));
    list.next();
    assert_eq!(list.selected_index(), Some(0));
    assert_eq!(list.selected_id(), Some("a"));
    list.previous();
    assert_eq!(list.selected_index(), Some(2));
    assert_eq!(list.selected_id(), Some("c"));
}

#[test]
fn as_many_steps_forward_as_items_return_to_the_start() {
    let mut list = StatefulList::with_items(names(&["a", "b", "c", "d", "e"]));
    list.next();
    list.next();
    assert_eq!(list.selected_index(), Some(1));
    for _ in 0..5 {
        list.next();
    }
    assert_eq!(list.selected_index(), Some(1));
    assert_eq!(list.selected_id(), Some("b"));
}

#[test]
fn as_many_steps_back_as_items_return_to_the_start() {
    let mut list = StatefulList::with_items(names(&["a", "b", "c", "d", "e"]));
    list.next();
    list.next();
    list.next();
    list.next();
    assert_eq!(list.selected_index(), Some(3));
    for _ in 0..5 {
        list.previous();
    }
    assert_eq!(list.selected_index(), Some(3));
    assert_eq!(list.selected_id(), Some("d"));
}

#[test]
fn steps_on_an_empty_list_select_nothing() {
    let mut list: StatefulList<IdentifiableString> = StatefulList::with_items(Vec::new());
    list.next();
    assert_eq!(list.selected_index(), None);
    assert_eq!(list.selected_id(), None);
    list.previous();
    assert_eq!(list.selected_index(), None);
    assert_eq!(list.selected_id(), None);
}

#[test]
fn refresh_with_nothing_clears_the_selection() {
    let mut list = StatefulList::with_items(names(&["a", "b"]));
    list.next();
    list.next();
    assert_eq!(list.selected_index(), Some(1));
    list.refresh(Vec::new());
    assert_eq!(list.items().len(), 0);
    assert_eq!(list.selected_index(), None);
    assert_eq!(list.selected_id(), None);
}

#[test]
fn refresh_keeps_position_and_identifier_even_when_items_moved() {
    let mut list = StatefulList::with_items(names(&["a", "b", "c"]));
    list.next();
    list.next();
    assert_eq!(list.selected_id(), Some("b"));
    list.refresh(names(&["x", "y", "z"]));
    assert_eq!(list.items()[1].id(), "y");
    assert_eq!(list.selected_index(), Some(1));
    assert_eq!(list.selected_id(), Some("b"));
    list.next();
    assert_eq!(list.selected_index(), Some(2));
    assert_eq!(list.selected_id(), Some("z"));
}

#[test]
fn refresh_of_an_unselected_list_selects_nothing() {
    let mut list = StatefulList::with_items(names(&["a"]));
    list.refresh(names(&["b", "c"]));
    assert_eq!(list.selected_index(), None);
    assert_eq!(list.selected_id(), None);
    assert_eq!(list.items().len(), 2);
}

#[test]
fn step_forward_from_a_position_past_the_end_goes_to_the_first_item() {
    let mut list = StatefulList::with_items(names(&["a", "b", "c", "d", "e"]));
    for _ in 0..5 {
        list.next();
    }
    assert_eq!(list.selected_index(), Some(4));
    list.refresh(names(&["x", "y"]));
    assert_eq!(list.selected_index(), Some(4));
    list.next();
    assert_eq!(list.selected_index(), Some(0));
    assert_eq!(list.selected_id(), Some("x"));
}

#[test]
fn step_back_from_a_position_past_the_end_goes_to_the_last_item() {
    let mut list = StatefulList::with_items(names(&["a", "b", "c", "d", "e"]));
    for _ in 0..5 {
        list.next();
    }
    list.refresh(names(&["x", "y"]));
    list.previous();
    assert_eq!(list.selected_index(), Some(1));
    assert_eq!(list.selected_id(), Some("y"));
}

#[test]
fn step_back_from_the_position_just_past_the_end_goes_to_the_last_item() {
    let mut list = StatefulList::with_items(names(&["a", "b", "c"]));
    list.next();
    list.next();
    list.next();
    list.refresh(names(&["x", "y"]));
    assert_eq!(list.selected_index(), Some(2));
    list.previous();
    assert_eq!(list.selected_index(), Some(1));
    assert_eq!(list.selected_id(), Some("y"));
}

#[test]
fn single_item_list_stays_on_its_item() {
    let mut list = StatefulList::with_items(names(&["only"]));
    list.next();
    list.next();
    assert_eq!(list.selected_index(), Some(0));
    list.previous();
    assert_eq!(list.selected_index(), Some(0));
    assert_eq!(list.selected_id(), Some("only"));
}

#[test]
fn records_are_identified_by_their_id_field() {
    let mut peers = StatefulList::with_items(vec![peer("north"), peer("south")]);
    peers.next();
    peers.next();
    assert_eq!(peers.selected_id(), Some("south"));
    assert_eq!(peers.items()[1].uri, "south.example:4000");
    let service = Service { id: "s1".to_string(), tag: "any".to_string() };
    assert_eq!(service.id(), "s1");
    assert_eq!(IdentifiableString("logs".to_string()).id(), "logs");
}
