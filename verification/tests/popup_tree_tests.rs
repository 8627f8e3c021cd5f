use winit_wayland::popup::PopupId;
use winit_wayland::popup_tree::{
    holds_topmost_grab, plan_destroy_tree, release_dismissed, subtree_leaf_first, DismissedPopup,
};

fn ids(raw: &[u64]) -> Vec<PopupId> {
    raw.iter().copied().map(PopupId).collect()
}

fn links(raw: &[(u64, Option<u64>)]) -> Vec<(PopupId, Option<PopupId>)> {
    raw.iter().map(|&(id, parent)| (PopupId(id), parent.map(PopupId))).collect()
}

fn grabs(raw: &[(u64, bool)]) -> Vec<(PopupId, bool)> {
    raw.iter().map(|&(id, grabbed)| (PopupId(id), grabbed)).collect()
}

#[test]
fn toplevel_popup_is_only_itself() {
    let links = links(&[(1, None), (2, None), (3, None)]);
    assert_eq!(subtree_leaf_first(links, PopupId(2)), ids(&[2]));
}

#[test]
fn chain_destroys_deepest_first() {
    let links = links(&[(1, None), (2, Some(1)), (3, Some(2))]);
    assert_eq!(subtree_leaf_first(links, PopupId(1)), ids(&[3, 2, 1]));
}

#[test]
fn branches_put_children_before_parents() {
    // 1 -> {2 -> 3, 4}; input order must not matter.
    let links = links(&[(4, Some(1)), (3, Some(2)), (1, None), (2, Some(1))]);
    assert_eq!(subtree_leaf_first(links, PopupId(1)), ids(&[3, 4, 2, 1]));
}

#[test]
fn non_grabbing_or_unknown_parent_holds_no_grab() {
    let popups = grabs(&[(1, false)]);
    assert!(!holds_topmost_grab(popups.clone(), PopupId(1)));
    assert!(!holds_topmost_grab(popups, PopupId(2)));
}

#[test]
fn grabbed_child_blocks_a_sibling_grab() {
    // Menu 1 grabbed, then submenu 2 under it: a second grabbing child of 1 is fatal.
    let popups = grabs(&[(1, true), (2, true)]);
    assert!(!holds_topmost_grab(popups.clone(), PopupId(1)));
    assert!(holds_topmost_grab(popups, PopupId(2)));
}

#[test]
fn deepest_grab_of_a_chain_is_topmost() {
    let popups = grabs(&[(3, true), (1, true), (2, true)]);
    assert!(holds_topmost_grab(popups.clone(), PopupId(3)));
    assert!(!holds_topmost_grab(popups, PopupId(2)));
}

#[test]
fn non_grabbing_child_leaves_the_grab_with_its_parent() {
    // The fly-out case: menu 1 grabbed, fly-out 2 created with grab: false.
    let popups = grabs(&[(1, true), (2, false)]);
    assert!(holds_topmost_grab(popups, PopupId(1)));
}

#[test]
fn subtree_excludes_parent_and_siblings() {
    let links = links(&[(1, None), (2, Some(1)), (3, Some(2)), (4, Some(1)), (5, None)]);
    assert_eq!(subtree_leaf_first(links, PopupId(2)), ids(&[3, 2]));
}

#[test]
fn cycle_terminates() {
    let links = links(&[(1, Some(2)), (2, Some(1))]);
    assert_eq!(subtree_leaf_first(links, PopupId(1)), ids(&[2, 1]));
}

/// The compositor dismisses submenu 2, and what the app does with its `Done` is close menu
/// 1. Destroying 1 has to leave 2 where it is: 2 is one take into its grace window, and the
/// app may still be presenting to the surface dropping it would destroy.
#[test]
fn destroying_an_ancestor_keeps_a_dismissed_child_its_grace_window() {
    let mut dismissed = vec![DismissedPopup { id: PopupId(2), state: "submenu", reported: false }];

    // The take that hands out 2's `Done` drops nothing.
    assert!(release_dismissed(&mut dismissed).is_empty());

    // Closing the menu destroys 1 now and leaves 2 to finish its window.
    let plan = plan_destroy_tree(links(&[(1, None), (2, Some(1))]), &ids(&[2]), PopupId(1));
    assert_eq!(plan.destroy, ids(&[1]));
    assert_eq!(plan.held, ids(&[2]));

    // Which it does on the next take, and not before.
    let released = release_dismissed(&mut dismissed);
    assert_eq!(released.iter().map(|popup| popup.id).collect::<Vec<_>>(), ids(&[2]));
    assert!(dismissed.is_empty());
}

/// Live descendants still go with their ancestor, and still go first.
#[test]
fn destroying_an_ancestor_takes_its_live_children_with_it() {
    let plan = plan_destroy_tree(
        links(&[(1, None), (2, Some(1)), (3, Some(2))]),
        &ids(&[3]),
        PopupId(1),
    );
    assert_eq!(plan.destroy, ids(&[2, 1]));
    assert_eq!(plan.held, ids(&[3]));
}

#[test]
fn a_dismissed_popup_is_released_on_the_second_take() {
    let mut dismissed = vec![DismissedPopup { id: PopupId(5), state: "menu", reported: false }];
    assert!(release_dismissed(&mut dismissed).is_empty());
    assert_eq!(dismissed.len(), 1);
    assert!(dismissed[0].reported);
    dismissed.push(DismissedPopup { id: PopupId(6), state: "submenu", reported: false });
    let released = release_dismissed(&mut dismissed);
    assert_eq!(released.iter().map(|p| p.id).collect::<Vec<_>>(), vec![PopupId(5)]);
    assert_eq!(dismissed.iter().map(|p| p.id).collect::<Vec<_>>(), vec![PopupId(6)]);
}

#[test]
fn link_order_does_not_change_the_destruction_order() {
    let a = links(&[(1, None), (2, Some(1)), (5, Some(1)), (3, Some(2)), (4, Some(2))]);
    let b = links(&[(4, Some(2)), (5, Some(1)), (3, Some(2)), (1, None), (2, Some(1))]);
    assert_eq!(subtree_leaf_first(a, PopupId(1)), subtree_leaf_first(b, PopupId(1)));
}

#[test]
fn popups_dismissed_before_the_first_take_wait_for_the_second() {
    let mut dismissed = vec![DismissedPopup { id: PopupId(5), state: "menu", reported: false }];
    dismissed.push(DismissedPopup { id: PopupId(7), state: "tooltip", reported: false });
    assert!(release_dismissed(&mut dismissed).is_empty());
    assert_eq!(dismissed.iter().map(|p| p.id).collect::<Vec<_>>(), vec![PopupId(5), PopupId(7)]);
    dismissed.push(DismissedPopup { id: PopupId(8), state: "later", reported: false });
    let released = release_dismissed(&mut dismissed);
    assert_eq!(released.iter().map(|p| p.id).collect::<Vec<_>>(), vec![PopupId(5), PopupId(7)]);
    assert_eq!(dismissed.iter().map(|p| p.id).collect::<Vec<_>>(), vec![PopupId(8)]);
    assert_eq!(release_dismissed(&mut dismissed).iter().map(|p| p.id).collect::<Vec<_>>(), vec![PopupId(8)]);
    assert!(dismissed.is_empty());
}
