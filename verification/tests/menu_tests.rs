use bills::menu::{add_bill, remove_bill, update_bill, view_bills, MainMenu};
use bills::store::Bills;

#[test]
fn selection_tokens_name_actions_in_menu_order() {
    assert_eq!(MainMenu::from_str("1"), Some(MainMenu::AddBill));
    assert_eq!(MainMenu::from_str("2"), Some(MainMenu::ViewBills));
    assert_eq!(MainMenu::from_str("3"), Some(MainMenu::RemoveBill));
    assert_eq!(MainMenu::from_str("4"), Some(MainMenu::UpdateBill));
}

#[test]
fn other_tokens_select_nothing() {
    assert_eq!(MainMenu::from_str(""), None);
    assert_eq!(MainMenu::from_str("5"), None);
    assert_eq!(MainMenu::from_str("0"), None);
    assert_eq!(MainMenu::from_str("12"), None);
    assert_eq!(MainMenu::from_str("add"), None);
    assert_eq!(MainMenu::from_str(" 1"), None);
}

#[test]
fn add_handler_writes_bill_when_both_replies_present() {
    let mut store = Bills::new();
    assert!(add_bill(&mut store, Some(String::from("Gas")), Some(77)));
    let listed = view_bills(&store);
    assert_eq!(listed.len(), 1);
    assert_eq!(listed[0].name, "Gas");
    assert_eq!(listed[0].amount, 77);
}

#[test]
fn add_handler_cancelled_at_name_writes_nothing() {
    let mut store = Bills::new();
    assert!(!add_bill(&mut store, None, Some(77)));
    assert_eq!(view_bills(&store).len(), 0);
}

#[test]
fn add_handler_cancelled_at_amount_writes_nothing() {
    let mut store = Bills::new();
    assert!(!add_bill(&mut store, Some(String::from("Gas")), None));
    assert_eq!(view_bills(&store).len(), 0);
}

#[test]
fn remove_handler_reports_and_cancels() {
    let mut store = Bills::new();
    add_bill(&mut store, Some(String::from("Gas")), Some(77));
    assert_eq!(remove_bill(&mut store, None), None);
    assert_eq!(view_bills(&store).len(), 1);
    assert_eq!(remove_bill(&mut store, Some(String::from("Water"))), Some(false));
    assert_eq!(view_bills(&store).len(), 1);
    assert_eq!(remove_bill(&mut store, Some(String::from("Gas"))), Some(true));
    assert_eq!(view_bills(&store).len(), 0);
}

#[test]
fn update_handler_reports_and_cancels() {
    let mut store = Bills::new();
    add_bill(&mut store, Some(String::from("Gas")), Some(77));
    assert_eq!(update_bill(&mut store, Some(String::from("Gas")), None), None);
    assert_eq!(update_bill(&mut store, None, Some(99)), None);
    let listed = view_bills(&store);
    assert_eq!(listed[0].amount, 77);
    assert_eq!(update_bill(&mut store, Some(String::from("Water")), Some(99)), Some(false));
    assert_eq!(update_bill(&mut store, Some(String::from("Gas")), Some(99)), Some(true));
    let listed = view_bills(&store);
    assert_eq!(listed.len(), 1);
    assert_eq!(listed[0].name, "Gas");
    assert_eq!(listed[0].amount, 99);
}
