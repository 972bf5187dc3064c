//! The numbered menu and its action handlers.
//!
//! [`MainMenu::from_str`] maps a selection token to an action; any other
//! token — the empty reply included — selects nothing, which ends the
//! session. The handler functions take the replies that the prompts
//! collected and perform the store operation; an absent reply is a
//! cancellation and leaves the store untouched.

use crate::store::{listing_matches, views_of, Bill, Bills};
use vstd::prelude::*;
use vstd::string::StrSliceExecFns;

verus! {

/// The actions a selection token can name.
#[derive(Clone, Copy, Debug, PartialEq, Eq)]
pub enum MainMenu {
    AddBill,
    ViewBills,
    RemoveBill,
    UpdateBill,
}

/// The action that the selection token `s` names, if any: the tokens are the
/// single digits "1" through "4", in menu order.
pub open spec fn menu_choice(s: Seq<char>) -> Option<MainMenu> {
    if s.len() == 1 {
        if s[0] == '1' {
            Some(MainMenu::AddBill)
        } else if s[0] == '2' {
            Some(MainMenu::ViewBills)
        } else if s[0] == '3' {
            Some(MainMenu::RemoveBill)
        } else if s[0] == '4' {
            Some(MainMenu::UpdateBill)
        } else {
            None
        }
    } else {
        None
    }
}

impl MainMenu {
    /// Map a selection token to its action.
    pub fn from_str(input: &str) -> (r: Option<MainMenu>)
        ensures
            r == menu_choice(input@),
    {
        if input.unicode_len() == 1 {
            let c = input.get_char(0);
            if c == '1' {
                Some(MainMenu::AddBill)
            } else if c == '2' {
                Some(MainMenu::ViewBills)
            } else if c == '3' {
                Some(MainMenu::RemoveBill)
            } else if c == '4' {
                Some(MainMenu::UpdateBill)
            } else {
                None
            }
        } else {
            None
        }
    }
}

/// Add a bill from the collected replies. Both replies must be present;
/// otherwise the dialogue was cancelled and the store stays as it was.
/// Reports whether a bill was written.
pub fn add_bill(bills: &mut Bills, name: Option<String>, amount: Option<u64>) -> (r: bool)
    requires
        old(bills).wf(),
    ensures
        final(bills).wf(),
        match (name, amount) {
            (Some(n), Some(a)) => r && final(bills)@ == old(bills)@.insert(n@, a),
            _ => !r && final(bills)@ == old(bills)@,
        },
{
    match (name, amount) {
        (Some(n), Some(a)) => {
            bills.add(Bill { name: n, amount: a });
            true
        },
        _ => false,
    }
}

/// A snapshot of every bill, for display.
pub fn view_bills(bills: &Bills) -> (r: Vec<Bill>)
    requires
        bills.wf(),
    ensures
        listing_matches(bills@, views_of(r@)),
{
    bills.get_all()
}

/// Remove the named bill. An absent reply is a cancellation: the store
/// stays as it was and nothing is reported. Otherwise reports whether a
/// bill named by the reply existed and was removed.
pub fn remove_bill(bills: &mut Bills, name: Option<String>) -> (r: Option<bool>)
    requires
        old(bills).wf(),
    ensures
        final(bills).wf(),
        match name {
            Some(n) => {
                &&& r == Some(old(bills)@.contains_key(n@))
                &&& final(bills)@ == (if old(bills)@.contains_key(n@) {
                    old(bills)@.remove(n@)
                } else {
                    old(bills)@
                })
                &&& !final(bills)@.contains_key(n@)
            },
            None => r == None::<bool> && final(bills)@ == old(bills)@,
        },
{
    match name {
        Some(n) => Some(bills.remove(n.as_str())),
        None => None,
    }
}

/// Replace the named bill's amount. Both replies must be present; otherwise
/// the dialogue was cancelled, the store stays as it was and nothing is
/// reported. Otherwise reports whether a bill named by the reply existed
/// and had its amount replaced.
pub fn update_bill(bills: &mut Bills, name: Option<String>, amount: Option<u64>) -> (r: Option<
    bool,
>)
    requires
        old(bills).wf(),
    ensures
        final(bills).wf(),
        match (name, amount) {
            (Some(n), Some(a)) => {
                &&& r == Some(old(bills)@.contains_key(n@))
                &&& final(bills)@ == (if old(bills)@.contains_key(n@) {
                    old(bills)@.insert(n@, a)
                } else {
                    old(bills)@
                })
            },
            _ => r == None::<bool> && final(bills)@ == old(bills)@,
        },
{
    match (name, amount) {
        (Some(n), Some(a)) => Some(bills.update(n.as_str(), a)),
        _ => None,
    }
}

} // verus!
