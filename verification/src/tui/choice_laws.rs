//! What holds of the accounts that the program offers.

use vstd::prelude::*;

use crate::domain::Account;
use crate::tui::app_keys;

verus! {

/// An import can go into every active account and into no other one, and they
/// are offered in order.
pub proof fn active_accounts_are_offered(v: Seq<Account>)
    ensures
        ({
            let active = v.filter(|a: Account| a.is_active);
            &&& app_keys::import_choices(v).len() == active.len()
            &&& app_keys::reassign_choices(v).len() == active.len()
            &&& forall|i: int|
                0 <= i < active.len() ==> {
                    let a = #[trigger] active[i];
                    &&& app_keys::import_choices(v)[i].id == a.id
                    &&& app_keys::import_choices(v)[i].name == a.name
                    &&& app_keys::import_choices(v)[i].account_number == a.account_number
                    &&& app_keys::import_choices(v)[i].account_type == a.account_type
                    &&& app_keys::reassign_choices(v)[i].id == a.id
                    &&& app_keys::reassign_choices(v)[i].name == a.name
                    &&& app_keys::reassign_choices(v)[i].account_number == a.account_number
                }
        }),
    decreases v.len(),
{
    reveal(Seq::filter);
    if v.len() > 0 {
        let p = |a: Account| a.is_active;
        let before = v.drop_last();
        active_accounts_are_offered(before);
        assert(p(v.last()) == v.last().is_active);
        let active = v.filter(p);
        assert forall|i: int| 0 <= i < active.len() implies {
            let a = #[trigger] active[i];
            &&& app_keys::import_choices(v)[i].id == a.id
            &&& app_keys::import_choices(v)[i].name == a.name
            &&& app_keys::import_choices(v)[i].account_number == a.account_number
            &&& app_keys::import_choices(v)[i].account_type == a.account_type
            &&& app_keys::reassign_choices(v)[i].id == a.id
            &&& app_keys::reassign_choices(v)[i].name == a.name
            &&& app_keys::reassign_choices(v)[i].account_number == a.account_number
        } by {
            if i < before.filter(p).len() {
                assert(active[i] == before.filter(p)[i]);
            }
        }
    }
}

} // verus!
