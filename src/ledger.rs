//! The vault's reserve together with every holder's account, and what
//! purchases preserve of it.

use vstd::prelude::*;
use crate::instructions::credited;
use crate::state::{UserInfo, VaultInfo};

verus! {

/// The vault's reserve and every holder's account at one moment.
pub struct Ledger {
    pub vault: VaultInfo,
    pub users: Seq<UserInfo>,
}

/// The sum of the holders' balances.
pub open spec fn sum_balances(users: Seq<UserInfo>) -> int
    decreases users.len(),
{
    if users.len() == 0 {
        0
    } else {
        sum_balances(users.drop_last()) + users.last().balance
    }
}

/// All of the vault asset that the ledger accounts for: the reserve plus
/// every holder's balance.
pub open spec fn reserve_total(ledger: Ledger) -> int {
    ledger.vault.stake + sum_balances(ledger.users)
}

/// One purchase, as `buy_tokens` performs it: either it was rejected and
/// nothing changed, or one holder was credited from the reserve and no other
/// account changed.
pub open spec fn purchase_step(pre: Ledger, post: Ledger) -> bool {
    ||| post == pre
    ||| exists|i: int, amount: int|
        0 <= i < pre.users.len() && post.users == pre.users.update(i, post.users[i])
            && #[trigger] credited(pre.vault, pre.users[i], post.vault, post.users[i], amount)
}

proof fn lemma_sum_update(users: Seq<UserInfo>, i: int, user: UserInfo)
    requires
        0 <= i < users.len(),
    ensures
        sum_balances(users.update(i, user)) == sum_balances(users) - users[i].balance
            + user.balance,
    decreases users.len(),
{
    let updated = users.update(i, user);
    if i == users.len() - 1 {
        assert(updated.drop_last() =~= users.drop_last());
    } else {
        lemma_sum_update(users.drop_last(), i, user);
        assert(updated.drop_last() =~= users.drop_last().update(i, user));
    }
}

/// A purchase moves the vault asset from the reserve to a holder: the total
/// is unchanged.
pub proof fn lemma_purchase_conserves(pre: Ledger, post: Ledger)
    requires
        purchase_step(pre, post),
    ensures
        reserve_total(post) == reserve_total(pre),
{
    if post != pre {
        let (i, amount) = choose|i: int, amount: int|
            0 <= i < pre.users.len() && post.users == pre.users.update(i, post.users[i])
                && #[trigger] credited(pre.vault, pre.users[i], post.vault, post.users[i], amount);
        lemma_sum_update(pre.users, i, post.users[i]);
    }
}

/// Across any sequence of purchases, the reserve plus all balances stays
/// what it was.
pub proof fn lemma_purchases_conserve(history: Seq<Ledger>)
    requires
        history.len() > 0,
        forall|k: int| 0 <= k < history.len() - 1 ==> purchase_step(#[trigger] history[k], history[k + 1]),
    ensures
        reserve_total(history.last()) == reserve_total(history[0]),
    decreases history.len(),
{
    if history.len() > 1 {
        let earlier = history.drop_last();
        assert forall|k: int| 0 <= k < earlier.len() - 1 implies purchase_step(
            #[trigger] earlier[k],
            earlier[k + 1],
        ) by {
            assert(purchase_step(history[k], history[k + 1]));
        }
        lemma_purchases_conserve(earlier);
        assert(purchase_step(history[history.len() - 2], history[history.len() - 1]));
        lemma_purchase_conserves(history[history.len() - 2], history.last());
    }
}

} // verus!
