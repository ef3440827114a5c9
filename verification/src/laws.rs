//! General laws of the ledger, stated once and proved for all inputs.

use vstd::prelude::*;

use crate::ledger::{sum_balances, transfer_effect, Ledger};

verus! {

/// Law: conservation of supply.  In every well-formed ledger the balances sum
/// to the stored total supply; every operation's contract preserves
/// well-formedness, so the equality holds after every completed call.
pub proof fn law_supply_conservation(l: Ledger)
    requires
        l.wf(),
    ensures
        sum_balances(l.accounts@) == l.total,
{
}

/// Law: transfer round trip.  A transfer of `amount` from `a` to `b` followed
/// by a transfer of `amount` from `b` back to `a` restores every balance, the
/// registration of every account, and the total supply.
pub proof fn law_transfer_round_trip(
    pre: Ledger,
    mid: Ledger,
    post: Ledger,
    a: Seq<char>,
    b: Seq<char>,
    amount: u128,
)
    requires
        transfer_effect(pre, mid, a, b, amount),
        transfer_effect(mid, post, b, a, amount),
    ensures
        forall|acc: Seq<char>| post.spec_balance(acc) == pre.spec_balance(acc),
        forall|acc: Seq<char>| post.spec_registered(acc) == pre.spec_registered(acc),
        post.total == pre.total,
{
    assert forall|acc: Seq<char>| post.spec_balance(acc) == pre.spec_balance(acc) by {
        if acc != a && acc != b {
            assert(!set![a, b].contains(acc));
            assert(!set![b, a].contains(acc));
        }
    }
}

/// Law: query stability.  `balance_of` and `total_supply` take the contract
/// by shared reference, so they cannot mutate it, and each of their contracts
/// pins the result as a function of the state alone; hence repeated queries
/// agree until a mutating call intervenes.
pub proof fn law_query_stability(l: Ledger, a: Seq<char>, r1: u128, r2: u128)
    requires
        r1 == l.spec_balance(a),
        r2 == l.spec_balance(a),
    ensures
        r1 == r2,
{
}

} // verus!
