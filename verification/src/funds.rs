use vstd::prelude::*;
use crate::instruction::Coin;

verus! {

/// The amount of the first entry under `denom`, or zero when none matches.
pub open spec fn spec_attached_amount(funds: Seq<Coin>, denom: Seq<char>) -> int
    decreases funds.len(),
{
    if funds.len() == 0 {
        0
    } else if funds[0].denom@ == denom {
        funds[0].amount as int
    } else {
        spec_attached_amount(funds.skip(1), denom)
    }
}

/// Selects the amount attached under the given currency; absence counts as
/// zero. The first entry with a matching denomination wins.
pub fn attached_amount(funds: &Vec<Coin>, denom: &String) -> (amount: u128)
    ensures
        amount == spec_attached_amount(funds@, denom@),
{
    let mut i: usize = 0;
    while i < funds.len()
        invariant
            0 <= i <= funds@.len(),
            forall|j: int| 0 <= j < i ==> funds@[j].denom@ != denom@,
        decreases funds@.len() - i,
    {
        if funds[i].denom.eq(denom) {
            assert(spec_attached_amount(funds@, denom@) == funds@[i as int].amount) by {
                lemma_attached_amount_first(funds@, denom@, i as int);
            }
            return funds[i].amount;
        }
        i += 1;
    }
    assert(spec_attached_amount(funds@, denom@) == 0) by {
        lemma_attached_amount_none(funds@, denom@);
    }
    0
}

proof fn lemma_attached_amount_first(funds: Seq<Coin>, denom: Seq<char>, i: int)
    requires
        0 <= i < funds.len(),
        funds[i].denom@ == denom,
        forall|j: int| 0 <= j < i ==> funds[j].denom@ != denom,
    ensures
        spec_attached_amount(funds, denom) == funds[i].amount,
    decreases i,
{
    if i > 0 {
        lemma_attached_amount_first(funds.skip(1), denom, i - 1);
    }
}

proof fn lemma_attached_amount_none(funds: Seq<Coin>, denom: Seq<char>)
    requires
        forall|j: int| 0 <= j < funds.len() ==> funds[j].denom@ != denom,
    ensures
        spec_attached_amount(funds, denom) == 0,
    decreases funds.len(),
{
    if funds.len() > 0 {
        lemma_attached_amount_none(funds.skip(1), denom);
    }
}

} // verus!
