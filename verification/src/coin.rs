//! Amounts of a named token.

use vstd::prelude::*;

verus! {

/// An amount of one token denomination.
#[derive(Debug, PartialEq, Eq)]
pub struct Coin {
    pub denom: String,
    pub amount: u128,
}

/// The mathematical value of a [`Coin`].
pub struct CoinModel {
    pub denom: Seq<char>,
    pub amount: nat,
}

impl View for Coin {
    type V = CoinModel;

    open spec fn view(&self) -> CoinModel {
        CoinModel { denom: self.denom@, amount: self.amount as nat }
    }
}

impl Clone for Coin {
    fn clone(&self) -> (out: Self)
        ensures
            out@ == self@,
    {
        Coin { denom: self.denom.clone(), amount: self.amount }
    }
}

impl Coin {
    /// Builds a coin from an amount and a denomination.
    pub fn new(amount: u128, denom: &str) -> (out: Self)
        ensures
            out@.denom == denom@,
            out@.amount == amount,
    {
        Coin { denom: denom.to_owned(), amount }
    }
}

/// The values of a list of coins, in order.
pub open spec fn coins_model(coins: Seq<Coin>) -> Seq<CoinModel> {
    Seq::new(coins.len(), |i: int| coins[i]@)
}

/// Copies a list of coins.
pub fn clone_coins(coins: &Vec<Coin>) -> (out: Vec<Coin>)
    ensures
        coins_model(out@) == coins_model(coins@),
{
    let mut out: Vec<Coin> = Vec::new();
    let mut i: usize = 0;
    while i < coins.len()
        invariant
            i <= coins@.len(),
            out@.len() == i,
            forall|j: int| 0 <= j < i ==> out@[j]@ == coins@[j]@,
        decreases coins@.len() - i,
    {
        out.push(coins[i].clone());
        i += 1;
    }
    assert(coins_model(out@) =~= coins_model(coins@));
    out
}

} // verus!
