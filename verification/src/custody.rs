//! Balances and the movement of funds between them.

use vstd::prelude::*;
use crate::errors::CoduetError;
use crate::identity::Identity;

verus! {

/// An account that holds funds: who it is and how many lamports it has.
#[derive(Clone, Copy, Debug, PartialEq, Eq)]
pub struct Wallet {
    pub key: Identity,
    pub lamports: u64,
}

/// One movement of funds, as the ledger is asked to carry it out.
#[derive(Clone, Copy, Debug, PartialEq, Eq)]
pub struct Transfer {
    pub from: Identity,
    pub to: Identity,
    pub lamports: u64,
}

impl Wallet {
    /// The wallet of `key` with the given balance.
    pub fn new(key: Identity, lamports: u64) -> (wallet: Wallet)
        ensures
            wallet == (Wallet { key, lamports }),
    {
        Wallet { key, lamports }
    }

    /// This wallet after it has paid `lamports`.
    pub open spec fn debited(self, lamports: u64) -> Wallet
        recommends
            self.lamports >= lamports,
    {
        Wallet { key: self.key, lamports: (self.lamports - lamports) as u64 }
    }

    /// This wallet after it has received `lamports`.
    pub open spec fn credited(self, lamports: u64) -> Wallet
        recommends
            self.lamports + lamports <= u64::MAX,
    {
        Wallet { key: self.key, lamports: (self.lamports + lamports) as u64 }
    }
}

/// Why `lamports` cannot move from `from` to `to`, if they cannot: the payer
/// is short of them, or the receiver's balance would leave 64 bits.
pub open spec fn transfer_refusal(from: Wallet, to: Wallet, lamports: u64) -> Option<CoduetError> {
    if from.lamports < lamports {
        Some(CoduetError::InsufficientFunds)
    } else if to.lamports + lamports > u64::MAX {
        Some(CoduetError::ArithmeticOverflow)
    } else {
        None
    }
}

/// Moves `lamports` from one wallet to another and returns the movement for
/// the ledger. On a refusal both wallets stay as they were.
pub fn transfer(from: &mut Wallet, to: &mut Wallet, lamports: u64) -> (result: Result<
    Transfer,
    CoduetError,
>)
    ensures
        match transfer_refusal(*old(from), *old(to), lamports) {
            Some(e) => {
                &&& result == Err::<Transfer, CoduetError>(e)
                &&& *final(from) == *old(from)
                &&& *final(to) == *old(to)
            },
            None => {
                &&& result == Ok::<Transfer, CoduetError>(
                    (Transfer { from: old(from).key, to: old(to).key, lamports }),
                )
                &&& *final(from) == old(from).debited(lamports)
                &&& *final(to) == old(to).credited(lamports)
                &&& final(from).lamports + final(to).lamports
                    == old(from).lamports + old(to).lamports
            },
        },
{
    if from.lamports < lamports {
        return Err(CoduetError::InsufficientFunds);
    }
    let raised: u64 = match to.lamports.checked_add(lamports) {
        Some(sum) => sum,
        None => {
            return Err(CoduetError::ArithmeticOverflow);
        },
    };
    from.lamports = from.lamports - lamports;
    to.lamports = raised;
    Ok(Transfer { from: from.key, to: to.key, lamports })
}

} // verus!
