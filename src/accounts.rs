//! The accounts an instruction is given, as plain values.
use vstd::prelude::*;

verus! {

/// An account reference: its address, the program that owns it, and whether
/// it signed the call.
pub struct AccountRef {
    pub key: Vec<u8>,
    pub owner: Vec<u8>,
    pub is_signer: bool,
}

/// A token account: its address, the mint of the token it holds, and its owner.
pub struct TokenAccountRef {
    pub key: Vec<u8>,
    pub mint: Vec<u8>,
    pub owner: Vec<u8>,
}

/// A token mint: its address and decimal precision.
pub struct MintRef {
    pub key: Vec<u8>,
    pub decimals: u8,
}

/// A token movement for the token program to perform.
pub enum TokenAction {
    /// Create `amount` new units of `mint` in the account `to`.
    MintTo { mint: Vec<u8>, to: Vec<u8>, authority: Vec<u8>, amount: u64 },
    /// Move `amount` units of `mint` from the account `from` to the account `to`.
    TransferChecked {
        from: Vec<u8>,
        to: Vec<u8>,
        authority: Vec<u8>,
        mint: Vec<u8>,
        amount: u64,
        decimals: u8,
    },
}

/// A token movement, over byte sequences.
pub enum ActionModel {
    MintTo { mint: Seq<u8>, to: Seq<u8>, authority: Seq<u8>, amount: u64 },
    TransferChecked {
        from: Seq<u8>,
        to: Seq<u8>,
        authority: Seq<u8>,
        mint: Seq<u8>,
        amount: u64,
        decimals: u8,
    },
}

impl View for TokenAction {
    type V = ActionModel;

    open spec fn view(&self) -> ActionModel {
        match self {
            TokenAction::MintTo { mint, to, authority, amount } => ActionModel::MintTo {
                mint: mint@,
                to: to@,
                authority: authority@,
                amount: *amount,
            },
            TokenAction::TransferChecked { from, to, authority, mint, amount, decimals } =>
                ActionModel::TransferChecked {
                from: from@,
                to: to@,
                authority: authority@,
                mint: mint@,
                amount: *amount,
                decimals: *decimals,
            },
        }
    }
}

pub open spec fn result_view<T: View, E>(r: Result<T, E>) -> Result<T::V, E> {
    match r {
        Ok(v) => Ok(v@),
        Err(e) => Err(e),
    }
}

} // verus!
