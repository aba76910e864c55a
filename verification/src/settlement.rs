use vstd::prelude::*;
use crate::identity::Identity;

verus! {

/// A movement of value out of the escrow, as plain mathematical values.
pub struct TransferView {
    pub token: Seq<char>,
    pub to: Seq<char>,
    pub amount: int,
}

/// A movement of value out of the escrow that the host has to carry out.
#[derive(Debug, PartialEq, Eq)]
pub struct Transfer {
    pub token: Identity,
    pub to: Identity,
    pub amount: i128,
}

impl View for Transfer {
    type V = TransferView;

    open spec fn view(&self) -> TransferView {
        TransferView { token: self.token@, to: self.to@, amount: self.amount as int }
    }
}

} // verus!
