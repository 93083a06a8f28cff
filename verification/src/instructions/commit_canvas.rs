//! Committing the canvas from the rollup without taking it back.

use crate::state::Pubkey;
use vstd::prelude::*;

verus! {

/// The accounts of a commit: who pays, and the address of the canvas.
#[derive(Clone, Copy, Debug, PartialEq, Eq)]
pub struct CommitCanvas {
    pub payer: Pubkey,
    pub canvas: Pubkey,
}

/// What a commit asks of the delegation framework: that the state of
/// `accounts` be written back to the base chain at the cost of `payer`, and,
/// where `undelegate` is set, that their custody return to the base chain
/// as well.
#[derive(Clone, Debug, PartialEq, Eq)]
pub struct CommitRequest {
    pub payer: Pubkey,
    pub accounts: Vec<Pubkey>,
    pub undelegate: bool,
}

/// Names what is to be committed: the canvas alone, paid for by the payer,
/// its custody staying with the rollup. The caller of this function hands
/// the request to the delegation framework and passes on whatever the
/// framework answers.
pub fn handle_commit_canvas(ctx: &CommitCanvas) -> (request: CommitRequest)
    ensures
        request.payer == ctx.payer,
        request.accounts@ == seq![ctx.canvas],
        !request.undelegate,
{
    let mut accounts: Vec<Pubkey> = Vec::new();
    accounts.push(ctx.canvas);
    CommitRequest { payer: ctx.payer, accounts, undelegate: false }
}

} // verus!
