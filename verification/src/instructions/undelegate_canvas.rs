//! Committing the canvas and taking it back from the rollup.

use crate::instructions::commit_canvas::CommitRequest;
use crate::state::Pubkey;
use vstd::prelude::*;

verus! {

/// The accounts of an undelegation: who pays, and the address of the
/// canvas.
#[derive(Clone, Copy, Debug, PartialEq, Eq)]
pub struct UndelegateCanvas {
    pub payer: Pubkey,
    pub canvas: Pubkey,
}

/// Names what is to be committed and released: the canvas alone, paid for
/// by the payer, its custody returning to the base chain. The caller of
/// this function hands the request to the delegation framework and passes
/// on whatever the framework answers.
pub fn handle_undelegate_canvas(ctx: &UndelegateCanvas) -> (request: CommitRequest)
    ensures
        request.payer == ctx.payer,
        request.accounts@ == seq![ctx.canvas],
        request.undelegate,
{
    let mut accounts: Vec<Pubkey> = Vec::new();
    accounts.push(ctx.canvas);
    CommitRequest { payer: ctx.payer, accounts, undelegate: true }
}

} // verus!
