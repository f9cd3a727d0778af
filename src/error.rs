use vstd::prelude::*;

verus! {

/// Every way an instruction can be rejected. A rejected instruction leaves
/// all the accounts it was given unchanged.
#[derive(Clone, Copy, Debug, PartialEq, Eq, Structural)]
pub enum BetGame {
    OutOfTime,
    NoJoiner,
    NotCreator,
    AlreadyJoined,
    NotJoiner,
    NotEndYet,
    AlreadyFinished,
    InvalidRoundIndex,
    NotOutOfTime,
    CreatorNotUpdated,
    WrongJoiner,
    WrongCreator,
    AlreadyClaimed,
    /// A debit asked for more lamports than the account holds.
    InsufficientFunds,
    /// A counter, a deadline or a balance would leave its integer range.
    ArithmeticOverflow,
}

} // verus!
