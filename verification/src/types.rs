//! The game's data model: players, moves, results, errors, timestamps, the
//! typed storage keys, the per-player commitment record, and the transfer
//! instructions handed to the host's asset ledger.

use vstd::prelude::*;

verus! {

/// One of the two fixed participant positions of a game.
#[derive(Clone, Copy, PartialEq, Eq, Structural, Debug)]
pub enum Player {
    One,
    Two,
}

/// A move, or the marker that a committed move has not been revealed yet.
#[derive(Clone, Copy, PartialEq, Eq, Structural, Debug)]
pub enum Move {
    Rock,
    Paper,
    Scissors,
    Unrevealed,
}

/// The outcome of a completed game.
#[derive(Clone, Copy, PartialEq, Eq, Structural, Debug)]
pub enum GameResult {
    Winner(Player),
    Draw,
}

/// Everything that can go wrong with a game operation.
#[derive(Clone, Copy, PartialEq, Eq, Structural, Debug)]
pub enum Error {
    /// An operation needs the game's configuration, which is absent.
    GameNotStarted,
    /// The game was initialized a second time.
    AlreadyInitialized,
    /// A third commit arrived while both player slots were occupied.
    MaxPlayersHit,
    /// A reveal's recomputed digest did not match the committed one.
    InvalidReveal,
    /// An operation referenced a player slot that does not exist.
    InvalidOp,
    /// Evaluation was asked for before both players revealed.
    NotRevealed,
    /// Cancellation was asked for before the timeout elapsed, or with
    /// zero or two unrevealed slots.
    LimitNotReached,
}

/// A point in time, in the host clock's unit.
#[derive(Clone, Copy, PartialEq, Eq, Structural, Debug)]
pub struct TimeStamp(pub u64);

impl TimeStamp {
    /// The timestamp advanced by `other`.
    pub fn add(self, other: TimeStamp) -> (r: TimeStamp)
        requires
            self.0 + other.0 <= u64::MAX,
        ensures
            r.0 == self.0 + other.0,
    {
        TimeStamp(self.0 + other.0)
    }

    /// The timestamp moved back by `other`.
    pub fn sub(self, other: TimeStamp) -> (r: TimeStamp)
        requires
            other.0 <= self.0,
        ensures
            r.0 == self.0 - other.0,
    {
        TimeStamp(self.0 - other.0)
    }
}

impl Move {
    /// The rank of the move in the cyclic rock-paper-scissors order.
    pub fn repr(&self) -> (r: u32)
        ensures
            r == move_repr(*self),
    {
        match self {
            Move::Rock => 0,
            Move::Paper => 1,
            Move::Scissors => 2,
            Move::Unrevealed => 3,
        }
    }

    /// The fixed byte encoding of the move used in commitment preimages.
    pub fn as_bytes(&self) -> (r: Vec<u8>)
        requires
            *self != Move::Unrevealed,
        ensures
            r@ == move_bytes(*self),
    {
        match self {
            Move::Rock => vec![0x52u8, 0x6fu8, 0x63u8, 0x6bu8],
            Move::Paper => vec![0x50u8, 0x61u8, 0x70u8, 0x65u8, 0x72u8],
            _ => vec![
                0x53u8, 0x63u8, 0x69u8, 0x73u8, 0x73u8, 0x6fu8, 0x72u8, 0x73u8,
            ],
        }
    }
}

/// The rank of each move: the cyclic order has Paper beat Rock, Scissors
/// beat Paper, and Rock beat Scissors.
pub open spec fn move_repr(m: Move) -> u32 {
    match m {
        Move::Rock => 0,
        Move::Paper => 1,
        Move::Scissors => 2,
        Move::Unrevealed => 3,
    }
}

/// The fixed, move-specific byte string hashed into a commitment: the ASCII
/// name of the move. `Unrevealed` has no encoding.
pub open spec fn move_bytes(m: Move) -> Seq<u8> {
    match m {
        Move::Rock => seq![0x52u8, 0x6fu8, 0x63u8, 0x6bu8],
        Move::Paper => seq![0x50u8, 0x61u8, 0x70u8, 0x65u8, 0x72u8],
        Move::Scissors => seq![
            0x53u8, 0x63u8, 0x69u8, 0x73u8, 0x73u8, 0x6fu8, 0x72u8, 0x73u8,
        ],
        Move::Unrevealed => Seq::empty(),
    }
}

/// What one committed player's slot holds: the player's identity (as the
/// serialized bytes the host's identity scheme produces), the committed
/// digest, and the move once revealed.
#[derive(Debug)]
pub struct PlayerObj {
    pub id: Vec<u8>,
    pub user_move: Vec<u8>,
    pub move_pre: Move,
}

/// The mathematical value of a player slot.
pub struct PlayerView {
    pub id: Seq<u8>,
    pub user_move: Seq<u8>,
    pub move_pre: Move,
}

impl View for PlayerObj {
    type V = PlayerView;

    open spec fn view(&self) -> PlayerView {
        PlayerView { id: self.id@, user_move: self.user_move@, move_pre: self.move_pre }
    }
}

/// Clones a byte vector, preserving its value.
pub fn clone_bytes(v: &Vec<u8>) -> (r: Vec<u8>)
    ensures
        r@ == v@,
{
    let r = v.clone();
    proof {
        assert(r@ =~= v@);
    }
    r
}

impl Clone for PlayerObj {
    /// A clone holds the same identity, digest and revealed move.
    fn clone(&self) -> (r: Self)
        ensures
            r@ == self@,
    {
        PlayerObj {
            id: clone_bytes(&self.id),
            user_move: clone_bytes(&self.user_move),
            move_pre: self.move_pre,
        }
    }
}

impl PlayerObj {
    /// A fresh slot for a player who has committed `user_move` and not yet
    /// revealed.
    pub fn new(id: Vec<u8>, user_move: Vec<u8>) -> (r: PlayerObj)
        ensures
            r@ == (PlayerView { id: id@, user_move: user_move@, move_pre: Move::Unrevealed }),
    {
        PlayerObj { id, user_move, move_pre: Move::Unrevealed }
    }
}

/// The typed keys of the game's persistent store.
#[derive(Clone, Copy, PartialEq, Eq, Structural, Debug)]
pub enum DataKey {
    /// The time the second player committed, which starts the timeout.
    BetStart,
    /// The configured timeout duration.
    TsLimit,
    /// Whether the game has been configured.
    Started,
    /// The identifier of the staked asset.
    Token,
    /// The configured wager.
    BetAmount,
    /// One player's commitment record.
    Player(Player),
}

/// An endpoint of an asset transfer: the game's own custody account, or an
/// external account named by its identity bytes.
#[derive(Debug)]
pub enum Party {
    Custody,
    Account(Vec<u8>),
}

/// The mathematical value of a transfer endpoint.
pub enum PartyView {
    Custody,
    Account(Seq<u8>),
}

impl View for Party {
    type V = PartyView;

    open spec fn view(&self) -> PartyView {
        match self {
            Party::Custody => PartyView::Custody,
            Party::Account(id) => PartyView::Account(id@),
        }
    }
}

/// One instruction to the host's asset ledger: move `amount` of the staked
/// asset from `from` to `to`.
#[derive(Debug)]
pub struct Transfer {
    pub from: Party,
    pub to: Party,
    pub amount: i128,
}

/// The mathematical value of a transfer instruction.
pub struct TransferView {
    pub from: PartyView,
    pub to: PartyView,
    pub amount: int,
}

impl View for Transfer {
    type V = TransferView;

    open spec fn view(&self) -> TransferView {
        TransferView { from: self.from@, to: self.to@, amount: self.amount as int }
    }
}

impl DeepView for Transfer {
    type V = TransferView;

    open spec fn deep_view(&self) -> TransferView {
        self@
    }
}

} // verus!
