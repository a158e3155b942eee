//! The game engine: an explicit typed store for one game instance, and the
//! five entry operations — initialize, make_move (commit), reveal_move,
//! evaluate and cancel — specified against a mathematical transition system
//! over the store's view.
//!
//! The host environment stays outside the engine. The caller authenticates
//! the committing player, reads the clock and passes the reading in, and
//! performs the asset transfers that the operations append to the `ledger`
//! argument; the host's transactional boundary makes each operation atomic
//! with its transfers.

use vstd::prelude::*;

use crate::hash::{commitment, commitment_digest};
use crate::types::{
    clone_bytes, DataKey, Error, GameResult, Move, Party, PartyView, Player, PlayerObj,
    PlayerView, TimeStamp, Transfer, TransferView,
};

verus! {

/// The mathematical value of a game store: the configuration, the timeout
/// anchor and the two player slots.
#[verifier::ext_equal]
pub struct GameView {
    pub started: bool,
    pub token: Option<Seq<u8>>,
    pub bet_amount: Option<int>,
    pub ts_limit: Option<int>,
    pub bet_start: Option<int>,
    pub player_one: Option<PlayerView>,
    pub player_two: Option<PlayerView>,
}

/// One game instance's persistent store, held as plain typed values. Each
/// field answers to one `DataKey`.
pub struct RockPaperScissorsContract {
    pub started: bool,
    pub token: Option<Vec<u8>>,
    pub bet_amount: Option<i128>,
    pub ts_limit: Option<TimeStamp>,
    pub bet_start: Option<TimeStamp>,
    pub player_one: Option<PlayerObj>,
    pub player_two: Option<PlayerObj>,
}

impl View for RockPaperScissorsContract {
    type V = GameView;

    open spec fn view(&self) -> GameView {
        GameView {
            started: self.started,
            token: match self.token {
                Some(t) => Some(t@),
                None => None,
            },
            bet_amount: match self.bet_amount {
                Some(b) => Some(b as int),
                None => None,
            },
            ts_limit: match self.ts_limit {
                Some(t) => Some(t.0 as int),
                None => None,
            },
            bet_start: match self.bet_start {
                Some(t) => Some(t.0 as int),
                None => None,
            },
            player_one: match self.player_one {
                Some(p) => Some(p@),
                None => None,
            },
            player_two: match self.player_two {
                Some(p) => Some(p@),
                None => None,
            },
        }
    }
}

/// The slot of `p` in `g`.
pub open spec fn slot(g: GameView, p: Player) -> Option<PlayerView> {
    match p {
        Player::One => g.player_one,
        Player::Two => g.player_two,
    }
}

/// `g` with the slot of `p` replaced by `v`.
pub open spec fn with_slot(g: GameView, p: Player, v: Option<PlayerView>) -> GameView {
    match p {
        Player::One => GameView { player_one: v, ..g },
        Player::Two => GameView { player_two: v, ..g },
    }
}

/// Whether a player has committed into the slot of `p`.
pub open spec fn slot_occupied(g: GameView, p: Player) -> bool {
    slot(g, p) is Some
}

/// Whether the slot of `p` is occupied and its move has been revealed.
pub open spec fn slot_revealed(g: GameView, p: Player) -> bool {
    slot(g, p) matches Some(po) && po.move_pre != Move::Unrevealed
}

/// Whether both slots are occupied and revealed.
pub open spec fn both_revealed(g: GameView) -> bool {
    slot_revealed(g, Player::One) && slot_revealed(g, Player::Two)
}

/// Whether exactly one of the two slots has revealed — the condition under
/// which a timed-out game can be cancelled in the revealer's favour.
pub open spec fn exactly_one_revealed(g: GameView) -> bool {
    slot_revealed(g, Player::One) != slot_revealed(g, Player::Two)
}

/// The configured wager. Meaningful only once the game is started.
pub open spec fn wager(g: GameView) -> int
    recommends
        g.started,
{
    g.bet_amount->Some_0
}

/// Whether the value under `k` is present in the store.
pub open spec fn key_present(g: GameView, k: DataKey) -> bool {
    match k {
        DataKey::BetStart => g.bet_start is Some,
        DataKey::TsLimit => g.ts_limit is Some,
        DataKey::Started => g.started,
        DataKey::Token => g.token is Some,
        DataKey::BetAmount => g.bet_amount is Some,
        DataKey::Player(p) => slot(g, p) is Some,
    }
}

impl GameView {
    /// Well-formedness of a game store: the configuration is present exactly
    /// when the game is started, the wager leaves room for the doubled
    /// payout, slots and timeout anchor exist only in a started game, the
    /// timeout anchor is set whenever the second slot is, and every committed
    /// digest has the hash function's width.
    pub open spec fn wf(self) -> bool {
        &&& self.started <==> self.token is Some
        &&& self.started <==> self.bet_amount is Some
        &&& self.started <==> self.ts_limit is Some
        &&& self.bet_amount matches Some(b) ==> 0 <= b <= i128::MAX / 2
        &&& self.ts_limit matches Some(t) ==> 0 <= t <= u64::MAX
        &&& self.bet_start matches Some(t) ==> 0 <= t <= u64::MAX
        &&& self.player_one is Some ==> self.started
        &&& self.player_two is Some ==> self.started
        &&& self.bet_start is Some ==> self.started
        &&& self.player_two is Some ==> self.bet_start is Some
        &&& self.player_one matches Some(po) ==> po.user_move.len() == 32
        &&& self.player_two matches Some(po) ==> po.user_move.len() == 32
    }
}

/// The store of a fresh, unconfigured game.
pub open spec fn empty_game() -> GameView {
    GameView {
        started: false,
        token: None,
        bet_amount: None,
        ts_limit: None,
        bet_start: None,
        player_one: None,
        player_two: None,
    }
}

/// The instruction that stakes the wager: `w` moves from the player's
/// account into the game's custody.
pub open spec fn stake_view(user: Seq<u8>, w: int) -> TransferView {
    TransferView { from: PartyView::Account(user), to: PartyView::Custody, amount: w }
}

/// The instruction that pays `amount` out of custody to a player.
pub open spec fn payout_view(to: Seq<u8>, amount: int) -> TransferView {
    TransferView { from: PartyView::Custody, to: PartyView::Account(to), amount: amount }
}

/// What initializing with a token, wager and timeout duration does: it
/// persists the configuration once, and rejects a second initialization.
pub open spec fn spec_initialize(g: GameView, token: Seq<u8>, bet: int, ts: int) -> (GameView,
    Result<(), Error>) {
    if g.started {
        (g, Err(Error::AlreadyInitialized))
    } else {
        (
            GameView {
                started: true,
                token: Some(token),
                bet_amount: Some(bet),
                ts_limit: Some(ts),
                ..g
            },
            Ok(()),
        )
    }
}

/// What committing a digest does: the first commit fills slot one, the
/// second fills slot two and anchors the cancellation timeout at `now`, and
/// a third is rejected. Each successful commit stakes the wager. The third
/// component is the transfers the operation instructs.
pub open spec fn spec_make_move(g: GameView, user: Seq<u8>, digest: Seq<u8>, now: int) -> (
    GameView,
    Result<(), Error>,
    Seq<TransferView>,
) {
    if !g.started {
        (g, Err(Error::GameNotStarted), Seq::empty())
    } else if g.player_one is None {
        (
            GameView {
                player_one: Some(
                    PlayerView { id: user, user_move: digest, move_pre: Move::Unrevealed },
                ),
                ..g
            },
            Ok(()),
            seq![stake_view(user, wager(g))],
        )
    } else if g.player_two is None {
        (
            GameView {
                player_two: Some(
                    PlayerView { id: user, user_move: digest, move_pre: Move::Unrevealed },
                ),
                bet_start: Some(now),
                ..g
            },
            Ok(()),
            seq![stake_view(user, wager(g))],
        )
    } else {
        (g, Err(Error::MaxPlayersHit), Seq::empty())
    }
}

/// What revealing does: against an absent slot it fails; against an occupied
/// slot it recomputes the commitment digest of the slot's own identity, the
/// claimed move and the secret, and succeeds exactly when that digest is the
/// committed one, recording the move.
pub open spec fn spec_reveal(g: GameView, p: Player, m: Move, secret: Seq<u8>) -> (GameView,
    Result<Move, Error>) {
    match slot(g, p) {
        None => (g, Err(Error::InvalidOp)),
        Some(po) => {
            if po.user_move == commitment_digest(po.id, m, secret) {
                (with_slot(g, p, Some(PlayerView { move_pre: m, ..po })), Ok(m))
            } else {
                (g, Err(Error::InvalidReveal))
            }
        },
    }
}

/// Whether `x` beats `y` under the cyclic rule: each move beats the move
/// whose rank it succeeds.
pub open spec fn beats(x: Move, y: Move) -> bool {
    (crate::types::move_repr(y) + 1) % 3 == crate::types::move_repr(x)
}

/// The outcome of two revealed moves: equal moves draw, and otherwise the
/// winner is the player whose move beats the other's.
pub open spec fn outcome(a: Move, b: Move) -> GameResult {
    if a == b {
        GameResult::Draw
    } else if beats(b, a) {
        GameResult::Winner(Player::Two)
    } else {
        GameResult::Winner(Player::One)
    }
}

/// What evaluating does: before both slots reveal it fails and changes
/// nothing; afterwards it removes both slots and pays the doubled wager out
/// of custody to the winner, or the wager back to each player on a draw.
pub open spec fn spec_evaluate(g: GameView) -> (GameView, Result<GameResult, Error>, Seq<
    TransferView,
>) {
    if !both_revealed(g) {
        (g, Err(Error::NotRevealed), Seq::empty())
    } else {
        let p1 = g.player_one->Some_0;
        let p2 = g.player_two->Some_0;
        let w = wager(g);
        let cleared = GameView { player_one: None, player_two: None, ..g };
        match outcome(p1.move_pre, p2.move_pre) {
            GameResult::Draw => (
                cleared,
                Ok(GameResult::Draw),
                seq![payout_view(p1.id, w), payout_view(p2.id, w)],
            ),
            GameResult::Winner(Player::Two) => (
                cleared,
                Ok(GameResult::Winner(Player::Two)),
                seq![payout_view(p2.id, 2 * w)],
            ),
            GameResult::Winner(Player::One) => (
                cleared,
                Ok(GameResult::Winner(Player::One)),
                seq![payout_view(p1.id, 2 * w)],
            ),
        }
    }
}

/// Whether the grace period has fully elapsed at `now`: the timeout duration
/// has passed since the second commit anchored the timer.
pub open spec fn timeout_reached(g: GameView, now: int) -> bool {
    &&& g.bet_start matches Some(bs) && g.ts_limit matches Some(tl) && now - tl >= bs
}

/// What cancelling at `now` does: it needs the configuration and the timeout
/// anchor, the grace period must have elapsed, and exactly one slot must
/// have revealed; then the revealer is paid the doubled wager out of custody
/// and both slots are removed. In every other case nothing changes.
pub open spec fn spec_cancel(g: GameView, now: int) -> (GameView, Result<(), Error>, Seq<
    TransferView,
>) {
    if g.ts_limit is None {
        (g, Err(Error::GameNotStarted), Seq::empty())
    } else if g.bet_start is None {
        (g, Err(Error::GameNotStarted), Seq::empty())
    } else if !timeout_reached(g, now) {
        (g, Err(Error::LimitNotReached), Seq::empty())
    } else if !slot_revealed(g, Player::One) && slot_revealed(g, Player::Two) {
        (
            GameView { player_one: None, player_two: None, ..g },
            Ok(()),
            seq![payout_view(g.player_two->Some_0.id, 2 * wager(g))],
        )
    } else if slot_revealed(g, Player::One) && !slot_revealed(g, Player::Two) {
        (
            GameView { player_one: None, player_two: None, ..g },
            Ok(()),
            seq![payout_view(g.player_one->Some_0.id, 2 * wager(g))],
        )
    } else {
        (g, Err(Error::LimitNotReached), Seq::empty())
    }
}

/// Whether two byte vectors hold the same bytes.
fn bytes_eq(a: &Vec<u8>, b: &Vec<u8>) -> (r: bool)
    ensures
        r == (a@ == b@),
{
    let r = a == b;
    proof {
        if r {
            assert(a@ =~= b@);
        } else {
            if a@ == b@ {
                assert(forall|i: int| 0 <= i < a@.len() ==> a@[i] == b@[i]);
                assert(false);
            }
        }
    }
    r
}

/// Appends to the ledger the instruction that pays `amount` out of the
/// game's custody to the account `to`.
fn send_profit(ledger: &mut Vec<Transfer>, to: Vec<u8>, amount: i128)
    ensures
        final(ledger).deep_view() == old(ledger).deep_view() + seq![
            payout_view(to@, amount as int),
        ],
{
    let ghost to_bytes = to@;
    ledger.push(Transfer { from: Party::Custody, to: Party::Account(to), amount });
    proof {
        assert(ledger.deep_view() =~= old(ledger).deep_view() + seq![
            payout_view(to_bytes, amount as int),
        ]);
    }
}

impl RockPaperScissorsContract {
    /// A fresh store holding no game at all.
    pub fn new() -> (r: Self)
        ensures
            r@ == empty_game(),
            r@.wf(),
    {
        RockPaperScissorsContract {
            started: false,
            token: None,
            bet_amount: None,
            ts_limit: None,
            bet_start: None,
            player_one: None,
            player_two: None,
        }
    }

    /// Whether the store holds a value under `key`.
    pub fn has(&self, key: &DataKey) -> (r: bool)
        ensures
            r == key_present(self@, *key),
    {
        match key {
            DataKey::BetStart => self.bet_start.is_some(),
            DataKey::TsLimit => self.ts_limit.is_some(),
            DataKey::Started => self.started,
            DataKey::Token => self.token.is_some(),
            DataKey::BetAmount => self.bet_amount.is_some(),
            DataKey::Player(Player::One) => self.player_one.is_some(),
            DataKey::Player(Player::Two) => self.player_two.is_some(),
        }
    }

    /// Whether a player has committed into the slot of `player`.
    pub fn check_player(&self, player: Player) -> (r: bool)
        ensures
            r == slot_occupied(self@, player),
    {
        self.has(&DataKey::Player(player))
    }

    /// Whether the slot of `player` is occupied and revealed.
    pub fn check_revealed(&self, player: Player) -> (r: bool)
        ensures
            r == slot_revealed(self@, player),
    {
        let po = match player {
            Player::One => &self.player_one,
            Player::Two => &self.player_two,
        };
        match po {
            Some(p) => !matches!(p.move_pre, Move::Unrevealed),
            None => false,
        }
    }

    /// Whether the game has been configured.
    pub fn game_started(&self) -> (r: bool)
        ensures
            r == self@.started,
    {
        self.started
    }

    /// The commitment record of `player`, or the slot-missing error.
    pub fn get_move(&self, player: Player) -> (r: Result<PlayerObj, Error>)
        ensures
            match r {
                Ok(po) => slot(self@, player) == Some(po@),
                Err(e) => slot(self@, player) is None && e == Error::InvalidOp,
            },
    {
        let po = match player {
            Player::One => &self.player_one,
            Player::Two => &self.player_two,
        };
        match po {
            Some(p) => Ok(p.clone()),
            None => Err(Error::InvalidOp),
        }
    }

    /// The configured asset identifier, or the not-started error.
    pub fn get_token(&self) -> (r: Result<Vec<u8>, Error>)
        ensures
            match r {
                Ok(t) => self@.token == Some(t@),
                Err(e) => self@.token is None && e == Error::GameNotStarted,
            },
    {
        match &self.token {
            Some(t) => Ok(clone_bytes(t)),
            None => Err(Error::GameNotStarted),
        }
    }

    /// The configured wager, or the not-started error.
    pub fn get_bet(&self) -> (r: Result<i128, Error>)
        ensures
            match r {
                Ok(b) => self@.bet_amount == Some(b as int),
                Err(e) => self@.bet_amount is None && e == Error::GameNotStarted,
            },
    {
        match self.bet_amount {
            Some(b) => Ok(b),
            None => Err(Error::GameNotStarted),
        }
    }

    /// The configured timeout duration, or the not-started error.
    pub fn get_ts_limit(&self) -> (r: Result<TimeStamp, Error>)
        ensures
            match r {
                Ok(t) => self@.ts_limit == Some(t.0 as int),
                Err(e) => self@.ts_limit is None && e == Error::GameNotStarted,
            },
    {
        match self.ts_limit {
            Some(t) => Ok(t),
            None => Err(Error::GameNotStarted),
        }
    }

    /// The time the second player committed, or the not-started error.
    pub fn get_bet_start(&self) -> (r: Result<TimeStamp, Error>)
        ensures
            match r {
                Ok(t) => self@.bet_start == Some(t.0 as int),
                Err(e) => self@.bet_start is None && e == Error::GameNotStarted,
            },
    {
        match self.bet_start {
            Some(t) => Ok(t),
            None => Err(Error::GameNotStarted),
        }
    }

    /// Appends to the ledger the instruction that stakes the configured
    /// wager: it moves from the account `from` into the game's custody.
    fn place_bet(&self, ledger: &mut Vec<Transfer>, from: Vec<u8>)
        requires
            self@.bet_amount is Some,
        ensures
            final(ledger).deep_view() == old(ledger).deep_view() + seq![
                stake_view(from@, wager(self@)),
            ],
    {
        let amount: i128 = match self.bet_amount {
            Some(b) => b,
            None => {
                proof {
                    assert(false);
                }
                0
            },
        };
        let ghost from_bytes = from@;
        ledger.push(Transfer { from: Party::Account(from), to: Party::Custody, amount });
        proof {
            assert(ledger.deep_view() =~= old(ledger).deep_view() + seq![
                stake_view(from_bytes, wager(self@)),
            ]);
        }
    }

    /// Configures the game: the staked asset, the wager each player must
    /// escrow, and the timeout duration for cancellation. Fails if the game
    /// was already initialized, and moves no funds either way.
    pub fn initialize(&mut self, token: Vec<u8>, bet_amount: i128, ts_diff: TimeStamp) -> (r:
        Result<(), Error>)
        requires
            old(self)@.wf(),
            0 <= bet_amount,
            bet_amount <= i128::MAX / 2,
        ensures
            final(self)@.wf(),
            ({
                let (g2, res) = spec_initialize(
                    old(self)@,
                    token@,
                    bet_amount as int,
                    ts_diff.0 as int,
                );
                &&& final(self)@ == g2
                &&& r == res
            }),
    {
        if !self.game_started() {
            self.started = true;
            self.token = Some(token);
            self.bet_amount = Some(bet_amount);
            self.ts_limit = Some(ts_diff);
            Ok(())
        } else {
            Err(Error::AlreadyInitialized)
        }
    }

    /// Commits `user` to the digest `user_move`: the first commit fills slot
    /// one, the second fills slot two and starts the cancellation timer at
    /// `now`, a third is rejected with `MaxPlayersHit`. A successful commit
    /// stakes the wager. The caller must have authenticated `user`.
    pub fn make_move(
        &mut self,
        ledger: &mut Vec<Transfer>,
        user: Vec<u8>,
        user_move: Vec<u8>,
        now: TimeStamp,
    ) -> (r: Result<(), Error>)
        requires
            old(self)@.wf(),
            user_move@.len() == 32,
        ensures
            final(self)@.wf(),
            ({
                let (g2, res, ts) = spec_make_move(old(self)@, user@, user_move@, now.0 as int);
                &&& final(self)@ == g2
                &&& r == res
                &&& final(ledger).deep_view() == old(ledger).deep_view() + ts
            }),
    {
        if !self.game_started() {
            proof {
                assert(ledger.deep_view() =~= ledger.deep_view() + Seq::<TransferView>::empty());
            }
            return Err(Error::GameNotStarted);
        }
        let player_obj = PlayerObj::new(clone_bytes(&user), user_move);
        if !self.check_player(Player::One) {
            self.player_one = Some(player_obj);
            self.place_bet(ledger, user);
            Ok(())
        } else if !self.check_player(Player::Two) {
            self.player_two = Some(player_obj);
            self.place_bet(ledger, user);
            self.bet_start = Some(now);
            Ok(())
        } else {
            proof {
                assert(ledger.deep_view() =~= ledger.deep_view() + Seq::<TransferView>::empty());
            }
            Err(Error::MaxPlayersHit)
        }
    }

    /// Reveals the move of `player`: recomputes the commitment digest of the
    /// slot's stored identity, the claimed move and the secret, and accepts
    /// exactly when it matches the committed digest. Needs no caller
    /// authentication — knowledge of the secret is the credential.
    pub fn reveal_move(&mut self, player: Player, user_move: Move, secret: Vec<u8>) -> (r: Result<
        Move,
        Error,
    >)
        requires
            old(self)@.wf(),
            user_move != Move::Unrevealed,
        ensures
            final(self)@.wf(),
            ({
                let (g2, res) = spec_reveal(old(self)@, player, user_move, secret@);
                &&& final(self)@ == g2
                &&& r == res
            }),
    {
        let player_obj = match self.get_move(player) {
            Ok(p) => p,
            Err(e) => {
                return Err(e);
            },
        };
        let rhs_hash = commitment(&player_obj.id, user_move, &secret);
        if !bytes_eq(&player_obj.user_move, &rhs_hash) {
            return Err(Error::InvalidReveal);
        }
        let updated = PlayerObj {
            id: player_obj.id,
            user_move: player_obj.user_move,
            move_pre: user_move,
        };
        match player {
            Player::One => {
                self.player_one = Some(updated);
            },
            Player::Two => {
                self.player_two = Some(updated);
            },
        }
        Ok(user_move)
    }

    /// Resolves a game both of whose players have revealed: the winner under
    /// the cyclic rule is paid the doubled wager out of custody, or each
    /// player gets the wager back on a draw, and both slots are removed.
    /// Before both reveals it fails with `NotRevealed` and changes nothing.
    pub fn evaluate(&mut self, ledger: &mut Vec<Transfer>) -> (r: Result<GameResult, Error>)
        requires
            old(self)@.wf(),
        ensures
            final(self)@.wf(),
            ({
                let (g2, res, ts) = spec_evaluate(old(self)@);
                &&& final(self)@ == g2
                &&& r == res
                &&& final(ledger).deep_view() == old(ledger).deep_view() + ts
            }),
    {
        if !self.check_revealed(Player::One) || !self.check_revealed(Player::Two) {
            proof {
                assert(ledger.deep_view() =~= ledger.deep_view() + Seq::<TransferView>::empty());
            }
            return Err(Error::NotRevealed);
        }
        let p1_obj = match self.get_move(Player::One) {
            Ok(p) => p,
            Err(_) => {
                proof {
                    assert(false);
                }
                return Err(Error::InvalidOp);
            },
        };
        let p2_obj = match self.get_move(Player::Two) {
            Ok(p) => p,
            Err(_) => {
                proof {
                    assert(false);
                }
                return Err(Error::InvalidOp);
            },
        };
        let w: i128 = match self.bet_amount {
            Some(b) => b,
            None => {
                proof {
                    assert(false);
                }
                0
            },
        };
        if (p1_obj.move_pre.repr() + 1) % 3 == p2_obj.move_pre.repr() {
            send_profit(ledger, p2_obj.id, 2 * w);
            self.player_one = None;
            self.player_two = None;
            Ok(GameResult::Winner(Player::Two))
        } else if p1_obj.move_pre.repr() == p2_obj.move_pre.repr() {
            let ghost mid = ledger.deep_view();
            send_profit(ledger, p1_obj.id, w);
            send_profit(ledger, p2_obj.id, w);
            self.player_one = None;
            self.player_two = None;
            proof {
                assert(ledger.deep_view() =~= old(ledger).deep_view() + spec_evaluate(
                    old(self)@,
                ).2);
            }
            Ok(GameResult::Draw)
        } else {
            send_profit(ledger, p1_obj.id, 2 * w);
            self.player_one = None;
            self.player_two = None;
            Ok(GameResult::Winner(Player::One))
        }
    }

    /// Cancels a timed-out game in the revealer's favour: once the grace
    /// period has elapsed since the second commit and exactly one slot has
    /// revealed, that slot's player is paid the doubled wager out of custody
    /// and both slots are removed. In every other case nothing changes.
    pub fn cancel(&mut self, ledger: &mut Vec<Transfer>, now: TimeStamp) -> (r: Result<(), Error>)
        requires
            old(self)@.wf(),
        ensures
            final(self)@.wf(),
            ({
                let (g2, res, ts) = spec_cancel(old(self)@, now.0 as int);
                &&& final(self)@ == g2
                &&& r == res
                &&& final(ledger).deep_view() == old(ledger).deep_view() + ts
            }),
    {
        let ts_limit = match self.get_ts_limit() {
            Ok(t) => t,
            Err(e) => {
                proof {
                    assert(ledger.deep_view() =~= ledger.deep_view() + Seq::<
                        TransferView,
                    >::empty());
                }
                return Err(e);
            },
        };
        let bet_start = match self.get_bet_start() {
            Ok(t) => t,
            Err(e) => {
                proof {
                    assert(ledger.deep_view() =~= ledger.deep_view() + Seq::<
                        TransferView,
                    >::empty());
                }
                return Err(e);
            },
        };
        if !(now.0 >= ts_limit.0 && now.0 - ts_limit.0 >= bet_start.0) {
            proof {
                assert(ledger.deep_view() =~= ledger.deep_view() + Seq::<TransferView>::empty());
            }
            return Err(Error::LimitNotReached);
        }
        let one_revealed = self.check_revealed(Player::One);
        let two_revealed = self.check_revealed(Player::Two);
        let p_obj: PlayerObj;
        if !one_revealed && two_revealed {
            p_obj = match self.get_move(Player::Two) {
                Ok(p) => p,
                Err(_) => {
                    proof {
                        assert(false);
                    }
                    return Err(Error::InvalidOp);
                },
            };
        } else if one_revealed && !two_revealed {
            p_obj = match self.get_move(Player::One) {
                Ok(p) => p,
                Err(_) => {
                    proof {
                        assert(false);
                    }
                    return Err(Error::InvalidOp);
                },
            };
        } else {
            proof {
                assert(ledger.deep_view() =~= ledger.deep_view() + Seq::<TransferView>::empty());
            }
            return Err(Error::LimitNotReached);
        }
        let w: i128 = match self.bet_amount {
            Some(b) => b,
            None => {
                proof {
                    assert(false);
                }
                0
            },
        };
        send_profit(ledger, p_obj.id, 2 * w);
        self.player_one = None;
        self.player_two = None;
        Ok(())
    }
}

} // verus!
