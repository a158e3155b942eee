//! The protocol's laws, proved over the transition system: when a reveal is
//! accepted, when evaluation and cancellation are reachable, the symmetry of
//! the outcome rule, and conservation of the escrowed funds.

use vstd::prelude::*;

use crate::game::{
    beats, both_revealed, exactly_one_revealed, outcome, payout_view, slot, slot_revealed,
    spec_cancel, spec_evaluate, spec_make_move, spec_reveal, timeout_reached, wager, with_slot,
    GameView,
};
use crate::hash::commitment_digest;
use crate::types::{Error, GameResult, Move, PartyView, Player, PlayerView, TransferView};

verus! {

/// The sum of the amounts of a sequence of transfer instructions.
pub open spec fn sum_amounts(ts: Seq<TransferView>) -> int
    decreases ts.len(),
{
    if ts.len() == 0 {
        0
    } else {
        sum_amounts(ts.drop_last()) + ts.last().amount
    }
}

proof fn lemma_sum_singleton(t: TransferView)
    ensures
        sum_amounts(seq![t]) == t.amount,
{
    assert(seq![t].drop_last() =~= Seq::<TransferView>::empty());
    assert(sum_amounts(Seq::<TransferView>::empty()) == 0);
    assert(seq![t].last() == t);
}

proof fn lemma_sum_pair(t1: TransferView, t2: TransferView)
    ensures
        sum_amounts(seq![t1, t2]) == t1.amount + t2.amount,
{
    assert(seq![t1, t2].drop_last() =~= seq![t1]);
    lemma_sum_singleton(t1);
}

/// Law: a reveal succeeds exactly when the committed digest equals the
/// commitment digest of the slot's stored identity, the claimed move and the
/// offered secret. On success the move — and nothing else — is recorded; on
/// a missing slot the slot-missing error comes back, on a digest mismatch
/// the invalid-reveal error, and in both failure cases the store is
/// unchanged.
pub proof fn lemma_reveal_iff_matching_digest(g: GameView, p: Player, m: Move, secret: Seq<u8>)
    ensures
        ({
            let (g2, r) = spec_reveal(g, p, m, secret);
            &&& (r is Ok) <==> (slot(g, p) matches Some(po) && po.user_move == commitment_digest(
                po.id,
                m,
                secret,
            ))
            &&& r is Ok ==> r == Ok::<Move, Error>(m) && g2 == with_slot(
                g,
                p,
                Some(PlayerView { move_pre: m, ..slot(g, p)->Some_0 }),
            )
            &&& slot(g, p) is None ==> r == Err::<Move, Error>(Error::InvalidOp)
            &&& (slot(g, p) matches Some(po) && po.user_move != commitment_digest(po.id, m, secret))
                ==> r == Err::<Move, Error>(Error::InvalidReveal)
            &&& r is Err ==> g2 == g
        }),
{
}

/// Law: evaluation is reachable exactly when both slots have revealed;
/// called earlier it yields `NotRevealed`, whatever the slots hold, and
/// changes nothing and moves no funds.
pub proof fn lemma_evaluate_only_after_reveals(g: GameView)
    ensures
        ({
            let (g2, r, ts) = spec_evaluate(g);
            &&& (r is Ok) <==> both_revealed(g)
            &&& !both_revealed(g) ==> r == Err::<GameResult, Error>(Error::NotRevealed) && g2 == g
                && ts == Seq::<TransferView>::empty()
        }),
{
}

/// Law: equal moves always draw, and for any two distinct moves exactly one
/// of the two players wins — the one whose move beats the other's under the
/// cyclic rule.
pub proof fn lemma_outcome_symmetry(a: Move, b: Move)
    requires
        a != Move::Unrevealed,
        b != Move::Unrevealed,
    ensures
        (outcome(a, b) == GameResult::Draw) <==> (a == b),
        a != b ==> ((outcome(a, b) == GameResult::Winner(Player::One)) <==> beats(a, b)),
        a != b ==> ((outcome(a, b) == GameResult::Winner(Player::Two)) <==> beats(b, a)),
        a != b ==> (beats(a, b) <==> !beats(b, a)),
{
}

/// Law: a successful evaluation pays exactly twice the wager out of custody
/// — wholly to the winner on a decisive outcome, and split evenly between
/// the two players on a draw. Every instructed transfer draws on custody.
pub proof fn lemma_evaluate_fund_conservation(g: GameView)
    requires
        g.wf(),
        both_revealed(g),
    ensures
        ({
            let (g2, r, ts) = spec_evaluate(g);
            &&& sum_amounts(ts) == 2 * wager(g)
            &&& forall|i: int| 0 <= i < ts.len() ==> (#[trigger] ts[i]).from is Custody
            &&& r == Ok::<GameResult, Error>(GameResult::Draw) ==> ts.len() == 2 && ts[0].amount
                == wager(g) && ts[1].amount == wager(g)
            &&& (r == Ok::<GameResult, Error>(GameResult::Winner(Player::One)) || r == Ok::<
                GameResult,
                Error,
            >(GameResult::Winner(Player::Two))) ==> ts.len() == 1 && ts[0].amount == 2 * wager(g)
        }),
{
    let (g2, r, ts) = spec_evaluate(g);
    let p1 = g.player_one->Some_0;
    let p2 = g.player_two->Some_0;
    let w = wager(g);
    match outcome(p1.move_pre, p2.move_pre) {
        GameResult::Draw => {
            lemma_sum_pair(payout_view(p1.id, w), payout_view(p2.id, w));
        },
        GameResult::Winner(Player::Two) => {
            lemma_sum_singleton(payout_view(p2.id, 2 * w));
        },
        GameResult::Winner(Player::One) => {
            lemma_sum_singleton(payout_view(p1.id, 2 * w));
        },
    }
}

/// The identity that a successful cancellation pays: the one slot that did
/// reveal.
pub open spec fn revealer_id(g: GameView) -> Seq<u8>
    recommends
        exactly_one_revealed(g),
{
    if slot_revealed(g, Player::One) {
        g.player_one->Some_0.id
    } else {
        g.player_two->Some_0.id
    }
}

/// Law: cancellation succeeds exactly when the game is configured, the
/// timer is anchored, the grace period has elapsed and exactly one slot has
/// revealed; before the timeout, with both slots revealed, or with neither,
/// it fails with `LimitNotReached` and changes nothing. On success both
/// slots are removed and the one revealer is paid exactly twice the wager
/// out of custody.
pub proof fn lemma_cancel_conditions(g: GameView, now: int)
    requires
        g.wf(),
    ensures
        ({
            let (g2, r, ts) = spec_cancel(g, now);
            &&& (r is Ok) <==> (g.ts_limit is Some && g.bet_start is Some && timeout_reached(
                g,
                now,
            ) && exactly_one_revealed(g))
            &&& !(r is Ok) ==> g2 == g && ts == Seq::<TransferView>::empty()
            &&& (g.ts_limit is Some && g.bet_start is Some && !(r is Ok)) ==> r == Err::<
                (),
                Error,
            >(Error::LimitNotReached)
            &&& r is Ok ==> g2 == (GameView { player_one: None, player_two: None, ..g }) && ts
                == seq![payout_view(revealer_id(g), 2 * wager(g))] && sum_amounts(ts) == 2 * wager(
                g,
            )
        }),
{
    let (g2, r, ts) = spec_cancel(g, now);
    if r is Ok {
        lemma_sum_singleton(payout_view(revealer_id(g), 2 * wager(g)));
    }
}

/// Law: a commit while both slots are occupied is rejected with
/// `MaxPlayersHit`, changes nothing and moves no funds.
pub proof fn lemma_third_commit_rejected(g: GameView, user: Seq<u8>, digest: Seq<u8>, now: int)
    requires
        g.wf(),
        g.player_one is Some,
        g.player_two is Some,
    ensures
        spec_make_move(g, user, digest, now) == (
            g,
            Err::<(), Error>(Error::MaxPlayersHit),
            Seq::<TransferView>::empty(),
        ),
{
}

} // verus!
