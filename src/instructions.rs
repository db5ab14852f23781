use vstd::prelude::*;

use crate::error::SErrors;
use crate::game::{
    commit_by, commitment_of, forfeit_step, index_of, initial_state, reveal_by, reveal_error,
    reveal_step, Game, PlayerKey,
};

verus! {

/// Opens a match between `player_one` and `player_two`, with `wait_for` as
/// the grace period that a first reveal starts.
pub fn new_game(player_one: PlayerKey, player_two: PlayerKey, wait_for: u64) -> (g: Game)
    requires
        player_one@ != player_two@,
    ensures
        g@ == initial_state(player_one@, player_two@, wait_for),
{
    Game::new([player_one, player_two], wait_for)
}

/// The player `player` commits to `hashed_hand`.
pub fn place_hash(game: &mut Game, player: PlayerKey, hashed_hand: [u8; 32]) -> (r: Result<
    (),
    SErrors,
>)
    ensures
        (final(game)@, r) == commit_by(old(game)@, player@, hashed_hand@),
{
    let indx = match game.get_player_index(player) {
        Ok(i) => i,
        Err(e) => {
            return Err(e);
        },
    };
    game.place_hash(hashed_hand, indx)
}

/// The player `player` reveals `hand_string`; where this is the first reveal
/// the host's clock starts the deadline, and where it cannot be read the
/// reveal is refused with `ClockUnavailable`.
pub fn place_hand(game: &mut Game, player: PlayerKey, hand_string: String) -> (r: Result<
    (),
    SErrors,
>)
    ensures
        r == Err::<(), SErrors>(SErrors::ClockUnavailable) ==> {
            &&& final(game)@ == old(game)@
            &&& index_of(old(game)@, player@) matches Some(i) && !old(game)@.seat(1 - i).revealed
                && reveal_error(old(game)@, i, hand_string@, commitment_of(hand_string@)) is None
        },
        r != Err::<(), SErrors>(SErrors::ClockUnavailable) ==> exists|now: u64|
            (final(game)@, r) == #[trigger] reveal_by(
                old(game)@,
                player@,
                hand_string@,
                commitment_of(hand_string@),
                now,
            ),
{
    let indx = match game.get_player_index(player) {
        Ok(i) => i,
        Err(e) => {
            assert((game@, Err::<(), SErrors>(e)) == reveal_by(
                game@,
                player@,
                hand_string@,
                commitment_of(hand_string@),
                0,
            ));
            return Err(e);
        },
    };
    let ghost text = hand_string@;
    let r = game.place_hand(hand_string, indx);
    proof {
        if r != Err::<(), SErrors>(SErrors::ClockUnavailable) {
            let now = choose|now: u64|
                (game@, r) == #[trigger] reveal_step(
                    old(game)@,
                    indx as int,
                    text,
                    commitment_of(text),
                    now,
                );
            assert((game@, r) == reveal_by(old(game)@, player@, text, commitment_of(text), now));
        }
    }
    r
}

/// The player `player` claims the match because the other one has not
/// revealed in time; where the host's clock cannot be read the claim is
/// refused with `ClockUnavailable`.
pub fn forfeit(game: &mut Game, player: PlayerKey) -> (r: Result<(), SErrors>)
    ensures
        old(game)@.deadline == 0 ==> final(game)@ == old(game)@ && r == Err::<(), SErrors>(
            SErrors::DeadlineNotSet,
        ),
        r == Err::<(), SErrors>(SErrors::ClockUnavailable) ==> final(game)@ == old(game)@,
        r != Err::<(), SErrors>(SErrors::ClockUnavailable) ==> exists|now: u64|
            (final(game)@, r) == #[trigger] forfeit_step(old(game)@, player@, now),
{
    game.forfeit(player)
}

} // verus!
