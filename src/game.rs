use vstd::prelude::*;

use crate::error::SErrors;
use vstd::std_specs::iter::IteratorSpec;

use crate::hand::{decide, hand_of_symbol, outcome, Hand, HandResult};
use crate::solana::{sha256, sha256_of, unix_timestamp_now};

verus! {

broadcast use vstd::string::group_string_axioms;

/// A player's identity: the 32 bytes of its public key.
#[derive(Debug, Clone, Copy)]
pub struct PlayerKey {
    pub bytes: [u8; 32],
}

impl View for PlayerKey {
    type V = Seq<u8>;

    open spec fn view(&self) -> Seq<u8> {
        self.bytes@
    }
}

impl PlayerKey {
    pub fn new(bytes: [u8; 32]) -> (r: PlayerKey)
        ensures
            r@ == bytes@,
    {
        PlayerKey { bytes }
    }
}

/// Compares two 32-byte values byte by byte.
pub fn same_bytes(a: &[u8; 32], b: &[u8; 32]) -> (r: bool)
    ensures
        r == (a@ == b@),
{
    let mut i: usize = 0;
    while i < 32
        invariant
            0 <= i <= 32,
            a@.len() == 32,
            b@.len() == 32,
            forall|j: int| 0 <= j < i ==> a@[j] == b@[j],
        decreases 32 - i,
    {
        if a[i] != b[i] {
            assert(a@[i as int] != b@[i as int]);
            return false;
        }
        i += 1;
    }
    assert(a@ =~= b@);
    true
}

/// The result of a match.
#[derive(Debug, Clone, Copy, PartialEq, Eq, Structural)]
pub enum Winner {
    Unresolved,
    PlayerZero,
    PlayerOne,
    Draw,
}

/// What the match records of one player.
pub ghost struct SeatView {
    pub key: Seq<u8>,
    pub commitment: Seq<u8>,
    pub committed: bool,
    pub hand: Hand,
    pub revealed: bool,
}

/// The state of a match: the two seats, the result, the reveal deadline
/// (`0` while none runs) and the grace period that a first reveal starts.
pub ghost struct GameView {
    pub seat0: SeatView,
    pub seat1: SeatView,
    pub winner: Winner,
    pub deadline: u64,
    pub wait: u64,
}

impl GameView {
    pub open spec fn seat(self, i: int) -> SeatView {
        if i == 0 {
            self.seat0
        } else {
            self.seat1
        }
    }

    pub open spec fn with_seat(self, i: int, s: SeatView) -> GameView {
        if i == 0 {
            GameView { seat0: s, ..self }
        } else {
            GameView { seat1: s, ..self }
        }
    }

    /// The two players are different.
    pub open spec fn wf(self) -> bool {
        self.seat0.key != self.seat1.key
    }
}

/// The seat of the player with identity `key`, if any.
pub open spec fn index_of(s: GameView, key: Seq<u8>) -> Option<int> {
    if key == s.seat0.key {
        Some(0)
    } else if key == s.seat1.key {
        Some(1)
    } else {
        None
    }
}

/// The match result for a game decided from player zero's side.
pub open spec fn winner_of(r: HandResult) -> Winner {
    match r {
        HandResult::Win => Winner::PlayerZero,
        HandResult::Lose => Winner::PlayerOne,
        HandResult::Draw => Winner::Draw,
    }
}

/// The match result that gives the match to seat `i`.
pub open spec fn winner_for(i: int) -> Winner {
    if i == 0 {
        Winner::PlayerZero
    } else {
        Winner::PlayerOne
    }
}

/// The deadline that a first reveal at `now` starts: `now + wait`, held at
/// the largest time where the sum would not fit, and at least `1`, since `0`
/// stands for a deadline that has not started.
pub open spec fn deadline_after(now: u64, wait: u64) -> u64 {
    if now + wait == 0 {
        1
    } else if now + wait <= u64::MAX {
        (now + wait) as u64
    } else {
        u64::MAX
    }
}

/// The commitment that binds a text: the SHA-256 digest of its UTF-8 bytes.
pub open spec fn commitment_of(text: Seq<char>) -> Seq<u8> {
    sha256_of(vstd::utf8::encode_utf8(text))
}

/// `c` is white space in the sense of Unicode's `White_Space` property, the
/// one that `char::is_whitespace` documents.
pub open spec fn is_white_space(c: char) -> bool {
    ||| '\u{9}' <= c <= '\u{d}'
    ||| c == ' '
    ||| c == '\u{85}'
    ||| c == '\u{a0}'
    ||| c == '\u{1680}'
    ||| '\u{2000}' <= c <= '\u{200a}'
    ||| c == '\u{2028}'
    ||| c == '\u{2029}'
    ||| c == '\u{202f}'
    ||| c == '\u{205f}'
    ||| c == '\u{3000}'
}

/// The symbol of a revealed text: the first character of its first
/// whitespace-delimited word, that is its first character that is not white
/// space. A text of white space alone has none.
pub open spec fn first_symbol(text: Seq<char>) -> Option<char>
    decreases text.len(),
{
    if text.len() == 0 {
        None
    } else if is_white_space(text[0]) {
        first_symbol(text.drop_first())
    } else {
        Some(text[0])
    }
}

/// The hand named by a revealed text: the hand of its symbol, if it has one
/// and it is one of `0` to `4`. What follows the symbol (the salt) is not read.
pub open spec fn hand_of_text(text: Seq<char>) -> Option<Hand> {
    match first_symbol(text) {
        Some(c) => hand_of_symbol(c),
        None => None,
    }
}

/// Whether `c` is white space.
pub fn is_white_space_char(c: char) -> (r: bool)
    ensures
        r == is_white_space(c),
{
    ('\u{9}' <= c && c <= '\u{d}') || c == ' ' || c == '\u{85}' || c == '\u{a0}' || c
        == '\u{1680}' || ('\u{2000}' <= c && c <= '\u{200a}') || c == '\u{2028}' || c
        == '\u{2029}' || c == '\u{202f}' || c == '\u{205f}' || c == '\u{3000}'
}

/// Reads the hand that a revealed text names.
pub fn hand_in_text(text: &str) -> (r: Option<Hand>)
    ensures
        r == hand_of_text(text@),
{
    let mut chars = text.chars();
    let ghost k: int = 0;
    loop
        invariant
            0 <= k <= text@.len(),
            chars.remaining() == text@.subrange(k, text@.len() as int),
            first_symbol(text@) == first_symbol(text@.subrange(k, text@.len() as int)),
        decreases text@.len() - k,
    {
        match chars.next() {
            None => {
                return None;
            },
            Some(c) => {
                if !is_white_space_char(c) {
                    return match Hand::new(c) {
                        Ok(h) => Some(h),
                        Err(_) => None,
                    };
                }
                proof {
                    assert(text@.subrange(k + 1, text@.len() as int) =~= text@.subrange(
                        k,
                        text@.len() as int,
                    ).drop_first());
                    k = k + 1;
                }
            },
        }
    }
}

/// The state of a new match.
pub open spec fn initial_state(p0: Seq<u8>, p1: Seq<u8>, wait: u64) -> GameView {
    let empty = SeatView {
        key: p0,
        commitment: Seq::new(32, |j: int| 0u8),
        committed: false,
        hand: Hand::Rock,
        revealed: false,
    };
    GameView {
        seat0: empty,
        seat1: SeatView { key: p1, ..empty },
        winner: Winner::Unresolved,
        deadline: 0,
        wait: wait,
    }
}

/// Seat `i` commits to `digest`, replacing any earlier commitment.
pub open spec fn commit_step(s: GameView, i: int, digest: Seq<u8>) -> (GameView, Result<(), SErrors>) {
    if s.winner != Winner::Unresolved {
        (s, Err(SErrors::MatchFinished))
    } else {
        (s.with_seat(i, SeatView { commitment: digest, committed: true, ..s.seat(i) }), Ok(()))
    }
}

/// Why seat `i` may not reveal `text`, whose digest is `digest`.
pub open spec fn reveal_error(s: GameView, i: int, text: Seq<char>, digest: Seq<u8>) -> Option<
    SErrors,
> {
    if s.winner != Winner::Unresolved {
        Some(SErrors::MatchFinished)
    } else if !s.seat(i).committed || digest != s.seat(i).commitment {
        Some(SErrors::CommitmentMismatch)
    } else if hand_of_text(text) is None {
        Some(SErrors::InvalidHandSymbol)
    } else {
        None
    }
}

/// Seat `i` shows hand `h` at time `now`: with both hands shown the match is
/// decided, else the reveal deadline starts.
pub open spec fn revealed_state(s: GameView, i: int, h: Hand, now: u64) -> GameView {
    let t = s.with_seat(i, SeatView { hand: h, revealed: true, ..s.seat(i) });
    if t.seat(1 - i).revealed {
        GameView { winner: winner_of(outcome(t.seat0.hand, t.seat1.hand)), ..t }
    } else {
        GameView { deadline: deadline_after(now, s.wait), ..t }
    }
}

/// Seat `i` reveals `text`, whose digest is `digest`, at time `now`.
pub open spec fn reveal_step(s: GameView, i: int, text: Seq<char>, digest: Seq<u8>, now: u64) -> (
    GameView,
    Result<(), SErrors>,
) {
    match reveal_error(s, i, text, digest) {
        Some(e) => (s, Err(e)),
        None => (revealed_state(s, i, hand_of_text(text)->0, now), Ok(())),
    }
}

/// The player `key` claims the match at time `now` because the other one
/// has not revealed in time.
pub open spec fn forfeit_step(s: GameView, key: Seq<u8>, now: u64) -> (GameView, Result<(), SErrors>) {
    if s.deadline == 0 {
        (s, Err(SErrors::DeadlineNotSet))
    } else if now < s.deadline {
        (s, Err(SErrors::DeadlineNotReached))
    } else {
        match index_of(s, key) {
            None => (s, Err(SErrors::UnknownPlayer)),
            Some(i) => if s.winner != Winner::Unresolved {
                (s, Err(SErrors::MatchFinished))
            } else if s.seat(i).revealed && !s.seat(1 - i).revealed {
                (GameView { winner: winner_for(i), ..s }, Ok(()))
            } else {
                (s, Err(SErrors::InvalidForfeiture))
            },
        }
    }
}

/// The player `key` commits to `digest`.
pub open spec fn commit_by(s: GameView, key: Seq<u8>, digest: Seq<u8>) -> (GameView, Result<(), SErrors>) {
    match index_of(s, key) {
        None => (s, Err(SErrors::UnknownPlayer)),
        Some(i) => commit_step(s, i, digest),
    }
}

/// The player `key` reveals `text`, whose digest is `digest`, at time `now`.
pub open spec fn reveal_by(s: GameView, key: Seq<u8>, text: Seq<char>, digest: Seq<u8>, now: u64) -> (
    GameView,
    Result<(), SErrors>,
) {
    match index_of(s, key) {
        None => (s, Err(SErrors::UnknownPlayer)),
        Some(i) => reveal_step(s, i, text, digest, now),
    }
}

/// Committing to the digest of a text and then revealing that text succeeds
/// and shows the hand that the text names; revealing a text with another
/// digest against that commitment is refused with `CommitmentMismatch`.
pub proof fn lemma_commit_then_reveal(
    s: GameView,
    key: Seq<u8>,
    text: Seq<char>,
    other: Seq<char>,
    now: u64,
)
    requires
        index_of(s, key) is Some,
        s.winner == Winner::Unresolved,
        hand_of_text(text) is Some,
    ensures
        ({
            let c = commit_by(s, key, commitment_of(text)).0;
            let i = index_of(s, key)->0;
            let after = reveal_by(c, key, text, commitment_of(text), now);
            &&& commit_by(s, key, commitment_of(text)).1 == Ok::<(), SErrors>(())
            &&& after.1 == Ok::<(), SErrors>(())
            &&& after.0.seat(i).revealed
            &&& after.0.seat(i).hand == hand_of_text(text)->0
            &&& commitment_of(other) != commitment_of(text) ==> reveal_by(
                c,
                key,
                other,
                commitment_of(other),
                now,
            ) == (c, Err::<(), SErrors>(SErrors::CommitmentMismatch))
        }),
{
}

/// A second commitment before the reveal replaces the first: a text that
/// only the first commitment binds is then refused with `CommitmentMismatch`.
pub proof fn lemma_recommit_replaces(
    s: GameView,
    key: Seq<u8>,
    first: Seq<u8>,
    second: Seq<u8>,
    text: Seq<char>,
    now: u64,
)
    requires
        index_of(s, key) is Some,
        s.winner == Winner::Unresolved,
        commitment_of(text) == first,
        first != second,
    ensures
        ({
            let c = commit_by(commit_by(s, key, first).0, key, second).0;
            &&& c.seat(index_of(s, key)->0).commitment == second
            &&& reveal_by(c, key, text, commitment_of(text), now) == (c, Err::<(), SErrors>(
                SErrors::CommitmentMismatch,
            ))
        }),
{
}

/// A new match has no deadline; a commitment or a refused reveal leaves the
/// deadline as it is, and an accepted reveal starts it only where the other
/// player has not revealed.
pub proof fn lemma_deadline_starts_with_one_reveal(
    p0: Seq<u8>,
    p1: Seq<u8>,
    wait: u64,
    s: GameView,
    key: Seq<u8>,
    digest: Seq<u8>,
    text: Seq<char>,
    now: u64,
)
    ensures
        initial_state(p0, p1, wait).deadline == 0,
        commit_by(s, key, digest).0.deadline == s.deadline,
        reveal_by(s, key, text, digest, now).1 is Err ==> reveal_by(s, key, text, digest, now).0
            == s,
        index_of(s, key) is Some && reveal_by(s, key, text, digest, now).1 is Ok ==> {
            let i = index_of(s, key)->0;
            &&& s.seat(1 - i).revealed ==> reveal_by(s, key, text, digest, now).0.deadline
                == s.deadline
            &&& !s.seat(1 - i).revealed ==> reveal_by(s, key, text, digest, now).0.deadline
                == deadline_after(now, s.wait)
        },
        deadline_after(now, s.wait) != 0,
        now + s.wait <= u64::MAX && now + s.wait != 0 ==> deadline_after(now, s.wait) == now
            + s.wait,
{
}

/// While one player has revealed and the other has not, the player who has
/// not revealed can never claim the match, and the one who has can claim it
/// exactly from the deadline on.
pub proof fn lemma_forfeit_after_deadline(s: GameView, i: int, now: u64)
    requires
        s.wf(),
        i == 0 || i == 1,
        s.deadline != 0,
        s.winner == Winner::Unresolved,
        s.seat(i).revealed,
        !s.seat(1 - i).revealed,
    ensures
        forfeit_step(s, s.seat(1 - i).key, now).1 is Err,
        forfeit_step(s, s.seat(1 - i).key, now).0 == s,
        now < s.deadline ==> forfeit_step(s, s.seat(i).key, now) == (s, Err::<(), SErrors>(
            SErrors::DeadlineNotReached,
        )),
        now >= s.deadline ==> forfeit_step(s, s.seat(i).key, now) == (
            GameView { winner: winner_for(i), ..s },
            Ok::<(), SErrors>(()),
        ),
{
}

/// Once the deadline has passed, a player who has not revealed cannot claim
/// the match: the claim is refused with `InvalidForfeiture`.
pub proof fn lemma_unrevealed_cannot_claim(s: GameView, i: int, now: u64)
    requires
        s.wf(),
        i == 0 || i == 1,
        s.deadline != 0,
        now >= s.deadline,
        s.winner == Winner::Unresolved,
        !s.seat(i).revealed,
    ensures
        forfeit_step(s, s.seat(i).key, now) == (s, Err::<(), SErrors>(SErrors::InvalidForfeiture)),
{
}

/// Once a match has a result, no commitment, reveal or claim changes it.
pub proof fn lemma_result_is_final(
    s: GameView,
    key: Seq<u8>,
    digest: Seq<u8>,
    text: Seq<char>,
    now: u64,
)
    requires
        s.winner != Winner::Unresolved,
    ensures
        commit_by(s, key, digest).0 == s,
        reveal_by(s, key, text, digest, now).0 == s,
        forfeit_step(s, key, now).0 == s,
{
}

struct Seat {
    key: PlayerKey,
    commitment: [u8; 32],
    committed: bool,
    hand: Hand,
    revealed: bool,
}

impl View for Seat {
    type V = SeatView;

    closed spec fn view(&self) -> SeatView {
        SeatView {
            key: self.key@,
            commitment: self.commitment@,
            committed: self.committed,
            hand: self.hand,
            revealed: self.revealed,
        }
    }
}

/// One match between two players.
///
/// A match that has a result, by resolution or by a claim, refuses every
/// further commitment, reveal and claim with `MatchFinished`, so its result
/// is never overwritten.
pub struct Game {
    seat0: Seat,
    seat1: Seat,
    winner: Winner,
    deadline: u64,
    submission_wait_time: u64,
}

impl View for Game {
    type V = GameView;

    closed spec fn view(&self) -> GameView {
        GameView {
            seat0: self.seat0@,
            seat1: self.seat1@,
            winner: self.winner,
            deadline: self.deadline,
            wait: self.submission_wait_time,
        }
    }
}

/// A clock reading as a time: a reading before the epoch counts as time `0`.
pub open spec fn time_of(t: i64) -> u64 {
    if t < 0 {
        0
    } else {
        t as u64
    }
}

fn to_time(t: i64) -> (r: u64)
    ensures
        r == time_of(t),
{
    if t < 0 {
        0
    } else {
        t as u64
    }
}

impl Game {
    /// Opens a match between two different players, with `wait_for` as the
    /// grace period that a first reveal starts.
    pub fn new(players: [PlayerKey; 2], wait_for: u64) -> (g: Game)
        requires
            players[0]@ != players[1]@,
        ensures
            g@ == initial_state(players[0]@, players[1]@, wait_for),
            g@.wf(),
    {
        let g = Game {
            seat0: Seat {
                key: players[0],
                commitment: [0u8; 32],
                committed: false,
                hand: Hand::Rock,
                revealed: false,
            },
            seat1: Seat {
                key: players[1],
                commitment: [0u8; 32],
                committed: false,
                hand: Hand::Rock,
                revealed: false,
            },
            winner: Winner::Unresolved,
            deadline: 0,
            submission_wait_time: wait_for,
        };
        assert(g@.seat0.commitment =~= Seq::new(32, |j: int| 0u8));
        assert(g@.seat1.commitment =~= Seq::new(32, |j: int| 0u8));
        g
    }

    /// The seat of `player`: `0` or `1`, or `UnknownPlayer` where it plays
    /// in neither.
    pub fn get_player_index(&self, player: PlayerKey) -> (r: Result<usize, SErrors>)
        ensures
            match index_of(self@, player@) {
                Some(i) => r == Ok::<usize, SErrors>(i as usize),
                None => r == Err::<usize, SErrors>(SErrors::UnknownPlayer),
            },
    {
        if same_bytes(&player.bytes, &self.seat0.key.bytes) {
            Ok(0)
        } else if same_bytes(&player.bytes, &self.seat1.key.bytes) {
            Ok(1)
        } else {
            Err(SErrors::UnknownPlayer)
        }
    }

    /// The outcome of the two shown hands, from player zero's side.
    pub fn pick_winner(&self) -> (r: HandResult)
        ensures
            r == outcome(self@.seat0.hand, self@.seat1.hand),
    {
        decide(self.seat0.hand, self.seat1.hand)
    }

    /// Seat `indx` commits to `hashed_hand`, replacing any earlier commitment.
    pub fn place_hash(&mut self, hashed_hand: [u8; 32], indx: usize) -> (r: Result<(), SErrors>)
        requires
            indx < 2,
        ensures
            (final(self)@, r) == commit_step(old(self)@, indx as int, hashed_hand@),
    {
        if self.winner != Winner::Unresolved {
            return Err(SErrors::MatchFinished);
        }
        if indx == 0 {
            self.seat0.commitment = hashed_hand;
            self.seat0.committed = true;
        } else {
            self.seat1.commitment = hashed_hand;
            self.seat1.committed = true;
        }
        Ok(())
    }

    /// Checks a reveal of `hand_string`, whose digest is `digest`, by seat
    /// `indx`, and reads its hand.
    fn check_reveal(&self, hand_string: &str, digest: &[u8; 32], indx: usize) -> (r: Result<
        Hand,
        SErrors,
    >)
        requires
            indx < 2,
        ensures
            match reveal_error(self@, indx as int, hand_string@, digest@) {
                Some(e) => r == Err::<Hand, SErrors>(e),
                None => r == Ok::<Hand, SErrors>(hand_of_text(hand_string@)->0),
            },
    {
        if self.winner != Winner::Unresolved {
            return Err(SErrors::MatchFinished);
        }
        let seat = if indx == 0 {
            &self.seat0
        } else {
            &self.seat1
        };
        if !seat.committed || !same_bytes(digest, &seat.commitment) {
            return Err(SErrors::CommitmentMismatch);
        }
        match hand_in_text(hand_string) {
            Some(h) => Ok(h),
            None => Err(SErrors::InvalidHandSymbol),
        }
    }

    /// Why seat `indx` may not reveal `hand_string`, whose digest is `digest`.
    pub fn reveal_error(&self, hand_string: &str, digest: &[u8; 32], indx: usize) -> (r: Option<
        SErrors,
    >)
        requires
            indx < 2,
        ensures
            r == reveal_error(self@, indx as int, hand_string@, digest@),
    {
        match self.check_reveal(hand_string, digest, indx) {
            Ok(_) => None,
            Err(e) => Some(e),
        }
    }

    /// Seat `indx` reveals `hand_string`, whose SHA-256 digest is `digest`,
    /// at time `now`.
    pub fn place_hand_at(&mut self, hand_string: &str, digest: [u8; 32], indx: usize, now: u64) -> (r:
        Result<(), SErrors>)
        requires
            indx < 2,
        ensures
            (final(self)@, r) == reveal_step(old(self)@, indx as int, hand_string@, digest@, now),
    {
        let hand = match self.check_reveal(hand_string, &digest, indx) {
            Ok(h) => h,
            Err(e) => {
                return Err(e);
            },
        };
        if indx == 0 {
            self.seat0.hand = hand;
            self.seat0.revealed = true;
        } else {
            self.seat1.hand = hand;
            self.seat1.revealed = true;
        }
        if self.seat0.revealed && self.seat1.revealed {
            self.winner = match self.pick_winner() {
                HandResult::Win => Winner::PlayerZero,
                HandResult::Lose => Winner::PlayerOne,
                HandResult::Draw => Winner::Draw,
            };
        } else {
            let d = now.saturating_add(self.submission_wait_time);
            self.deadline = if d == 0 {
                1
            } else {
                d
            };
        }
        Ok(())
    }

    /// Seat `indx` reveals `hand_string`. The host's clock is read where this
    /// is the first reveal and the text is accepted; where it cannot be read
    /// the reveal is refused with `ClockUnavailable`.
    pub fn place_hand(&mut self, hand_string: String, indx: usize) -> (r: Result<(), SErrors>)
        requires
            indx < 2,
        ensures
            r == Err::<(), SErrors>(SErrors::ClockUnavailable) ==> {
                &&& final(self)@ == old(self)@
                &&& !old(self)@.seat(1 - indx).revealed
                &&& reveal_error(
                    old(self)@,
                    indx as int,
                    hand_string@,
                    commitment_of(hand_string@),
                ) is None
            },
            r != Err::<(), SErrors>(SErrors::ClockUnavailable) ==> exists|now: u64|
                (final(self)@, r) == #[trigger] reveal_step(
                    old(self)@,
                    indx as int,
                    hand_string@,
                    commitment_of(hand_string@),
                    now,
                ),
    {
        let text = hand_string.as_str();
        let digest = sha256(text.as_bytes());
        let other_revealed = if indx == 0 {
            self.seat1.revealed
        } else {
            self.seat0.revealed
        };
        let mut now: u64 = 0;
        if !other_revealed {
            match self.reveal_error(text, &digest, indx) {
                Some(e) => {
                    assert((self@, Err::<(), SErrors>(e)) == reveal_step(
                        self@,
                        indx as int,
                        hand_string@,
                        commitment_of(hand_string@),
                        0,
                    ));
                    return Err(e);
                },
                None => {},
            }
            match unix_timestamp_now() {
                Some(t) => {
                    now = to_time(t);
                },
                None => {
                    return Err(SErrors::ClockUnavailable);
                },
            }
        }
        self.place_hand_at(text, digest, indx, now)
    }

    /// The player `forfeitor` claims the match at time `now`: it must have
    /// revealed, the other player must not have, and the deadline must have
    /// passed.
    pub fn forfeit_at(&mut self, forfeitor: PlayerKey, now: u64) -> (r: Result<(), SErrors>)
        ensures
            (final(self)@, r) == forfeit_step(old(self)@, forfeitor@, now),
    {
        if self.deadline == 0 {
            return Err(SErrors::DeadlineNotSet);
        }
        if now < self.deadline {
            return Err(SErrors::DeadlineNotReached);
        }
        let indx = match self.get_player_index(forfeitor) {
            Ok(i) => i,
            Err(e) => {
                return Err(e);
            },
        };
        if self.winner != Winner::Unresolved {
            return Err(SErrors::MatchFinished);
        }
        let (mine, theirs) = if indx == 0 {
            (self.seat0.revealed, self.seat1.revealed)
        } else {
            (self.seat1.revealed, self.seat0.revealed)
        };
        if mine && !theirs {
            self.winner = if indx == 0 {
                Winner::PlayerZero
            } else {
                Winner::PlayerOne
            };
            Ok(())
        } else {
            Err(SErrors::InvalidForfeiture)
        }
    }

    /// The player `forfeitor` claims the match at the host's time; where the
    /// clock cannot be read the claim is refused with `ClockUnavailable`.
    pub fn forfeit(&mut self, forfeitor: PlayerKey) -> (r: Result<(), SErrors>)
        ensures
            old(self)@.deadline == 0 ==> final(self)@ == old(self)@ && r == Err::<(), SErrors>(
                SErrors::DeadlineNotSet,
            ),
            r == Err::<(), SErrors>(SErrors::ClockUnavailable) ==> final(self)@ == old(self)@,
            r != Err::<(), SErrors>(SErrors::ClockUnavailable) ==> exists|now: u64|
                (final(self)@, r) == #[trigger] forfeit_step(old(self)@, forfeitor@, now),
    {
        if self.deadline == 0 {
            assert((self@, Err::<(), SErrors>(SErrors::DeadlineNotSet)) == forfeit_step(
                self@,
                forfeitor@,
                0,
            ));
            return Err(SErrors::DeadlineNotSet);
        }
        match unix_timestamp_now() {
            Some(t) => self.forfeit_at(forfeitor, to_time(t)),
            None => Err(SErrors::ClockUnavailable),
        }
    }

    /// Rebuilds a match from its recorded fields, seat by seat.
    pub fn from_parts(
        players: [PlayerKey; 2],
        hashed_hand: [[u8; 32]; 2],
        hash_submitted: [bool; 2],
        hand: [Hand; 2],
        hand_submitted: [bool; 2],
        winner: Winner,
        deadline: u64,
        submission_wait_time: u64,
    ) -> (g: Game)
        ensures
            g@.seat0 == (SeatView {
                key: players[0]@,
                commitment: hashed_hand[0]@,
                committed: hash_submitted[0],
                hand: hand[0],
                revealed: hand_submitted[0],
            }),
            g@.seat1 == (SeatView {
                key: players[1]@,
                commitment: hashed_hand[1]@,
                committed: hash_submitted[1],
                hand: hand[1],
                revealed: hand_submitted[1],
            }),
            g@.winner == winner,
            g@.deadline == deadline,
            g@.wait == submission_wait_time,
    {
        Game {
            seat0: Seat {
                key: players[0],
                commitment: hashed_hand[0],
                committed: hash_submitted[0],
                hand: hand[0],
                revealed: hand_submitted[0],
            },
            seat1: Seat {
                key: players[1],
                commitment: hashed_hand[1],
                committed: hash_submitted[1],
                hand: hand[1],
                revealed: hand_submitted[1],
            },
            winner,
            deadline,
            submission_wait_time,
        }
    }

    /// The two players, in seat order.
    pub fn players(&self) -> (r: [PlayerKey; 2])
        ensures
            r[0]@ == self@.seat0.key,
            r[1]@ == self@.seat1.key,
    {
        [self.seat0.key, self.seat1.key]
    }

    /// The result of the match so far.
    pub fn winner(&self) -> (r: Winner)
        ensures
            r == self@.winner,
    {
        self.winner
    }

    /// The reveal deadline, `0` while none runs.
    pub fn deadline(&self) -> (r: u64)
        ensures
            r == self@.deadline,
    {
        self.deadline
    }

    /// The grace period that a first reveal starts.
    pub fn submission_wait_time(&self) -> (r: u64)
        ensures
            r == self@.wait,
    {
        self.submission_wait_time
    }

    /// The commitment of seat `indx`, all zero until it commits.
    pub fn hashed_hand(&self, indx: usize) -> (r: [u8; 32])
        requires
            indx < 2,
        ensures
            r@ == self@.seat(indx as int).commitment,
    {
        if indx == 0 {
            self.seat0.commitment
        } else {
            self.seat1.commitment
        }
    }

    /// Whether seat `indx` has committed.
    pub fn hash_submitted(&self, indx: usize) -> (r: bool)
        requires
            indx < 2,
        ensures
            r == self@.seat(indx as int).committed,
    {
        if indx == 0 {
            self.seat0.committed
        } else {
            self.seat1.committed
        }
    }

    /// The hand of seat `indx`; it means something once the seat revealed.
    pub fn hand(&self, indx: usize) -> (r: Hand)
        requires
            indx < 2,
        ensures
            r == self@.seat(indx as int).hand,
    {
        if indx == 0 {
            self.seat0.hand
        } else {
            self.seat1.hand
        }
    }

    /// Whether seat `indx` has revealed.
    pub fn hand_submitted(&self, indx: usize) -> (r: bool)
        requires
            indx < 2,
        ensures
            r == self@.seat(indx as int).revealed,
    {
        if indx == 0 {
            self.seat0.revealed
        } else {
            self.seat1.revealed
        }
    }
}

} // verus!
