use anchor_lang::solana_program::hash::hash;
use rps_game::{
    forfeit, new_game, place_hand, place_hash, same_bytes, Game, Hand, HandResult, PlayerKey,
    SErrors, Winner,
};

fn alice() -> PlayerKey {
    PlayerKey::new([1u8; 32])
}

fn bob() -> PlayerKey {
    PlayerKey::new([2u8; 32])
}

fn carol() -> PlayerKey {
    PlayerKey::new([3u8; 32])
}

fn digest(text: &str) -> [u8; 32] {
    hash(text.as_bytes()).to_bytes()
}

fn fresh(wait: u64) -> Game {
    new_game(alice(), bob(), wait)
}

type Snapshot = ([[u8; 32]; 2], [bool; 2], [Hand; 2], [bool; 2], Winner, u64, u64);

fn snapshot(g: &Game) -> Snapshot {
    (
        [g.hashed_hand(0), g.hashed_hand(1)],
        [g.hash_submitted(0), g.hash_submitted(1)],
        [g.hand(0), g.hand(1)],
        [g.hand_submitted(0), g.hand_submitted(1)],
        g.winner(),
        g.deadline(),
        g.submission_wait_time(),
    )
}

#[test]
fn new_match_is_blank() {
    let g = fresh(30);
    let players = g.players();
    assert_eq!(players[0].bytes, [1u8; 32]);
    assert_eq!(players[1].bytes, [2u8; 32]);
    assert_eq!(
        snapshot(&g),
        (
            [[0u8; 32], [0u8; 32]],
            [false, false],
            [Hand::Rock, Hand::Rock],
            [false, false],
            Winner::Unresolved,
            0,
            30
        )
    );
}

#[test]
fn player_index_by_identity() {
    let g = fresh(30);
    assert_eq!(g.get_player_index(alice()), Ok(0));
    assert_eq!(g.get_player_index(bob()), Ok(1));
    assert_eq!(g.get_player_index(carol()), Err(SErrors::UnknownPlayer));
}

#[test]
fn same_bytes_compares_every_byte() {
    let a = [7u8; 32];
    let mut b = [7u8; 32];
    assert!(same_bytes(&a, &b));
    b[31] = 8;
    assert!(!same_bytes(&a, &b));
}

#[test]
fn rock_beats_scissors_after_both_reveals() {
    let mut g = fresh(100);
    assert_eq!(place_hash(&mut g, alice(), digest("0 saltA")), Ok(()));
    assert_eq!(place_hash(&mut g, bob(), digest("2 saltB")), Ok(()));
    assert_eq!(g.deadline(), 0);
    assert_eq!(g.place_hand_at("0 saltA", digest("0 saltA"), 0, 1_000), Ok(()));
    assert_eq!(g.hand(0), Hand::Rock);
    assert!(g.hand_submitted(0));
    assert_eq!(g.deadline(), 1_100);
    assert_eq!(g.winner(), Winner::Unresolved);
    assert_eq!(g.place_hand_at("2 saltB", digest("2 saltB"), 1, 1_050), Ok(()));
    assert_eq!(g.hand(1), Hand::Scissors);
    assert_eq!(g.pick_winner(), HandResult::Win);
    assert_eq!(g.winner(), Winner::PlayerZero);
    assert_eq!(g.deadline(), 1_100);
}

#[test]
fn second_reveal_hashes_the_text() {
    let mut g = fresh(100);
    place_hash(&mut g, alice(), digest("1 pepper")).unwrap();
    place_hash(&mut g, bob(), digest("4 salt and more")).unwrap();
    g.place_hand_at("1 pepper", digest("1 pepper"), 0, 5).unwrap();
    assert_eq!(
        place_hand(&mut g, bob(), "4 salt and less".to_string()),
        Err(SErrors::CommitmentMismatch)
    );
    assert_eq!(place_hand(&mut g, bob(), "4 salt and more".to_string()), Ok(()));
    assert_eq!(g.hand(1), Hand::Spock);
    assert_eq!(g.winner(), Winner::PlayerZero);
}

#[test]
fn player_one_can_win() {
    let mut g = fresh(10);
    place_hash(&mut g, alice(), digest("3 x")).unwrap();
    place_hash(&mut g, bob(), digest("2 y")).unwrap();
    g.place_hand_at("3 x", digest("3 x"), 0, 1).unwrap();
    g.place_hand_at("2 y", digest("2 y"), 1, 2).unwrap();
    assert_eq!(g.pick_winner(), HandResult::Lose);
    assert_eq!(g.winner(), Winner::PlayerOne);
}

#[test]
fn equal_hands_draw() {
    let mut g = fresh(10);
    place_hash(&mut g, alice(), digest("4 a")).unwrap();
    place_hash(&mut g, bob(), digest("4 b")).unwrap();
    g.place_hand_at("4 b", digest("4 b"), 1, 1).unwrap();
    g.place_hand_at("4 a", digest("4 a"), 0, 2).unwrap();
    assert_eq!(g.winner(), Winner::Draw);
}

#[test]
fn lizard_claims_after_deadline() {
    let mut g = fresh(60);
    place_hash(&mut g, alice(), digest("3 x")).unwrap();
    g.place_hand_at("3 x", digest("3 x"), 0, 200).unwrap();
    assert_eq!(g.hand(0), Hand::Lizard);
    assert_eq!(g.deadline(), 260);
    assert_eq!(g.forfeit_at(alice(), 259), Err(SErrors::DeadlineNotReached));
    assert_eq!(g.winner(), Winner::Unresolved);
    assert_eq!(g.forfeit_at(alice(), 260), Ok(()));
    assert_eq!(g.winner(), Winner::PlayerZero);
}

#[test]
fn unknown_commit_changes_nothing() {
    let mut g = fresh(60);
    place_hash(&mut g, alice(), digest("0 a")).unwrap();
    let before = snapshot(&g);
    assert_eq!(place_hash(&mut g, carol(), [9u8; 32]), Err(SErrors::UnknownPlayer));
    assert_eq!(snapshot(&g), before);
}

#[test]
fn unknown_reveal_and_claim_are_refused() {
    let mut g = fresh(60);
    place_hash(&mut g, alice(), digest("0 a")).unwrap();
    g.place_hand_at("0 a", digest("0 a"), 0, 10).unwrap();
    let before = snapshot(&g);
    assert_eq!(place_hand(&mut g, carol(), "0 a".to_string()), Err(SErrors::UnknownPlayer));
    assert_eq!(g.forfeit_at(carol(), 100), Err(SErrors::UnknownPlayer));
    assert_eq!(snapshot(&g), before);
}

#[test]
fn other_text_is_a_mismatch() {
    let mut g = fresh(60);
    place_hash(&mut g, bob(), digest("1 secret")).unwrap();
    let before = snapshot(&g);
    assert_eq!(
        g.place_hand_at("2 secret", digest("2 secret"), 1, 10),
        Err(SErrors::CommitmentMismatch)
    );
    assert_eq!(snapshot(&g), before);
    assert_eq!(g.place_hand_at("1 secret", digest("1 secret"), 1, 10), Ok(()));
    assert_eq!(g.hand(1), Hand::Paper);
}

#[test]
fn reveal_without_commitment_is_a_mismatch() {
    let mut g = fresh(60);
    assert_eq!(g.place_hand_at("0", [0u8; 32], 0, 10), Err(SErrors::CommitmentMismatch));
    assert!(!g.hand_submitted(0));
}

#[test]
fn recommit_replaces_commitment() {
    let mut g = fresh(60);
    place_hash(&mut g, alice(), digest("0 first")).unwrap();
    place_hash(&mut g, alice(), digest("1 second")).unwrap();
    assert_eq!(g.hashed_hand(0), digest("1 second"));
    assert!(g.hash_submitted(0));
    assert_eq!(
        g.place_hand_at("0 first", digest("0 first"), 0, 10),
        Err(SErrors::CommitmentMismatch)
    );
    assert_eq!(g.place_hand_at("1 second", digest("1 second"), 0, 10), Ok(()));
    assert_eq!(g.hand(0), Hand::Paper);
}

#[test]
fn unparseable_hand_is_refused() {
    let mut g = fresh(60);
    place_hash(&mut g, alice(), digest("7 salt")).unwrap();
    assert_eq!(
        g.place_hand_at("7 salt", digest("7 salt"), 0, 10),
        Err(SErrors::InvalidHandSymbol)
    );
    place_hash(&mut g, alice(), digest(" ")).unwrap();
    assert_eq!(g.place_hand_at(" ", digest(" "), 0, 10), Err(SErrors::InvalidHandSymbol));
    place_hash(&mut g, alice(), digest("")).unwrap();
    assert_eq!(g.place_hand_at("", digest(""), 0, 10), Err(SErrors::InvalidHandSymbol));
    assert!(!g.hand_submitted(0));
    assert_eq!(g.deadline(), 0);
}

#[test]
fn claims_need_a_deadline() {
    let mut g = fresh(60);
    assert_eq!(g.forfeit_at(alice(), 1_000), Err(SErrors::DeadlineNotSet));
    assert_eq!(forfeit(&mut g, alice()), Err(SErrors::DeadlineNotSet));
}

#[test]
fn non_revealer_cannot_claim() {
    let mut g = fresh(60);
    place_hash(&mut g, alice(), digest("0 a")).unwrap();
    place_hash(&mut g, bob(), digest("1 b")).unwrap();
    g.place_hand_at("0 a", digest("0 a"), 0, 10).unwrap();
    assert_eq!(g.forfeit_at(bob(), 10), Err(SErrors::DeadlineNotReached));
    assert_eq!(g.forfeit_at(bob(), 70), Err(SErrors::InvalidForfeiture));
    assert_eq!(g.forfeit_at(bob(), u64::MAX), Err(SErrors::InvalidForfeiture));
    assert_eq!(g.winner(), Winner::Unresolved);
}

#[test]
fn finished_match_refuses_everything() {
    let mut g = fresh(60);
    place_hash(&mut g, alice(), digest("0 a")).unwrap();
    g.place_hand_at("0 a", digest("0 a"), 0, 10).unwrap();
    g.forfeit_at(alice(), 70).unwrap();
    let before = snapshot(&g);
    assert_eq!(g.forfeit_at(alice(), 80), Err(SErrors::MatchFinished));
    assert_eq!(place_hash(&mut g, bob(), digest("1 b")), Err(SErrors::MatchFinished));
    assert_eq!(g.place_hash(digest("1 b"), 1), Err(SErrors::MatchFinished));
    assert_eq!(g.place_hand_at("0 a", digest("0 a"), 0, 90), Err(SErrors::MatchFinished));
    assert_eq!(snapshot(&g), before);
    assert_eq!(g.winner(), Winner::PlayerZero);
}

#[test]
fn deadline_is_held_at_the_largest_time() {
    let mut g = fresh(u64::MAX);
    place_hash(&mut g, bob(), digest("2 z")).unwrap();
    g.place_hand_at("2 z", digest("2 z"), 1, 5).unwrap();
    assert_eq!(g.deadline(), u64::MAX);
    assert_eq!(g.forfeit_at(bob(), u64::MAX - 1), Err(SErrors::DeadlineNotReached));
    assert_eq!(g.forfeit_at(bob(), u64::MAX), Ok(()));
    assert_eq!(g.winner(), Winner::PlayerOne);
}

#[test]
fn first_reveal_without_host_clock_is_refused() {
    let mut g = fresh(60);
    place_hash(&mut g, alice(), digest("0 a")).unwrap();
    let before = snapshot(&g);
    assert_eq!(
        place_hand(&mut g, alice(), "0 a".to_string()),
        Err(SErrors::ClockUnavailable)
    );
    assert_eq!(snapshot(&g), before);
    assert_eq!(
        place_hand(&mut g, alice(), "0 b".to_string()),
        Err(SErrors::CommitmentMismatch)
    );
}

#[test]
fn claim_without_host_clock_is_refused() {
    let mut g = fresh(60);
    place_hash(&mut g, alice(), digest("0 a")).unwrap();
    g.place_hand_at("0 a", digest("0 a"), 0, 10).unwrap();
    let before = snapshot(&g);
    assert_eq!(forfeit(&mut g, alice()), Err(SErrors::ClockUnavailable));
    assert_eq!(g.forfeit(alice()), Err(SErrors::ClockUnavailable));
    assert_eq!(snapshot(&g), before);
}

#[test]
fn reveal_error_reports_first_failing_check() {
    let mut g = fresh(60);
    place_hash(&mut g, alice(), digest("9")).unwrap();
    assert_eq!(g.reveal_error("9", &digest("9"), 0), Some(SErrors::InvalidHandSymbol));
    assert_eq!(g.reveal_error("8", &digest("8"), 0), Some(SErrors::CommitmentMismatch));
    assert_eq!(g.reveal_error("9", &digest("9"), 1), Some(SErrors::CommitmentMismatch));
    place_hash(&mut g, alice(), digest("3")).unwrap();
    assert_eq!(g.reveal_error("3", &digest("3"), 0), None);
}

#[test]
fn leading_white_space_before_the_symbol() {
    let mut g = fresh(60);
    place_hash(&mut g, alice(), digest(" 3 x")).unwrap();
    assert_eq!(g.reveal_error(" 3 x", &digest(" 3 x"), 0), None);
    assert_eq!(g.place_hand_at(" 3 x", digest(" 3 x"), 0, 10), Ok(()));
    assert_eq!(g.hand(0), Hand::Lizard);
    assert!(g.hand_submitted(0));
    place_hash(&mut g, bob(), digest("\t\n 4salt")).unwrap();
    assert_eq!(g.place_hand_at("\t\n 4salt", digest("\t\n 4salt"), 1, 20), Ok(()));
    assert_eq!(g.hand(1), Hand::Spock);
    assert_eq!(g.winner(), Winner::PlayerZero);
}

#[test]
fn white_space_alone_names_no_hand() {
    let mut g = fresh(60);
    place_hash(&mut g, alice(), digest(" \u{3000}\t")).unwrap();
    assert_eq!(
        g.place_hand_at(" \u{3000}\t", digest(" \u{3000}\t"), 0, 10),
        Err(SErrors::InvalidHandSymbol)
    );
    place_hash(&mut g, alice(), digest("  x 0")).unwrap();
    assert_eq!(
        g.place_hand_at("  x 0", digest("  x 0"), 0, 10),
        Err(SErrors::InvalidHandSymbol)
    );
    assert!(!g.hand_submitted(0));
}

#[test]
fn first_reveal_at_time_zero_still_starts_a_deadline() {
    let mut g = fresh(0);
    place_hash(&mut g, alice(), digest("0 a")).unwrap();
    g.place_hand_at("0 a", digest("0 a"), 0, 0).unwrap();
    assert_eq!(g.deadline(), 1);
    assert_eq!(g.forfeit_at(alice(), 0), Err(SErrors::DeadlineNotReached));
    assert_eq!(g.forfeit_at(alice(), 1), Ok(()));
    assert_eq!(g.winner(), Winner::PlayerZero);
}

#[test]
fn white_space_chars() {
    assert!(rps_game::is_white_space_char(' '));
    assert!(rps_game::is_white_space_char('\u{85}'));
    assert!(rps_game::is_white_space_char('\u{2009}'));
    assert!(!rps_game::is_white_space_char('0'));
    assert!(!rps_game::is_white_space_char('\u{200b}'));
    for c in ['\t', '\n', ' ', '\u{a0}', '\u{3000}', 'a', '3', '\u{200b}', '\u{180e}'] {
        assert_eq!(rps_game::is_white_space_char(c), c.is_whitespace());
    }
}

#[test]
fn hand_in_text_reads_first_symbol() {
    assert_eq!(rps_game::hand_in_text("2 salt"), Some(Hand::Scissors));
    assert_eq!(rps_game::hand_in_text("  1"), Some(Hand::Paper));
    assert_eq!(rps_game::hand_in_text(""), None);
    assert_eq!(rps_game::hand_in_text("   "), None);
    assert_eq!(rps_game::hand_in_text("x0"), None);
}
