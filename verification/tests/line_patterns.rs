use minecraft_server_manager::patterns::{parse_player_line, ready_line};

fn line(s: &str) -> Vec<u8> {
    s.as_bytes().to_vec()
}

#[test]
fn ready_marker_detected() {
    assert!(ready_line(&line("[Server] Done (3.2s)! For help, type \"help\"")));
    assert!(ready_line(&line("Done (0.1s)")));
    assert!(!ready_line(&line("Starting minecraft server version 1.20")));
    assert!(!ready_line(&line("Done")));
    assert!(!ready_line(&line("")));
}

#[test]
fn player_line_with_max_wording() {
    let r = parse_player_line(&line("There are 3 of a max of 20 players online"));
    assert_eq!(r, Some((3, 20)));
}

#[test]
fn player_line_without_max_wording() {
    let r = parse_player_line(&line("There are 7 of 100 players online"));
    assert_eq!(r, Some((7, 100)));
}

#[test]
fn player_line_embedded_in_server_prefix() {
    let r = parse_player_line(&line(
        "[12:00:03] [Server thread/INFO]: There are 3 of a max of 20 players online",
    ));
    assert_eq!(r, Some((3, 20)));
}

#[test]
fn player_line_with_leading_zeros() {
    let r = parse_player_line(&line("There are 003 of 020 players online"));
    assert_eq!(r, Some((3, 20)));
}

#[test]
fn player_line_zero_players() {
    let r = parse_player_line(&line("There are 0 of a max of 20 players online"));
    assert_eq!(r, Some((0, 20)));
}

#[test]
fn player_line_takes_leftmost_match() {
    let r = parse_player_line(&line(
        "There are x of y players online There are 1 of 2 players online",
    ));
    assert_eq!(r, Some((1, 2)));
}

#[test]
fn player_line_rejects_missing_pieces() {
    assert_eq!(parse_player_line(&line("There are 3 of a max of players online")), None);
    assert_eq!(parse_player_line(&line("There are of 20 players online")), None);
    assert_eq!(parse_player_line(&line("There are 3 of 20 players")), None);
    assert_eq!(parse_player_line(&line("there are 3 of 20 players online")), None);
    assert_eq!(parse_player_line(&line("")), None);
}

#[test]
fn player_line_rejects_counts_beyond_u32() {
    assert_eq!(parse_player_line(&line("There are 4294967296 of 20 players online")), None);
    assert_eq!(
        parse_player_line(&line("There are 3 of 99999999999999999999999 players online")),
        None,
    );
    let r = parse_player_line(&line("There are 4294967295 of 20 players online"));
    assert_eq!(r, Some((4294967295, 20)));
}
