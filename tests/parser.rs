use basketball_protocol::{BasketballProtocol, GameState, ParseError, Possession};

fn game_frame() -> Vec<u8> {
    vec![
        0x01, 0x50, 0x00, 0x4A, 0x00, 0x04, 0x02, 0x1E, 0x04, 0x05, 0x03, 0x02, 0x01, 0x01,
    ]
}

#[test]
fn test_parse_valid_protocol() {
    let data = vec![
        0x01, // Protocol ID
        0x50, 0x00, // Home score: 80
        0x4A, 0x00, // Away score: 74
        0x04, // Period: 4 (4th quarter)
        0x02, // Time: 2 minutes
        0x1E, // Time: 30 seconds
        0x04, // Home fouls: 4
        0x05, // Away fouls: 5
        0x03, // Home timeouts: 3
        0x02, // Away timeouts: 2
        0x01, // Possession: Home
        0x01, // Game state: Running
    ];

    let protocol = BasketballProtocol::parse(&data).unwrap();
    assert_eq!(protocol.home_score, 80);
    assert_eq!(protocol.away_score, 74);
    assert_eq!(protocol.period, 4);
    assert_eq!(protocol.time_minutes, 2);
    assert_eq!(protocol.time_seconds, 30);
    assert_eq!(protocol.possession, Possession::Home);
    assert_eq!(protocol.game_state, GameState::Running);
}

#[test]
fn test_parse_invalid_length() {
    let data = vec![0x01, 0x50, 0x00];
    assert!(matches!(
        BasketballProtocol::parse(&data),
        Err(ParseError::InvalidLength(_))
    ));
}

#[test]
fn test_parse_invalid_protocol_id() {
    let data = vec![
        0x02, 0x50, 0x00, 0x4A, 0x00, 0x04, 0x02, 0x1E, 0x04, 0x05, 0x03, 0x02, 0x01, 0x01,
    ];
    assert!(matches!(
        BasketballProtocol::parse(&data),
        Err(ParseError::InvalidProtocolId(_))
    ));
}

#[test]
fn test_serialize_deserialize() {
    let snapshot = BasketballProtocol {
        home_score: 95,
        away_score: 88,
        period: 4,
        time_minutes: 0,
        time_seconds: 45,
        home_fouls: 3,
        away_fouls: 6,
        home_timeouts: 1,
        away_timeouts: 2,
        possession: Possession::Away,
        game_state: GameState::Running,
    };

    let bytes = snapshot.to_bytes();
    let parsed = BasketballProtocol::parse(&bytes).unwrap();
    assert_eq!(snapshot, parsed);
}

#[test]
fn test_format_time() {
    let protocol = BasketballProtocol {
        time_minutes: 5,
        time_seconds: 30,
        ..Default::default()
    };
    assert_eq!(protocol.format_time(), "05:30");
}

#[test]
fn test_period_name() {
    let mut protocol = BasketballProtocol::default();

    protocol.period = 1;
    assert_eq!(protocol.period_name(), "1st Quarter");

    protocol.period = 4;
    assert_eq!(protocol.period_name(), "4th Quarter");

    protocol.period = 5;
    assert_eq!(protocol.period_name(), "OT1");

    protocol.period = 6;
    assert_eq!(protocol.period_name(), "OT2");
}

#[test]
fn test_overtime_detection() {
    let mut protocol = BasketballProtocol::default();

    protocol.period = 4;
    assert!(!protocol.is_overtime());

    protocol.period = 5;
    assert!(protocol.is_overtime());
}

#[test]
fn game_frame_decodes_and_re_encodes() {
    let data = game_frame();
    let p = BasketballProtocol::parse(&data).unwrap();
    assert_eq!(p.home_score, 80);
    assert_eq!(p.away_score, 74);
    assert_eq!(p.period, 4);
    assert_eq!(p.format_time(), "02:30");
    assert_eq!(p.possession, Possession::Home);
    assert_eq!(p.game_state, GameState::Running);
    assert_eq!(p.home_fouls, 4);
    assert_eq!(p.away_fouls, 5);
    assert_eq!(p.home_timeouts, 3);
    assert_eq!(p.away_timeouts, 2);
    assert_eq!(p.to_bytes(), data);
}

#[test]
fn unknown_protocol_id_rejected() {
    let mut data = game_frame();
    data[0] = 0x02;
    assert_eq!(
        BasketballProtocol::parse(&data),
        Err(ParseError::InvalidProtocolId(0x02))
    );
    for tail in [0x00u8, 0xFF, 0x37] {
        let other: Vec<u8> = std::iter::once(0x02).chain(std::iter::repeat(tail).take(13)).collect();
        assert_eq!(
            BasketballProtocol::parse(&other),
            Err(ParseError::InvalidProtocolId(0x02))
        );
    }
}

#[test]
fn short_inputs_fail_with_their_length() {
    let data = game_frame();
    for len in 0..14 {
        assert_eq!(
            BasketballProtocol::parse(&data[..len]),
            Err(ParseError::InvalidLength(len))
        );
    }
}

#[test]
fn field_boundaries() {
    let base = game_frame();
    let with = |i: usize, v: u8| {
        let mut d = base.clone();
        d[i] = v;
        BasketballProtocol::parse(&d)
    };
    assert_eq!(with(5, 0), Err(ParseError::InvalidPeriod(0)));
    assert_eq!(with(5, 11), Err(ParseError::InvalidPeriod(11)));
    assert_eq!(with(5, 10).unwrap().period, 10);
    assert_eq!(with(7, 60), Err(ParseError::InvalidTime(2, 60)));
    assert_eq!(with(7, 59).unwrap().time_seconds, 59);
    assert_eq!(with(12, 3), Err(ParseError::InvalidPossession(3)));
    assert_eq!(with(12, 255), Err(ParseError::InvalidPossession(255)));
    assert_eq!(with(13, 6), Err(ParseError::InvalidGameState(6)));
    assert_eq!(with(13, 200), Err(ParseError::InvalidGameState(200)));
    assert_eq!(with(12, 0).unwrap().possession, Possession::Neither);
    assert_eq!(with(12, 2).unwrap().possession, Possession::Away);
    assert_eq!(with(13, 5).unwrap().game_state, GameState::Final);
}

#[test]
fn first_invalid_field_wins() {
    let mut d = game_frame();
    d[5] = 0;
    d[7] = 99;
    d[12] = 9;
    assert_eq!(BasketballProtocol::parse(&d), Err(ParseError::InvalidPeriod(0)));
    d[5] = 3;
    assert_eq!(BasketballProtocol::parse(&d), Err(ParseError::InvalidTime(2, 99)));
}

#[test]
fn bytes_past_the_frame_are_ignored() {
    let mut data = game_frame();
    data.extend_from_slice(&[0xFF, 0xFF, 0xFF]);
    assert_eq!(BasketballProtocol::parse(&data).unwrap().home_score, 80);
}

#[test]
fn scores_are_little_endian() {
    let p = BasketballProtocol {
        home_score: 0x1234,
        away_score: 65535,
        period: 10,
        time_minutes: 255,
        time_seconds: 59,
        home_fouls: 255,
        away_fouls: 0,
        home_timeouts: 9,
        away_timeouts: 8,
        possession: Possession::Neither,
        game_state: GameState::Final,
    };
    let bytes = p.to_bytes();
    assert_eq!(
        bytes,
        vec![0x01, 0x34, 0x12, 0xFF, 0xFF, 10, 255, 59, 255, 0, 9, 8, 0, 5]
    );
    assert_eq!(BasketballProtocol::parse(&bytes), Ok(p));
}

#[test]
fn round_trip_over_every_phase_and_possession() {
    let phases = [
        GameState::PreGame,
        GameState::Running,
        GameState::Paused,
        GameState::Halftime,
        GameState::Overtime,
        GameState::Final,
    ];
    let sides = [Possession::Home, Possession::Away, Possession::Neither];
    for (i, g) in phases.iter().enumerate() {
        for (j, s) in sides.iter().enumerate() {
            let p = BasketballProtocol {
                home_score: 100 + i as u16,
                away_score: 300 * j as u16,
                period: (i + 1) as u8,
                time_minutes: 12,
                time_seconds: (i * 10) as u8,
                home_fouls: 1,
                away_fouls: 2,
                home_timeouts: 3,
                away_timeouts: 4,
                possession: *s,
                game_state: *g,
            };
            assert_eq!(BasketballProtocol::parse(&p.to_bytes()), Ok(p));
        }
    }
}

#[test]
fn default_is_pre_game() {
    let p = BasketballProtocol::default();
    assert_eq!(p.period, 1);
    assert_eq!(p.time_minutes, 12);
    assert_eq!(p.home_timeouts, 7);
    assert_eq!(p.away_timeouts, 7);
    assert_eq!(p.possession, Possession::Neither);
    assert_eq!(p.game_state, GameState::PreGame);
    assert_eq!(p.format_time(), "12:00");
}

#[test]
fn clock_formatting() {
    let mut p = BasketballProtocol::default();
    p.time_minutes = 0;
    p.time_seconds = 0;
    assert_eq!(p.format_time(), "00:00");
    p.time_minutes = 123;
    p.time_seconds = 9;
    assert_eq!(p.format_time(), "123:09");
}

#[test]
fn period_names_beyond_regulation() {
    let mut p = BasketballProtocol::default();
    p.period = 2;
    assert_eq!(p.period_name(), "2nd Quarter");
    p.period = 3;
    assert_eq!(p.period_name(), "3rd Quarter");
    p.period = 10;
    assert_eq!(p.period_name(), "OT6");
    p.period = 255;
    assert_eq!(p.period_name(), "OT251");
    p.period = 0;
    assert_eq!(p.period_name(), "Unknown");
}

#[test]
fn finished_only_when_final() {
    let mut p = BasketballProtocol::default();
    assert!(!p.is_finished());
    p.game_state = GameState::Overtime;
    assert!(!p.is_finished());
    p.game_state = GameState::Final;
    p.home_score = 90;
    p.away_score = 90;
    assert!(p.is_finished());
    assert_eq!(p.leader_name(), "Tie");
    p.home_score = 91;
    assert_eq!(p.leader_name(), "Home");
    p.away_score = 300;
    assert_eq!(p.leader_name(), "Away");
}

#[test]
fn error_messages() {
    assert_eq!(ParseError::InvalidLength(3).message(), "Invalid data length: 3");
    assert_eq!(ParseError::InvalidLength(1234).message(), "Invalid data length: 1234");
    assert_eq!(ParseError::InvalidProtocolId(0x02).message(), "Invalid protocol ID: 0x02");
    assert_eq!(ParseError::InvalidProtocolId(0xAF).message(), "Invalid protocol ID: 0xAF");
    assert_eq!(ParseError::InvalidPeriod(11).message(), "Invalid period: 11");
    assert_eq!(ParseError::InvalidTime(2, 60).message(), "Invalid time: 2:60");
    assert_eq!(ParseError::InvalidTime(12, 5).message(), "Invalid time: 12:05");
    assert_eq!(ParseError::InvalidPossession(3).message(), "Invalid possession value: 3");
    assert_eq!(ParseError::InvalidGameState(6).message(), "Invalid game state value: 6");
}
