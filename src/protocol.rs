//! The fixed 14-byte game frame: its data model, decoding and encoding.
use vstd::prelude::*;
use vstd::string::*;
use crate::text::{decimal, decimal2, hex2, push_decimal, push_decimal2, push_hex2};

verus! {

/// Number of bytes in one frame.
pub const FRAME_LEN: usize = 14;

/// The discriminator byte that opens every basketball frame.
pub const PROTOCOL_ID: u8 = 1;

/// One point-in-time state of a game, as carried by one frame.
#[derive(Debug, Clone, Copy, PartialEq, Eq, Structural)]
pub struct BasketballProtocol {
    pub home_score: u16,
    pub away_score: u16,
    pub period: u8,
    pub time_minutes: u8,
    pub time_seconds: u8,
    pub home_fouls: u8,
    pub away_fouls: u8,
    pub home_timeouts: u8,
    pub away_timeouts: u8,
    pub possession: Possession,
    pub game_state: GameState,
}

/// Which team holds the ball.
#[derive(Debug, Clone, Copy, PartialEq, Eq, Structural)]
pub enum Possession {
    Home,
    Away,
    Neither,
}

/// The phase the game is in.
#[derive(Debug, Clone, Copy, PartialEq, Eq, Structural)]
pub enum GameState {
    PreGame,
    Running,
    Paused,
    Halftime,
    Overtime,
    Final,
}

/// Why a frame could not be decoded; the first invalid field wins.
#[derive(Debug, Clone, Copy, PartialEq, Eq, Structural)]
pub enum ParseError {
    InvalidLength(usize),
    InvalidProtocolId(u8),
    InvalidPeriod(u8),
    InvalidTime(u8, u8),
    InvalidPossession(u8),
    InvalidGameState(u8),
}

/// The wire code of a possession value.
pub open spec fn possession_code(p: Possession) -> u8 {
    match p {
        Possession::Neither => 0,
        Possession::Home => 1,
        Possession::Away => 2,
    }
}

/// The possession value of a wire code, if the code is one.
pub open spec fn possession_of(b: u8) -> Option<Possession> {
    if b == 0 {
        Some(Possession::Neither)
    } else if b == 1 {
        Some(Possession::Home)
    } else if b == 2 {
        Some(Possession::Away)
    } else {
        None
    }
}

/// The wire code of a game phase.
pub open spec fn game_state_code(g: GameState) -> u8 {
    match g {
        GameState::PreGame => 0,
        GameState::Running => 1,
        GameState::Paused => 2,
        GameState::Halftime => 3,
        GameState::Overtime => 4,
        GameState::Final => 5,
    }
}

/// The game phase of a wire code, if the code is one.
pub open spec fn game_state_of(b: u8) -> Option<GameState> {
    if b == 0 {
        Some(GameState::PreGame)
    } else if b == 1 {
        Some(GameState::Running)
    } else if b == 2 {
        Some(GameState::Paused)
    } else if b == 3 {
        Some(GameState::Halftime)
    } else if b == 4 {
        Some(GameState::Overtime)
    } else if b == 5 {
        Some(GameState::Final)
    } else {
        None
    }
}

/// The little-endian 16-bit value of two bytes.
pub open spec fn le_u16(lo: u8, hi: u8) -> u16 {
    (lo as int + 256 * hi as int) as u16
}

/// The snapshot that bytes `b` decode to, or the error for the first
/// invalid field. Bytes past the first frame are never looked at.
pub open spec fn decode(b: Seq<u8>) -> Result<BasketballProtocol, ParseError> {
    if b.len() < FRAME_LEN {
        Err(ParseError::InvalidLength(b.len() as usize))
    } else if b[0] != PROTOCOL_ID {
        Err(ParseError::InvalidProtocolId(b[0]))
    } else if b[5] == 0 || b[5] > 10 {
        Err(ParseError::InvalidPeriod(b[5]))
    } else if b[7] >= 60 {
        Err(ParseError::InvalidTime(b[6], b[7]))
    } else if possession_of(b[12]) is None {
        Err(ParseError::InvalidPossession(b[12]))
    } else if game_state_of(b[13]) is None {
        Err(ParseError::InvalidGameState(b[13]))
    } else {
        Ok(
            BasketballProtocol {
                home_score: le_u16(b[1], b[2]),
                away_score: le_u16(b[3], b[4]),
                period: b[5],
                time_minutes: b[6],
                time_seconds: b[7],
                home_fouls: b[8],
                away_fouls: b[9],
                home_timeouts: b[10],
                away_timeouts: b[11],
                possession: possession_of(b[12])->Some_0,
                game_state: game_state_of(b[13])->Some_0,
            },
        )
    }
}

/// The 14 bytes of a snapshot on the wire.
pub open spec fn encode(s: BasketballProtocol) -> Seq<u8> {
    seq![
        PROTOCOL_ID,
        (s.home_score % 256) as u8,
        (s.home_score / 256) as u8,
        (s.away_score % 256) as u8,
        (s.away_score / 256) as u8,
        s.period,
        s.time_minutes,
        s.time_seconds,
        s.home_fouls,
        s.away_fouls,
        s.home_timeouts,
        s.away_timeouts,
        possession_code(s.possession),
        game_state_code(s.game_state),
    ]
}

/// The clock as `MM:SS`, each part at least two digits.
pub open spec fn clock_text(minutes: u8, seconds: u8) -> Seq<char> {
    decimal2(minutes as nat) + ":"@ + decimal2(seconds as nat)
}

/// The human name of a period: four quarters, then numbered overtimes.
pub open spec fn period_label(period: u8) -> Seq<char> {
    if period == 1 {
        "1st Quarter"@
    } else if period == 2 {
        "2nd Quarter"@
    } else if period == 3 {
        "3rd Quarter"@
    } else if period == 4 {
        "4th Quarter"@
    } else if period > 4 {
        "OT"@ + decimal((period - 4) as nat)
    } else {
        "Unknown"@
    }
}

/// The human-readable description of a decoding failure.
pub open spec fn error_message(e: ParseError) -> Seq<char> {
    match e {
        ParseError::InvalidLength(len) => "Invalid data length: "@ + decimal(len as nat),
        ParseError::InvalidProtocolId(id) => "Invalid protocol ID: 0x"@ + hex2(id),
        ParseError::InvalidPeriod(p) => "Invalid period: "@ + decimal(p as nat),
        ParseError::InvalidTime(m, sec) => "Invalid time: "@ + decimal(m as nat) + ":"@ + decimal2(
            sec as nat,
        ),
        ParseError::InvalidPossession(v) => "Invalid possession value: "@ + decimal(v as nat),
        ParseError::InvalidGameState(v) => "Invalid game state value: "@ + decimal(v as nat),
    }
}

impl ParseError {
    /// The description of this failure, as sent back to a sender.
    pub fn message(&self) -> (r: String)
        ensures
            r@ == error_message(*self),
    {
        match *self {
            ParseError::InvalidLength(len) => {
                let mut s = String::from_str("Invalid data length: ");
                push_decimal(&mut s, len as u64);
                s
            },
            ParseError::InvalidProtocolId(id) => {
                let mut s = String::from_str("Invalid protocol ID: 0x");
                push_hex2(&mut s, id);
                s
            },
            ParseError::InvalidPeriod(p) => {
                let mut s = String::from_str("Invalid period: ");
                push_decimal(&mut s, p as u64);
                s
            },
            ParseError::InvalidTime(m, sec) => {
                let mut s = String::from_str("Invalid time: ");
                push_decimal(&mut s, m as u64);
                s.append(":");
                push_decimal2(&mut s, sec as u64);
                s
            },
            ParseError::InvalidPossession(v) => {
                let mut s = String::from_str("Invalid possession value: ");
                push_decimal(&mut s, v as u64);
                s
            },
            ParseError::InvalidGameState(v) => {
                let mut s = String::from_str("Invalid game state value: ");
                push_decimal(&mut s, v as u64);
                s
            },
        }
    }
}

impl BasketballProtocol {
    /// The data-model invariants: a period from 1 to 10 and seconds below 60.
    pub open spec fn wf(self) -> bool {
        1 <= self.period <= 10 && self.time_seconds < 60
    }

    /// Decodes the first frame of `data`, checking each field in wire order.
    pub fn parse(data: &[u8]) -> (r: Result<Self, ParseError>)
        ensures
            r == decode(data@),
            r matches Ok(s) ==> s.wf(),
    {
        if data.len() < FRAME_LEN {
            return Err(ParseError::InvalidLength(data.len()));
        }
        if data[0] != PROTOCOL_ID {
            return Err(ParseError::InvalidProtocolId(data[0]));
        }
        let home_score: u16 = data[1] as u16 + 256 * data[2] as u16;
        let away_score: u16 = data[3] as u16 + 256 * data[4] as u16;
        let period = data[5];
        if period == 0 || period > 10 {
            return Err(ParseError::InvalidPeriod(period));
        }
        let time_minutes = data[6];
        let time_seconds = data[7];
        if time_seconds >= 60 {
            return Err(ParseError::InvalidTime(time_minutes, time_seconds));
        }
        let possession = match data[12] {
            0 => Possession::Neither,
            1 => Possession::Home,
            2 => Possession::Away,
            val => return Err(ParseError::InvalidPossession(val)),
        };
        let game_state = match data[13] {
            0 => GameState::PreGame,
            1 => GameState::Running,
            2 => GameState::Paused,
            3 => GameState::Halftime,
            4 => GameState::Overtime,
            5 => GameState::Final,
            val => return Err(ParseError::InvalidGameState(val)),
        };
        Ok(
            BasketballProtocol {
                home_score,
                away_score,
                period,
                time_minutes,
                time_seconds,
                home_fouls: data[8],
                away_fouls: data[9],
                home_timeouts: data[10],
                away_timeouts: data[11],
                possession,
                game_state,
            },
        )
    }
    /// The 14 wire bytes of this snapshot.
    pub fn to_bytes(&self) -> (r: Vec<u8>)
        ensures
            r@ == encode(*self),
            r@.len() == FRAME_LEN,
    {
        let mut bytes: Vec<u8> = Vec::with_capacity(FRAME_LEN);
        bytes.push(PROTOCOL_ID);
        bytes.push((self.home_score % 256) as u8);
        bytes.push((self.home_score / 256) as u8);
        bytes.push((self.away_score % 256) as u8);
        bytes.push((self.away_score / 256) as u8);
        bytes.push(self.period);
        bytes.push(self.time_minutes);
        bytes.push(self.time_seconds);
        bytes.push(self.home_fouls);
        bytes.push(self.away_fouls);
        bytes.push(self.home_timeouts);
        bytes.push(self.away_timeouts);
        bytes.push(
            match self.possession {
                Possession::Neither => 0,
                Possession::Home => 1,
                Possession::Away => 2,
            },
        );
        bytes.push(
            match self.game_state {
                GameState::PreGame => 0,
                GameState::Running => 1,
                GameState::Paused => 2,
                GameState::Halftime => 3,
                GameState::Overtime => 4,
                GameState::Final => 5,
            },
        );
        assert(bytes@ =~= encode(*self));
        bytes
    }

    /// The game clock as `MM:SS`.
    pub fn format_time(&self) -> (r: String)
        ensures
            r@ == clock_text(self.time_minutes, self.time_seconds),
    {
        let mut s = String::new();
        push_decimal2(&mut s, self.time_minutes as u64);
        s.append(":");
        push_decimal2(&mut s, self.time_seconds as u64);
        assert(s@ =~= clock_text(self.time_minutes, self.time_seconds));
        s
    }

    /// The name of the current period.
    pub fn period_name(&self) -> (r: String)
        ensures
            r@ == period_label(self.period),
    {
        match self.period {
            1 => String::from_str("1st Quarter"),
            2 => String::from_str("2nd Quarter"),
            3 => String::from_str("3rd Quarter"),
            4 => String::from_str("4th Quarter"),
            0 => String::from_str("Unknown"),
            n => {
                let mut s = String::from_str("OT");
                push_decimal(&mut s, (n - 4) as u64);
                s
            },
        }
    }

    /// The side ahead on points: `Home`, `Away`, or `Tie` when level.
    pub fn leader_name(&self) -> (r: &'static str)
        ensures
            r@ == (if self.home_score > self.away_score {
                "Home"@
            } else if self.away_score > self.home_score {
                "Away"@
            } else {
                "Tie"@
            }),
    {
        if self.home_score > self.away_score {
            "Home"
        } else if self.away_score > self.home_score {
            "Away"
        } else {
            "Tie"
        }
    }

    /// Whether the game is past the fourth period.
    pub fn is_overtime(&self) -> (r: bool)
        ensures
            r == (self.period > 4),
    {
        self.period > 4
    }

    /// Whether the game is over.
    pub fn is_finished(&self) -> (r: bool)
        ensures
            r == (self.game_state == GameState::Final),
    {
        matches!(self.game_state, GameState::Final)
    }
}

impl Default for BasketballProtocol {
    /// A game before tip-off: no score, first period, twelve minutes on the
    /// clock, seven timeouts each.
    fn default() -> (r: Self)
        ensures
            r == (BasketballProtocol {
                home_score: 0,
                away_score: 0,
                period: 1,
                time_minutes: 12,
                time_seconds: 0,
                home_fouls: 0,
                away_fouls: 0,
                home_timeouts: 7,
                away_timeouts: 7,
                possession: Possession::Neither,
                game_state: GameState::PreGame,
            }),
    {
        BasketballProtocol {
            home_score: 0,
            away_score: 0,
            period: 1,
            time_minutes: 12,
            time_seconds: 0,
            home_fouls: 0,
            away_fouls: 0,
            home_timeouts: 7,
            away_timeouts: 7,
            possession: Possession::Neither,
            game_state: GameState::PreGame,
        }
    }
}

/// Decoding the encoding of any well-formed snapshot gives the snapshot back.
pub proof fn lemma_round_trip(s: BasketballProtocol)
    requires
        s.wf(),
    ensures
        decode(encode(s)) == Ok::<BasketballProtocol, ParseError>(s),
{
    let b = encode(s);
    assert(le_u16(b[1], b[2]) == s.home_score);
    assert(le_u16(b[3], b[4]) == s.away_score);
    assert(possession_of(b[12]) == Some(s.possession));
    assert(game_state_of(b[13]) == Some(s.game_state));
}

/// Fewer than 14 bytes always fail with the length error and nothing else.
pub proof fn lemma_short_input_rejected(b: Seq<u8>)
    requires
        b.len() < FRAME_LEN,
    ensures
        decode(b) == Err::<BasketballProtocol, ParseError>(ParseError::InvalidLength(b.len() as usize)),
{
}

/// The edges of each checked field: periods 0 and 11, second 60, possession
/// codes from 3 and game-state codes from 6 are refused, while period 10 and
/// second 59 pass.
pub proof fn lemma_field_bounds(b: Seq<u8>)
    requires
        b.len() >= FRAME_LEN,
        b[0] == PROTOCOL_ID,
    ensures
        b[5] == 0 || b[5] == 11 ==> decode(b) == Err::<BasketballProtocol, ParseError>(
            ParseError::InvalidPeriod(b[5]),
        ),
        1 <= b[5] <= 10 && b[7] == 60 ==> decode(b) == Err::<BasketballProtocol, ParseError>(
            ParseError::InvalidTime(b[6], b[7]),
        ),
        b[12] >= 3 ==> decode(b) is Err,
        b[13] >= 6 ==> decode(b) is Err,
        b[5] == 10 && b[7] == 59 && b[12] < 3 && b[13] < 6 ==> (decode(b) matches Ok(s) && s.period
            == 10 && s.time_seconds == 59),
{
}

} // verus!
