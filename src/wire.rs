//! Frames exchanged with the signaling server and the text commands of the
//! registration protocol.

use vstd::prelude::*;

verus! {

/// One message-framed unit received from or sent to the transport.
#[derive(PartialEq, Eq, Clone, Debug)]
pub enum Frame {
    Text(String),
    Binary(Vec<u8>),
    Ping(Vec<u8>),
    Pong(Vec<u8>),
    Close,
}

/// The character of a decimal digit.
pub open spec fn digit_char(d: nat) -> char {
    if d == 0 {
        '0'
    } else if d == 1 {
        '1'
    } else if d == 2 {
        '2'
    } else if d == 3 {
        '3'
    } else if d == 4 {
        '4'
    } else if d == 5 {
        '5'
    } else if d == 6 {
        '6'
    } else if d == 7 {
        '7'
    } else if d == 8 {
        '8'
    } else {
        '9'
    }
}

/// The decimal representation of `n`, most significant digit first, with no
/// leading zeros.
pub open spec fn decimal(n: nat) -> Seq<char>
    decreases n,
{
    if n < 10 {
        seq![digit_char(n)]
    } else {
        decimal(n / 10).push(digit_char(n % 10))
    }
}

/// `HELLO <id>`: the registration command.
pub open spec fn hello_text(id: nat) -> Seq<char> {
    seq!['H', 'E', 'L', 'L', 'O', ' '] + decimal(id)
}

/// `SESSION <peer>`: the session request command.
pub open spec fn session_text(peer: nat) -> Seq<char> {
    seq!['S', 'E', 'S', 'S', 'I', 'O', 'N', ' '] + decimal(peer)
}

/// The exact text the server acknowledges a registration with.
pub open spec fn ack_text() -> Seq<char> {
    seq!['H', 'E', 'L', 'L', 'O']
}

/// Whether a frame is the registration acknowledgement.
pub open spec fn is_ack(f: Frame) -> bool {
    match f {
        Frame::Text(t) => t@ == ack_text(),
        _ => false,
    }
}

fn digit_str(d: u32) -> (r: &'static str)
    requires
        d < 10,
    ensures
        r@ == seq![digit_char(d as nat)],
{
    if d == 0 {
        proof { reveal_strlit("0"); }
        "0"
    } else if d == 1 {
        proof { reveal_strlit("1"); }
        "1"
    } else if d == 2 {
        proof { reveal_strlit("2"); }
        "2"
    } else if d == 3 {
        proof { reveal_strlit("3"); }
        "3"
    } else if d == 4 {
        proof { reveal_strlit("4"); }
        "4"
    } else if d == 5 {
        proof { reveal_strlit("5"); }
        "5"
    } else if d == 6 {
        proof { reveal_strlit("6"); }
        "6"
    } else if d == 7 {
        proof { reveal_strlit("7"); }
        "7"
    } else if d == 8 {
        proof { reveal_strlit("8"); }
        "8"
    } else {
        proof { reveal_strlit("9"); }
        "9"
    }
}

/// Writes `n` in decimal.
pub fn decimal_string(n: u32) -> (s: String)
    ensures
        s@ == decimal(n as nat),
    decreases n,
{
    if n < 10 {
        String::from_str(digit_str(n))
    } else {
        let mut s = decimal_string(n / 10);
        s.append(digit_str(n % 10));
        s
    }
}

/// The registration command announcing client identity `id`.
pub fn hello_command(id: u16) -> (s: String)
    ensures
        s@ == hello_text(id as nat),
{
    let mut s = String::from_str("HELLO ");
    proof { reveal_strlit("HELLO "); }
    let digits = decimal_string(id as u32);
    s.append(digits.as_str());
    s
}

/// The command asking the server for a session with peer `peer`.
pub fn session_command(peer: u32) -> (s: String)
    ensures
        s@ == session_text(peer as nat),
{
    let mut s = String::from_str("SESSION ");
    proof { reveal_strlit("SESSION "); }
    let digits = decimal_string(peer);
    s.append(digits.as_str());
    s
}

/// Whether `f` is exactly the text frame `HELLO`.
pub fn is_registration_ack(f: &Frame) -> (r: bool)
    ensures
        r == is_ack(*f),
{
    match f {
        Frame::Text(t) => {
            let ack = String::from_str("HELLO");
            proof {
                reveal_strlit("HELLO");
                assert(ack@ =~= ack_text());
            }
            *t == ack
        },
        _ => false,
    }
}

} // verus!
