use vstd::prelude::*;

verus! {

/// Which way packets travel on a connection.
#[derive(Debug, Clone, Copy, PartialEq, Eq, Structural)]
pub enum Bound {
    Serverbound,
    Clientbound,
}

/// The connection state; it decides which packet ids are valid.
#[derive(Debug, Clone, Copy, PartialEq, Eq, Structural)]
pub enum State {
    Handshake,
    Status,
    Login,
    Play,
}

impl Bound {
    /// The lower-case name of the direction.
    pub fn name(&self) -> (r: &'static str)
        ensures
            r@ == (match self {
                Bound::Serverbound => "serverbound"@,
                Bound::Clientbound => "clientbound"@,
            }),
    {
        proof {
            reveal_strlit("serverbound");
            reveal_strlit("clientbound");
        }
        match self {
            Bound::Serverbound => "serverbound",
            Bound::Clientbound => "clientbound",
        }
    }
}

impl State {
    /// The lower-case name of the state.
    pub fn name(&self) -> (r: &'static str)
        ensures
            r@ == (match self {
                State::Handshake => "handshake"@,
                State::Status => "status"@,
                State::Login => "login"@,
                State::Play => "play"@,
            }),
    {
        proof {
            reveal_strlit("handshake");
            reveal_strlit("status");
            reveal_strlit("login");
            reveal_strlit("play");
        }
        match self {
            State::Handshake => "handshake",
            State::Status => "status",
            State::Login => "login",
            State::Play => "play",
        }
    }
}

} // verus!
