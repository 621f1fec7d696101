//! One tick of the relay loop: from what discovery found to what to do next.

use vstd::prelude::*;
use crate::config::Settings;
use crate::status::{format_music, status_text, Track};

verus! {

/// One typed argument of an OSC message.
#[derive(Clone, Debug, PartialEq)]
pub enum OscArg {
    Str(String),
    Bool(bool),
}

/// An outbound OSC message: an address and its ordered arguments.
#[derive(Clone, Debug, PartialEq)]
pub struct Packet {
    pub address: String,
    pub args: Vec<OscArg>,
}

/// The OSC address that the chat box listens on.
pub open spec fn chatbox_address() -> Seq<char> {
    seq!['/', 'c', 'h', 'a', 't', 'b', 'o', 'x', '/', 'i', 'n', 'p', 'u', 't']
}

/// `p` is the chat box message carrying `text`, with the flags `true, false`.
pub open spec fn is_chatbox_packet(p: Packet, text: Seq<char>) -> bool {
    &&& p.address@ == chatbox_address()
    &&& p.args@.len() == 3
    &&& p.args@[0] matches OscArg::Str(s) && s@ == text
    &&& p.args@[1] == OscArg::Bool(true)
    &&& p.args@[2] == OscArg::Bool(false)
}

impl Packet {
    /// The chat box message for `message`: `/chatbox/input [message, true, false]`.
    pub fn chatbox(message: String) -> (p: Packet)
        ensures
            is_chatbox_packet(p, message@),
    {
        proof {
            reveal_strlit("/chatbox/input");
        }
        let address = String::from_str("/chatbox/input");
        assert(address@ =~= chatbox_address());
        let args = vec![OscArg::Str(message), OscArg::Bool(true), OscArg::Bool(false)];
        Packet { address, args }
    }
}

/// What the driver does after one discovery attempt.
#[derive(Debug)]
pub enum Action {
    /// No player was found: try again at once, sending nothing and not sleeping.
    Retry,
    /// Send `packet` once, then sleep `sleep_ms` milliseconds.
    Send { packet: Packet, sleep_ms: u64 },
}

/// Decides one tick: with no player, retry at once; with one, send its status
/// text to the chat box and sleep the configured time.
pub fn tick(settings: &Settings, found: Option<Track>) -> (a: Action)
    ensures
        found is None <==> a is Retry,
        found matches Some(t) ==> (a matches Action::Send { packet, sleep_ms } && is_chatbox_packet(
            packet,
            status_text(settings.small_bubble, t@),
        ) && sleep_ms == settings.sleep_time),
{
    match found {
        None => Action::Retry,
        Some(track) => {
            let message = format_music(settings.small_bubble, &track);
            Action::Send { packet: Packet::chatbox(message), sleep_ms: settings.sleep_time }
        },
    }
}

} // verus!
