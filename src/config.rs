//! The configuration table as read from disk, and the settings it resolves to.

use vstd::prelude::*;
use crate::decimal::{decimal, push_decimal};

verus! {

/// The `[config]` table: every key may be left out.
#[derive(Clone, Debug)]
pub struct Config {
    pub send_address: Option<String>,
    pub send_port: Option<u16>,
    pub small_bubble: Option<bool>,
    /// Pause between two sends, in milliseconds.
    pub sleep_time: Option<u64>,
    /// Name of the player to follow; when absent, the active player is used.
    pub program: Option<String>,
}

/// The configuration with every default applied.
#[derive(Clone, Debug)]
pub struct Settings {
    pub send_address: String,
    pub send_port: u16,
    pub small_bubble: bool,
    pub sleep_time: u64,
    pub program: Option<String>,
}

/// Mathematical model of `Settings`.
pub ghost struct SettingsView {
    pub send_address: Seq<char>,
    pub send_port: nat,
    pub small_bubble: bool,
    pub sleep_time: nat,
    pub program: Option<Seq<char>>,
}

impl View for Settings {
    type V = SettingsView;

    open spec fn view(&self) -> SettingsView {
        SettingsView {
            send_address: self.send_address@,
            send_port: self.send_port as nat,
            small_bubble: self.small_bubble,
            sleep_time: self.sleep_time as nat,
            program: match self.program {
                None => None,
                Some(p) => Some(p@),
            },
        }
    }
}

pub const DEFAULT_SEND_PORT: u16 = 9000;

pub const DEFAULT_SLEEP_TIME: u64 = 1500;

/// The host that packets go to when none is configured.
pub open spec fn default_send_address() -> Seq<char> {
    seq!['1', '2', '7', '.', '0', '.', '0', '.', '1']
}

/// The settings that a configuration table resolves to.
pub open spec fn resolve(c: Config) -> SettingsView {
    SettingsView {
        send_address: match c.send_address {
            None => default_send_address(),
            Some(a) => a@,
        },
        send_port: match c.send_port {
            None => DEFAULT_SEND_PORT as nat,
            Some(p) => p as nat,
        },
        small_bubble: match c.small_bubble {
            None => true,
            Some(b) => b,
        },
        sleep_time: match c.sleep_time {
            None => DEFAULT_SLEEP_TIME as nat,
            Some(t) => t as nat,
        },
        program: match c.program {
            None => None,
            Some(p) => Some(p@),
        },
    }
}

/// The `host:port` text of the endpoint.
pub open spec fn target_text(s: SettingsView) -> Seq<char> {
    s.send_address + seq![':'] + decimal(s.send_port)
}

/// Each key left out of the table takes its default; each key present is kept.
pub proof fn lemma_defaults(c: Config)
    ensures
        c.send_address is None ==> resolve(c).send_address == default_send_address(),
        c.send_port is None ==> resolve(c).send_port == 9000,
        c.small_bubble is None ==> resolve(c).small_bubble,
        c.sleep_time is None ==> resolve(c).sleep_time == 1500,
        c.program is None ==> resolve(c).program is None,
        c.send_address matches Some(a) ==> resolve(c).send_address == a@,
        c.send_port matches Some(p) ==> resolve(c).send_port == p,
        c.small_bubble matches Some(b) ==> resolve(c).small_bubble == b,
        c.sleep_time matches Some(t) ==> resolve(c).sleep_time == t,
        c.program matches Some(p) ==> resolve(c).program == Some(p@),
{
}

impl Config {
    /// Applies the defaults: host `127.0.0.1`, port 9000, compact display on,
    /// 1500 ms between sends, no player filter.
    pub fn settings(self) -> (r: Settings)
        ensures
            r@ == resolve(self),
    {
        let send_address = match self.send_address {
            None => {
                proof {
                    reveal_strlit("127.0.0.1");
                }
                let a = String::from_str("127.0.0.1");
                assert(a@ =~= default_send_address());
                a
            },
            Some(a) => a,
        };
        let send_port = match self.send_port {
            None => DEFAULT_SEND_PORT,
            Some(p) => p,
        };
        let small_bubble = match self.small_bubble {
            None => true,
            Some(b) => b,
        };
        let sleep_time = match self.sleep_time {
            None => DEFAULT_SLEEP_TIME,
            Some(t) => t,
        };
        Settings { send_address, send_port, small_bubble, sleep_time, program: self.program }
    }
}

impl Settings {
    /// The endpoint as `host:port`, the form a socket address is parsed from.
    pub fn target_address(&self) -> (r: String)
        ensures
            r@ == target_text(self@),
    {
        let mut r = self.send_address.clone();
        proof {
            reveal_strlit(":");
        }
        r.append(":");
        push_decimal(&mut r, self.send_port as u64);
        assert(r@ =~= target_text(self@));
        r
    }
}

} // verus!
