//! The command line: the values read from it, and how they set up the
//! client, the server and the statistics collector.
pub mod number;

use crate::stats::{Output, Stats};
use crate::udp::{Client, Server};
use number::{
    parse_text, parse_u128, parse_u64, parse_u8, parse_usize, IntErrorKind, ParseIntError,
};
use vstd::prelude::*;

verus! {

/// The command line, once read: which flags were given, and the text of each
/// option that was.
pub struct Matches {
    pub server: bool,
    pub client: bool,
    pub json: bool,
    pub json_pretty: bool,
    pub thread: Option<String>,
    pub count: Option<String>,
    pub mtu: Option<String>,
    pub rate: Option<String>,
    pub source_addr: Option<String>,
    pub server_addr: Option<String>,
    pub server_bind: Option<String>,
}

/// The command-line front end.
pub struct Cmd {}

/// The value of an optional numeric option no larger than `max`: none when
/// the option is absent, else the parse of its text.
pub open spec fn option_value(o: Option<String>, max: nat) -> Result<Option<nat>, IntErrorKind> {
    match o {
        None => Ok(None),
        Some(s) => match parse_text(s@, max) {
            Ok(v) => Ok(Some(v)),
            Err(k) => Err(k),
        },
    }
}

/// The thread-count option, read first.
pub open spec fn thread_value(m: Matches) -> Result<Option<nat>, IntErrorKind> {
    option_value(m.thread, u8::MAX as nat)
}

/// The packet-count option, read second.
pub open spec fn count_value(m: Matches) -> Result<Option<nat>, IntErrorKind> {
    option_value(m.count, u128::MAX as nat)
}

/// The payload-size option, read third.
pub open spec fn mtu_value(m: Matches) -> Result<Option<nat>, IntErrorKind> {
    option_value(m.mtu, usize::MAX as nat)
}

/// Whether the thread-count and packet-count options both parsed.
pub open spec fn counts_read(m: Matches) -> bool {
    thread_value(m) is Ok && count_value(m) is Ok
}

/// Whether the thread-count, packet-count and payload-size options all
/// parsed.
pub open spec fn sizes_read(m: Matches) -> bool {
    counts_read(m) && mtu_value(m) is Ok
}

/// The rate option, read last of the numeric ones.
pub open spec fn rate_value(m: Matches) -> Result<Option<nat>, IntErrorKind> {
    option_value(m.rate, u64::MAX as nat)
}

/// The mode the command line asks for: 0 server, 1 client, 2 loopback.
pub open spec fn mode_of(m: Matches) -> usize {
    if m.server {
        0
    } else if m.client {
        1
    } else {
        2
    }
}

/// What setting up from the command line returns: the error of the first
/// numeric option that does not parse, else the mode.
pub open spec fn init_result(m: Matches) -> Result<usize, ParseIntError> {
    match (thread_value(m), count_value(m), mtu_value(m), rate_value(m)) {
        (Err(k), _, _, _) => Err(ParseIntError { kind: k }),
        (Ok(_), Err(k), _, _) => Err(ParseIntError { kind: k }),
        (Ok(_), Ok(_), Err(k), _) => Err(ParseIntError { kind: k }),
        (Ok(_), Ok(_), Ok(_), Err(k)) => Err(ParseIntError { kind: k }),
        _ => Ok(mode_of(m)),
    }
}

/// A numeric option's value when it parsed and is present, else `dflt`.
pub open spec fn or_keep(v: Result<Option<nat>, IntErrorKind>, dflt: nat) -> nat {
    match v {
        Ok(Some(x)) => x,
        _ => dflt,
    }
}

/// A text option's value when it is present, else `dflt`.
pub open spec fn text_or_keep(o: Option<String>, dflt: String) -> String {
    match o {
        Some(s) => s,
        None => dflt,
    }
}

/// A numeric option that is absent reads as none; one that is present
/// reads as exactly the parse of its text, value or error, with nothing
/// else applied.
pub proof fn lemma_option_is_its_parse(o: Option<String>, max: nat, d: nat)
    ensures
        o is None ==> option_value(o, max) == Ok::<Option<nat>, IntErrorKind>(None),
        o is None ==> or_keep(option_value(o, max), d) == d,
        o matches Some(s) ==> (parse_text(s@, max) matches Ok(v) ==> (option_value(o, max)
            == Ok::<Option<nat>, IntErrorKind>(Some(v)) && or_keep(option_value(o, max), d) == v)),
        o matches Some(s) ==> (parse_text(s@, max) matches Err(k) ==> option_value(o, max)
            == Err::<Option<nat>, IntErrorKind>(k)),
{
}

/// Each numeric option is read with the limit of the field it sets: the
/// thread count as a `u8`, the packet count as a `u128`, the payload size
/// as a `usize` and the rate as a `u64`; a text that parses to `v` sets `v`.
pub proof fn lemma_numeric_options(m: Matches)
    ensures
        m.thread matches Some(s) ==> (parse_text(s@, u8::MAX as nat) matches Ok(v)
            ==> thread_value(m) == Ok::<Option<nat>, IntErrorKind>(Some(v))),
        m.count matches Some(s) ==> (parse_text(s@, u128::MAX as nat) matches Ok(v)
            ==> count_value(m) == Ok::<Option<nat>, IntErrorKind>(Some(v))),
        m.mtu matches Some(s) ==> (parse_text(s@, usize::MAX as nat) matches Ok(v) ==> mtu_value(m)
            == Ok::<Option<nat>, IntErrorKind>(Some(v))),
        m.rate matches Some(s) ==> (parse_text(s@, u64::MAX as nat) matches Ok(v) ==> rate_value(m)
            == Ok::<Option<nat>, IntErrorKind>(Some(v))),
{
}

/// A text option that is given is stored exactly as given; one that is not
/// leaves the setting as it was.
pub proof fn lemma_text_option_stored(s: String, d: String)
    ensures
        text_or_keep(Some(s), d) == s,
        text_or_keep(None, d) == d,
{
}

/// When every numeric option parses, setting up succeeds, and the mode is
/// server (0) whenever the server flag is given, whatever else is, client
/// (1) when only the client flag is, and loopback (2) otherwise; when one
/// does not parse, setting up fails.
pub proof fn lemma_mode_choice(m: Matches)
    ensures
        init_result(m) is Ok <==> (sizes_read(m) && rate_value(m) is Ok),
        init_result(m) is Ok && m.server ==> init_result(m) == Ok::<usize, ParseIntError>(0),
        init_result(m) is Ok && !m.server && m.client ==> init_result(m) == Ok::<
            usize,
            ParseIntError,
        >(1),
        init_result(m) is Ok && !m.server && !m.client ==> init_result(m) == Ok::<
            usize,
            ParseIntError,
        >(2),
{
}

impl Cmd {
    /// The front end; it holds nothing.
    pub fn new() -> Self {
        Cmd {  }
    }

    /// Sets up the client, the server and the collector from the command
    /// line and returns the mode (0 server, 1 client, 2 loopback).  The
    /// options are taken in turn (threads, count, payload size, source and server
    /// addresses, bind address, rate, output form, mode); the first numeric
    /// option that does not parse stops it, with what came before it set.
    pub fn init(
        &self,
        matches: &Matches,
        client: &mut Client,
        server: &mut Server,
        stats: &mut Stats,
    ) -> (r: Result<usize, ParseIntError>)
        ensures
            r == init_result(*matches),
            r is Ok && matches.server ==> r == Ok::<usize, ParseIntError>(0),
            r is Ok && !matches.server && matches.client ==> r == Ok::<usize, ParseIntError>(1),
            r is Ok && !matches.server && !matches.client ==> r == Ok::<usize, ParseIntError>(2),
            matches.thread matches Some(s) ==> (parse_text(s@, u8::MAX as nat) matches Ok(v) ==> (
            final(client).thread_num == v && final(server).thread_num == v)),
            matches.count matches Some(s) ==> (parse_text(s@, u128::MAX as nat) matches Ok(v) ==> (
            thread_value(*matches) is Ok ==> final(client).count == v)),
            matches.mtu matches Some(s) ==> (parse_text(s@, usize::MAX as nat) matches Ok(v) ==> (
            counts_read(*matches) ==> final(client).mtu == v)),
            matches.rate matches Some(s) ==> (parse_text(s@, u64::MAX as nat) matches Ok(v) ==> (
            sizes_read(*matches) ==> final(client).rate_limit == v)),
            matches.source_addr matches Some(s) ==> (sizes_read(*matches) ==> final(client).src_addr
                == s),
            matches.server_addr matches Some(s) ==> (sizes_read(*matches) ==> final(client).dst_addr
                == s),
            matches.server_bind matches Some(s) ==> (sizes_read(*matches) ==> final(server).addr
                == s),
            final(client).thread_num as nat == or_keep(
                thread_value(*matches),
                old(client).thread_num as nat,
            ),
            final(server).thread_num as nat == or_keep(
                thread_value(*matches),
                old(server).thread_num as nat,
            ),
            final(client).count as nat == (if thread_value(*matches) is Ok {
                or_keep(count_value(*matches), old(client).count as nat)
            } else {
                old(client).count as nat
            }),
            final(client).mtu as nat == (if counts_read(*matches) {
                or_keep(mtu_value(*matches), old(client).mtu as nat)
            } else {
                old(client).mtu as nat
            }),
            final(client).src_addr == (if sizes_read(*matches) {
                text_or_keep(matches.source_addr, old(client).src_addr)
            } else {
                old(client).src_addr
            }),
            final(client).dst_addr == (if sizes_read(*matches) {
                text_or_keep(matches.server_addr, old(client).dst_addr)
            } else {
                old(client).dst_addr
            }),
            final(server).addr == (if sizes_read(*matches) {
                text_or_keep(matches.server_bind, old(server).addr)
            } else {
                old(server).addr
            }),
            final(client).rate_limit as nat == (if sizes_read(*matches) {
                or_keep(rate_value(*matches), old(client).rate_limit as nat)
            } else {
                old(client).rate_limit as nat
            }),
            final(client).stats_tx == old(client).stats_tx,
            final(server).stats_tx == old(server).stats_tx,
            final(stats).rx == old(stats).rx,
            final(stats).output_type == (if r is Ok && matches.json_pretty {
                Output::JsonPretty
            } else if r is Ok && matches.json {
                Output::Json
            } else {
                old(stats).output_type
            }),
            final(stats).tcp_server_bind@ == (if r is Ok && matches.server {
                "0.0.0.0:8080"@
            } else {
                old(stats).tcp_server_bind@
            }),
            final(stats).tcp_server_addr@ == (if r is Ok && !matches.server && matches.client {
                "127.0.0.1:8080"@
            } else {
                old(stats).tcp_server_addr@
            }),
    {
        match &matches.thread {
            Some(x) => {
                let n = match parse_u8(x.as_str()) {
                    Ok(n) => n,
                    Err(e) => return Err(e),
                };
                client.thread_num = n;
                server.thread_num = n;
            },
            None => {},
        }
        match &matches.count {
            Some(x) => {
                let n = match parse_u128(x.as_str()) {
                    Ok(n) => n,
                    Err(e) => return Err(e),
                };
                client.count = n;
            },
            None => {},
        }
        match &matches.mtu {
            Some(x) => {
                let n = match parse_usize(x.as_str()) {
                    Ok(n) => n,
                    Err(e) => return Err(e),
                };
                client.mtu = n;
            },
            None => {},
        }
        match &matches.source_addr {
            Some(x) => {
                client.src_addr = x.clone();
            },
            None => {},
        }
        match &matches.server_addr {
            Some(x) => {
                client.dst_addr = x.clone();
            },
            None => {},
        }
        match &matches.server_bind {
            Some(x) => {
                server.addr = x.clone();
            },
            None => {},
        }
        match &matches.rate {
            Some(x) => {
                let n = match parse_u64(x.as_str()) {
                    Ok(n) => n,
                    Err(e) => return Err(e),
                };
                client.rate_limit = n;
            },
            None => {},
        }
        if matches.json {
            stats.output_type = Output::Json;
        }
        if matches.json_pretty {
            stats.output_type = Output::JsonPretty;
        }
        if matches.server {
            stats.tcp_server_bind = "0.0.0.0:8080".to_owned();
            return Ok(0);
        }
        if matches.client {
            stats.tcp_server_addr = "127.0.0.1:8080".to_owned();
            return Ok(1);
        }
        Ok(2)
    }
}

} // verus!
