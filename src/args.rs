use vstd::prelude::*;

verus! {

/// The kind of address record that is kept in sync.
#[derive(Copy, Clone, PartialEq, Eq, PartialOrd, Ord, Debug, Structural)]
pub enum RecordType {
    /// IPv4 address record
    A,
    /// IPv6 address record
    AAAA,
}

/// The provider's type tag of a record type.
pub open spec fn type_tag(t: RecordType) -> Seq<char> {
    match t {
        RecordType::A => seq!['A'],
        RecordType::AAAA => seq!['A', 'A', 'A', 'A'],
    }
}

impl RecordType {
    /// The provider's type tag: `"A"` or `"AAAA"`.
    pub fn tag(&self) -> (r: String)
        ensures
            r@ == type_tag(*self),
    {
        match self {
            RecordType::A => {
                let r = String::from_str("A");
                proof { reveal_strlit("A"); }
                r
            },
            RecordType::AAAA => {
                let r = String::from_str("AAAA");
                proof { reveal_strlit("AAAA"); }
                r
            },
        }
    }
}

/// The command line's subcommands.
#[derive(Debug, Clone)]
pub enum Commands {
    /// Keep one DNS record in sync with the WAN address.
    CfDdns {
        /// API token
        token: String,
        /// Zone name, e.g. example.org
        zone_name: String,
        /// Record name, e.g. home.example.org
        record_name: String,
        /// Record type, `A` by default
        record_type: RecordType,
        /// Record TTL in seconds, 3600 by default
        ttl: i32,
        /// Whether the provider proxies the record, off by default
        proxied: bool,
        /// Update even when the address is unchanged, off by default
        force: bool,
    },
}

/// Verbosity of the log.
#[derive(Copy, Clone, PartialEq, Eq, Debug, Structural)]
pub enum LogLevel {
    Info,
    Trace,
}

/// The log level for a debug flag given `debug` times:
/// none gives info, one or two give trace, more give info again.
pub fn log_level(debug: u8) -> (r: LogLevel)
    ensures
        r == (if 1 <= debug <= 2 { LogLevel::Trace } else { LogLevel::Info }),
{
    if debug == 1 || debug == 2 {
        LogLevel::Trace
    } else {
        LogLevel::Info
    }
}

} // verus!
