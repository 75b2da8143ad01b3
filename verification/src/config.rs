//! Where the vector database is and which collection to search.
use vstd::prelude::*;
use vstd::string::*;

use crate::numeric::{parse_u16, spec_parse_u16, decimal_chars, lemma_parse_decimal_roundtrip, IntErrorKind};

verus! {

/// The connection settings of the vector database.
#[derive(Debug, Clone)]
pub struct Config {
    pub qdrant_host: String,
    pub qdrant_port: u16,
    pub collection_name: String,
}

/// The settings of a `Config`, as plain values.
pub struct ConfigView {
    pub qdrant_host: Seq<char>,
    pub qdrant_port: u16,
    pub collection_name: Seq<char>,
}

impl View for Config {
    type V = ConfigView;

    open spec fn view(&self) -> ConfigView {
        ConfigView {
            qdrant_host: self.qdrant_host@,
            qdrant_port: self.qdrant_port,
            collection_name: self.collection_name@,
        }
    }
}

/// Why the settings cannot be used.
#[derive(Debug, Clone, Copy, PartialEq, Eq, Structural)]
pub enum ConfigError {
    /// The port setting is not a number between 0 and 65535.
    InvalidPort(IntErrorKind),
}

/// The host used when `QDRANT_HOST` is not set.
pub open spec fn default_qdrant_host() -> Seq<char> {
    "localhost"@
}

/// The port text used when `QDRANT_PORT` is not set.
pub open spec fn default_qdrant_port() -> Seq<char> {
    "6333"@
}

/// The collection used when `COLLECTION_NAME` is not set.
pub open spec fn default_collection_name() -> Seq<char> {
    "banking_scb_st_stpost"@
}

pub open spec fn opt_view(v: Option<String>) -> Option<Seq<char>> {
    match v {
        Some(s) => Some(s@),
        None => None,
    }
}

/// A setting's text, or its default where it is not set.
pub open spec fn setting_or(v: Option<Seq<char>>, default: Seq<char>) -> Seq<char> {
    match v {
        Some(s) => s,
        None => default,
    }
}

/// The configuration that the three settings describe: each unset one takes
/// its default, and the port text must read as a `u16`.
pub open spec fn spec_config(
    qdrant_host: Option<Seq<char>>,
    qdrant_port: Option<Seq<char>>,
    collection_name: Option<Seq<char>>,
) -> Result<ConfigView, IntErrorKind> {
    match spec_parse_u16(setting_or(qdrant_port, default_qdrant_port())) {
        Ok(port) => Ok(
            ConfigView {
                qdrant_host: setting_or(qdrant_host, default_qdrant_host()),
                qdrant_port: port,
                collection_name: setting_or(collection_name, default_collection_name()),
            },
        ),
        Err(kind) => Err(kind),
    }
}

fn setting_or_default(v: Option<String>, default: &str) -> (s: String)
    ensures
        s@ == setting_or(opt_view(v), default@),
{
    match v {
        Some(s) => s,
        None => String::from_str(default),
    }
}

impl Config {
    /// Builds the configuration from the values of the environment variables
    /// `QDRANT_HOST`, `QDRANT_PORT` and `COLLECTION_NAME` (`None` where a
    /// variable is unset). Unset values take the defaults `localhost`, `6333`
    /// and `banking_scb_st_stpost`; a port text that is not a `u16` is refused.
    pub fn from_env(
        qdrant_host: Option<String>,
        qdrant_port: Option<String>,
        collection_name: Option<String>,
    ) -> (res: Result<Config, ConfigError>)
        ensures
            match res {
                Ok(c) => spec_config(
                    opt_view(qdrant_host),
                    opt_view(qdrant_port),
                    opt_view(collection_name),
                ) == Ok::<ConfigView, IntErrorKind>(c@),
                Err(ConfigError::InvalidPort(kind)) => spec_config(
                    opt_view(qdrant_host),
                    opt_view(qdrant_port),
                    opt_view(collection_name),
                ) == Err::<ConfigView, IntErrorKind>(kind),
            },
            qdrant_port is None ==> (res matches Ok(c) && c.qdrant_port == 6333),
            res matches Ok(c) ==> {
                &&& (qdrant_host matches Some(h) ==> c.qdrant_host@ == h@)
                &&& (qdrant_host is None ==> c.qdrant_host@ == "localhost"@)
                &&& (qdrant_port matches Some(p) ==> spec_parse_u16(p@) == Ok::<u16, IntErrorKind>(c.qdrant_port))
                &&& (collection_name matches Some(n) ==> c.collection_name@ == n@)
                &&& (collection_name is None ==> c.collection_name@ == "banking_scb_st_stpost"@)
            },
            qdrant_port matches Some(p) ==> (res is Ok <==> spec_parse_u16(p@) is Ok),
    {
        proof {
            lemma_default_port();
            lemma_config_settings_read_separately(
                opt_view(qdrant_host),
                opt_view(qdrant_port),
                opt_view(collection_name),
            );
        }
        let qdrant_host = setting_or_default(qdrant_host, "localhost");
        let port_text = setting_or_default(qdrant_port, "6333");
        let collection_name = setting_or_default(collection_name, "banking_scb_st_stpost");
        match parse_u16(port_text.as_str()) {
            Ok(qdrant_port) => Ok(Config { qdrant_host, qdrant_port, collection_name }),
            Err(kind) => Err(ConfigError::InvalidPort(kind)),
        }
    }
}

/// The default port text reads as 6333.
proof fn lemma_default_port()
    ensures
        spec_parse_u16(default_qdrant_port()) == Ok::<u16, IntErrorKind>(6333),
{
    assert(decimal_chars(6333) =~= default_qdrant_port()) by {
        reveal_strlit("6333");
        assert(decimal_chars(6) =~= seq!['6']);
        assert(decimal_chars(63) =~= seq!['6', '3']);
        assert(decimal_chars(633) =~= seq!['6', '3', '3']);
        assert(decimal_chars(6333) =~= seq!['6', '3', '3', '3']);
    }
    lemma_parse_decimal_roundtrip(6333);
}

/// Each setting is read on its own: a set host or collection name is used
/// as given and an unset one takes its default, whatever the other settings
/// are; the port is the value of its text (6333 when unset), and only a port
/// text that is not a `u16` makes the settings unusable.
pub proof fn lemma_config_settings_read_separately(
    qdrant_host: Option<Seq<char>>,
    qdrant_port: Option<Seq<char>>,
    collection_name: Option<Seq<char>>,
)
    ensures
        qdrant_port is None ==> spec_config(qdrant_host, qdrant_port, collection_name) is Ok,
        qdrant_port matches Some(p) ==> (spec_config(qdrant_host, qdrant_port, collection_name) is Ok
            <==> spec_parse_u16(p) is Ok),
        spec_config(qdrant_host, qdrant_port, collection_name) matches Ok(v) ==> {
            &&& (qdrant_host matches Some(h) ==> v.qdrant_host == h)
            &&& (qdrant_host is None ==> v.qdrant_host == "localhost"@)
            &&& (qdrant_port matches Some(p) ==> spec_parse_u16(p) == Ok::<u16, IntErrorKind>(v.qdrant_port))
            &&& (qdrant_port is None ==> v.qdrant_port == 6333)
            &&& (collection_name matches Some(n) ==> v.collection_name == n)
            &&& (collection_name is None ==> v.collection_name == "banking_scb_st_stpost"@)
        },
{
    lemma_default_port();
}

/// Setting the port to the decimal text of a number yields that number, and
/// set host and collection names are kept as given: the settings that a
/// configuration was written from read back to the same configuration.
pub proof fn lemma_config_roundtrip(qdrant_host: Seq<char>, qdrant_port: u16, collection_name: Seq<char>)
    ensures
        spec_config(
            Some(qdrant_host),
            Some(decimal_chars(qdrant_port as nat)),
            Some(collection_name),
        ) == Ok::<ConfigView, IntErrorKind>(
            ConfigView { qdrant_host, qdrant_port, collection_name },
        ),
{
    lemma_parse_decimal_roundtrip(qdrant_port);
}

} // verus!
