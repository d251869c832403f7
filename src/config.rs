use vstd::prelude::*;

use crate::decimal::{is_unsigned_decimal, parse_unsigned, unsigned_value};

verus! {

/// The port listened on when none is given.
pub const DEFAULT_PORT: u16 = 8080;

/// How logs are written and from which level on.
#[derive(Clone, Debug, PartialEq)]
pub struct LoggerConfig {
    pub format: String,
    pub level: String,
}

/// The settings of the service.
#[derive(Clone, Debug, PartialEq)]
pub struct Config {
    pub port: u16,
    pub logger: LoggerConfig,
}

/// Why settings were refused.
#[derive(Clone, Debug, PartialEq)]
pub enum ConfigError {
    /// The port text is not a 16-bit unsigned number.
    InvalidPort(String),
}

/// Whether port text reads as a 16-bit unsigned number.
pub open spec fn is_port_text(s: Seq<char>) -> bool {
    is_unsigned_decimal(s) && unsigned_value(s) <= u16::MAX
}

impl Config {
    /// Settings from the raw values of `PORT`, `LOGGER_FORMAT` and `LOGGER_LEVEL`;
    /// each missing one takes its default: 8080, `kvp` and `INFO`.
    pub fn new(port: Option<String>, format: Option<String>, level: Option<String>) -> (r: Result<
        Config,
        ConfigError,
    >)
        ensures
            r is Ok <==> (port matches Some(p) ==> is_port_text(p@)),
            r matches Err(e) ==> port matches Some(p) && e == ConfigError::InvalidPort(p),
            r matches Ok(c) ==> {
                &&& port is None ==> c.port == DEFAULT_PORT
                &&& port matches Some(p) ==> c.port == unsigned_value(p@)
                &&& format is None ==> c.logger.format@ == "kvp"@
                &&& format matches Some(f) ==> c.logger.format == f
                &&& level is None ==> c.logger.level@ == "INFO"@
                &&& level matches Some(l) ==> c.logger.level == l
            },
    {
        let port = match port {
            None => DEFAULT_PORT,
            Some(p) => match parse_unsigned(p.as_str(), 0xffff) {
                Some(v) => v as u16,
                None => return Err(ConfigError::InvalidPort(p)),
            },
        };
        let format = match format {
            Some(f) => f,
            None => String::from_str("kvp"),
        };
        let level = match level {
            Some(l) => l,
            None => String::from_str("INFO"),
        };
        Ok(Config { port, logger: LoggerConfig { format, level } })
    }
}

} // verus!
