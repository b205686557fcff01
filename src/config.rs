use vstd::prelude::*;
use crate::error::{ApiError, Field};
use crate::pagination::{parse_u16, parse_u16_spec};

verus! {

/// Resolved settings of the server: log verbosity, bind port and database
/// connection parameters.
#[derive(Debug, Clone, PartialEq)]
pub struct Config {
    pub log_level: String,
    pub port: u16,
    pub db_user: String,
    pub db_password: String,
    pub db_host: String,
    pub db_port: u16,
    pub db_name: String,
}

/// An override where one is given, otherwise the default.
pub open spec fn chosen(value: Option<Seq<char>>, default: Seq<char>) -> Seq<char> {
    match value {
        Some(v) => v,
        None => default,
    }
}

/// The characters of an optional setting.
pub open spec fn setting_view(s: Option<String>) -> Option<Seq<char>> {
    match s {
        Some(v) => Some(v@),
        None => None,
    }
}

fn choose_setting(value: Option<String>, default: String) -> (r: String)
    ensures
        r@ == chosen(setting_view(value), default@),
{
    match value {
        Some(v) => v,
        None => default,
    }
}

impl Config {
    /// Resolves the settings from the command-line values `cli` and the
    /// overrides found in the environment: each override, where given, wins;
    /// the database password must be given; a port that is not a decimal
    /// `u16` is rejected, naming the setting (the server port first).
    pub fn resolve(
        cli: Config,
        port: Option<String>,
        db_user: Option<String>,
        db_password: String,
        db_host: Option<String>,
        db_port: Option<String>,
        db_name: Option<String>,
    ) -> (r: Result<Config, ApiError>)
        ensures
            port matches Some(p) && parse_u16_spec(p@) is None ==> r == Err::<Config, ApiError>(
                ApiError::ParseError(Field::Port),
            ),
            !(port matches Some(p) && parse_u16_spec(p@) is None) && (db_port matches Some(p)
                && parse_u16_spec(p@) is None) ==> r == Err::<Config, ApiError>(
                ApiError::ParseError(Field::DbPort),
            ),
            r is Err ==> (port matches Some(p) && parse_u16_spec(p@) is None) || (db_port matches Some(p)
                && parse_u16_spec(p@) is None),
            r matches Ok(c) ==> {
                &&& c.log_level@ == cli.log_level@
                &&& c.port == match port {
                    Some(p) => parse_u16_spec(p@).unwrap(),
                    None => cli.port,
                }
                &&& c.db_user@ == chosen(setting_view(db_user), cli.db_user@)
                &&& c.db_password@ == db_password@
                &&& c.db_host@ == chosen(setting_view(db_host), cli.db_host@)
                &&& c.db_port == match db_port {
                    Some(p) => parse_u16_spec(p@).unwrap(),
                    None => cli.db_port,
                }
                &&& c.db_name@ == chosen(setting_view(db_name), cli.db_name@)
            },
    {
        let port = match port {
            Some(p) => match parse_u16(p.as_str()) {
                Some(v) => v,
                None => { return Err(ApiError::ParseError(Field::Port)); },
            },
            None => cli.port,
        };
        let db_port = match db_port {
            Some(p) => match parse_u16(p.as_str()) {
                Some(v) => v,
                None => { return Err(ApiError::ParseError(Field::DbPort)); },
            },
            None => cli.db_port,
        };
        Ok(Config {
            log_level: cli.log_level,
            port,
            db_user: choose_setting(db_user, cli.db_user),
            db_password,
            db_host: choose_setting(db_host, cli.db_host),
            db_port,
            db_name: choose_setting(db_name, cli.db_name),
        })
    }
}

} // verus!
