//! The configuration that a connect attempt uses: the descriptor's, or that of
//! a connection string given in its place.

use vstd::prelude::*;
use crate::config::{transport_settings, SqlConfig};
use crate::errors::SessionError;
use crate::options::{ado_conflict, ado_sets_both, jdbc_conflict, jdbc_sets_both};
use crate::text::{chars_of, has_prefix};
use crate::transport::{config_pins_authority, config_settings, config_trusts_any_certificate, Setting};

verus! {

/// The two styles of a connection string.
#[derive(Clone, Copy, Debug, PartialEq, Eq, Structural)]
pub enum ConnectionStringStyle {
    /// `jdbc:sqlserver://host;name=value;...`
    Jdbc,
    /// `name=value;name=value;...`
    Ado,
}

/// The beginning of every connection string of the JDBC style.
pub open spec fn jdbc_prefix() -> Seq<char> {
    "jdbc:sqlserver://"@
}

/// The style of a connection string: JDBC where it begins with the JDBC
/// prefix, ADO in every other case.
pub open spec fn style_of(text: Seq<char>) -> ConnectionStringStyle {
    if jdbc_prefix().is_prefix_of(text) {
        ConnectionStringStyle::Jdbc
    } else {
        ConnectionStringStyle::Ado
    }
}

/// What the transport's JDBC parser makes of a text: the settings of the
/// configuration that it builds, or `None` where it refuses the text.
pub uninterp spec fn jdbc_parse(text: Seq<char>) -> Option<Map<Setting, Seq<char>>>;

/// What the transport's ADO parser makes of a text: the settings of the
/// configuration that it builds, or `None` where it refuses the text.
pub uninterp spec fn ado_parse(text: Seq<char>) -> Option<Map<Setting, Seq<char>>>;

/// What the JDBC parser gives for a text, or `None` for a text that sets both
/// options on the server's certificate, on which the parser aborts.
pub open spec fn jdbc_settings(text: Seq<char>) -> Option<Map<Setting, Seq<char>>> {
    if jdbc_conflict(text) {
        None
    } else {
        jdbc_parse(text)
    }
}

/// What the ADO parser gives for a text, or `None` for a text that sets both
/// options on the server's certificate, on which the parser aborts.
pub open spec fn ado_settings(text: Seq<char>) -> Option<Map<Setting, Seq<char>>> {
    if ado_conflict(text) {
        None
    } else {
        ado_parse(text)
    }
}

/// The settings of a connection string, as the parser of its style gives
/// them, or `None` where the string is invalid.
pub open spec fn string_settings(text: Seq<char>) -> Option<Map<Setting, Seq<char>>> {
    match style_of(text) {
        ConnectionStringStyle::Jdbc => jdbc_settings(text),
        ConnectionStringStyle::Ado => ado_settings(text),
    }
}

/// Every string that begins with the JDBC prefix has the JDBC style, whatever
/// follows the prefix, and every other string has the ADO style.
pub proof fn law_prefix_decides_style(text: Seq<char>, rest: Seq<char>)
    ensures
        style_of(jdbc_prefix() + rest) == ConnectionStringStyle::Jdbc,
        !jdbc_prefix().is_prefix_of(text) ==> style_of(text) == ConnectionStringStyle::Ado,
        style_of(text) == ConnectionStringStyle::Jdbc ==> text == jdbc_prefix() + text.skip(
            jdbc_prefix().len() as int,
        ),
{
    let whole = jdbc_prefix() + rest;
    assert(whole.subrange(0, jdbc_prefix().len() as int) =~= jdbc_prefix());
    if style_of(text) == ConnectionStringStyle::Jdbc {
        assert(text =~= jdbc_prefix() + text.skip(jdbc_prefix().len() as int));
    }
}

/// A connection string that begins with the JDBC prefix is judged by the
/// JDBC parser and by no other; every other string is judged by the ADO
/// parser and by no other.
pub proof fn law_prefix_decides_parser(text: Seq<char>)
    ensures
        jdbc_prefix().is_prefix_of(text) ==> string_settings(text) == jdbc_settings(text),
        !jdbc_prefix().is_prefix_of(text) ==> string_settings(text) == ado_settings(text),
{
}

/// The style of a connection string.
pub fn connection_string_style(text: &str) -> (style: ConnectionStringStyle)
    ensures
        style == style_of(text@),
{
    let chars = chars_of(text);
    let prefix = chars_of("jdbc:sqlserver://");
    if has_prefix(&chars, &prefix) {
        ConnectionStringStyle::Jdbc
    } else {
        ConnectionStringStyle::Ado
    }
}

/// `tiberius::Config::from_jdbc_string`: the parser reads its argument and
/// nothing else, so whether it accepts the text, and the settings of the
/// configuration that it builds, depend on the text alone. The function
/// aborts where the text holds both options on the server's certificate, the
/// first with a true value: it finds them with the lexer that reads the
/// properties here.
#[verifier::external_body]
fn parse_jdbc(text: &str) -> (parsed: Result<tiberius::Config, tiberius::error::Error>)
    requires
        !jdbc_conflict(text@),
    ensures
        parsed is Ok <==> jdbc_parse(text@) is Some,
        parsed matches Ok(config) ==> jdbc_parse(text@) == Some(config_settings(config)),
{
    tiberius::Config::from_jdbc_string(text)
}

/// `tiberius::Config::from_ado_string`: the parser reads its argument and
/// nothing else, so whether it accepts the text, and the settings of the
/// configuration that it builds, depend on the text alone. The function
/// aborts where the text holds both options on the server's certificate, the
/// first with a true value: it finds them with the lexer that reads the pairs
/// here.
#[verifier::external_body]
fn parse_ado(text: &str) -> (parsed: Result<tiberius::Config, tiberius::error::Error>)
    requires
        !ado_conflict(text@),
    ensures
        parsed is Ok <==> ado_parse(text@) is Some,
        parsed matches Ok(config) ==> ado_parse(text@) == Some(config_settings(config)),
{
    tiberius::Config::from_ado_string(text)
}

/// What the session makes of a parsed connection string: the configuration,
/// or the one failure that stands for every refusal of the parser.
pub fn accept_parsed(parsed: Result<tiberius::Config, tiberius::error::Error>) -> (out: Result<
    tiberius::Config,
    SessionError,
>)
    ensures
        match parsed {
            Ok(config) => out matches Ok(c) && c == config,
            Err(_) => out matches Err(SessionError::InvalidConnectionString),
        },
{
    match parsed {
        Ok(config) => Ok(config),
        Err(_) => Err(SessionError::InvalidConnectionString),
    }
}

/// The outcome is what the session owes for a connection string: a
/// configuration with the string's settings, or the failure of an invalid
/// string.
pub open spec fn is_config_of_string(
    text: Seq<char>,
    out: Result<tiberius::Config, SessionError>,
) -> bool {
    match string_settings(text) {
        Some(settings) => out matches Ok(config) && config_settings(config) == settings,
        None => out matches Err(SessionError::InvalidConnectionString),
    }
}

/// The configuration of a JDBC connection string. A string that sets both
/// options on the server's certificate is invalid, and so is one that the
/// parser refuses.
pub fn parse_jdbc_string(text: &str) -> (out: Result<tiberius::Config, SessionError>)
    ensures
        match jdbc_settings(text@) {
            Some(settings) => out matches Ok(config) && config_settings(config) == settings,
            None => out matches Err(SessionError::InvalidConnectionString),
        },
{
    if jdbc_sets_both(text) {
        Err(SessionError::InvalidConnectionString)
    } else {
        accept_parsed(parse_jdbc(text))
    }
}

/// The configuration of an ADO connection string. A string that sets both
/// options on the server's certificate is invalid, and so is one that the
/// parser refuses.
pub fn parse_ado_string(text: &str) -> (out: Result<tiberius::Config, SessionError>)
    ensures
        match ado_settings(text@) {
            Some(settings) => out matches Ok(config) && config_settings(config) == settings,
            None => out matches Err(SessionError::InvalidConnectionString),
        },
{
    if ado_sets_both(text) {
        Err(SessionError::InvalidConnectionString)
    } else {
        accept_parsed(parse_ado(text))
    }
}

/// The configuration of a connection string. The string goes to the parser of
/// its style and to no other.
pub fn parse_connection_string(text: &str) -> (out: Result<tiberius::Config, SessionError>)
    ensures
        is_config_of_string(text@, out),
{
    match connection_string_style(text) {
        ConnectionStringStyle::Jdbc => parse_jdbc_string(text),
        ConnectionStringStyle::Ado => parse_ado_string(text),
    }
}

/// The configuration of a connect attempt. A connection string, where one is
/// given, takes the place of the descriptor: the descriptor is not read, and
/// an invalid string is a failure.
pub fn connection_config(descriptor: &SqlConfig, connection_string: Option<&str>) -> (out: Result<
    tiberius::Config,
    SessionError,
>)
    ensures
        connection_string is None ==> (out matches Ok(config) && config_settings(config)
            == transport_settings(descriptor@) && config_trusts_any_certificate(config)
            && !config_pins_authority(config)),
        connection_string matches Some(text) ==> is_config_of_string(text@, out),
{
    match connection_string {
        Some(text) => parse_connection_string(text),
        None => Ok(descriptor.get_tiberius_config()),
    }
}

} // verus!
