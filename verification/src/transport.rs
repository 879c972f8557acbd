//! The transport's configuration, as this crate fills it and hands it on.
//!
//! A `tiberius::Config` cannot be read back, so what one holds is described by
//! a model: the settings that were written into it.

use vstd::prelude::*;

verus! {

#[verifier::external_type_specification]
#[verifier::external_body]
pub struct ExTransportConfig(tiberius::Config);

#[verifier::external_type_specification]
#[verifier::external_body]
pub struct ExTransportError(tiberius::error::Error);

/// A setting of the transport that holds a text.
pub enum Setting {
    Host,
    InstanceName,
    Database,
    ApplicationName,
    User,
    Password,
}

/// The texts that were written into a configuration, by setting. A setting
/// that was never written is absent.
pub uninterp spec fn config_settings(config: tiberius::Config) -> Map<Setting, Seq<char>>;

/// The configuration accepts any certificate that the server presents.
pub uninterp spec fn config_trusts_any_certificate(config: tiberius::Config) -> bool;

/// The configuration names a certificate authority of its own.
pub uninterp spec fn config_pins_authority(config: tiberius::Config) -> bool;

/// No setting is written.
pub open spec fn no_settings() -> Map<Setting, Seq<char>> {
    Map::empty()
}

/// `tiberius::Config::new`: a configuration in which no host, instance,
/// database, application name or login is set, and certificates are checked in
/// the default way.
#[verifier::external_body]
pub(crate) fn new_config() -> (config: tiberius::Config)
    ensures
        config_settings(config) == no_settings(),
        !config_trusts_any_certificate(config),
        !config_pins_authority(config),
{
    tiberius::Config::new()
}

/// `tiberius::Config::host`: sets the host and nothing else.
#[verifier::external_body]
pub(crate) fn set_host(config: &mut tiberius::Config, host: &str)
    ensures
        config_settings(*final(config)) == config_settings(*old(config)).insert(
            Setting::Host,
            host@,
        ),
        config_trusts_any_certificate(*final(config)) == config_trusts_any_certificate(
            *old(config),
        ),
        config_pins_authority(*final(config)) == config_pins_authority(*old(config)),
{
    config.host(host)
}

/// `tiberius::Config::instance_name`: sets the name of the instance and
/// nothing else.
#[verifier::external_body]
pub(crate) fn set_instance_name(config: &mut tiberius::Config, name: &str)
    ensures
        config_settings(*final(config)) == config_settings(*old(config)).insert(
            Setting::InstanceName,
            name@,
        ),
        config_trusts_any_certificate(*final(config)) == config_trusts_any_certificate(
            *old(config),
        ),
        config_pins_authority(*final(config)) == config_pins_authority(*old(config)),
{
    config.instance_name(name)
}

/// `tiberius::Config::database`: sets the database and nothing else.
#[verifier::external_body]
pub(crate) fn set_database(config: &mut tiberius::Config, database: &str)
    ensures
        config_settings(*final(config)) == config_settings(*old(config)).insert(
            Setting::Database,
            database@,
        ),
        config_trusts_any_certificate(*final(config)) == config_trusts_any_certificate(
            *old(config),
        ),
        config_pins_authority(*final(config)) == config_pins_authority(*old(config)),
{
    config.database(database)
}

/// `tiberius::Config::application_name`: sets the name of the application and
/// nothing else.
#[verifier::external_body]
pub(crate) fn set_application_name(config: &mut tiberius::Config, name: &str)
    ensures
        config_settings(*final(config)) == config_settings(*old(config)).insert(
            Setting::ApplicationName,
            name@,
        ),
        config_trusts_any_certificate(*final(config)) == config_trusts_any_certificate(
            *old(config),
        ),
        config_pins_authority(*final(config)) == config_pins_authority(*old(config)),
{
    config.application_name(name)
}

/// `tiberius::Config::authentication` with the method that
/// `tiberius::AuthMethod::sql_server` makes: sets the login to the user and
/// the password, and nothing else.
#[verifier::external_body]
pub(crate) fn set_sql_login(config: &mut tiberius::Config, user: &str, password: &str)
    ensures
        config_settings(*final(config)) == config_settings(*old(config)).insert(
            Setting::User,
            user@,
        ).insert(Setting::Password, password@),
        config_trusts_any_certificate(*final(config)) == config_trusts_any_certificate(
            *old(config),
        ),
        config_pins_authority(*final(config)) == config_pins_authority(*old(config)),
{
    config.authentication(tiberius::AuthMethod::sql_server(user, password))
}

/// `tiberius::Config::trust_cert`: makes the configuration accept any
/// certificate, and changes nothing else. The method aborts on a
/// configuration that names a certificate authority.
#[verifier::external_body]
pub(crate) fn trust_any_certificate(config: &mut tiberius::Config)
    requires
        !config_pins_authority(*old(config)),
    ensures
        config_settings(*final(config)) == config_settings(*old(config)),
        config_trusts_any_certificate(*final(config)),
        !config_pins_authority(*final(config)),
{
    config.trust_cert()
}

} // verus!
