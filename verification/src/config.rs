//! The connection descriptor: where the server is and who logs in.

use vstd::prelude::*;
use crate::json::{json_members, json_model, json_null, json_object, json_render, json_rendering, json_text, JsonModel};
use crate::transport::{config_pins_authority, config_settings, config_trusts_any_certificate, new_config, no_settings, set_application_name, set_database, set_host, set_instance_name, set_sql_login, trust_any_certificate, Setting};

verus! {

/// The login of a descriptor.
#[derive(Clone, Debug)]
pub struct Auth {
    username: String,
    password: String,
}

/// The connection descriptor.
#[derive(Clone, Debug)]
pub struct SqlConfig {
    application_name: Option<String>,
    host: String,
    instance_name: String,
    database: Option<String>,
    auth: Auth,
}

/// What a descriptor holds.
pub struct Descriptor {
    pub application_name: Option<Seq<char>>,
    pub host: Seq<char>,
    pub instance_name: Seq<char>,
    pub database: Option<Seq<char>>,
    pub username: Seq<char>,
    pub password: Seq<char>,
}

/// The descriptor in which every text is empty and every optional text is
/// absent.
pub open spec fn empty_descriptor() -> Descriptor {
    Descriptor {
        application_name: None,
        host: Seq::empty(),
        instance_name: Seq::empty(),
        database: None,
        username: Seq::empty(),
        password: Seq::empty(),
    }
}

/// The characters of an optional text.
pub open spec fn optional_text(text: Option<String>) -> Option<Seq<char>> {
    match text {
        Some(s) => Some(s@),
        None => None,
    }
}

/// The settings that a descriptor asks of the transport: the host, the
/// instance and the login always, the application name and the database where
/// the descriptor has them.
pub open spec fn transport_settings(d: Descriptor) -> Map<Setting, Seq<char>> {
    let base = no_settings().insert(Setting::Host, d.host).insert(
        Setting::InstanceName,
        d.instance_name,
    ).insert(Setting::User, d.username).insert(Setting::Password, d.password);
    let named = match d.application_name {
        Some(name) => base.insert(Setting::ApplicationName, name),
        None => base,
    };
    match d.database {
        Some(database) => named.insert(Setting::Database, database),
        None => named,
    }
}

/// The JSON value of an optional text: `null` where it is absent.
pub open spec fn optional_document(text: Option<Seq<char>>) -> JsonModel {
    match text {
        Some(s) => JsonModel::Text(s),
        None => JsonModel::Null,
    }
}

/// The document that shows a descriptor to the caller: everything but the
/// password.
pub open spec fn descriptor_document(d: Descriptor) -> JsonModel {
    JsonModel::Object(
        seq![
            ("host"@, JsonModel::Text(d.host)),
            ("database"@, optional_document(d.database)),
            ("instanceName"@, JsonModel::Text(d.instance_name)),
            ("applicationName"@, optional_document(d.application_name)),
            ("user"@, JsonModel::Text(d.username)),
        ],
    )
}

impl View for SqlConfig {
    type V = Descriptor;

    closed spec fn view(&self) -> Descriptor {
        Descriptor {
            application_name: optional_text(self.application_name),
            host: self.host@,
            instance_name: self.instance_name@,
            database: optional_text(self.database),
            username: self.auth.username@,
            password: self.auth.password@,
        }
    }
}

impl View for Auth {
    /// The user and the password.
    type V = (Seq<char>, Seq<char>);

    closed spec fn view(&self) -> (Seq<char>, Seq<char>) {
        (self.username@, self.password@)
    }
}

impl Default for Auth {
    fn default() -> (auth: Auth)
        ensures
            auth@ == (Seq::<char>::empty(), Seq::<char>::empty()),
    {
        Auth { username: String::new(), password: String::new() }
    }
}

impl Default for SqlConfig {
    fn default() -> (config: SqlConfig)
        ensures
            config@ == empty_descriptor(),
    {
        SqlConfig::new()
    }
}

/// The JSON value of an optional text.
fn optional_json(text: &Option<String>) -> (document: serde_json::Value)
    ensures
        json_model(document) == optional_document(optional_text(*text)),
{
    match text {
        Some(s) => json_text(s.as_str()),
        None => json_null(),
    }
}

/// The names of the members of the descriptor's document differ from each
/// other.
proof fn descriptor_names_differ()
    ensures
        "host"@ != "database"@,
        "host"@ != "instanceName"@,
        "host"@ != "applicationName"@,
        "host"@ != "user"@,
        "database"@ != "instanceName"@,
        "database"@ != "applicationName"@,
        "database"@ != "user"@,
        "instanceName"@ != "applicationName"@,
        "instanceName"@ != "user"@,
        "applicationName"@ != "user"@,
{
    reveal_strlit("host");
    reveal_strlit("database");
    reveal_strlit("instanceName");
    reveal_strlit("applicationName");
    reveal_strlit("user");
    assert("host"@.len() == 4);
    assert("database"@.len() == 8);
    assert("instanceName"@.len() == 12);
    assert("applicationName"@.len() == 15);
    assert("user"@.len() == 4);
    assert("host"@[0] == 'h');
    assert("user"@[0] == 'u');
}

impl SqlConfig {
    /// A descriptor in which every text is empty and every optional text is
    /// absent.
    pub fn new() -> (config: SqlConfig)
        ensures
            config@ == empty_descriptor(),
    {
        let config = SqlConfig {
            application_name: None,
            host: String::new(),
            instance_name: String::new(),
            database: None,
            auth: Auth { username: String::new(), password: String::new() },
        };
        assert(config@.host =~= Seq::<char>::empty());
        assert(config@.instance_name =~= Seq::<char>::empty());
        assert(config@.username =~= Seq::<char>::empty());
        assert(config@.password =~= Seq::<char>::empty());
        config
    }

    /// Sets the name under which the application shows itself to the server.
    pub fn application_name(&mut self, app_name: &str)
        ensures
            final(self)@ == (Descriptor { application_name: Some(app_name@), ..old(self)@ }),
    {
        self.application_name = Some(app_name.to_owned());
    }

    /// Sets the host of the server.
    pub fn host(&mut self, host: &str)
        ensures
            final(self)@ == (Descriptor { host: host@, ..old(self)@ }),
    {
        self.host = host.to_owned();
    }

    /// Sets the name of the instance on the host.
    pub fn instance_name(&mut self, instance_name: &str)
        ensures
            final(self)@ == (Descriptor { instance_name: instance_name@, ..old(self)@ }),
    {
        self.instance_name = instance_name.to_owned();
    }

    /// Sets the database to open.
    pub fn database(&mut self, database: &str)
        ensures
            final(self)@ == (Descriptor { database: Some(database@), ..old(self)@ }),
    {
        self.database = Some(database.to_owned());
    }

    /// Sets the login.
    pub fn auth(&mut self, usr: &str, pwd: &str)
        ensures
            final(self)@ == (Descriptor { username: usr@, password: pwd@, ..old(self)@ }),
    {
        self.auth = Auth { username: usr.to_owned(), password: pwd.to_owned() };
    }

    /// The transport's configuration for the descriptor. It holds the
    /// descriptor's settings and no others, and accepts any certificate of the
    /// server.
    pub fn get_tiberius_config(&self) -> (config: tiberius::Config)
        ensures
            config_settings(config) == transport_settings(self@),
            config_trusts_any_certificate(config),
            !config_pins_authority(config),
    {
        let mut config = new_config();
        set_host(&mut config, self.host.as_str());
        set_instance_name(&mut config, self.instance_name.as_str());
        set_sql_login(&mut config, self.auth.username.as_str(), self.auth.password.as_str());
        trust_any_certificate(&mut config);
        match &self.application_name {
            Some(name) => set_application_name(&mut config, name.as_str()),
            None => {},
        }
        match &self.database {
            Some(database) => set_database(&mut config, database.as_str()),
            None => {},
        }
        config
    }

    /// The JSON text that shows the descriptor to the caller: the host, the
    /// database, the instance, the application name and the user, and not the
    /// password.
    pub fn default_config(&self) -> (text: String)
        ensures
            text@ == json_rendering(descriptor_document(self@)),
    {
        let mut pairs: Vec<(String, serde_json::Value)> = Vec::new();
        pairs.push(("host".to_owned(), json_text(self.host.as_str())));
        pairs.push(("database".to_owned(), optional_json(&self.database)));
        pairs.push(("instanceName".to_owned(), json_text(self.instance_name.as_str())));
        pairs.push(("applicationName".to_owned(), optional_json(&self.application_name)));
        pairs.push(("user".to_owned(), json_text(self.auth.username.as_str())));
        proof {
            descriptor_names_differ();
            assert(descriptor_document(self@) matches JsonModel::Object(members) && members
                =~= json_members(pairs@));
        }
        let document = json_object(pairs);
        json_render(&document)
    }
}

} // verus!
