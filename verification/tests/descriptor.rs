use mssql_session::connection::{
    accept_parsed, connection_config, connection_string_style, parse_ado_string,
    parse_connection_string, parse_jdbc_string,
};
use mssql_session::options::{ado_sets_both, is_switched_on, jdbc_sets_both};
use mssql_session::{ConnectionStringStyle, SessionError, SqlConfig};

fn sample() -> SqlConfig {
    let mut config = SqlConfig::new();
    config.host("db.example.com");
    config.instance_name("SQLEXPRESS");
    config.auth("sa", "secret");
    config
}

#[test]
fn new_descriptor_is_empty() {
    assert_eq!(
        SqlConfig::new().default_config(),
        "{\"host\":\"\",\"database\":null,\"instanceName\":\"\",\"applicationName\":null,\"user\":\"\"}"
    );
}

#[test]
fn default_descriptor_is_the_new_one() {
    assert_eq!(SqlConfig::default().default_config(), SqlConfig::new().default_config());
}

#[test]
fn builders_set_their_fields() {
    let mut config = sample();
    config.application_name("reports");
    config.database("sales");
    assert_eq!(
        config.default_config(),
        "{\"host\":\"db.example.com\",\"database\":\"sales\",\"instanceName\":\"SQLEXPRESS\",\"applicationName\":\"reports\",\"user\":\"sa\"}"
    );
}

#[test]
fn builders_overwrite_earlier_values() {
    let mut config = sample();
    config.host("other");
    config.auth("reader", "pw");
    config.database("one");
    config.database("two");
    assert_eq!(
        config.default_config(),
        "{\"host\":\"other\",\"database\":\"two\",\"instanceName\":\"SQLEXPRESS\",\"applicationName\":null,\"user\":\"reader\"}"
    );
}

#[test]
fn shown_descriptor_leaves_the_password_out() {
    let text = sample().default_config();
    assert!(!text.contains("secret"));
    let parsed: serde_json::Value = serde_json::from_str(&text).unwrap();
    assert_eq!(parsed.as_object().unwrap().len(), 5);
    assert!(parsed.get("password").is_none());
}

#[test]
fn descriptor_clone_shows_the_same() {
    let config = sample();
    assert_eq!(config.clone().default_config(), config.default_config());
}

#[test]
fn transport_config_holds_the_descriptor() {
    let mut config = sample();
    config.application_name("reports");
    config.database("sales");
    let shown = format!("{:?}", config.get_tiberius_config());
    assert!(shown.contains("host: Some(\"db.example.com\")"));
    assert!(shown.contains("instance_name: Some(\"SQLEXPRESS\")"));
    assert!(shown.contains("database: Some(\"sales\")"));
    assert!(shown.contains("application_name: Some(\"reports\")"));
    assert!(shown.contains("user: \"sa\""));
    assert!(shown.contains("trust: TrustAll"));
    assert!(shown.contains("port: None"));
}

#[test]
fn transport_config_without_optional_fields() {
    let shown = format!("{:?}", sample().get_tiberius_config());
    assert!(shown.contains("database: None"));
    assert!(shown.contains("application_name: None"));
    assert!(shown.contains("trust: TrustAll"));
}

#[test]
fn transport_config_of_an_empty_descriptor() {
    let shown = format!("{:?}", SqlConfig::new().get_tiberius_config());
    assert!(shown.contains("host: Some(\"\")"));
    assert!(shown.contains("instance_name: Some(\"\")"));
    assert!(shown.contains("user: \"\""));
}

#[test]
fn transport_config_addresses_the_browser_of_the_instance() {
    assert_eq!(sample().get_tiberius_config().get_addr(), "db.example.com:1434");
}

#[test]
fn jdbc_prefix_selects_the_jdbc_style() {
    assert_eq!(connection_string_style("jdbc:sqlserver://"), ConnectionStringStyle::Jdbc);
    assert_eq!(
        connection_string_style("jdbc:sqlserver://localhost:1433;database=master"),
        ConnectionStringStyle::Jdbc
    );
}

#[test]
fn every_other_string_has_the_ado_style() {
    assert_eq!(connection_string_style("server=tcp:localhost,1433"), ConnectionStringStyle::Ado);
    assert_eq!(connection_string_style(""), ConnectionStringStyle::Ado);
    assert_eq!(connection_string_style("jdbc:sqlserver:/"), ConnectionStringStyle::Ado);
    assert_eq!(connection_string_style("jdbc:sqlserver:"), ConnectionStringStyle::Ado);
    assert_eq!(connection_string_style(" jdbc:sqlserver://x"), ConnectionStringStyle::Ado);
    assert_eq!(connection_string_style("JDBC:SQLSERVER://x"), ConnectionStringStyle::Ado);
    assert_eq!(connection_string_style("jdbc:mysql://x"), ConnectionStringStyle::Ado);
    assert_eq!(connection_string_style("é=jdbc:sqlserver://"), ConnectionStringStyle::Ado);
}

#[test]
fn values_that_switch_an_option_on() {
    assert!(is_switched_on("true"));
    assert!(is_switched_on("yes"));
    assert!(is_switched_on("TRUE"));
    assert!(is_switched_on("Yes"));
    assert!(is_switched_on(" true "));
    assert!(is_switched_on("\tyes\n"));
}

#[test]
fn values_that_do_not_switch_an_option_on() {
    assert!(!is_switched_on(""));
    assert!(!is_switched_on("false"));
    assert!(!is_switched_on("no"));
    assert!(!is_switched_on("maybe"));
    assert!(!is_switched_on("truee"));
    assert!(!is_switched_on("tru"));
    assert!(!is_switched_on("yes true"));
    assert!(!is_switched_on("1"));
}

#[test]
fn both_trust_options_in_an_ado_string() {
    assert!(ado_sets_both(
        "server=x;TrustServerCertificate=true;TrustServerCertificateCA=/ca.pem"
    ));
    assert!(ado_sets_both(
        "server=x;TrustServerCertificateCA=/ca.pem;TRUSTSERVERCERTIFICATE=YES"
    ));
    assert!(ado_sets_both(
        "server=x;Trust{Server}Certificate=\"yes\";Trust\n\"ServerCertificateCA\"=a"
    ));
}

#[test]
fn line_break_inside_quotes_belongs_to_the_name() {
    let text = "server=x;TrustServerCertificate=yes;\"Trust\nServerCertificateCA\"=a";
    assert!(!ado_sets_both(text));
    let config = parse_connection_string(text).unwrap();
    assert!(format!("{:?}", config).contains("trust: TrustAll"));
}

#[test]
fn both_trust_options_in_a_jdbc_string() {
    assert!(jdbc_sets_both(
        "jdbc:sqlserver://x;trustServerCertificate= true ;trustServerCertificateCA=a"
    ));
    assert!(jdbc_sets_both(
        "jdbc:sqlserver://x;{trustServerCertificate}={yes};trustServerCertificateCA={/ca.pem}"
    ));
}

#[test]
fn one_trust_option_alone_is_not_both() {
    assert!(!ado_sets_both(""));
    assert!(!ado_sets_both("server=x;user=sa"));
    assert!(!ado_sets_both("server=x;TrustServerCertificate=true"));
    assert!(!ado_sets_both("server=x;TrustServerCertificateCA=/ca.pem"));
    assert!(!ado_sets_both("server=x;TrustServerCertificate=true;TrustServerCertificate=yes"));
    assert!(!jdbc_sets_both("jdbc:sqlserver://x;trustServerCertificate=true"));
    assert!(!jdbc_sets_both("jdbc:sqlserver://x;trustServerCertificateCA=a"));
}

#[test]
fn first_trust_option_switched_off_is_not_both() {
    assert!(!ado_sets_both(
        "server=x;TrustServerCertificate=false;TrustServerCertificateCA=/ca.pem"
    ));
    assert!(!ado_sets_both("server=x;TrustServerCertificate=no;TrustServerCertificateCA=/ca.pem"));
    assert!(!ado_sets_both(
        "server=x;TrustServerCertificate=maybe;TrustServerCertificateCA=/ca.pem"
    ));
    assert!(!jdbc_sets_both(
        "jdbc:sqlserver://x;trustServerCertificate=false;trustServerCertificateCA=a"
    ));
}

#[test]
fn option_name_in_a_value_is_no_option() {
    assert!(!ado_sets_both("pwd=trustservercertificateca;trustservercertificate=yes"));
    assert!(!ado_sets_both(
        "server=h;TrustServerCertificate=true;Application Name=TrustServerCertificateCache"
    ));
    assert!(!ado_sets_both("pwd=TrustServerCertificate true;TrustServerCertificateCA=a"));
    assert!(!jdbc_sets_both(
        "jdbc:sqlserver://h;trustServerCertificate=true;password=trustservercertificateca"
    ));
}

#[test]
fn strings_that_the_lexer_refuses_set_nothing() {
    assert!(!ado_sets_both("TrustServerCertificate=true;TrustServerCertificateCA=a;server"));
    assert!(!ado_sets_both("TrustServerCertificate=true;TrustServerCertificateCA=é"));
    assert!(!jdbc_sets_both("trustServerCertificate=true;trustServerCertificateCA=a"));
    assert!(!jdbc_sets_both(
        "jdbc:sqlserver://x;trustServerCertificate=true;trustServerCertificateCA=/ca.pem"
    ));
}

#[test]
fn each_lexer_reads_its_own_style() {
    let ado = "server=x;TrustServerCertificate=true;TrustServerCertificateCA=a";
    assert!(ado_sets_both(ado));
    assert!(!jdbc_sets_both(ado));
    let jdbc = "jdbc:sqlserver://x;trustServerCertificate=true;trustServerCertificateCA=a";
    assert!(jdbc_sets_both(jdbc));
    assert!(!ado_sets_both(jdbc));
}

#[test]
fn jdbc_string_is_parsed() {
    let config = parse_connection_string(
        "jdbc:sqlserver://db.example.com:4200;database=sales;user=sa;password=secret",
    )
    .unwrap();
    assert_eq!(config.get_addr(), "db.example.com:4200");
    let shown = format!("{:?}", config);
    assert!(shown.contains("database: Some(\"sales\")"));
    assert!(shown.contains("user: \"sa\""));
}

#[test]
fn ado_string_is_parsed() {
    let config = parse_connection_string(
        "server=tcp:db.example.com,4200;database=sales;user=sa;password=secret;TrustServerCertificate=true",
    )
    .unwrap();
    assert_eq!(config.get_addr(), "db.example.com:4200");
    let shown = format!("{:?}", config);
    assert!(shown.contains("database: Some(\"sales\")"));
    assert!(shown.contains("trust: TrustAll"));
}

#[test]
fn ado_string_with_certificate_authority_alone_is_parsed() {
    let config =
        parse_connection_string("server=tcp:localhost,1433;TrustServerCertificateCA=/ca.pem")
            .unwrap();
    assert!(format!("{:?}", config).contains("CaCertificateLocation"));
}

#[test]
fn jdbc_string_goes_to_the_jdbc_parser() {
    // The ADO parser would refuse this string, and the JDBC parser refuses its ADO twin.
    assert!(parse_connection_string("jdbc:sqlserver://localhost:1433").is_ok());
    assert!(matches!(
        parse_connection_string("jdbc:sqlserver://localhost:port"),
        Err(SessionError::InvalidConnectionString)
    ));
}

#[test]
fn malformed_strings_are_invalid() {
    assert!(matches!(
        parse_connection_string("server"),
        Err(SessionError::InvalidConnectionString)
    ));
    assert!(matches!(
        parse_connection_string("server=tcp:localhost,notaport"),
        Err(SessionError::InvalidConnectionString)
    ));
    assert!(matches!(
        parse_connection_string("server=é"),
        Err(SessionError::InvalidConnectionString)
    ));
    assert!(matches!(
        parse_connection_string("jdbc:sqlserver://localhost;database"),
        Err(SessionError::InvalidConnectionString)
    ));
}

#[test]
fn empty_string_is_an_ado_string_without_settings() {
    let config = parse_connection_string("").unwrap();
    assert_eq!(config.get_addr(), "localhost:1433");
}

#[test]
fn conflicting_trust_options_are_invalid_and_do_not_abort() {
    let strings = [
        "server=x;TrustServerCertificate=true;TrustServerCertificateCA=/ca.pem",
        "server=x;TrustServerCertificateCA=/ca.pem;TrustServerCertificate=yes",
        "server=x;TrustServerCertificate= true ;TrustServerCertificateCA=/ca.pem",
        "server=x;trustservercertificate={yes};TrustServerCertificateCA=a",
        "server=x;\"TrustServerCertificate\"=\"TRUE\";TrustServerCertificateCA=a",
        "server=x;Trust\nServerCertificate=Yes;'TrustServerCertificateCA'=a",
        "jdbc:sqlserver://x;trustServerCertificate=true;trustServerCertificateCA=/ca.pem",
        "jdbc:sqlserver://x;trustServerCertificate= yes ;trustServerCertificateCA=a",
        "jdbc:sqlserver://x;{trustServerCertificate}={true};trustServerCertificateCA=a",
    ];
    for text in strings {
        assert!(matches!(
            parse_connection_string(text),
            Err(SessionError::InvalidConnectionString)
        ));
    }
}

#[test]
fn first_trust_option_switched_off_beside_an_authority_is_parsed() {
    let config = parse_connection_string(
        "server=tcp:h,99;TrustServerCertificate=false;TrustServerCertificateCA=/ca.pem",
    )
    .unwrap();
    assert!(format!("{:?}", config).contains("CaCertificateLocation"));
    let config = parse_connection_string(
        "jdbc:sqlserver://h:99;trustServerCertificate=no;trustServerCertificateCA={/ca.pem}",
    )
    .unwrap();
    assert!(format!("{:?}", config).contains("CaCertificateLocation"));
}

#[test]
fn option_name_in_a_value_is_parsed() {
    let config =
        parse_connection_string("pwd=trustservercertificateca;trustservercertificate=yes")
            .unwrap();
    assert!(format!("{:?}", config).contains("trust: TrustAll"));
    let config = parse_connection_string(
        "jdbc:sqlserver://h;trustServerCertificate=true;password=trustservercertificateca",
    )
    .unwrap();
    assert!(format!("{:?}", config).contains("trust: TrustAll"));
    let config = parse_connection_string(
        "server=h;TrustServerCertificate=true;Application Name=TrustServerCertificateCache",
    )
    .unwrap();
    let shown = format!("{:?}", config);
    assert!(shown.contains("trust: TrustAll"));
    assert!(shown.contains("application_name: Some(\"TrustServerCertificateCache\")"));
}

#[test]
fn option_name_with_blanks_is_another_name() {
    let config = parse_connection_string(
        "server=h;Trust Server Certificate=true;TrustServerCertificateCA=/ca.pem",
    )
    .unwrap();
    assert!(format!("{:?}", config).contains("CaCertificateLocation"));
}

#[test]
fn styles_have_their_own_functions() {
    assert_eq!(parse_jdbc_string("jdbc:sqlserver://j:5").unwrap().get_addr(), "j:5");
    assert_eq!(parse_ado_string("server=tcp:a,6").unwrap().get_addr(), "a:6");
    assert!(matches!(
        parse_jdbc_string("server=tcp:a,6"),
        Err(SessionError::InvalidConnectionString)
    ));
    assert!(matches!(
        parse_ado_string("jdbc:sqlserver://j:5"),
        Err(SessionError::InvalidConnectionString)
    ));
    assert!(matches!(
        parse_ado_string("server=x;TrustServerCertificate=true;TrustServerCertificateCA=a"),
        Err(SessionError::InvalidConnectionString)
    ));
    assert!(matches!(
        parse_jdbc_string(
            "jdbc:sqlserver://x;trustServerCertificate=true;trustServerCertificateCA=a"
        ),
        Err(SessionError::InvalidConnectionString)
    ));
}

#[test]
fn first_trust_option_given_twice_is_parsed() {
    let config = parse_connection_string(
        "server=tcp:h,99;TrustServerCertificate=true;TrustServerCertificate=yes",
    )
    .unwrap();
    assert!(format!("{:?}", config).contains("trust: TrustAll"));
}

#[test]
fn trust_option_that_is_no_truth_value_is_invalid() {
    assert!(matches!(
        parse_connection_string(
            "server=x;TrustServerCertificate=maybe;TrustServerCertificateCA=/ca.pem"
        ),
        Err(SessionError::InvalidConnectionString)
    ));
    assert!(matches!(
        parse_connection_string("server=x;TrustServerCertificate=t.r.u.e;TrustServerCertificateCA=a"),
        Err(SessionError::InvalidConnectionString)
    ));
    assert!(tiberius::Config::from_ado_string("server=x;TrustServerCertificate=t.r.u.e").is_err());
}

#[test]
fn bare_jdbc_prefix_goes_to_the_jdbc_parser() {
    // The ADO parser refuses this string for want of a `=`.
    assert!(tiberius::Config::from_ado_string("jdbc:sqlserver://").is_err());
    let config = parse_connection_string("jdbc:sqlserver://").unwrap();
    assert_eq!(config.get_addr(), "localhost:1433");
}

#[test]
fn jdbc_prefix_in_capitals_goes_to_the_ado_parser() {
    // As an ADO string this is a name, `JDBC:SQLSERVER://h;a`, with the value `b`.
    assert!(tiberius::Config::from_jdbc_string("JDBC:SQLSERVER://h;a=b").is_err());
    assert!(tiberius::Config::from_ado_string("JDBC:SQLSERVER://h;a=b").is_err());
    assert!(matches!(
        parse_connection_string("JDBC:SQLSERVER://localhost:1433"),
        Err(SessionError::InvalidConnectionString)
    ));
    assert!(tiberius::Config::from_jdbc_string("x=jdbc:sqlserver://h").is_err());
    assert!(parse_connection_string("x=jdbc:sqlserver://h").is_ok());
}

#[test]
fn parsed_string_gives_the_settings_of_the_parser() {
    let text = "server=tcp:db.example.com,4200;database=sales;user=sa;password=secret";
    let own = format!("{:?}", parse_connection_string(text).unwrap());
    let direct = format!("{:?}", tiberius::Config::from_ado_string(text).unwrap());
    assert_eq!(own, direct);
    let text = "jdbc:sqlserver://db.example.com:4200;database=sales;user=sa;password=secret";
    let own = format!("{:?}", parse_connection_string(text).unwrap());
    let direct = format!("{:?}", tiberius::Config::from_jdbc_string(text).unwrap());
    assert_eq!(own, direct);
}

#[test]
fn parser_refusal_becomes_the_one_failure() {
    let refused = tiberius::Config::from_ado_string("server");
    assert!(refused.is_err());
    assert!(matches!(accept_parsed(refused), Err(SessionError::InvalidConnectionString)));
    let accepted = tiberius::Config::from_ado_string("server=tcp:h,99");
    assert_eq!(accept_parsed(accepted).unwrap().get_addr(), "h:99");
}

#[test]
fn connect_without_string_uses_the_descriptor() {
    let config = connection_config(&sample(), None).unwrap();
    assert_eq!(config.get_addr(), "db.example.com:1434");
}

#[test]
fn connect_with_string_ignores_the_descriptor() {
    let config = connection_config(&sample(), Some("server=tcp:elsewhere,99")).unwrap();
    assert_eq!(config.get_addr(), "elsewhere:99");
    assert!(matches!(
        connection_config(&sample(), Some("server")),
        Err(SessionError::InvalidConnectionString)
    ));
    assert!(matches!(
        connection_config(
            &sample(),
            Some("server=x;TrustServerCertificate=true;TrustServerCertificateCA=a")
        ),
        Err(SessionError::InvalidConnectionString)
    ));
}
