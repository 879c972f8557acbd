//! The options of a connection string, as the two lexers read them that the
//! transport parses with.

use vstd::prelude::*;
use crate::text::{chars_of, spells, spells_word};

verus! {

#[verifier::external_type_specification]
#[verifier::external_body]
pub struct ExJdbcString(connection_string::JdbcString);

#[verifier::external_type_specification]
#[verifier::external_body]
pub struct ExAdoNetString(connection_string::AdoNetString);

/// The properties of a lexed JDBC string: values by key.
pub uninterp spec fn jdbc_properties(lexed: connection_string::JdbcString) -> Map<
    Seq<char>,
    Seq<char>,
>;

/// The pairs of a lexed ADO string: values by key.
pub uninterp spec fn ado_pairs(lexed: connection_string::AdoNetString) -> Map<
    Seq<char>,
    Seq<char>,
>;

/// What the JDBC lexer makes of a text: its properties, or `None` where the
/// lexer refuses the text.
pub uninterp spec fn jdbc_lex(text: Seq<char>) -> Option<Map<Seq<char>, Seq<char>>>;

/// What the ADO lexer makes of a text: its pairs, or `None` where the lexer
/// refuses the text.
pub uninterp spec fn ado_lex(text: Seq<char>) -> Option<Map<Seq<char>, Seq<char>>>;

/// `connection_string::JdbcString`'s `FromStr`, reached through `str::parse`:
/// the lexer reads its argument and nothing else, so whether it accepts the
/// text, and the properties that it reads, depend on the text alone. A
/// refusal is handed on as `None`.
#[verifier::external_body]
fn lex_jdbc(text: &str) -> (lexed: Option<connection_string::JdbcString>)
    ensures
        lexed is Some <==> jdbc_lex(text@) is Some,
        lexed matches Some(read) ==> jdbc_lex(text@) == Some(jdbc_properties(read)),
{
    text.parse().ok()
}

/// `connection_string::AdoNetString`'s `FromStr`, reached through
/// `str::parse`: the lexer reads its argument and nothing else, so whether it
/// accepts the text, and the pairs that it reads, depend on the text alone. A
/// refusal is handed on as `None`.
#[verifier::external_body]
fn lex_ado(text: &str) -> (lexed: Option<connection_string::AdoNetString>)
    ensures
        lexed is Some <==> ado_lex(text@) is Some,
        lexed matches Some(read) ==> ado_lex(text@) == Some(ado_pairs(read)),
{
    text.parse().ok()
}

/// `connection_string::JdbcString::properties` and the lookup in the map that
/// it hands out: the value under the key, or `None` where the key is absent.
#[verifier::external_body]
fn jdbc_property(lexed: &connection_string::JdbcString, key: &str) -> (value: Option<String>)
    ensures
        value is Some <==> jdbc_properties(*lexed).contains_key(key@),
        value matches Some(held) ==> jdbc_properties(*lexed)[key@] == held@,
{
    lexed.properties().get(key).cloned()
}

/// The lookup in the map that a `connection_string::AdoNetString` is: the
/// value under the key, or `None` where the key is absent.
#[verifier::external_body]
fn ado_pair(lexed: &connection_string::AdoNetString, key: &str) -> (value: Option<String>)
    ensures
        value is Some <==> ado_pairs(*lexed).contains_key(key@),
        value matches Some(held) ==> ado_pairs(*lexed)[key@] == held@,
{
    lexed.get(key).cloned()
}

/// The key of the option by which a connection string accepts any certificate
/// of the server. Both lexers hand out keys in small letters.
pub open spec fn trust_option() -> Seq<char> {
    "trustservercertificate"@
}

/// The key of the option by which a connection string names a certificate
/// authority of its own.
pub open spec fn authority_option() -> Seq<char> {
    "trustservercertificateca"@
}

/// The value switches an option on: its letters are `true` or `yes`, in small
/// letters or capitals.
///
/// The transport takes a value for a truth where it is one of these two words
/// with nothing but blanks around it. Every such value is counted here, and
/// the others that are counted the transport takes for no truth value at all
/// and refuses.
pub open spec fn switched_on(value: Seq<char>) -> bool {
    spells(value, "true"@) || spells(value, "yes"@)
}

/// The options both accept any certificate and name a certificate authority.
/// The two exclude each other: the transport aborts on them.
pub open spec fn sets_both_trust_options(options: Map<Seq<char>, Seq<char>>) -> bool {
    &&& options.contains_key(trust_option())
    &&& switched_on(options[trust_option()])
    &&& options.contains_key(authority_option())
}

/// The JDBC lexer reads both options on the server's certificate in the text.
pub open spec fn jdbc_conflict(text: Seq<char>) -> bool {
    jdbc_lex(text) matches Some(options) && sets_both_trust_options(options)
}

/// The ADO lexer reads both options on the server's certificate in the text.
pub open spec fn ado_conflict(text: Seq<char>) -> bool {
    ado_lex(text) matches Some(options) && sets_both_trust_options(options)
}

/// The value switches an option on.
pub fn is_switched_on(value: &str) -> (yes: bool)
    ensures
        yes == switched_on(value@),
{
    let chars = chars_of(value);
    let truth = chars_of("true");
    if spells_word(&chars, &truth) {
        return true;
    }
    let assent = chars_of("yes");
    spells_word(&chars, &assent)
}

/// The JDBC lexer reads both options on the server's certificate in the text.
pub fn jdbc_sets_both(text: &str) -> (yes: bool)
    ensures
        yes == jdbc_conflict(text@),
{
    match lex_jdbc(text) {
        None => false,
        Some(lexed) => match jdbc_property(&lexed, "trustservercertificate") {
            None => false,
            Some(value) => {
                if is_switched_on(value.as_str()) {
                    jdbc_property(&lexed, "trustservercertificateca").is_some()
                } else {
                    false
                }
            },
        },
    }
}

/// The ADO lexer reads both options on the server's certificate in the text.
pub fn ado_sets_both(text: &str) -> (yes: bool)
    ensures
        yes == ado_conflict(text@),
{
    match lex_ado(text) {
        None => false,
        Some(lexed) => match ado_pair(&lexed, "trustservercertificate") {
            None => false,
            Some(value) => {
                if is_switched_on(value.as_str()) {
                    ado_pair(&lexed, "trustservercertificateca").is_some()
                } else {
                    false
                }
            },
        },
    }
}

} // verus!
