//! Reading the engine's configuration document.
use vstd::prelude::*;
use vstd::string::StringExecFns;
use crate::fault::{cause_separator, fmt_error, joined, texts};

verus! {

#[verifier::external_type_specification]
#[verifier::external_body]
pub struct ExConfig(bwt::Config);

/// Whether a JSON document deserializes into bwt's configuration.
pub uninterp spec fn config_parses(json: Seq<char>) -> bool;

/// The configuration a document deserializes into.
pub uninterp spec fn config_of(json: Seq<char>) -> bwt::Config;

/// The parser's description of why a document does not deserialize into bwt's
/// configuration.
pub uninterp spec fn config_error_text(json: Seq<char>) -> Seq<char>;

/// Context put in front of a parse error.
pub open spec fn invalid_config_text() -> Seq<char> {
    seq!['I', 'n', 'v', 'a', 'l', 'i', 'd', ' ', 'c', 'o', 'n', 'f', 'i', 'g']
}

/// Relies on `serde_json::from_str::<bwt::Config>` and the `Display` of its error:
/// it succeeds or fails, and describes the failure, depending on the document alone.
#[verifier::external_body]
fn config_from_json(json: &str) -> (r: Result<bwt::Config, String>)
    ensures
        r is Ok <==> config_parses(json@),
        r is Ok ==> r->Ok_0 == config_of(json@),
        r is Err ==> r->Err_0@ == config_error_text(json@),
{
    match serde_json::from_str(json) {
        Ok(config) => Ok(config),
        Err(e) => Err(e.to_string()),
    }
}

/// The error chain for a document that does not parse, given the parser's
/// description of the error: the `Invalid config` context, then that description.
pub fn invalid_config(detail: String) -> (r: Vec<String>)
    ensures
        texts(r@) == seq![invalid_config_text(), detail@],
{
    proof {
        reveal_strlit("Invalid config");
        assert("Invalid config"@ =~= invalid_config_text());
    }
    let mut causes: Vec<String> = Vec::new();
    causes.push(String::from_str("Invalid config"));
    causes.push(detail);
    proof {
        assert(texts(causes@) =~= seq![invalid_config_text(), detail@]);
    }
    causes
}

/// Parses the configuration document; a document that does not parse gives the
/// error chain `Invalid config`, then the parser's description.
pub fn parse_config(json: &str) -> (r: Result<bwt::Config, Vec<String>>)
    ensures
        r is Ok <==> config_parses(json@),
        r is Ok ==> r->Ok_0 == config_of(json@),
        r is Err ==> texts(r->Err_0@) == seq![invalid_config_text(), config_error_text(json@)],
{
    match config_from_json(json) {
        Ok(c) => Ok(c),
        Err(detail) => Err(invalid_config(detail)),
    }
}

/// Whether a message is the invalid-configuration one, for some parser detail.
pub open spec fn is_invalid_config_message(m: Seq<char>) -> bool {
    exists|detail: Seq<char>| m == invalid_config_text() + cause_separator() + detail
}

/// Parses the configuration document, or returns the message of the typed exception
/// raised for a document that does not parse: `Invalid config: ` and the parser's
/// description.
pub fn load_config(json: &str) -> (r: Result<bwt::Config, String>)
    ensures
        r is Ok <==> config_parses(json@),
        r is Ok ==> r->Ok_0 == config_of(json@),
        r is Err ==> r->Err_0@ == invalid_config_text() + cause_separator() + config_error_text(
            json@,
        ),
        r is Err ==> is_invalid_config_message(r->Err_0@),
{
    match parse_config(json) {
        Ok(c) => Ok(c),
        Err(causes) => {
            let ghost detail = config_error_text(json@);
            proof {
                lemma_invalid_config_message(detail);
            }
            Err(fmt_error(&causes))
        },
    }
}

/// The message of an invalid-configuration failure begins with `Invalid config: `.
pub proof fn lemma_invalid_config_message(detail: Seq<char>)
    ensures
        joined(seq![invalid_config_text(), detail])
            == invalid_config_text() + seq![':', ' '] + detail,
{
    let parts = seq![invalid_config_text(), detail];
    assert(parts.drop_last() =~= seq![invalid_config_text()]);
    assert(joined(parts.drop_last()) == invalid_config_text());
}

} // verus!
