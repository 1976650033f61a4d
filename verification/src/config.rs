//! The configuration document that carries the service credential, and the
//! decision half of the interactive configuration step.
//!
//! TOML parsing and serialization are the outside crate's work; the library
//! decides what counts as a usable key, trims the captured line itself, and
//! refuses to plan a write over an existing file.

use vstd::prelude::*;
use vstd::string::*;

use crate::errors::ErrorKind;

verus! {

/// What reading the top-level string entry `key` of a TOML document yields;
/// `None` when the text does not parse or the entry is missing or not a
/// string.
pub uninterp spec fn toml_str_entry(doc: Seq<char>, key: Seq<char>) -> Option<Seq<char>>;

/// The TOML document that serializes the single string entry `key = value`.
pub uninterp spec fn toml_single_doc(key: Seq<char>, value: Seq<char>) -> Seq<char>;

/// Relies on toml::from_str::<toml::Value>, toml::Value::get and
/// toml::Value::as_str: the string value of top-level entry `key`, when the
/// document parses and holds one.
#[verifier::external_body]
fn toml_get_str(doc: &str, key: &str) -> (r: Option<String>)
    ensures
        r is Some <==> toml_str_entry(doc@, key@) is Some,
        r matches Some(s) ==> toml_str_entry(doc@, key@) == Some(s@),
{
    let value: toml::Value = match toml::from_str(doc) {
        Ok(v) => v,
        Err(_) => return None,
    };
    match value.get(key) {
        Some(entry) => entry.as_str().map(|s| s.to_string()),
        None => None,
    }
}

/// Relies on toml::to_string on a one-entry table, which cannot fail on a
/// string value and escapes it so that the same entry parses back.
#[verifier::external_body]
fn toml_put_str(key: &str, value: &str) -> (r: String)
    ensures
        r@ == toml_single_doc(key@, value@),
        toml_str_entry(r@, key@) == Some(value@),
{
    let mut table = toml::Table::new();
    table.insert(key.to_string(), toml::Value::String(value.to_string()));
    toml::to_string(&table).unwrap()
}

/// The one recognized configuration entry.
pub fn api_key_name() -> (s: &'static str)
    ensures
        s@ == "api_key"@,
{
    "api_key"
}

/// Reads the API key out of a configuration document.
pub fn parse_config(doc: &str) -> (r: Result<String, ErrorKind>)
    ensures
        r is Ok <==> toml_str_entry(doc@, "api_key"@) is Some,
        r matches Ok(k) ==> toml_str_entry(doc@, "api_key"@) == Some(k@),
        r matches Err(e) ==> e == ErrorKind::Config,
{
    match toml_get_str(doc, "api_key") {
        Option::Some(k) => Result::Ok(k),
        Option::None => Result::Err(ErrorKind::Config),
    }
}

/// Renders the configuration document for one captured key.
pub fn render_config(api_key: &str) -> (r: String)
    ensures
        r@ == toml_single_doc("api_key"@, api_key@),
        toml_str_entry(r@, "api_key"@) == Some(api_key@),
{
    toml_put_str("api_key", api_key)
}

/// ASCII whitespace, as trimmed off a captured credential line.
pub open spec fn is_ws(c: char) -> bool {
    c == ' ' || c == '\t' || c == '\n' || c == '\r'
}

/// The sequence with its leading whitespace removed.
pub open spec fn trim_front(s: Seq<char>) -> Seq<char>
    decreases s.len(),
{
    if s.len() > 0 && is_ws(s[0]) {
        trim_front(s.drop_first())
    } else {
        s
    }
}

/// The sequence with its trailing whitespace removed.
pub open spec fn trim_back(s: Seq<char>) -> Seq<char>
    decreases s.len(),
{
    if s.len() > 0 && is_ws(s.last()) {
        trim_back(s.drop_last())
    } else {
        s
    }
}

/// The sequence with whitespace removed on both sides.
pub open spec fn spec_trim(s: Seq<char>) -> Seq<char> {
    trim_back(trim_front(s))
}

proof fn lemma_trim_front_subrange(s: Seq<char>, i: int)
    requires
        0 <= i <= s.len(),
        forall|k: int| 0 <= k < i ==> is_ws(s[k]),
        i == s.len() || !is_ws(s[i]),
    ensures
        trim_front(s) == s.subrange(i, s.len() as int),
    decreases i,
{
    if i == 0 {
        assert(s.subrange(0, s.len() as int) =~= s);
    } else {
        lemma_trim_front_subrange(s.drop_first(), i - 1);
        assert(s.drop_first().subrange(i - 1, s.drop_first().len() as int) =~= s.subrange(
            i,
            s.len() as int,
        ));
    }
}

proof fn lemma_trim_back_subrange(s: Seq<char>, j: int)
    requires
        0 <= j <= s.len(),
        forall|k: int| j <= k < s.len() ==> is_ws(s[k]),
        j == 0 || !is_ws(s[j - 1]),
    ensures
        trim_back(s) == s.subrange(0, j),
    decreases s.len() - j,
{
    if j == s.len() {
        if s.len() > 0 && is_ws(s.last()) {
            assert(!is_ws(s[j - 1]));
            assert(false);
        }
        assert(s.subrange(0, j) =~= s);
    } else {
        assert(is_ws(s.last()));
        lemma_trim_back_subrange(s.drop_last(), j);
        assert(s.drop_last().subrange(0, j) =~= s.subrange(0, j));
    }
}

fn ws_char(c: char) -> (r: bool)
    ensures
        r == is_ws(c),
{
    c == ' ' || c == '\t' || c == '\n' || c == '\r'
}

/// Trims ASCII whitespace off both ends of a captured line.
pub fn trim_ascii_ws(s: &str) -> (r: String)
    ensures
        r@ == spec_trim(s@),
{
    let n = s.unicode_len();
    let mut i: usize = 0;
    while i < n && ws_char(s.get_char(i))
        invariant
            n == s@.len(),
            i <= n,
            forall|k: int| 0 <= k < i ==> is_ws(s@[k]),
        decreases n - i,
    {
        i = i + 1;
    }
    proof {
        lemma_trim_front_subrange(s@, i as int);
    }
    let mut j: usize = n;
    while j > i && ws_char(s.get_char(j - 1))
        invariant
            n == s@.len(),
            i <= j <= n,
            forall|k: int| j <= k < n ==> is_ws(s@[k]),
        decreases j,
    {
        j = j - 1;
    }
    proof {
        let front = s@.subrange(i as int, n as int);
        lemma_trim_back_subrange(front, j - i);
        assert(front.subrange(0, j - i) =~= s@.subrange(i as int, j as int));
    }
    let trimmed = s.substring_char(i, j);
    String::from_str(trimmed)
}

/// The decision of the interactive configuration step: given whether a file
/// already stands at the configuration path and the line captured from the
/// terminal (`None` when input was aborted), either the document to write or
/// the error that ends the run. An existing file is never overwritten; an
/// aborted capture or one that trims to nothing yields no document.
pub fn configure_plan(file_exists: bool, captured: Option<&str>) -> (r: Result<String, ErrorKind>)
    ensures
        file_exists ==> r == Result::<String, ErrorKind>::Err(ErrorKind::DestinationExists),
        !file_exists && captured is None ==> r == Result::<String, ErrorKind>::Err(
            ErrorKind::CredentialInput,
        ),
        captured matches Some(line) ==> {
            &&& (!file_exists && spec_trim(line@).len() == 0 ==> r == Result::<
                String,
                ErrorKind,
            >::Err(ErrorKind::CredentialInput))
            &&& (!file_exists && spec_trim(line@).len() > 0 ==> (r matches Ok(doc) && doc@
                == toml_single_doc("api_key"@, spec_trim(line@)) && toml_str_entry(
                doc@,
                "api_key"@,
            ) == Some(spec_trim(line@))))
        },
{
    if file_exists {
        return Result::Err(ErrorKind::DestinationExists);
    }
    match captured {
        Option::None => Result::Err(ErrorKind::CredentialInput),
        Option::Some(line) => {
            let key = trim_ascii_ws(line);
            if key.as_str().unicode_len() == 0 {
                Result::Err(ErrorKind::CredentialInput)
            } else {
                Result::Ok(render_config(key.as_str()))
            }
        },
    }
}

} // verus!
