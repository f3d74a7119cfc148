//! The assertion codec.
//!
//! Decodes a base64 SAML document to UTF-8 XML, reads the role attribute
//! values out of it, and parses each into a role. Zero role values, or any
//! malformed value, fail the whole parse: there is no empty and no partial
//! success. A companion entry point digs the assertion out of a scraped HTML
//! page first, telling a page without the field (the session has lapsed —
//! retry once) from a field that is present but broken (fail hard).

use crate::aws::role::{spec_parse_role, Role};
use crate::errors::BrokerError;
use crate::text::str_eq;
use vstd::prelude::*;
use vstd::utf8::{decode_utf8, valid_utf8};

verus! {

/// A decoded assertion: the untouched base64 text and the candidate roles it
/// asserts. On success the role list is never empty and holds no duplicates.
#[derive(Debug, Clone, PartialEq)]
pub struct Response {
    pub raw: String,
    pub roles: Vec<Role>,
}

/// The bytes a base64 string denotes; nothing when the string is not valid
/// base64.
pub uninterp spec fn base64_decoding(s: Seq<char>) -> Option<Seq<u8>>;

/// Relies on base64::decode (standard alphabet): the bytes a base64 string
/// denotes, a function of the string alone.
#[verifier::external_body]
fn decode_base64(s: &str) -> (r: Option<Vec<u8>>)
    ensures
        r matches Some(v) ==> base64_decoding(s@) == Some(v@),
        r is None ==> base64_decoding(s@) is None,
{
    base64::decode(s).ok()
}

/// Relies on String::from_utf8: the string a UTF-8 byte sequence encodes,
/// refused exactly when the bytes are not valid UTF-8.
#[verifier::external_body]
fn utf8_string(bytes: Vec<u8>) -> (r: Option<String>)
    ensures
        r matches Some(s) ==> valid_utf8(bytes@) && s@ == decode_utf8(bytes@),
        r is None ==> !valid_utf8(bytes@),
{
    String::from_utf8(bytes).ok()
}

/// The text values of the role-attribute nodes of a SAML document, in
/// document order; nothing when the text is not well-formed XML.
pub uninterp spec fn saml_role_values(xml: Seq<char>) -> Option<Seq<Seq<char>>>;

/// Relies on sxd_document's parser and sxd_xpath: evaluates the role-attribute
/// query against the document and hands back the matching nodes' text values
/// in document order, a function of the document text alone; a text that is
/// not well-formed XML yields nothing, a well-formed one without matches an
/// empty list.
#[verifier::external_body]
fn extract_role_values(xml: &str) -> (r: Option<Vec<String>>)
    ensures
        r matches Some(v) ==> saml_role_values(xml@) == Some(v.deep_view()),
        r is None ==> saml_role_values(xml@) is None,
{
    let package = sxd_document::parser::parse(xml).ok()?;
    let xpath = sxd_xpath::Factory::new().build(
        "//saml2:Attribute[@Name='https://aws.amazon.com/SAML/Attributes/Role']/saml2:AttributeValue",
    ).ok()??;
    let mut context = sxd_xpath::Context::new();
    context.set_namespace("saml2", "urn:oasis:names:tc:SAML:2.0:assertion");
    let value = xpath.evaluate(&context, package.as_document().root()).ok()?;
    let mut out: Vec<String> = Vec::new();
    if let sxd_xpath::Value::Nodeset(nodes) = value {
        for node in nodes.document_order() {
            out.push(node.string_value());
        }
    }
    Some(out)
}

/// Whether an HTML page holds an element with the given name attribute, and
/// the value attribute of the first such element; a function of the page
/// text.
pub uninterp spec fn input_field_value(html: Seq<char>, name: Seq<char>) -> Option<
    Option<Seq<char>>,
>;

/// Relies on the select crate (Document::from and find with an attribute
/// predicate): the value attribute of the first element carrying the given
/// name attribute, a function of the page text alone.
#[verifier::external_body]
pub(crate) fn find_input_value(html: &str, name: &str) -> (r: Option<Option<String>>)
    ensures
        r is None ==> input_field_value(html@, name@) is None,
        r matches Some(o) ==> (input_field_value(html@, name@) matches Some(so) && (o is None <==> so
            is None) && (o matches Some(v) ==> so == Some(v@))),
{
    let document = select::document::Document::from(html);
    match document.find(select::predicate::Attr("name", name)).next() {
        Some(element) => match element.attr("value") {
            Some(v) => Some(Some(v.to_owned())),
            None => Some(None),
        },
        None => None,
    }
}

/// Every attribute value parses as a role.
pub open spec fn all_values_parse(vals: Seq<Seq<char>>) -> bool {
    forall|i: int| 0 <= i < vals.len() ==> #[trigger] spec_parse_role(vals[i]) is Some
}

/// Some role in the list carries exactly this parsed ARN pair.
pub open spec fn role_listed(roles: Seq<Role>, pair: Option<(Seq<char>, Seq<char>)>) -> bool {
    exists|j: int|
        0 <= j < roles.len() && Some(
            ((#[trigger] roles[j]).provider_arn@, roles[j].role_arn@),
        ) == pair
}

/// Some attribute value parses to exactly this role.
pub open spec fn value_for_role(vals: Seq<Seq<char>>, role: Role) -> bool {
    exists|i: int|
        0 <= i < vals.len() && #[trigger] spec_parse_role(vals[i]) == Some(
            (role.provider_arn@, role.role_arn@),
        )
}

/// No two roles of the list carry the same ARN pair.
pub open spec fn unique_roles(roles: Seq<Role>) -> bool {
    forall|j: int, k: int|
        #![trigger roles[j], roles[k]]
        0 <= j < k < roles.len() ==> !(roles[j].provider_arn@ == roles[k].provider_arn@
            && roles[j].role_arn@ == roles[k].role_arn@)
}

/// The role list and the attribute values denote the same set of parsed
/// roles, with no duplicate in the list.
pub open spec fn roles_match_values(roles: Seq<Role>, vals: Seq<Seq<char>>) -> bool {
    &&& forall|i: int|
        0 <= i < vals.len() ==> role_listed(roles, #[trigger] spec_parse_role(vals[i]))
    &&& forall|j: int| 0 <= j < roles.len() ==> value_for_role(vals, #[trigger] roles[j])
    &&& unique_roles(roles)
}

/// The inputs on which parsing an assertion succeeds: valid base64 of valid
/// UTF-8 of a well-formed document with at least one role value, all of whose
/// values parse.
pub open spec fn spec_parse_succeeds(b64: Seq<char>) -> bool {
    match base64_decoding(b64) {
        Some(bytes) => valid_utf8(bytes) && match saml_role_values(decode_utf8(bytes)) {
            Some(vals) => vals.len() > 0 && all_values_parse(vals),
            None => false,
        },
        None => false,
    }
}

/// The pages from which extraction succeeds: the assertion field is present,
/// carries a value, and the value parses.
pub open spec fn spec_extraction_succeeds(field: Option<Option<Seq<char>>>) -> bool {
    match field {
        Some(Some(v)) => spec_parse_succeeds(v),
        _ => false,
    }
}

/// Everything parsing an assertion promises, layer by layer: bad base64, bad
/// UTF-8 and bad XML each fail with their own kind; a document without role
/// values fails rather than succeeding empty; a document with a malformed
/// value fails with that value's kind; otherwise the result keeps the raw
/// text and lists exactly the parsed roles, deduplicated.
pub open spec fn assertion_parse_outcome(b64: Seq<char>, r: Result<Response, BrokerError>) -> bool {
    match base64_decoding(b64) {
        None => r matches Err(e) && e is InvalidBase64,
        Some(bytes) => if !valid_utf8(bytes) {
            r matches Err(e) && e is InvalidUtf8
        } else {
            match saml_role_values(decode_utf8(bytes)) {
                None => r matches Err(e) && e is InvalidXml,
                Some(vals) => if vals.len() == 0 {
                    r matches Err(e) && e is NoRolesInAssertion
                } else if !all_values_parse(vals) {
                    r matches Err(e) && (e is NotEnoughElements || e is TooManyElements
                        || e is AmbiguousRolePair)
                } else {
                    r matches Ok(resp) && resp.raw@ == b64 && resp.roles@.len() > 0
                        && roles_match_values(resp.roles@, vals)
                },
            }
        },
    }
}

fn role_eq(a: &Role, b: &Role) -> (r: bool)
    ensures
        r == (a.provider_arn@ == b.provider_arn@ && a.role_arn@ == b.role_arn@),
{
    str_eq(a.provider_arn.as_str(), b.provider_arn.as_str()) && str_eq(
        a.role_arn.as_str(),
        b.role_arn.as_str(),
    )
}

/// Parses a base64 SAML document into the set of roles it asserts.
pub fn parse_assertion(s: &str) -> (r: Result<Response, BrokerError>)
    ensures
        assertion_parse_outcome(s@, r),
        r is Ok <==> spec_parse_succeeds(s@),
        r matches Ok(resp) ==> resp.roles@.len() > 0,
{
    let bytes = match decode_base64(s) {
        Some(b) => b,
        None => {
            return Err(BrokerError::InvalidBase64);
        },
    };
    let ghost bytes_view = bytes@;
    let xml = match utf8_string(bytes) {
        Some(x) => x,
        None => {
            return Err(BrokerError::InvalidUtf8);
        },
    };
    let values = match extract_role_values(xml.as_str()) {
        Some(v) => v,
        None => {
            return Err(BrokerError::InvalidXml);
        },
    };
    let ghost vals = values.deep_view();
    let n = values.len();
    if n == 0 {
        return Err(BrokerError::NoRolesInAssertion);
    }
    let mut roles: Vec<Role> = Vec::new();
    let mut i: usize = 0;
    while i < n
        invariant
            base64_decoding(s@) == Some(bytes_view),
            valid_utf8(bytes_view),
            xml@ == decode_utf8(bytes_view),
            saml_role_values(xml@) == Some(vals),
            n == values@.len(),
            n > 0,
            vals == values.deep_view(),
            vals.len() == n,
            0 <= i <= n,
            forall|k: int| 0 <= k < i ==> #[trigger] spec_parse_role(vals[k]) is Some,
            forall|k: int| 0 <= k < i ==> role_listed(roles@, #[trigger] spec_parse_role(vals[k])),
            forall|j: int| 0 <= j < roles@.len() ==> value_for_role(vals, #[trigger] roles@[j]),
            unique_roles(roles@),
            i > 0 ==> roles@.len() > 0,
        decreases n - i,
    {
        proof {
            assert(vals[i as int] == values@[i as int].deep_view());
        }
        let role = match Role::from_attribute(values[i].as_str()) {
            Ok(role) => role,
            Err(e) => {
                proof {
                    assert(spec_parse_role(vals[i as int]) is None);
                    assert(!all_values_parse(vals));
                }
                return Err(e);
            },
        };
        let m = roles.len();
        let mut j: usize = 0;
        let mut found: bool = false;
        while j < m
            invariant
                m == roles@.len(),
                0 <= j <= m,
                !found ==> forall|k: int|
                    0 <= k < j ==> !((#[trigger] roles@[k]).provider_arn@ == role.provider_arn@
                        && roles@[k].role_arn@ == role.role_arn@),
                found ==> exists|k: int|
                    0 <= k < m && (#[trigger] roles@[k]).provider_arn@ == role.provider_arn@
                        && roles@[k].role_arn@ == role.role_arn@,
            decreases m - j,
        {
            if !found && role_eq(&roles[j], &role) {
                found = true;
            }
            j = j + 1;
        }
        let ghost before = roles@;
        if !found {
            roles.push(role);
        }
        proof {
            assert(spec_parse_role(vals[i as int]) == Some((role.provider_arn@, role.role_arn@)));
            if !found {
                assert(roles@ == before.push(role));
                assert(roles@[before.len() as int] == role);
                assert(role_listed(roles@, spec_parse_role(vals[i as int])));
                assert forall|k: int| 0 <= k < i implies role_listed(
                    roles@,
                    #[trigger] spec_parse_role(vals[k]),
                ) by {
                    let w = choose|j: int|
                        0 <= j < before.len() && Some(
                            ((#[trigger] before[j]).provider_arn@, before[j].role_arn@),
                        ) == spec_parse_role(vals[k]);
                    assert(roles@[w] == before[w]);
                }
                assert(value_for_role(vals, role));
            } else {
                assert(role_listed(roles@, spec_parse_role(vals[i as int])));
            }
        }
        i = i + 1;
    }
    proof {
        assert(vals.take(n as int) =~= vals);
        assert(roles@.len() > 0);
        assert(all_values_parse(vals));
    }
    Ok(Response { raw: s.to_owned(), roles })
}

impl core::str::FromStr for Response {
    type Err = BrokerError;

    fn from_str(s: &str) -> Result<Response, BrokerError> {
        parse_assertion(s)
    }
}

/// How digging the assertion out of a page can fail: the field is absent
/// (a retry may help), the field has no value, or the value does not parse.
#[derive(Debug)]
pub enum ExtractSamlResponseError {
    NotFound,
    MissingValue,
    Invalid(BrokerError),
}

/// What extracting from a page promises, given the page's assertion field.
pub open spec fn extract_outcome(
    field: Option<Option<Seq<char>>>,
    r: Result<Response, ExtractSamlResponseError>,
) -> bool {
    match field {
        None => r matches Err(e) && e is NotFound,
        Some(None) => r matches Err(e) && e is MissingValue,
        Some(Some(v)) => match r {
            Ok(resp) => assertion_parse_outcome(v, Ok(resp)),
            Err(ExtractSamlResponseError::Invalid(e)) => assertion_parse_outcome(v, Err(e)),
            Err(_) => false,
        },
    }
}

/// Digs the hidden assertion field out of a scraped HTML page and parses its
/// value. A page without the field reports `NotFound`, so the caller can
/// re-authenticate and retry; a field without a value, or a value that does
/// not parse, fails hard.
pub fn extract_saml_assertion(text: &str) -> (r: Result<Response, ExtractSamlResponseError>)
    ensures
        extract_outcome(input_field_value(text@, "SAMLResponse"@), r),
        r is Ok <==> spec_extraction_succeeds(input_field_value(text@, "SAMLResponse"@)),
        r matches Ok(resp) ==> resp.roles@.len() > 0,
{
    match find_input_value(text, "SAMLResponse") {
        None => Err(ExtractSamlResponseError::NotFound),
        Some(None) => Err(ExtractSamlResponseError::MissingValue),
        Some(Some(value)) => match parse_assertion(value.as_str()) {
            Ok(resp) => Ok(resp),
            Err(e) => Err(ExtractSamlResponseError::Invalid(e)),
        },
    }
}

/// What the fetch loop does next after one extraction attempt.
pub enum AssertionStep {
    /// The assertion is in hand.
    Done(Response),
    /// The field was absent and the single retry is still unused: log in
    /// again and fetch once more.
    ReLogin,
    /// Give up with this error.
    Fail(BrokerError),
}

/// The bounded-retry rule for fetching an assertion: a missing field earns
/// exactly one re-login, any later or harder failure is final.
pub fn fetch_assertion_step(outcome: Result<Response, ExtractSamlResponseError>, attempts_used: u32)
    -> (r: AssertionStep)
    ensures
        outcome matches Ok(resp) ==> r == AssertionStep::Done(resp),
        outcome matches Err(ExtractSamlResponseError::NotFound) && attempts_used == 0 ==> r
            is ReLogin,
        outcome matches Err(ExtractSamlResponseError::NotFound) && attempts_used > 0 ==> (r
            matches AssertionStep::Fail(e) && e is AssertionNotFound),
        outcome matches Err(ExtractSamlResponseError::MissingValue) ==> (r
            matches AssertionStep::Fail(e) && e is AssertionValueMissing),
        outcome matches Err(ExtractSamlResponseError::Invalid(e)) ==> r == AssertionStep::Fail(e),
{
    match outcome {
        Ok(resp) => AssertionStep::Done(resp),
        Err(ExtractSamlResponseError::NotFound) => {
            if attempts_used == 0 {
                AssertionStep::ReLogin
            } else {
                AssertionStep::Fail(BrokerError::AssertionNotFound)
            }
        },
        Err(ExtractSamlResponseError::MissingValue) => AssertionStep::Fail(
            BrokerError::AssertionValueMissing,
        ),
        Err(ExtractSamlResponseError::Invalid(e)) => AssertionStep::Fail(e),
    }
}

} // verus!
