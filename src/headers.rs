//! The header set attached to each request sent to the core.
use crate::config::{rid_spec, Recipe, SuperTokens};
use crate::constants::{HEADER_API_KEY, HEADER_CDI_VERSION, HEADER_RID};
use reqwest::header::{HeaderMap, HeaderValue};
use vstd::prelude::*;

verus! {

#[verifier::external_type_specification]
#[verifier::external_body]
#[verifier::reject_recursive_types(T)]
pub struct ExHeaderMap<T>(HeaderMap<T>);

#[verifier::external_type_specification]
#[verifier::external_body]
pub struct ExHeaderValue(HeaderValue);

/// What a header map holds: each header name with the text of its value.
pub uninterp spec fn header_entries(h: HeaderMap) -> Map<Seq<char>, Seq<char>>;

/// A character that a header value may hold: visible ASCII, space, tab,
/// or any non-ASCII character (whose bytes are all at least 0x80).
pub open spec fn is_header_value_char(c: char) -> bool {
    (c as u32 >= 32 && c as u32 != 127) || c == '\t'
}

/// Text that can be sent as a header value.
pub open spec fn is_header_value(s: Seq<char>) -> bool {
    forall|i: int| 0 <= i < s.len() ==> is_header_value_char(#[trigger] s[i])
}

/// A header name given in lower case: letters and dashes, not empty and
/// shorter than 64 KiB.
pub open spec fn is_header_name(s: Seq<char>) -> bool {
    0 < s.len() < 65536 && forall|i: int|
        0 <= i < s.len() ==> ('a' <= #[trigger] s[i] <= 'z' || s[i] == '-')
}

/// The headers that a request carries, for an optional recipe.
pub open spec fn expected_headers(
    api_key: Seq<char>,
    cdi_version: Seq<char>,
    recipe: Option<Recipe>,
) -> Map<Seq<char>, Seq<char>> {
    let base = match recipe {
        Some(r) => Map::empty().insert("rid"@, rid_spec(r)),
        None => Map::empty(),
    };
    base.insert("api-key"@, api_key).insert("cdi-version"@, cdi_version)
}

/// The header set carries `api-key` and `cdi-version` with the configured
/// values, always; it carries `rid`, naming the recipe, exactly when a
/// recipe is given.
pub proof fn lemma_header_set(api_key: Seq<char>, cdi_version: Seq<char>, recipe: Option<Recipe>)
    ensures
        expected_headers(api_key, cdi_version, recipe).contains_key("api-key"@),
        expected_headers(api_key, cdi_version, recipe)["api-key"@] == api_key,
        expected_headers(api_key, cdi_version, recipe).contains_key("cdi-version"@),
        expected_headers(api_key, cdi_version, recipe)["cdi-version"@] == cdi_version,
        recipe is Some ==> expected_headers(api_key, cdi_version, recipe).contains_key("rid"@)
            && expected_headers(api_key, cdi_version, recipe)["rid"@] == rid_spec(
            recipe->Some_0,
        ),
        recipe is None ==> !expected_headers(api_key, cdi_version, recipe).contains_key("rid"@),
{
    reveal_strlit("rid");
    reveal_strlit("api-key");
    reveal_strlit("cdi-version");
    assert("rid"@ != "api-key"@ && "rid"@ != "cdi-version"@ && "api-key"@ != "cdi-version"@) by {
        assert("rid"@.len() != "api-key"@.len());
        assert("rid"@.len() != "cdi-version"@.len());
        assert("api-key"@.len() != "cdi-version"@.len());
    }
}

/// Relies on http's `HeaderMap::new`: the map starts empty.
#[verifier::external_body]
fn new_header_map() -> (r: HeaderMap)
    ensures
        header_entries(r).dom() == Set::<Seq<char>>::empty(),
{
    HeaderMap::new()
}

/// Relies on http's `HeaderMap::insert`: the value under `name` replaces any
/// earlier value. The text becomes a `HeaderValue` by `HeaderValue::from_str`,
/// which accepts exactly the bytes of `is_header_value`; a static name in
/// lower case is accepted by `HdrName::from_static`.
#[verifier::external_body]
fn insert_header(h: &mut HeaderMap, name: &'static str, value: &str)
    requires
        is_header_name(name@),
        is_header_value(value@),
        header_entries(*old(h)).dom().finite(),
        header_entries(*old(h)).dom().len() < 1024,
    ensures
        header_entries(*final(h)) == header_entries(*old(h)).insert(name@, value@),
{
    h.insert(name, HeaderValue::from_str(value).unwrap());
}

/// Whether every character of `s` may stand in a header value.
pub fn is_valid_header_value(s: &str) -> (r: bool)
    ensures
        r == is_header_value(s@),
{
    let n = s.unicode_len();
    let mut i: usize = 0;
    while i < n
        invariant
            n == s@.len(),
            i <= n,
            forall|j: int| 0 <= j < i ==> is_header_value_char(#[trigger] s@[j]),
        decreases n - i,
    {
        let c = s.get_char(i);
        if !((c as u32 >= 32 && c as u32 != 127) || c == '\t') {
            return false;
        }
        i = i + 1;
    }
    true
}

impl SuperTokens {
    /// Whether the API key and the protocol version can be sent as header values.
    pub fn has_valid_header_values(&self) -> (r: bool)
        ensures
            r == (is_header_value(self.api_key@) && is_header_value(self.cdi_version@)),
    {
        is_valid_header_value(self.api_key.as_str()) && is_valid_header_value(
            self.cdi_version.as_str(),
        )
    }

    /// The headers of a request: `api-key` and `cdi-version` always, and `rid`
    /// when the request belongs to a recipe.
    pub fn get_headers(&self, recipe: Option<Recipe>) -> (r: HeaderMap)
        requires
            is_header_value(self.api_key@),
            is_header_value(self.cdi_version@),
        ensures
            header_entries(r) == expected_headers(self.api_key@, self.cdi_version@, recipe),
    {
        proof {
            reveal_strlit("rid");
            reveal_strlit("api-key");
            reveal_strlit("cdi-version");
            reveal_strlit("emailpassword");
            reveal_strlit("passwordless");
            reveal_strlit("thirdparty");
            reveal_strlit("jwt");
        }
        let mut headers = new_header_map();
        assert(header_entries(headers) =~= Map::empty());
        if let Some(recipe) = recipe {
            let rid = recipe.rid();
            insert_header(&mut headers, HEADER_RID, rid);
        }
        insert_header(&mut headers, HEADER_API_KEY, self.api_key.as_str());
        insert_header(&mut headers, HEADER_CDI_VERSION, self.cdi_version.as_str());
        headers
    }
}

} // verus!
