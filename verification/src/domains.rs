//! Equivalent-domain settings.
use vstd::prelude::*;
use crate::error::AppError;
use crate::number::spec_decimal;

verus! {

/// The equivalent-domain settings a client sends.
pub struct EquivDomainData {
    pub excluded_global_equivalent_domains: Option<Vec<i32>>,
    pub equivalent_domains: Option<Vec<Vec<String>>>,
}

/// The numbers of a list in decimal, separated by commas.
pub open spec fn comma_joined_decimals(values: Seq<i32>) -> Seq<char>
    decreases values.len(),
{
    if values.len() == 0 {
        Seq::empty()
    } else if values.len() == 1 {
        spec_decimal(values[0] as int)
    } else {
        comma_joined_decimals(values.drop_last()) + ","@ + spec_decimal(values.last() as int)
    }
}

/// The compact JSON array of a list of `i32`: `[`, the numbers in decimal separated by
/// commas, `]`.
pub open spec fn json_of_ints(values: Seq<i32>) -> Seq<char> {
    "["@ + comma_joined_decimals(values) + "]"@
}

/// The text that `serde_json::to_string` gives for a list of lists of strings; `None` where
/// it fails.
pub uninterp spec fn spec_json_of_string_lists(values: Seq<Seq<Seq<char>>>) -> Option<Seq<char>>;

/// The strings of a list of lists of strings.
pub open spec fn string_lists_view(v: Seq<Vec<String>>) -> Seq<Seq<Seq<char>>> {
    v.map_values(|inner: Vec<String>| inner@.map_values(|s: String| s@))
}

/// Calls `serde_json::to_string` on a list of `i32`. Claimed: it succeeds, with the compact
/// array text (the serializer writes `[`, each number through `itoa` with `,` between them,
/// and `]`, into a byte buffer that cannot fail).
#[verifier::external_body]
fn ints_to_json(values: &Vec<i32>) -> (r: Result<String, ()>)
    ensures
        r is Ok,
        r->Ok_0@ == json_of_ints(values@),
{
    serde_json::to_string(values).map_err(|_| ())
}

/// Calls `serde_json::to_string` on a list of lists of strings. Claimed: success exactly
/// where the named text is `Some`, with that text.
#[verifier::external_body]
fn string_lists_to_json(values: &Vec<Vec<String>>) -> (r: Result<String, ()>)
    ensures
        match r {
            Ok(t) => spec_json_of_string_lists(string_lists_view(values@)) == Some(t@),
            Err(()) => spec_json_of_string_lists(string_lists_view(values@)) is None,
        },
{
    serde_json::to_string(values).map_err(|_| ())
}

/// The stored settings: the equivalent domains and the excluded global groups as JSON text,
/// an absent list stored as an empty one.
pub struct DomainSettings {
    pub equivalent_domains_json: String,
    pub excluded_globals_json: String,
}

/// The settings to store for a request: both lists as JSON (absent lists as empty ones).
pub fn domain_settings(payload: EquivDomainData) -> (r: Result<DomainSettings, AppError>)
    ensures
        ({
            let excluded = match payload.excluded_global_equivalent_domains {
                Some(v) => v@,
                None => Seq::<i32>::empty(),
            };
            let equivalent = match payload.equivalent_domains {
                Some(v) => string_lists_view(v@),
                None => Seq::<Seq<Seq<char>>>::empty(),
            };
            match spec_json_of_string_lists(equivalent) {
                None => r matches Err(AppError::BadRequest(m)) && m@
                    == "Invalid equivalent domains"@,
                Some(eq) => r matches Ok(d) && d.excluded_globals_json@ == json_of_ints(excluded)
                    && d.equivalent_domains_json@ == eq,
            }
        }),
{
    let excluded: Vec<i32> = match payload.excluded_global_equivalent_domains {
        Some(v) => v,
        None => Vec::new(),
    };
    let equivalent: Vec<Vec<String>> = match payload.equivalent_domains {
        Some(v) => v,
        None => Vec::new(),
    };
    proof {
        assert(string_lists_view(Seq::<Vec<String>>::empty()) =~= Seq::<Seq<Seq<char>>>::empty());
    }
    let excluded_json = match ints_to_json(&excluded) {
        Ok(t) => t,
        Err(()) => return Err(AppError::BadRequest(String::from_str("Invalid excluded globals"))),
    };
    let equivalent_json = match string_lists_to_json(&equivalent) {
        Ok(t) => t,
        Err(()) => return Err(
            AppError::BadRequest(String::from_str("Invalid equivalent domains")),
        ),
    };
    Ok(DomainSettings { equivalent_domains_json: equivalent_json, excluded_globals_json: excluded_json })
}

} // verus!
