//! Extraction of the one-time anti-forgery token from the identity provider's
//! login page.
//!
//! The login form carries the token as the value of the unique `<input>`
//! element whose name attribute is the fixed sentinel `execution`. Parsing
//! the HTML is the HTML parser's business; picking the right input out of the
//! parsed fields is this module's, and is verified.

use vstd::prelude::*;

use crate::text::str_eq;

verus! {

/// The name attribute that marks the login form's anti-forgery token input.
pub open spec fn token_input_name() -> Seq<char> {
    "execution"@
}

/// The `(name, value)` attribute pairs of the `<input>` elements of an HTML
/// document, in document order: the name attribute (or the empty sequence
/// when absent) and the value attribute (or `None` when absent). What the
/// pairs are for given markup is the HTML parser's result, left
/// uninterpreted.
pub uninterp spec fn input_fields_of(html: Seq<char>) -> Seq<(Seq<char>, Option<Seq<char>>)>;

/// The view of one parsed input field.
pub open spec fn field_view(f: (String, Option<String>)) -> (Seq<char>, Option<Seq<char>>) {
    (
        f.0@,
        match f.1 {
            Some(v) => Some(v@),
            None => None,
        },
    )
}

/// The views of a sequence of parsed input fields.
pub open spec fn fields_view(fields: Seq<(String, Option<String>)>) -> Seq<
    (Seq<char>, Option<Seq<char>>),
> {
    fields.map_values(|f: (String, Option<String>)| field_view(f))
}

/// The view of an optional string.
pub open spec fn option_view(o: Option<String>) -> Option<Seq<char>> {
    match o {
        Some(s) => Some(s@),
        None => None,
    }
}

/// Relies on scraper's HTML parsing (`Html::parse_fragment` with the `input`
/// selector): returns, for each `<input>` element of the document in document
/// order, its name attribute (the empty string when absent) and its value
/// attribute (`None` when absent).
#[verifier::external_body]
fn parse_input_fields(html: &str) -> (r: Vec<(String, Option<String>)>)
    ensures
        r@.len() == input_fields_of(html@).len(),
        forall|i: int| 0 <= i < r@.len() ==> field_view(r@[i]) == input_fields_of(html@)[i],
{
    let fragment = scraper::Html::parse_fragment(html);
    let selector = scraper::Selector::parse("input").unwrap();
    fragment
        .select(&selector)
        .map(|e| {
            let name = e.value().attr("name").unwrap_or_default().to_owned();
            let value = e.value().attr("value").map(|v| v.to_owned());
            (name, value)
        })
        .collect()
}

/// The token among parsed input fields: the value attribute of the first
/// field named `execution`, or `None` when no field carries that name or the
/// first one so named has no value attribute.
pub open spec fn spec_token_of(fields: Seq<(Seq<char>, Option<Seq<char>>)>) -> Option<Seq<char>>
    decreases fields.len(),
{
    if fields.len() == 0 {
        None
    } else if fields[0].0 == token_input_name() {
        fields[0].1
    } else {
        spec_token_of(fields.drop_first())
    }
}

/// The value attribute of the first input field named `execution`, if any.
pub fn find_execution_value(fields: &Vec<(String, Option<String>)>) -> (r: Option<String>)
    ensures
        option_view(r) == spec_token_of(fields_view(fields@)),
{
    let ghost all = fields_view(fields@);
    proof {
        assert(all.skip(0) =~= all);
    }
    let n = fields.len();
    let mut i: usize = 0;
    while i < n
        invariant
            all == fields_view(fields@),
            n == fields@.len(),
            0 <= i <= n,
            spec_token_of(all) == spec_token_of(all.skip(i as int)),
        decreases n - i,
    {
        proof {
            assert(all.skip(i as int)[0] == all[i as int]);
            assert(all[i as int] == field_view(fields@[i as int]));
        }
        let f = &fields[i];
        if str_eq(f.0.as_str(), "execution") {
            proof {
                assert(all.skip(i as int)[0].0 == token_input_name());
                assert(spec_token_of(all.skip(i as int)) == all[i as int].1);
            }
            return match &f.1 {
                Some(v) => Some(v.clone()),
                None => None,
            };
        }
        proof {
            assert(all.skip(i as int)[0].0 != token_input_name());
            assert(all.skip(i as int).drop_first() =~= all.skip(i as int + 1));
        }
        i += 1;
    }
    proof {
        assert(all.skip(n as int) =~= Seq::<(Seq<char>, Option<Seq<char>>)>::empty());
    }
    None
}

/// Extracts the anti-forgery token from the identity provider's login page:
/// the value of the first `<input>` named `execution`. `None` means the page
/// carries no such input (or it has no value attribute): the upstream markup
/// has drifted, and retrying will not change it.
pub fn extract_token(html: &str) -> (r: Option<String>)
    ensures
        option_view(r) == spec_token_of(input_fields_of(html@)),
{
    let fields = parse_input_fields(html);
    proof {
        assert(fields_view(fields@) =~= input_fields_of(html@));
    }
    find_execution_value(&fields)
}

} // verus!
