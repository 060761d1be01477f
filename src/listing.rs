use vstd::prelude::*;

use crate::model::strs_view;

verus! {

#[verifier::external_type_specification]
#[verifier::external_body]
pub struct ExJsonError(serde_json::Error);

/// Whether serde_json accepts a text as one JSON document.
pub uninterp spec fn json_accepts(text: Seq<char>) -> bool;

/// For a JSON text whose document is an array: for each element in order, the
/// string held by its member `key`, if it is an object with such a string
/// member. `None` for a document that is not an array.
pub uninterp spec fn json_members(text: Seq<char>, key: Seq<char>) -> Option<Seq<Option<Seq<char>>>>;

pub open spec fn opt_strs_view(l: Seq<Option<String>>) -> Seq<Option<Seq<char>>> {
    l.map_values(|o: Option<String>| match o {
        Some(s) => Some(s@),
        None => None,
    })
}

/// Relies on serde_json::from_str, Value::as_array, Value::get and
/// Value::as_str: parses the text, fails exactly on the texts serde_json does
/// not accept, and reads the string member `key` of each array element.
#[verifier::external_body]
fn members_of(text: &str, key: &str) -> (r: Result<Option<Vec<Option<String>>>, serde_json::Error>)
    ensures
        r is Ok == json_accepts(text@),
        r matches Ok(m) ==> match m {
            Some(l) => json_members(text@, key@) == Some(opt_strs_view(l@)),
            None => json_members(text@, key@) is None,
        },
{
    let doc: serde_json::Value = serde_json::from_str(text)?;
    Ok(doc.as_array().map(|items| {
        items.iter().map(|item| item.get(key).and_then(|v| v.as_str()).map(|s| s.to_string())).collect()
    }))
}

/// The present members, in order.
pub open spec fn present(l: Seq<Option<Seq<char>>>) -> Seq<Seq<char>>
    decreases l.len(),
{
    if l.len() == 0 {
        Seq::empty()
    } else {
        let rest = present(l.drop_last());
        match l.last() {
            Some(s) => rest.push(s),
            None => rest,
        }
    }
}

/// What a listing lists: the present members of an array document, and
/// nothing for any other document.
pub open spec fn listing_of(m: Option<Seq<Option<Seq<char>>>>) -> Seq<Seq<char>> {
    match m {
        Some(l) => present(l),
        None => Seq::empty(),
    }
}

/// Why the control plane's listing could not be read.
#[derive(Clone, Copy, Debug, PartialEq, Eq, Structural)]
pub enum ListingError {
    /// The listing is not a JSON document.
    Malformed,
}

/// Keeps the members that are present, in order.
pub fn present_members(members: &Option<Vec<Option<String>>>) -> (r: Vec<String>)
    ensures
        strs_view(r@) == listing_of(
            match members {
                Some(l) => Some(opt_strs_view(l@)),
                None => None,
            },
        ),
{
    let mut names: Vec<String> = Vec::new();
    match members {
        None => {
            assert(strs_view(names@) =~= Seq::<Seq<char>>::empty());
        },
        Some(items) => {
            let ghost v = opt_strs_view(items@);
            let mut i: usize = 0;
            assert(strs_view(names@) =~= present(v.take(0)));
            while i < items.len()
                invariant
                    i <= items@.len(),
                    v == opt_strs_view(items@),
                    strs_view(names@) == present(v.take(i as int)),
                decreases items@.len() - i,
            {
                assert(v.take(i + 1).drop_last() =~= v.take(i as int));
                match &items[i] {
                    Some(s) => {
                        names.push(s.clone());
                        assert(strs_view(names@) =~= present(v.take(i as int)).push(s@));
                    },
                    None => {},
                }
                i += 1;
            }
            assert(v.take(i as int) =~= v);
        },
    }
    names
}

/// Reads a listing printed by the control plane: the string member `key` of
/// each element of the top-level JSON array, in order. Elements without such a
/// member are passed over, and a document that is not an array lists nothing.
/// It fails exactly when the text is not a JSON document.
pub fn listed_names(text: &str, key: &str) -> (r: Result<Vec<String>, ListingError>)
    ensures
        r is Ok == json_accepts(text@),
        r matches Ok(v) ==> strs_view(v@) == listing_of(json_members(text@, key@)),
{
    match members_of(text, key) {
        Ok(m) => Ok(present_members(&m)),
        Err(_) => Err(ListingError::Malformed),
    }
}

} // verus!
