//! Finding people by the beginning of their names.

use vstd::prelude::*;

use crate::model::identifier::Identifier;
use crate::model::orchardpay::OrchardPayContactState;
use crate::model::text;
use vstd::string::StrSliceExecFns;

verus! {

/// How many names one search asks for.
pub const SEARCH_LIMIT: u32 = 20;

/// Somebody a search has found.
#[derive(Debug, Clone, PartialEq)]
pub struct OrchardPayContactSearchResult {
    pub identity_id: Identifier,
    pub username: String,
    /// Whether they have published a shielded address.
    pub contactable: bool,
    /// What is recorded of them already.
    pub existing_relationship: Option<OrchardPayContactState>,
}

/// `term` is what to search for under this query.
pub open spec fn is_term(term: Option<Seq<char>>, query: Seq<char>) -> bool {
    match term {
        Some(t) => t == text::trimmed(query) && t.len() > 0,
        None => text::trimmed(query).len() == 0,
    }
}

/// What to search for: the query without the whitespace around it. Without
/// anything left there is nothing to search for, and nothing is found.
pub fn search_term(search_query: &str) -> (term: Option<String>)
    ensures
        is_term(text::optional_view(term), search_query@),
{
    let trimmed: String = text::trim(search_query);
    if text::is_empty_text(trimmed.as_str()) {
        None
    } else {
        Some(trimmed)
    }
}

/// The name that a label stands for.
pub fn dpns_name(label: &str) -> (name: String)
    ensures
        name@ == label@ + ".dash"@,
{
    text::joined(label, ".dash")
}

/// A name as it is shown: without the ending that every name has.
pub open spec fn shown_name(name: Seq<char>) -> Seq<char> {
    if ".dash"@.is_suffix_of(name) {
        name.take(name.len() - ".dash"@.len())
    } else {
        name
    }
}

/// A name as it is shown: without the ending that every name has.
pub fn strip_dash_suffix(name: &str) -> (shown: String)
    ensures
        shown@ == shown_name(name@),
{
    proof {
        reveal_strlit(".dash");
    }
    let count: usize = name.unicode_len();
    if count < 5 || name.get_char(count - 5) != '.' || name.get_char(count - 4) != 'd'
        || name.get_char(count - 3) != 'a' || name.get_char(count - 2) != 's' || name.get_char(
        count - 1,
    ) != 'h' {
        proof {
            if ".dash"@.is_suffix_of(name@) {
                let ending = name@.subrange(count - 5, count as int);
                assert(ending[0] == name@[count - 5] && ending[1] == name@[count - 4]);
                assert(ending[2] == name@[count - 3] && ending[3] == name@[count - 2]);
                assert(ending[4] == name@[count - 1]);
            }
        }
        return name.to_owned();
    }
    assert(".dash"@ =~= name@.subrange(count - 5, count as int));
    text::beginning(name, count - 5)
}

/// Showing a name gives back the label that it was made of.
pub proof fn names_are_shown_by_their_label(label: Seq<char>)
    ensures
        shown_name(label + ".dash"@) == label,
{
    reveal_strlit(".dash");
    let name = label + ".dash"@;
    assert(".dash"@ =~= name.subrange(name.len() - 5, name.len() as int));
    assert(name.take(name.len() - 5) =~= label);
}

/// The name under which somebody was found: their label, or their identifier where
/// the document holds none.
pub open spec fn username_of(label: Option<Seq<char>>, identifier_text: Seq<char>) -> Seq<char> {
    match label {
        Some(l) => l + ".dash"@,
        None => identifier_text + ".dash"@,
    }
}

/// What a search has found of one identity.
#[derive(Debug, Clone, PartialEq)]
pub struct SearchHit {
    pub identity_id: Identifier,
    pub label: Option<String>,
    /// The identifier in base 58.
    pub identifier_text: String,
    /// Whether they have published a shielded address.
    pub contactable: bool,
    /// What is recorded of them already.
    pub existing_relationship: Option<OrchardPayContactState>,
}

/// `result` is what a hit is shown as.
pub open spec fn shows(result: OrchardPayContactSearchResult, hit: SearchHit) -> bool {
    &&& result.identity_id == hit.identity_id
    &&& result.username@ == username_of(text::optional_view(hit.label), hit.identifier_text@)
    &&& result.contactable == hit.contactable
    &&& result.existing_relationship == hit.existing_relationship
}

/// The results of a search, one for each hit and in the same order.
pub fn search_contacts(hits: Vec<SearchHit>) -> (results: Vec<OrchardPayContactSearchResult>)
    ensures
        results@.len() == hits@.len(),
        forall|i: int| 0 <= i < hits@.len() ==> shows(#[trigger] results@[i], hits@[i]),
{
    let ghost all = hits@;
    let mut results: Vec<OrchardPayContactSearchResult> = Vec::new();
    for hit in iter: hits
        invariant
            iter.seq() == all,
            results@.len() == iter.index(),
            forall|i: int| 0 <= i < iter.index() ==> shows(#[trigger] results@[i], all[i]),
    {
        let username: String = match &hit.label {
            Some(label) => dpns_name(label.as_str()),
            None => dpns_name(hit.identifier_text.as_str()),
        };
        results.push(
            OrchardPayContactSearchResult {
                identity_id: hit.identity_id,
                username,
                contactable: hit.contactable,
                existing_relationship: hit.existing_relationship,
            },
        );
    }
    results
}

/// Nothing is searched for under a query of whitespace alone; under any other, a
/// term that begins and ends with a character of the query that is none.
pub proof fn blank_queries_search_for_nothing(query: Seq<char>, term: Option<Seq<char>>)
    requires
        is_term(term, query),
    ensures
        term is None <==> (forall|i: int|
            0 <= i < query.len() ==> text::whitespace(#[trigger] query[i])),
        term matches Some(t) ==> {
            &&& t.len() > 0
            &&& !text::whitespace(t[0])
            &&& !text::whitespace(t.last())
            &&& exists|from: int, to: int|
                0 <= from <= to <= query.len() && t == #[trigger] query.subrange(from, to)
        },
{
    text::trimming_takes_the_whitespace_around(query);
    let (from, to) = choose|from: int, to: int|
        #![trigger query.subrange(from, to)]
        {
            &&& 0 <= from <= to <= query.len()
            &&& text::trimmed(query) == query.subrange(from, to)
            &&& forall|i: int| 0 <= i < from ==> text::whitespace(#[trigger] query[i])
            &&& forall|i: int| to <= i < query.len() ==> text::whitespace(#[trigger] query[i])
        };
    if from < to {
        assert(text::trimmed(query)[0] == query[from]);
        assert(!text::whitespace(query[from]));
    }
}

/// Somebody found is shown under the label they were found by, or their identifier
/// where there is none, as a name; all else is shown as it was found.
pub proof fn hits_are_shown_by_name(result: OrchardPayContactSearchResult, hit: SearchHit)
    requires
        shows(result, hit),
    ensures
        result.identity_id == hit.identity_id,
        result.contactable == hit.contactable,
        result.existing_relationship == hit.existing_relationship,
        hit.label matches Some(label) ==> result.username@ == label@ + ".dash"@,
        hit.label is None ==> result.username@ == hit.identifier_text@ + ".dash"@,
{
}

} // verus!
