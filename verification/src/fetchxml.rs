//! Queries that the user writes as raw text: finding the entity that such a
//! query is about.
//!
//! The text is searched, not parsed: the name is what stands between the first
//! `<entity name="` and the next double quote, or, where the text has no such
//! opening, between the first `<entity name='` and the next single quote.

use vstd::prelude::*;
use crate::models::entity::EntityMetadata;
use crate::text::{chars_of, find, find_from, find_from_stands, occurs_at};

verus! {

/// What stands before the name where it is quoted doubly.
pub const DOUBLE_QUOTED_OPENING: &'static str = "<entity name=\"";

/// What stands before the name where it is quoted singly.
pub const SINGLE_QUOTED_OPENING: &'static str = "<entity name='";

/// What stands in `text` between `from` and the next `quote`, if one follows.
pub open spec fn up_to(text: Seq<char>, from: int, quote: Seq<char>) -> Option<Seq<char>> {
    match find_from(text, quote, from) {
        Some(end) => Some(text.subrange(from, end)),
        None => None,
    }
}

/// The logical name of the entity that a query is about, if the text shows
/// it. Where the text has the doubly quoted opening, only that one counts: if
/// no double quote follows it, no name is found.
pub open spec fn entity_name_in(query: Seq<char>) -> Option<Seq<char>> {
    match find_from(query, DOUBLE_QUOTED_OPENING@, 0) {
        Some(start) => up_to(query, start + DOUBLE_QUOTED_OPENING@.len(), "\""@),
        None => match find_from(query, SINGLE_QUOTED_OPENING@, 0) {
            Some(start) => up_to(query, start + SINGLE_QUOTED_OPENING@.len(), "'"@),
            None => None,
        },
    }
}

/// What stands in `text` between `from` and the next `quote`.
fn text_up_to(text: &str, chars: &Vec<char>, from: usize, quote: &str) -> (r: Option<String>)
    requires
        chars@ == text@,
        from <= chars.len(),
    ensures
        match r {
            Some(found) => up_to(text@, from as int, quote@) == Some(found@),
            None => up_to(text@, from as int, quote@) is None,
        },
{
    let needle = chars_of(quote);
    match find(chars, &needle, from) {
        Some(end) => {
            proof {
                find_from_stands(text@, quote@, from as int);
            }
            Some(String::from_str(text.substring_char(from, end)))
        },
        None => None,
    }
}

/// The logical name of the entity that a query is about, if the text shows
/// it.
pub fn extract_entity_name(query: &str) -> (r: Option<String>)
    ensures
        match r {
            Some(name) => entity_name_in(query@) == Some(name@),
            None => entity_name_in(query@) is None,
        },
{
    let chars = chars_of(query);
    let double = chars_of(DOUBLE_QUOTED_OPENING);
    match find(&chars, &double, 0) {
        Some(start) => {
            proof {
                find_from_stands(query@, DOUBLE_QUOTED_OPENING@, 0);
                assert(occurs_at(chars@, double@, start as int));
                assert(start + double.len() <= chars.len());
            }
            text_up_to(query, &chars, start + double.len(), "\"")
        },
        None => {
            let single = chars_of(SINGLE_QUOTED_OPENING);
            match find(&chars, &single, 0) {
                Some(start) => {
                    proof {
                        find_from_stands(query@, SINGLE_QUOTED_OPENING@, 0);
                        assert(occurs_at(chars@, single@, start as int));
                        assert(start + single.len() <= chars.len());
                    }
                    text_up_to(query, &chars, start + single.len(), "'")
                },
                None => None,
            }
        },
    }
}

/// The place in `entities` of the first entity with the logical name `name`.
pub open spec fn first_named(entities: Seq<EntityMetadata>, name: Seq<char>) -> Option<int>
    decreases entities.len(),
{
    if entities.len() == 0 {
        None
    } else {
        match first_named(entities.drop_last(), name) {
            Some(at) => Some(at),
            None => if entities.last().logical_name@ == name {
                Some(entities.len() - 1)
            } else {
                None
            },
        }
    }
}

/// The name of the set of the entity `name` in a query: the one that the
/// catalog gives for the first entity of that name, else the name with an
/// `s` after it. The second is a guess: it is wrong for every entity whose
/// plural is formed otherwise.
pub open spec fn set_name_in(entities: Seq<EntityMetadata>, name: Seq<char>) -> Seq<char> {
    match first_named(entities, name) {
        Some(at) => match entities[at].entity_set_name {
            Some(set) => set@,
            None => name + "s"@,
        },
        None => name + "s"@,
    }
}

/// What `first_named` finds has the name, and nothing before it has.
pub proof fn first_named_is_first(entities: Seq<EntityMetadata>, name: Seq<char>)
    ensures
        match first_named(entities, name) {
            Some(at) => 0 <= at < entities.len() && entities[at].logical_name@ == name
                && forall|j: int| 0 <= j < at ==> entities[j].logical_name@ != name,
            None => forall|j: int| 0 <= j < entities.len() ==> entities[j].logical_name@ != name,
        },
    decreases entities.len(),
{
    if entities.len() > 0 {
        first_named_is_first(entities.drop_last(), name);
        assert forall|j: int| 0 <= j < entities.len() - 1 implies entities[j]
            == entities.drop_last()[j] by {}
    }
}

/// The place in `entities` of the first entity with the logical name `name`.
pub fn find_entity(entities: &Vec<EntityMetadata>, name: &str) -> (r: Option<usize>)
    ensures
        match r {
            Some(at) => first_named(entities@, name@) == Some(at as int) && at < entities.len(),
            None => first_named(entities@, name@) is None,
        },
{
    let wanted = String::from_str(name);
    let mut i: usize = 0;
    proof {
        assert(entities@.take(0) =~= Seq::empty());
    }
    while i < entities.len()
        invariant
            i <= entities.len(),
            wanted@ == name@,
            first_named(entities@.take(i as int), name@) is None,
        decreases entities.len() - i,
    {
        proof {
            assert(entities@.take(i as int + 1).drop_last() == entities@.take(i as int));
            assert(entities@.take(i as int + 1).last() == entities@[i as int]);
        }
        if entities[i].logical_name == wanted {
            proof {
                first_named_extends(entities@, name@, i as int + 1);
            }
            return Some(i);
        }
        i += 1;
    }
    proof {
        assert(entities@.take(i as int) == entities@);
    }
    None
}

/// What is first among the entities before `upto` is first among all.
proof fn first_named_extends(entities: Seq<EntityMetadata>, name: Seq<char>, upto: int)
    requires
        0 <= upto <= entities.len(),
        first_named(entities.take(upto), name) is Some,
    ensures
        first_named(entities, name) == first_named(entities.take(upto), name),
    decreases entities.len() - upto,
{
    if upto < entities.len() {
        assert(entities.take(upto + 1).drop_last() == entities.take(upto));
        first_named_extends(entities, name, upto + 1);
    } else {
        assert(entities.take(upto) == entities);
    }
}

/// The name of the set of the entity `name` in a query.
pub fn resolve_entity_set(entities: &Vec<EntityMetadata>, name: &str) -> (out: String)
    ensures
        out@ == set_name_in(entities@, name@),
{
    if let Some(at) = find_entity(entities, name) {
        if let Some(set) = &entities[at].entity_set_name {
            return set.clone();
        }
    }
    let mut out = String::from_str(name);
    out.append("s");
    out
}

} // verus!
