//! Narrowing a list to what a search text is found in.

use vstd::prelude::*;
use crate::models::entity::{text_or_empty, AttributeMetadata, EntityMetadata, OptionSetMetadata};
use crate::models::solution::{ComponentType, Solution, SolutionComponent};
use crate::models::system_jobs::SystemJob;
use crate::models::user::SystemUser;
use crate::text::{chars_of, contains, lowercase, lowercase_contains, to_lowercase, views};

verus! {

/// Something that a search text can be looked for in.
pub trait Searchable {
    /// The texts in which the search text is looked for.
    spec fn search_texts(&self) -> Seq<Seq<char>>;

    /// The texts in which the search text is looked for.
    fn texts(&self) -> (r: Vec<String>)
        ensures
            views(r@) == self.search_texts(),
    ;
}

/// Whether `needle` stands in the lower-case form of one of `texts`.
pub open spec fn found_in(texts: Seq<Seq<char>>, needle: Seq<char>) -> bool {
    exists|i: int| 0 <= i < texts.len() && contains(lowercase(#[trigger] texts[i]), needle)
}

/// The places of those of `items` in which `needle` is found, rising.
pub open spec fn matching<T: Searchable>(items: Seq<T>, needle: Seq<char>) -> Seq<usize>
    decreases items.len(),
{
    if items.len() == 0 {
        Seq::empty()
    } else {
        let before = matching(items.drop_last(), needle);
        if found_in(items.last().search_texts(), needle) {
            before.push((items.len() - 1) as usize)
        } else {
            before
        }
    }
}

/// The places from 0 up to `n`, without `n`.
pub open spec fn all_indices(n: nat) -> Seq<usize> {
    Seq::new(n, |i: int| i as usize)
}

/// What a list is narrowed to by a search text: to everything where the
/// lower-case form of the text is empty, else to the items in which that form
/// is found.
pub open spec fn filtered<T: Searchable>(items: Seq<T>, query: Seq<char>) -> Seq<usize> {
    if lowercase(query).len() == 0 {
        all_indices(items.len())
    } else {
        matching(items, lowercase(query))
    }
}

/// Every place that `matching` gives is a place of the list.
pub proof fn matching_in_range<T: Searchable>(items: Seq<T>, needle: Seq<char>)
    ensures
        matching(items, needle).len() <= items.len(),
        forall|k: int|
            0 <= k < matching(items, needle).len() ==> (#[trigger] matching(items, needle)[k])
                < items.len(),
    decreases items.len(),
{
    if items.len() > 0 {
        matching_in_range(items.drop_last(), needle);
    }
}

/// Whether `needle` stands in the lower-case form of one of `texts`.
pub fn any_contains(texts: &Vec<String>, needle: &Vec<char>) -> (r: bool)
    ensures
        r == found_in(views(texts@), needle@),
{
    let mut i: usize = 0;
    while i < texts.len()
        invariant
            i <= texts.len(),
            forall|j: int| 0 <= j < i ==> !contains(lowercase(views(texts@)[j]), needle@),
        decreases texts.len() - i,
    {
        if lowercase_contains(texts[i].as_str(), needle) {
            assert(contains(lowercase(views(texts@)[i as int]), needle@));
            return true;
        }
        i += 1;
    }
    false
}

/// The places of those of `items` in which `needle` is found, rising.
pub fn matching_indices<T: Searchable>(items: &Vec<T>, needle: &Vec<char>) -> (r: Vec<usize>)
    ensures
        r@ == matching(items@, needle@),
{
    let mut found: Vec<usize> = Vec::new();
    let mut i: usize = 0;
    proof {
        assert(items@.take(0) =~= Seq::empty());
    }
    while i < items.len()
        invariant
            i <= items.len(),
            found@ == matching(items@.take(i as int), needle@),
        decreases items.len() - i,
    {
        proof {
            assert(items@.take(i as int + 1).drop_last() == items@.take(i as int));
            assert(items@.take(i as int + 1).last() == items@[i as int]);
        }
        let texts = items[i].texts();
        if any_contains(&texts, needle) {
            found.push(i);
        }
        i += 1;
    }
    proof {
        assert(items@.take(i as int) == items@);
    }
    found
}

/// The places from 0 up to `n`, without `n`.
pub fn index_range(n: usize) -> (r: Vec<usize>)
    ensures
        r@ == all_indices(n as nat),
{
    let mut all: Vec<usize> = Vec::new();
    let mut i: usize = 0;
    while i < n
        invariant
            i <= n,
            all@ == all_indices(i as nat),
        decreases n - i,
    {
        all.push(i);
        assert(all@ =~= all_indices((i + 1) as nat));
        i += 1;
    }
    all
}

/// What `items` is narrowed to by the search text `query`.
pub fn filter_indices<T: Searchable>(items: &Vec<T>, query: &str) -> (r: Vec<usize>)
    ensures
        r@ == filtered(items@, query@),
{
    let lower = to_lowercase(query);
    if lower.as_str().is_empty() {
        index_range(items.len())
    } else {
        let needle = chars_of(lower.as_str());
        matching_indices(items, &needle)
    }
}

/// The texts of one or two strings.
fn pair(first: String, second: String) -> (r: Vec<String>)
    ensures
        views(r@) == seq![first@, second@],
{
    let mut texts: Vec<String> = Vec::new();
    texts.push(first);
    texts.push(second);
    assert(views(texts@) =~= seq![first@, second@]);
    texts
}

impl Searchable for EntityMetadata {
    /// The logical name and the name shown.
    open spec fn search_texts(&self) -> Seq<Seq<char>> {
        seq![self.logical_name@, self.display_text()]
    }

    fn texts(&self) -> (r: Vec<String>) {
        pair(self.logical_name.clone(), self.get_display_name())
    }
}

impl Searchable for AttributeMetadata {
    /// The logical name and the name shown.
    open spec fn search_texts(&self) -> Seq<Seq<char>> {
        seq![self.logical_name@, self.display_text()]
    }

    fn texts(&self) -> (r: Vec<String>) {
        pair(self.logical_name.clone(), self.get_display_name())
    }
}

impl Searchable for Solution {
    /// The unique name and the name shown.
    open spec fn search_texts(&self) -> Seq<Seq<char>> {
        seq![self.unique_name@, self.display_text()]
    }

    fn texts(&self) -> (r: Vec<String>) {
        pair(self.unique_name.clone(), self.get_display_name())
    }
}

impl Searchable for OptionSetMetadata {
    /// The name and the name shown.
    open spec fn search_texts(&self) -> Seq<Seq<char>> {
        seq![self.name@, self.display_text()]
    }

    fn texts(&self) -> (r: Vec<String>) {
        pair(self.name.clone(), self.get_display_name())
    }
}

impl Searchable for SystemJob {
    /// The name and the status.
    open spec fn search_texts(&self) -> Seq<Seq<char>> {
        seq![self.name_text(), self.status_text()]
    }

    fn texts(&self) -> (r: Vec<String>) {
        pair(self.get_name(), self.get_status_label())
    }
}

impl Searchable for SolutionComponent {
    /// The name of the component's type and the identifier of what it
    /// holds, empty where there is none.
    open spec fn search_texts(&self) -> Seq<Seq<char>> {
        seq![ComponentType::of_code(self.type_code()).name_text(), text_or_empty(self.object_id)]
    }

    fn texts(&self) -> (r: Vec<String>) {
        let kind = String::from_str(self.get_component_type().display_name());
        let id = match &self.object_id {
            Some(id) => id.clone(),
            None => String::new(),
        };
        pair(kind, id)
    }
}

impl Searchable for SystemUser {
    /// The name shown, then the domain name and the mail address where the
    /// user has them.
    open spec fn search_texts(&self) -> Seq<Seq<char>> {
        seq![self.display_text()] + (match self.domain_name {
            Some(name) => seq![name@],
            None => Seq::empty(),
        }) + (match self.email {
            Some(address) => seq![address@],
            None => Seq::empty(),
        })
    }

    fn texts(&self) -> (r: Vec<String>) {
        let mut texts: Vec<String> = Vec::new();
        texts.push(self.get_display_name());
        let ghost mut want = seq![self.display_text()];
        proof {
            assert(views(texts@) =~= want);
        }
        if let Some(name) = &self.domain_name {
            texts.push(name.clone());
            proof {
                want = want + seq![name@];
                assert(views(texts@) =~= want);
            }
        }
        if let Some(address) = &self.email {
            texts.push(address.clone());
            proof {
                want = want + seq![address@];
                assert(views(texts@) =~= want);
            }
        }
        proof {
            assert(want =~= self.search_texts());
        }
        texts
    }
}

} // verus!
