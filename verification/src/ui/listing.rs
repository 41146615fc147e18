//! Narrowing the lists of the explorer by the search text, and searching all
//! of them at once.

use vstd::prelude::*;
use crate::text::{chars_of, lowercase, to_lowercase};
use crate::ui::app::App;
use crate::ui::search::{filter_indices, filtered, matching, matching_indices};
use crate::ui::view::{self, SearchResult};

verus! {

/// What a search over all that is loaded finds: the entities in which the
/// text is found, then the solutions, then the option sets, each by its place.
pub open spec fn search_hits(app: App, needle: Seq<char>) -> Seq<SearchResult> {
    matching(app.entities@, needle).map_values(|at: usize| SearchResult::Entity(at)) + matching(
        app.solutions@,
        needle,
    ).map_values(|at: usize| SearchResult::Solution(at)) + matching(
        app.global_optionsets@,
        needle,
    ).map_values(|at: usize| SearchResult::OptionSet(at))
}

impl App {
    /// Whether `post` is `pre` with the entities narrowed by the search text.
    pub open spec fn entities_narrowed(pre: App, post: App) -> bool {
        &&& post.filtered_entities@ == filtered(pre.entities@, pre.search_query@)
        &&& post == (App {
                filtered_entities: post.filtered_entities,
                entity_index: 0,
                ..pre
            })
    }

    /// Apply search filter to entities
    pub fn filter_entities(&mut self)
        ensures
            App::entities_narrowed(*old(self), *final(self)),
    {
        self.filtered_entities = filter_indices(&self.entities, self.search_query.as_str());
        self.entity_index = 0;
    }

    /// Whether `post` is `pre` with the attributes narrowed by the search text.
    pub open spec fn attributes_narrowed(pre: App, post: App) -> bool {
        &&& post.filtered_attributes@ == filtered(
                pre.entity_attributes@,
                pre.search_query@,
            )
        &&& post == (App {
                filtered_attributes: post.filtered_attributes,
                attribute_index: 0,
                ..pre
            })
    }

    /// Apply search filter to attributes
    pub fn filter_attributes(&mut self)
        ensures
            App::attributes_narrowed(*old(self), *final(self)),
    {
        self.filtered_attributes = filter_indices(
            &self.entity_attributes,
            self.search_query.as_str(),
        );
        self.attribute_index = 0;
    }

    /// Whether `post` is `pre` with the solutions narrowed by the search text.
    pub open spec fn solutions_narrowed(pre: App, post: App) -> bool {
        &&& post.filtered_solutions@ == filtered(
                pre.solutions@,
                pre.search_query@,
            )
        &&& post == (App {
                filtered_solutions: post.filtered_solutions,
                solution_index: 0,
                ..pre
            })
    }

    /// Apply search filter to solutions
    pub fn filter_solutions(&mut self)
        ensures
            App::solutions_narrowed(*old(self), *final(self)),
    {
        self.filtered_solutions = filter_indices(&self.solutions, self.search_query.as_str());
        self.solution_index = 0;
    }

    /// Whether `post` is `pre` with the users narrowed by the search text.
    pub open spec fn users_narrowed(pre: App, post: App) -> bool {
        &&& post.filtered_users@ == filtered(pre.users@, pre.search_query@)
        &&& post == (App {
                filtered_users: post.filtered_users,
                user_index: 0,
                ..pre
            })
    }

    /// Apply search filter to users
    pub fn filter_users(&mut self)
        ensures
            App::users_narrowed(*old(self), *final(self)),
    {
        self.filtered_users = filter_indices(&self.users, self.search_query.as_str());
        self.user_index = 0;
    }

    /// Whether `post` is `pre` with the jobs narrowed by the search text.
    pub open spec fn system_jobs_narrowed(pre: App, post: App) -> bool {
        &&& post.filtered_system_jobs@ == filtered(
                pre.system_jobs@,
                pre.search_query@,
            )
        &&& post == (App {
                filtered_system_jobs: post.filtered_system_jobs,
                system_job_index: 0,
                ..pre
            })
    }

    /// Apply search filter to system jobs
    pub fn filter_system_jobs(&mut self)
        ensures
            App::system_jobs_narrowed(*old(self), *final(self)),
    {
        self.filtered_system_jobs = filter_indices(&self.system_jobs, self.search_query.as_str());
        self.system_job_index = 0;
    }

    /// Whether `post` is `pre` with the components narrowed by the search text.
    pub open spec fn components_narrowed(pre: App, post: App) -> bool {
        &&& post.filtered_components@ == filtered(
                pre.solution_components@,
                pre.search_query@,
            )
        &&& post == (App {
                filtered_components: post.filtered_components,
                component_index: 0,
                ..pre
            })
    }

    /// Filter solution components
    pub fn filter_solution_components(&mut self)
        ensures
            App::components_narrowed(*old(self), *final(self)),
    {
        self.filtered_components = filter_indices(
            &self.solution_components,
            self.search_query.as_str(),
        );
        self.component_index = 0;
    }

    /// Whether `post` is `pre` with the option sets narrowed by the search text.
    pub open spec fn optionsets_narrowed(pre: App, post: App) -> bool {
        &&& post.filtered_optionsets@ == filtered(
                pre.global_optionsets@,
                pre.search_query@,
            )
        &&& post == (App {
                filtered_optionsets: post.filtered_optionsets,
                optionset_index: 0,
                ..pre
            })
    }

    /// Filter global option sets
    pub fn filter_optionsets(&mut self)
        ensures
            App::optionsets_narrowed(*old(self), *final(self)),
    {
        self.filtered_optionsets = filter_indices(
            &self.global_optionsets,
            self.search_query.as_str(),
        );
        self.optionset_index = 0;
    }

    /// Whether `post` is `pre` after a search over all that is loaded.
    pub open spec fn searched_everywhere(pre: App, post: App) -> bool {
        &&& lowercase(pre.search_query@).len() == 0 ==> {
                &&& post.global_search_results@.len() == 0
                &&& post == (App {
                    global_search_results: post.global_search_results,
                    ..pre
                })
            }
        &&& lowercase(pre.search_query@).len() > 0 ==> {
                &&& post.global_search_results@ == search_hits(
                    pre,
                    lowercase(pre.search_query@),
                )
                &&& post == (App {
                    global_search_results: post.global_search_results,
                    global_search_index: 0,
                    view: view::View::GlobalSearch,
                    ..pre
                })
            }
    }

    /// Execute search across all cached metadata. Where the lower-case form
    /// of the search text is empty, what was found before is forgotten and
    /// nothing else changes. Else what is found replaces it, the cursor goes to
    /// its top, and the view is that of the search.
    pub fn execute_global_search(&mut self)
        ensures
            App::searched_everywhere(*old(self), *final(self)),
    {
        let query = to_lowercase(self.search_query.as_str());
        if query.as_str().is_empty() {
            self.global_search_results.clear();
            return ;
        }
        let needle = chars_of(query.as_str());
        let mut results: Vec<SearchResult> = Vec::new();

        // 1. Entities
        let entities = matching_indices(&self.entities, &needle);
        let mut i: usize = 0;
        while i < entities.len()
            invariant
                i <= entities.len(),
                results@ == entities@.take(i as int).map_values(|at: usize| SearchResult::Entity(at)),
            decreases entities.len() - i,
        {
            results.push(SearchResult::Entity(entities[i]));
            assert(results@ =~= entities@.take(i as int + 1).map_values(
                |at: usize| SearchResult::Entity(at),
            ));
            i += 1;
        }
        let ghost first = results@;
        assert(entities@.take(i as int) == entities@);

        // 2. Solutions
        let solutions = matching_indices(&self.solutions, &needle);
        let mut i: usize = 0;
        while i < solutions.len()
            invariant
                i <= solutions.len(),
                results@ == first + solutions@.take(i as int).map_values(
                    |at: usize| SearchResult::Solution(at),
                ),
            decreases solutions.len() - i,
        {
            results.push(SearchResult::Solution(solutions[i]));
            assert(results@ =~= first + solutions@.take(i as int + 1).map_values(
                |at: usize| SearchResult::Solution(at),
            ));
            i += 1;
        }
        let ghost second = results@;
        assert(solutions@.take(i as int) == solutions@);

        // 3. OptionSets
        let optionsets = matching_indices(&self.global_optionsets, &needle);
        let mut i: usize = 0;
        while i < optionsets.len()
            invariant
                i <= optionsets.len(),
                results@ == second + optionsets@.take(i as int).map_values(
                    |at: usize| SearchResult::OptionSet(at),
                ),
            decreases optionsets.len() - i,
        {
            results.push(SearchResult::OptionSet(optionsets[i]));
            assert(results@ =~= second + optionsets@.take(i as int + 1).map_values(
                |at: usize| SearchResult::OptionSet(at),
            ));
            i += 1;
        }
        assert(optionsets@.take(i as int) == optionsets@);

        self.global_search_results = results;
        self.global_search_index = 0;
        self.view = view::View::GlobalSearch;
    }
}

} // verus!
