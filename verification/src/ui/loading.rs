//! Taking in what was loaded: the answers of the record store to what the
//! explorer asked, and the failures to answer.

use vstd::prelude::*;
use crate::models::entity::{
    AttributeMetadata, EntityMetadata, OptionSetMetadata, RelationshipMetadata,
};
use crate::models::query::{opt_view, QueryResultView};
use crate::models::solution::{Solution, SolutionComponent, SolutionComponentLayer};
use crate::models::system_jobs::SystemJob;
use crate::models::user::{RoleAssignment, RoleSource, SecurityRole, SystemUser, Team};
use crate::sorting::{sort_by_name, sorted_by_name, sorted_is_permutation};
use crate::text::glue;
use crate::ui::app::App;
use crate::ui::guided::{GuidedQueryState, QueryMode};
use crate::ui::search::{all_indices, filtered, index_range};
use crate::ui::view::{self, AppState, EntityTab, UserTab};

verus! {

/// The roles of a user with the way each came to the user: the direct roles
/// first, then, team by team, the roles of each team whose roles could be
/// loaded.
pub open spec fn team_assignments(teams: Seq<Team>, team_roles: Seq<Option<Vec<SecurityRole>>>) -> Seq<
    RoleAssignment,
>
    decreases teams.len(),
{
    if teams.len() == 0 {
        Seq::empty()
    } else {
        let before = team_assignments(teams.drop_last(), team_roles);
        if teams.len() <= team_roles.len() {
            match team_roles[teams.len() - 1] {
                Some(roles) => before + roles@.map_values(
                    |role: SecurityRole|
                        RoleAssignment { role, source: RoleSource::Team(teams.last().name) },
                ),
                None => before,
            }
        } else {
            before
        }
    }
}

/// The direct roles of a user, each marked as direct.
pub open spec fn direct_assignments(roles: Seq<SecurityRole>) -> Seq<RoleAssignment> {
    roles.map_values(|role: SecurityRole| RoleAssignment { role, source: RoleSource::Direct })
}

impl App {
    /// Notes that something is being loaded: the state is `Loading` and no
    /// error is shown. Nothing else changes.
    pub fn begin_loading(&mut self)
        ensures
            *final(self) == (App { state: AppState::Loading, error: None, ..*old(self) }),
    {
        self.state = AppState::Loading;
        self.error = None;
    }

    /// Notes that loading failed: the error shown is `what` followed by
    /// `error`, and the state is `state`. Nothing else changes.
    pub fn fail(&mut self, what: &str, error: &str, state: AppState)
        ensures
            opt_view(final(self).error) == Some(what@ + error@),
            *final(self) == (App { state, error: final(self).error, ..*old(self) }),
    {
        self.error = Some(glue(what, error));
        self.state = state;
    }

    /// Load initial data (entities): the entities loaded are held in the
    /// order of their logical names, none is filtered out, and the state is
    /// `Ready`. Where loading failed, the state is `Error` with the failure as
    /// the error shown.
    pub fn load_entities(&mut self, loaded: Result<Vec<EntityMetadata>, String>)
        ensures
            match loaded {
                Ok(entities) => {
                    &&& final(self).entities@ == sorted_by_name(entities@)
                    &&& final(self).filtered_entities@ == all_indices(entities@.len())
                    &&& *final(self) == (App {
                        entities: final(self).entities,
                        filtered_entities: final(self).filtered_entities,
                        state: AppState::Ready,
                        ..*old(self)
                    })
                },
                Err(error) => {
                    &&& opt_view(final(self).error) == Some("Failed to load entities: "@ + error@)
                    &&& *final(self) == (App {
                        state: AppState::Error,
                        error: final(self).error,
                        ..*old(self)
                    })
                },
            },
    {
        match loaded {
            Ok(entities) => {
                proof {
                    sorted_is_permutation(entities@);
                }
                let sorted = sort_by_name(entities);
                self.filtered_entities = index_range(sorted.len());
                self.entities = sorted;
                self.state = AppState::Ready;
            },
            Err(error) => {
                self.fail("Failed to load entities: ", error.as_str(), AppState::Error);
            },
        }
    }

    /// Load entity details. Where the attributes could be loaded, they are
    /// held in the order of their logical names, none filtered out; each kind of
    /// relationship that could be loaded replaces what was held of it; the
    /// cursors go to the top, the tab is that of the attributes, the guided query
    /// starts over, and the state is `Ready`. Where the attributes could not be
    /// loaded, the state is `Error` with the failure as the error shown, and
    /// nothing else changes.
    pub fn load_entity_detail(
        &mut self,
        attributes: Result<Vec<AttributeMetadata>, String>,
        one_to_many: Option<Vec<RelationshipMetadata>>,
        many_to_one: Option<Vec<RelationshipMetadata>>,
        many_to_many: Option<Vec<RelationshipMetadata>>,
    )
        ensures
            match attributes {
                Ok(attributes) => {
                    &&& final(self).entity_attributes@ == sorted_by_name(attributes@)
                    &&& final(self).filtered_attributes@ == all_indices(attributes@.len())
                    &&& final(self).one_to_many == match one_to_many {
                        Some(loaded) => loaded,
                        None => old(self).one_to_many,
                    }
                    &&& final(self).many_to_one == match many_to_one {
                        Some(loaded) => loaded,
                        None => old(self).many_to_one,
                    }
                    &&& final(self).many_to_many == match many_to_many {
                        Some(loaded) => loaded,
                        None => old(self).many_to_many,
                    }
                    &&& final(self).query.selected_columns@ == Seq::new(
                        attributes@.len(),
                        |i: int| false,
                    )
                    &&& final(self).query.filters@.len() == 0
                    &&& final(self).query.result@ == QueryResultView::empty()
                    &&& final(self).query == (GuidedQueryState {
                        selected_columns: final(self).query.selected_columns,
                        column_index: 0,
                        order_by: None,
                        order_desc: false,
                        filters: final(self).query.filters,
                        filter_index: 0,
                        result: final(self).query.result,
                        result_index: 0,
                        mode: QueryMode::Columns,
                        ..old(self).query
                    })
                    &&& *final(self) == (App {
                        entity_attributes: final(self).entity_attributes,
                        filtered_attributes: final(self).filtered_attributes,
                        one_to_many: final(self).one_to_many,
                        many_to_one: final(self).many_to_one,
                        many_to_many: final(self).many_to_many,
                        attribute_index: 0,
                        relationship_index: 0,
                        entity_tab: EntityTab::Attributes,
                        query: final(self).query,
                        state: AppState::Ready,
                        ..*old(self)
                    })
                },
                Err(error) => {
                    &&& opt_view(final(self).error) == Some("Failed to load attributes: "@ + error@)
                    &&& *final(self) == (App {
                        state: AppState::Error,
                        error: final(self).error,
                        ..*old(self)
                    })
                },
            },
    {
        match attributes {
            Ok(attributes) => {
                proof {
                    sorted_is_permutation(attributes@);
                }
                let sorted = sort_by_name(attributes);
                self.filtered_attributes = index_range(sorted.len());
                self.entity_attributes = sorted;
            },
            Err(error) => {
                self.fail("Failed to load attributes: ", error.as_str(), AppState::Error);
                return ;
            },
        }
        if let Some(loaded) = one_to_many {
            self.one_to_many = loaded;
        }
        if let Some(loaded) = many_to_one {
            self.many_to_one = loaded;
        }
        if let Some(loaded) = many_to_many {
            self.many_to_many = loaded;
        }
        self.attribute_index = 0;
        self.relationship_index = 0;
        self.entity_tab = EntityTab::Attributes;

        // Reset query state for new entity
        self.query.reset_for_entity(self.entity_attributes.len());

        self.state = AppState::Ready;
    }

    /// Load solutions
    pub fn load_solutions(&mut self, loaded: Result<Vec<Solution>, String>)
        ensures
            match loaded {
                Ok(solutions) => {
                    &&& final(self).solutions == solutions
                    &&& final(self).filtered_solutions@ == all_indices(solutions@.len())
                    &&& *final(self) == (App {
                        solutions: final(self).solutions,
                        filtered_solutions: final(self).filtered_solutions,
                        state: AppState::Ready,
                        ..*old(self)
                    })
                },
                Err(error) => {
                    &&& opt_view(final(self).error) == Some("Failed to load solutions: "@ + error@)
                    &&& *final(self) == (App {
                        state: AppState::Error,
                        error: final(self).error,
                        ..*old(self)
                    })
                },
            },
    {
        match loaded {
            Ok(solutions) => {
                self.filtered_solutions = index_range(solutions.len());
                self.solutions = solutions;
                self.state = AppState::Ready;
            },
            Err(error) => {
                self.fail("Failed to load solutions: ", error.as_str(), AppState::Error);
            },
        }
    }

    /// Load users
    pub fn load_users(&mut self, loaded: Result<Vec<SystemUser>, String>)
        ensures
            match loaded {
                Ok(users) => {
                    &&& final(self).users == users
                    &&& final(self).filtered_users@ == all_indices(users@.len())
                    &&& *final(self) == (App {
                        users: final(self).users,
                        filtered_users: final(self).filtered_users,
                        state: AppState::Ready,
                        ..*old(self)
                    })
                },
                Err(error) => {
                    &&& opt_view(final(self).error) == Some("Failed to load users: "@ + error@)
                    &&& *final(self) == (App {
                        state: AppState::Error,
                        error: final(self).error,
                        ..*old(self)
                    })
                },
            },
    {
        match loaded {
            Ok(users) => {
                self.filtered_users = index_range(users.len());
                self.users = users;
                self.state = AppState::Ready;
            },
            Err(error) => {
                self.fail("Failed to load users: ", error.as_str(), AppState::Error);
            },
        }
    }

    /// Load system jobs
    pub fn load_system_jobs(&mut self, loaded: Result<(Vec<SystemJob>, Option<String>), String>)
        ensures
            match loaded {
                Ok((jobs, next_link)) => {
                    &&& final(self).system_jobs == jobs
                    &&& final(self).filtered_system_jobs@ == all_indices(jobs@.len())
                    &&& final(self).system_jobs_next_link == next_link
                    &&& *final(self) == (App {
                        system_jobs: final(self).system_jobs,
                        filtered_system_jobs: final(self).filtered_system_jobs,
                        system_jobs_next_link: final(self).system_jobs_next_link,
                        state: AppState::Ready,
                        ..*old(self)
                    })
                },
                Err(error) => {
                    &&& opt_view(final(self).error) == Some(
                        "Failed to load system jobs: "@ + error@,
                    )
                    &&& *final(self) == (App {
                        state: AppState::Error,
                        error: final(self).error,
                        ..*old(self)
                    })
                },
            },
    {
        match loaded {
            Ok((jobs, next_link)) => {
                self.filtered_system_jobs = index_range(jobs.len());
                self.system_jobs = jobs;
                self.system_jobs_next_link = next_link;
                self.state = AppState::Ready;
            },
            Err(error) => {
                self.fail("Failed to load system jobs: ", error.as_str(), AppState::Error);
            },
        }
    }

    /// The page of jobs to load next, if the cursor has asked for one since
    /// this was last called and a next page is known. The asking is forgotten.
    pub fn take_more_jobs_request(&mut self) -> (r: Option<String>)
        ensures
            *final(self) == (App { should_load_more_jobs: false, ..*old(self) }),
            r == if old(self).should_load_more_jobs {
                old(self).system_jobs_next_link
            } else {
                None
            },
    {
        if self.should_load_more_jobs {
            self.should_load_more_jobs = false;
            match &self.system_jobs_next_link {
                Some(link) => Some(link.clone()),
                None => None,
            }
        } else {
            None
        }
    }

    /// Load more system jobs (next page): the jobs loaded come after those
    /// held, the list is narrowed anew by the search text, and the next page is
    /// the one that the answer names. Where loading failed, the failure is the
    /// error and the message shown; the state stays.
    pub fn load_more_system_jobs(&mut self, loaded: Result<(Vec<SystemJob>, Option<String>), String>)
        ensures
            match loaded {
                Ok((jobs, next_link)) => {
                    &&& final(self).system_jobs@ == old(self).system_jobs@ + jobs@
                    &&& final(self).filtered_system_jobs@ == filtered(
                        final(self).system_jobs@,
                        old(self).search_query@,
                    )
                    &&& final(self).system_jobs_next_link == next_link
                    &&& *final(self) == (App {
                        system_jobs: final(self).system_jobs,
                        filtered_system_jobs: final(self).filtered_system_jobs,
                        system_job_index: 0,
                        system_jobs_next_link: final(self).system_jobs_next_link,
                        ..*old(self)
                    })
                },
                Err(error) => {
                    &&& opt_view(final(self).error) == Some("Failed to load more jobs: "@ + error@)
                    &&& opt_view(final(self).message) == Some("Error loading more: "@ + error@)
                    &&& *final(self) == (App {
                        error: final(self).error,
                        message: final(self).message,
                        ..*old(self)
                    })
                },
            },
    {
        match loaded {
            Ok((jobs, next_link)) => {
                let mut jobs = jobs;
                self.system_jobs.append(&mut jobs);
                self.filter_system_jobs();
                self.system_jobs_next_link = next_link;
            },
            Err(error) => {
                self.error = Some(glue("Failed to load more jobs: ", error.as_str()));
                self.message = Some(glue("Error loading more: ", error.as_str()));
            },
        }
    }

    /// Load solution details (components)
    pub fn load_solution_detail(&mut self, loaded: Result<Vec<SolutionComponent>, String>)
        ensures
            match loaded {
                Ok(components) => {
                    &&& final(self).solution_components == components
                    &&& final(self).filtered_components@ == filtered(
                        components@,
                        old(self).search_query@,
                    )
                    &&& *final(self) == (App {
                        solution_components: final(self).solution_components,
                        filtered_components: final(self).filtered_components,
                        component_index: 0,
                        state: AppState::Ready,
                        ..*old(self)
                    })
                },
                Err(error) => {
                    &&& opt_view(final(self).error) == Some(
                        "Failed to load solution components: "@ + error@,
                    )
                    &&& *final(self) == (App {
                        state: AppState::Error,
                        error: final(self).error,
                        ..*old(self)
                    })
                },
            },
    {
        match loaded {
            Ok(components) => {
                self.solution_components = components;
                self.filter_solution_components();
                self.component_index = 0;
                self.state = AppState::Ready;
            },
            Err(error) => {
                self.fail("Failed to load solution components: ", error.as_str(), AppState::Error);
            },
        }
    }

    /// Load global option sets
    pub fn load_global_optionsets(&mut self, loaded: Result<Vec<OptionSetMetadata>, String>)
        ensures
            match loaded {
                Ok(optionsets) => {
                    &&& final(self).global_optionsets == optionsets
                    &&& final(self).filtered_optionsets@ == filtered(
                        optionsets@,
                        old(self).search_query@,
                    )
                    &&& *final(self) == (App {
                        global_optionsets: final(self).global_optionsets,
                        filtered_optionsets: final(self).filtered_optionsets,
                        optionset_index: 0,
                        state: AppState::Ready,
                        ..*old(self)
                    })
                },
                Err(error) => {
                    &&& opt_view(final(self).error) == Some(
                        "Failed to load global option sets: "@ + error@,
                    )
                    &&& *final(self) == (App {
                        state: AppState::Error,
                        error: final(self).error,
                        ..*old(self)
                    })
                },
            },
    {
        match loaded {
            Ok(optionsets) => {
                self.global_optionsets = optionsets;
                self.filter_optionsets();
                self.state = AppState::Ready;
            },
            Err(error) => {
                self.fail("Failed to load global option sets: ", error.as_str(), AppState::Error);
            },
        }
    }

    /// Load solution layers for the current component
    pub fn load_solution_layers(&mut self, loaded: Result<Vec<SolutionComponentLayer>, String>)
        ensures
            match loaded {
                Ok(layers) => *final(self) == (App {
                    solution_layers: layers,
                    solution_layers_index: 0,
                    view: view::View::SolutionLayers,
                    state: AppState::Ready,
                    ..*old(self)
                }),
                Err(error) => {
                    &&& opt_view(final(self).error) == Some(
                        "Failed to load solution layers: "@ + error@,
                    )
                    &&& *final(self) == (App {
                        state: AppState::Ready,
                        error: final(self).error,
                        ..*old(self)
                    })
                },
            },
    {
        match loaded {
            Ok(layers) => {
                self.solution_layers = layers;
                self.solution_layers_index = 0;
                self.view = view::View::SolutionLayers;
                self.state = AppState::Ready;
            },
            Err(error) => {
                self.fail("Failed to load solution layers: ", error.as_str(), AppState::Ready);
            },
        }
    }

    /// Takes in a job that was loaded in full: it replaces the job looked
    /// at.
    pub fn system_job_loaded(&mut self, job: SystemJob)
        ensures
            *final(self) == (App { selected_system_job: Some(job), ..*old(self) }),
    {
        self.selected_system_job = Some(job);
    }

    /// Takes in the direct roles of a user. Returns whether they could be
    /// loaded; where they could not, the state is `Error` with the failure as
    /// the error shown.
    pub fn user_roles_loaded(&mut self, loaded: Result<Vec<SecurityRole>, String>) -> (ok: bool)
        ensures
            ok == loaded is Ok,
            match loaded {
                Ok(roles) => *final(self) == (App { user_direct_roles: roles, ..*old(self) }),
                Err(error) => {
                    &&& opt_view(final(self).error) == Some("Failed to load user roles: "@ + error@)
                    &&& *final(self) == (App {
                        state: AppState::Error,
                        error: final(self).error,
                        ..*old(self)
                    })
                },
            },
    {
        match loaded {
            Ok(roles) => {
                self.user_direct_roles = roles;
                true
            },
            Err(error) => {
                self.fail("Failed to load user roles: ", error.as_str(), AppState::Error);
                false
            },
        }
    }

    /// Takes in the teams of a user. Returns whether they could be loaded;
    /// where they could not, the state is `Error` with the failure as the error
    /// shown.
    pub fn user_teams_loaded(&mut self, loaded: Result<Vec<Team>, String>) -> (ok: bool)
        ensures
            ok == loaded is Ok,
            match loaded {
                Ok(teams) => *final(self) == (App { user_teams: teams, ..*old(self) }),
                Err(error) => {
                    &&& opt_view(final(self).error) == Some("Failed to load user teams: "@ + error@)
                    &&& *final(self) == (App {
                        state: AppState::Error,
                        error: final(self).error,
                        ..*old(self)
                    })
                },
            },
    {
        match loaded {
            Ok(teams) => {
                self.user_teams = teams;
                true
            },
            Err(error) => {
                self.fail("Failed to load user teams: ", error.as_str(), AppState::Error);
                false
            },
        }
    }

    /// Load user details (roles, teams): given the roles of each team of the
    /// user, in the order of the teams and `None` where they could not be
    /// loaded, all roles of the user are the direct roles and those of the
    /// teams, in the order of the names of the roles. The cursors go to the top,
    /// the tab is that of the direct roles, and the state is `Ready`.
    pub fn load_user_detail(&mut self, team_roles: Vec<Option<Vec<SecurityRole>>>)
        ensures
            final(self).user_all_roles@ == sorted_by_name(
                direct_assignments(old(self).user_direct_roles@) + team_assignments(
                    old(self).user_teams@,
                    team_roles@,
                ),
            ),
            *final(self) == (App {
                user_all_roles: final(self).user_all_roles,
                user_role_index: 0,
                user_team_index: 0,
                user_tab: UserTab::DirectRoles,
                state: AppState::Ready,
                ..*old(self)
            }),
    {
        // Build combined role list (direct + from teams)
        let mut all: Vec<RoleAssignment> = Vec::new();

        // Add direct roles
        let mut i: usize = 0;
        while i < self.user_direct_roles.len()
            invariant
                i <= self.user_direct_roles.len(),
                *self == *old(self),
                all@ == direct_assignments(self.user_direct_roles@.take(i as int)),
            decreases self.user_direct_roles.len() - i,
        {
            all.push(
                RoleAssignment { role: self.user_direct_roles[i].clone(), source: RoleSource::Direct },
            );
            assert(all@ =~= direct_assignments(self.user_direct_roles@.take(i as int + 1)));
            i += 1;
        }
        assert(self.user_direct_roles@.take(i as int) == self.user_direct_roles@);
        let ghost direct = all@;

        // Add team roles
        let mut t: usize = 0;
        proof {
            assert(self.user_teams@.take(0) =~= Seq::empty());
            assert(all@ =~= direct + team_assignments(self.user_teams@.take(0), team_roles@));
        }
        while t < self.user_teams.len()
            invariant
                t <= self.user_teams.len(),
                *self == *old(self),
                all@ == direct + team_assignments(self.user_teams@.take(t as int), team_roles@),
            decreases self.user_teams.len() - t,
        {
            proof {
                assert(self.user_teams@.take(t as int + 1).drop_last() == self.user_teams@.take(
                    t as int,
                ));
                assert(self.user_teams@.take(t as int + 1).last() == self.user_teams@[t as int]);
            }
            if t < team_roles.len() {
                if let Some(roles) = &team_roles[t] {
                    let ghost before = all@;
                    let mut r: usize = 0;
                    while r < roles.len()
                        invariant
                            r <= roles.len(),
                            t < self.user_teams.len(),
                            *self == *old(self),
                            all@ == before + roles@.take(r as int).map_values(
                                |role: SecurityRole|
                                    RoleAssignment {
                                        role,
                                        source: RoleSource::Team(self.user_teams@[t as int].name),
                                    },
                            ),
                        decreases roles.len() - r,
                    {
                        all.push(
                            RoleAssignment {
                                role: roles[r].clone(),
                                source: RoleSource::Team(self.user_teams[t].name.clone()),
                            },
                        );
                        assert(all@ =~= before + roles@.take(r as int + 1).map_values(
                            |role: SecurityRole|
                                RoleAssignment {
                                    role,
                                    source: RoleSource::Team(self.user_teams@[t as int].name),
                                },
                        ));
                        r += 1;
                    }
                    assert(roles@.take(r as int) == roles@);
                    assert(all@ =~= direct + team_assignments(
                        self.user_teams@.take(t as int + 1),
                        team_roles@,
                    ));
                }
            }
            t += 1;
        }
        assert(self.user_teams@.take(t as int) == self.user_teams@);

        // Sort by role name
        self.user_all_roles = sort_by_name(all);

        self.user_role_index = 0;
        self.user_team_index = 0;
        self.user_tab = UserTab::DirectRoles;
        self.state = AppState::Ready;
    }
}

} // verus!
