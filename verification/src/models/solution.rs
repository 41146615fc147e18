//! Solution models

use vstd::prelude::*;
use crate::models::entity::copy_text;

verus! {

/// Solution metadata
#[derive(Debug)]
pub struct Solution {
    pub solution_id: String,
    pub unique_name: String,
    pub friendly_name: Option<String>,
    pub version: Option<String>,
    pub is_managed: Option<bool>,
    pub description: Option<String>,
    pub installed_on: Option<String>,
}

impl Clone for Solution {
    fn clone(&self) -> (r: Solution)
        ensures
            r == *self,
    {
        Solution {
            solution_id: self.solution_id.clone(),
            unique_name: self.unique_name.clone(),
            friendly_name: copy_text(&self.friendly_name),
            version: copy_text(&self.version),
            is_managed: self.is_managed,
            description: copy_text(&self.description),
            installed_on: copy_text(&self.installed_on),
        }
    }
}

impl Solution {
    /// The name under which the solution is shown: its friendly name, else
    /// its unique name.
    pub open spec fn display_text(&self) -> Seq<char> {
        match self.friendly_name {
            Some(name) => name@,
            None => self.unique_name@,
        }
    }

    /// Get the display name
    pub fn get_display_name(&self) -> (out: String)
        ensures
            out@ == self.display_text(),
    {
        match &self.friendly_name {
            Some(name) => name.clone(),
            None => self.unique_name.clone(),
        }
    }
}

/// Solution component
#[derive(Debug)]
pub struct SolutionComponent {
    pub solution_component_id: String,
    pub component_type: Option<i32>,
    pub object_id: Option<String>,
    pub root_component_behavior: Option<i32>,
}

impl Clone for SolutionComponent {
    fn clone(&self) -> (r: SolutionComponent)
        ensures
            r == *self,
    {
        SolutionComponent {
            solution_component_id: self.solution_component_id.clone(),
            component_type: self.component_type,
            object_id: copy_text(&self.object_id),
            root_component_behavior: self.root_component_behavior,
        }
    }
}

impl SolutionComponent {
    /// The code of the component's type, 0 where it has none.
    pub open spec fn type_code(&self) -> i32 {
        match self.component_type {
            Some(code) => code,
            None => 0,
        }
    }

    /// Get the component type as an enum
    pub fn get_component_type(&self) -> (r: ComponentType)
        ensures
            r == ComponentType::of_code(self.type_code()),
    {
        let code = match self.component_type {
            Some(code) => code,
            None => 0,
        };
        ComponentType::from_code(code)
    }
}

/// One layer of a component: the solution that it comes from and its place
/// in the stack.
#[derive(Debug)]
pub struct SolutionComponentLayer {
    pub name: String,
    pub solution_name: String,
    pub order: i32,
    pub is_managed: bool,
}

impl Clone for SolutionComponentLayer {
    fn clone(&self) -> (r: SolutionComponentLayer)
        ensures
            r == *self,
    {
        SolutionComponentLayer {
            name: self.name.clone(),
            solution_name: self.solution_name.clone(),
            order: self.order,
            is_managed: self.is_managed,
        }
    }
}

/// Component types in solutions
#[derive(Debug, Clone, Copy, PartialEq, Eq, Structural)]
pub enum ComponentType {
    Entity,
    Attribute,
    Relationship,
    OptionSet,
    EntityKey,
    Role,
    RolePrivilege,
    FieldSecurityProfile,
    FieldPermission,
    PluginAssembly,
    PluginType,
    SdkMessageProcessingStep,
    Workflow,
    WebResource,
    SiteMap,
    ConnectionRole,
    Report,
    SystemForm,
    SavedQuery,
    SavedQueryVisualization,
    RibbonCustomization,
    EntityRibbonSetting,
    EmailTemplate,
    ContractTemplate,
    KbArticleTemplate,
    MailMergeTemplate,
    DuplicateRule,
    RibbonCommand,
    RibbonContextGroup,
    RibbonDiff,
    ManagedProperty,
    EntityRelationship,
    Custom,
    ProcessTrigger,
    AppModule,
    Unknown(i32),
}

impl ComponentType {
    /// The code under which the catalog knows the type.
    pub open spec fn code(self) -> i32 {
        match self {
            ComponentType::Entity => 1,
            ComponentType::Attribute => 2,
            ComponentType::Relationship => 3,
            ComponentType::OptionSet => 9,
            ComponentType::EntityKey => 14,
            ComponentType::Role => 20,
            ComponentType::RolePrivilege => 21,
            ComponentType::FieldSecurityProfile => 70,
            ComponentType::FieldPermission => 71,
            ComponentType::PluginAssembly => 91,
            ComponentType::PluginType => 90,
            ComponentType::SdkMessageProcessingStep => 92,
            ComponentType::Workflow => 29,
            ComponentType::WebResource => 61,
            ComponentType::SiteMap => 62,
            ComponentType::ConnectionRole => 63,
            ComponentType::Report => 31,
            ComponentType::SystemForm => 60,
            ComponentType::SavedQuery => 26,
            ComponentType::SavedQueryVisualization => 59,
            ComponentType::RibbonCustomization => 50,
            ComponentType::EntityRibbonSetting => 48,
            ComponentType::EmailTemplate => 36,
            ComponentType::ContractTemplate => 37,
            ComponentType::KbArticleTemplate => 38,
            ComponentType::MailMergeTemplate => 39,
            ComponentType::DuplicateRule => 44,
            ComponentType::RibbonCommand => 52,
            ComponentType::RibbonContextGroup => 53,
            ComponentType::RibbonDiff => 55,
            ComponentType::ManagedProperty => 13,
            ComponentType::EntityRelationship => 10,
            ComponentType::Custom => 66,
            ComponentType::ProcessTrigger => 78,
            ComponentType::AppModule => 80,
            ComponentType::Unknown(code) => code,
        }
    }

    /// Whether a named type has the code `code`.
    pub open spec fn is_known(code: i32) -> bool {
        exists|kind: ComponentType| !(kind is Unknown) && #[trigger] kind.code() == code
    }

    /// The type with the code `code`: the named type that has it, or
    /// `Unknown` with the code where no named type has it.
    pub open spec fn of_code(code: i32) -> ComponentType {
        if ComponentType::is_known(code) {
            choose|kind: ComponentType| !(kind is Unknown) && #[trigger] kind.code() == code
        } else {
            ComponentType::Unknown(code)
        }
    }

    /// The name of the type as a user reads it.
    pub open spec fn name_text(self) -> Seq<char> {
        match self {
            ComponentType::Entity => "Entity"@,
            ComponentType::Attribute => "Attribute"@,
            ComponentType::Relationship => "Relationship"@,
            ComponentType::OptionSet => "Option Set"@,
            ComponentType::EntityKey => "Entity Key"@,
            ComponentType::Role => "Security Role"@,
            ComponentType::RolePrivilege => "Role Privilege"@,
            ComponentType::FieldSecurityProfile => "Field Security Profile"@,
            ComponentType::FieldPermission => "Field Permission"@,
            ComponentType::PluginAssembly => "Plugin Assembly"@,
            ComponentType::PluginType => "Plugin Type"@,
            ComponentType::SdkMessageProcessingStep => "Plugin Step"@,
            ComponentType::Workflow => "Workflow/Flow"@,
            ComponentType::WebResource => "Web Resource"@,
            ComponentType::SiteMap => "Site Map"@,
            ComponentType::ConnectionRole => "Connection Role"@,
            ComponentType::Report => "Report"@,
            ComponentType::SystemForm => "Form"@,
            ComponentType::SavedQuery => "View"@,
            ComponentType::SavedQueryVisualization => "Chart"@,
            ComponentType::RibbonCustomization => "Ribbon"@,
            ComponentType::EntityRibbonSetting => "Entity Ribbon"@,
            ComponentType::EmailTemplate => "Email Template"@,
            ComponentType::ContractTemplate => "Contract Template"@,
            ComponentType::KbArticleTemplate => "KB Article Template"@,
            ComponentType::MailMergeTemplate => "Mail Merge Template"@,
            ComponentType::DuplicateRule => "Duplicate Rule"@,
            ComponentType::RibbonCommand => "Ribbon Command"@,
            ComponentType::RibbonContextGroup => "Ribbon Context"@,
            ComponentType::RibbonDiff => "Ribbon Diff"@,
            ComponentType::ManagedProperty => "Managed Property"@,
            ComponentType::EntityRelationship => "Entity Relationship"@,
            ComponentType::Custom => "Custom"@,
            ComponentType::ProcessTrigger => "Process Trigger"@,
            ComponentType::AppModule => "App Module"@,
            ComponentType::Unknown(_) => "Unknown"@,
        }
    }

    /// Convert from Dataverse component type code
    pub fn from_code(code: i32) -> (r: ComponentType)
        ensures
            r == ComponentType::of_code(code),
            r.code() == code,
            r is Unknown <==> !ComponentType::is_known(code),
    {
        let r = match code {
            1 => ComponentType::Entity,
            2 => ComponentType::Attribute,
            3 => ComponentType::Relationship,
            9 => ComponentType::OptionSet,
            14 => ComponentType::EntityKey,
            20 => ComponentType::Role,
            21 => ComponentType::RolePrivilege,
            70 => ComponentType::FieldSecurityProfile,
            71 => ComponentType::FieldPermission,
            91 => ComponentType::PluginAssembly,
            90 => ComponentType::PluginType,
            92 => ComponentType::SdkMessageProcessingStep,
            29 => ComponentType::Workflow,
            61 => ComponentType::WebResource,
            62 => ComponentType::SiteMap,
            63 => ComponentType::ConnectionRole,
            31 => ComponentType::Report,
            60 => ComponentType::SystemForm,
            26 => ComponentType::SavedQuery,
            59 => ComponentType::SavedQueryVisualization,
            50 => ComponentType::RibbonCustomization,
            48 => ComponentType::EntityRibbonSetting,
            36 => ComponentType::EmailTemplate,
            37 => ComponentType::ContractTemplate,
            38 => ComponentType::KbArticleTemplate,
            39 => ComponentType::MailMergeTemplate,
            44 => ComponentType::DuplicateRule,
            52 => ComponentType::RibbonCommand,
            53 => ComponentType::RibbonContextGroup,
            55 => ComponentType::RibbonDiff,
            13 => ComponentType::ManagedProperty,
            10 => ComponentType::EntityRelationship,
            66 => ComponentType::Custom,
            78 => ComponentType::ProcessTrigger,
            80 => ComponentType::AppModule,
            _ => ComponentType::Unknown(code),
        };
        proof {
            if !(r is Unknown) {
                assert(r.code() == code);
                let other = ComponentType::of_code(code);
                assert(!(other is Unknown) && other.code() == code);
                code_identifies(r, other);
            } else {
                assert forall|kind: ComponentType| !(kind is Unknown) implies #[trigger] kind.code()
                    != code by {}
            }
        }
        r
    }

    /// Get a display name for the component type
    pub fn display_name(&self) -> (s: &'static str)
        ensures
            s@ == self.name_text(),
    {
        match self {
            ComponentType::Entity => "Entity",
            ComponentType::Attribute => "Attribute",
            ComponentType::Relationship => "Relationship",
            ComponentType::OptionSet => "Option Set",
            ComponentType::EntityKey => "Entity Key",
            ComponentType::Role => "Security Role",
            ComponentType::RolePrivilege => "Role Privilege",
            ComponentType::FieldSecurityProfile => "Field Security Profile",
            ComponentType::FieldPermission => "Field Permission",
            ComponentType::PluginAssembly => "Plugin Assembly",
            ComponentType::PluginType => "Plugin Type",
            ComponentType::SdkMessageProcessingStep => "Plugin Step",
            ComponentType::Workflow => "Workflow/Flow",
            ComponentType::WebResource => "Web Resource",
            ComponentType::SiteMap => "Site Map",
            ComponentType::ConnectionRole => "Connection Role",
            ComponentType::Report => "Report",
            ComponentType::SystemForm => "Form",
            ComponentType::SavedQuery => "View",
            ComponentType::SavedQueryVisualization => "Chart",
            ComponentType::RibbonCustomization => "Ribbon",
            ComponentType::EntityRibbonSetting => "Entity Ribbon",
            ComponentType::EmailTemplate => "Email Template",
            ComponentType::ContractTemplate => "Contract Template",
            ComponentType::KbArticleTemplate => "KB Article Template",
            ComponentType::MailMergeTemplate => "Mail Merge Template",
            ComponentType::DuplicateRule => "Duplicate Rule",
            ComponentType::RibbonCommand => "Ribbon Command",
            ComponentType::RibbonContextGroup => "Ribbon Context",
            ComponentType::RibbonDiff => "Ribbon Diff",
            ComponentType::ManagedProperty => "Managed Property",
            ComponentType::EntityRelationship => "Entity Relationship",
            ComponentType::Custom => "Custom",
            ComponentType::ProcessTrigger => "Process Trigger",
            ComponentType::AppModule => "App Module",
            ComponentType::Unknown(_) => "Unknown",
        }
    }
}

/// No two named types share a code.
pub proof fn code_identifies(a: ComponentType, b: ComponentType)
    requires
        !(a is Unknown),
        !(b is Unknown),
        a.code() == b.code(),
    ensures
        a == b,
{
}

/// `counts` with one more for `kind`: its entry is raised by one, or a new
/// entry with the count 1 comes after the others where it has none.
pub open spec fn counted(counts: Seq<(ComponentType, nat)>, kind: ComponentType) -> Seq<
    (ComponentType, nat),
>
    decreases counts.len(),
{
    if counts.len() == 0 {
        seq![(kind, 1nat)]
    } else if counts[0].0 == kind {
        counts.update(0, (kind, counts[0].1 + 1))
    } else {
        seq![counts[0]] + counted(counts.drop_first(), kind)
    }
}

/// How many components there are of each type: one entry for each type
/// that occurs, in the order in which the types first occur.
pub open spec fn tally(components: Seq<SolutionComponent>) -> Seq<(ComponentType, nat)>
    decreases components.len(),
{
    if components.len() == 0 {
        Seq::empty()
    } else {
        counted(
            tally(components.drop_last()),
            ComponentType::of_code(components.last().type_code()),
        )
    }
}

/// The sum of the counts.
pub open spec fn total(counts: Seq<(ComponentType, nat)>) -> nat
    decreases counts.len(),
{
    if counts.len() == 0 {
        0
    } else {
        counts[0].1 + total(counts.drop_first())
    }
}

/// One more is counted, and every count is at most the sum.
pub proof fn counted_adds_one(counts: Seq<(ComponentType, nat)>, kind: ComponentType)
    ensures
        total(counted(counts, kind)) == total(counts) + 1,
        forall|i: int| 0 <= i < counts.len() ==> (#[trigger] counts[i]).1 <= total(counts),
    decreases counts.len(),
{
    let more = counted(counts, kind);
    if counts.len() == 0 {
        assert(more.len() == 1 && more[0].1 == 1);
        assert(more.drop_first() =~= Seq::empty());
        assert(total(more.drop_first()) == 0);
    } else {
        counted_adds_one(counts.drop_first(), kind);
        assert forall|i: int| 0 <= i < counts.len() implies (#[trigger] counts[i]).1 <= total(
            counts,
        ) by {
            if i > 0 {
                assert(counts[i] == counts.drop_first()[i - 1]);
            }
        }
        if counts[0].0 == kind {
            assert(more[0].1 == counts[0].1 + 1);
            assert(more.drop_first() =~= counts.drop_first());
        } else {
            assert(more[0] == counts[0]);
            assert(more.drop_first() =~= counted(counts.drop_first(), kind));
        }
    }
}

/// The counts add up to the number of components.
pub proof fn tally_counts_all(components: Seq<SolutionComponent>)
    ensures
        total(tally(components)) == components.len(),
    decreases components.len(),
{
    if components.len() > 0 {
        tally_counts_all(components.drop_last());
        counted_adds_one(
            tally(components.drop_last()),
            ComponentType::of_code(components.last().type_code()),
        );
    }
}

/// The counts that a list of pairs holds.
pub open spec fn count_views(counts: Seq<(ComponentType, usize)>) -> Seq<(ComponentType, nat)> {
    Seq::new(counts.len(), |i: int| (counts[i].0, counts[i].1 as nat))
}

/// Where a count is raised in place, that is what counting one more gives.
proof fn counted_at(counts: Seq<(ComponentType, nat)>, kind: ComponentType, at: int)
    requires
        0 <= at <= counts.len(),
        forall|i: int| 0 <= i < at ==> (#[trigger] counts[i]).0 != kind,
        at < counts.len() ==> counts[at].0 == kind,
    ensures
        counted(counts, kind) == if at < counts.len() {
            counts.update(at, (kind, counts[at].1 + 1))
        } else {
            counts.push((kind, 1nat))
        },
    decreases counts.len(),
{
    if counts.len() == 0 {
        assert(seq![(kind, 1nat)] =~= counts.push((kind, 1nat)));
    } else if at == 0 {
    } else {
        let rest = counts.drop_first();
        assert forall|i: int| 0 <= i < at - 1 implies (#[trigger] rest[i]).0 != kind by {
            assert(rest[i] == counts[i + 1]);
        }
        counted_at(rest, kind, at - 1);
        if at < counts.len() {
            assert(rest[at - 1] == counts[at]);
            assert(seq![counts[0]] + rest.update(at - 1, (kind, counts[at].1 + 1)) =~= counts.update(
                at,
                (kind, counts[at].1 + 1),
            ));
        } else {
            assert(seq![counts[0]] + rest.push((kind, 1nat)) =~= counts.push((kind, 1nat)));
        }
    }
}

/// How many components there are of each type.
pub fn count_by_type(components: &Vec<SolutionComponent>) -> (counts: Vec<(ComponentType, usize)>)
    ensures
        count_views(counts@) == tally(components@),
{
    let mut counts: Vec<(ComponentType, usize)> = Vec::new();
    let mut i: usize = 0;
    proof {
        assert(components@.take(0) =~= Seq::empty());
        assert(count_views(counts@) =~= Seq::empty());
    }
    while i < components.len()
        invariant
            i <= components.len(),
            count_views(counts@) == tally(components@.take(i as int)),
        decreases components.len() - i,
    {
        let kind = components[i].get_component_type();
        let ghost before = count_views(counts@);
        proof {
            assert(components@.take(i as int + 1).drop_last() == components@.take(i as int));
            assert(components@.take(i as int + 1).last() == components@[i as int]);
            tally_counts_all(components@.take(i as int));
            counted_adds_one(before, kind);
        }
        let mut at: usize = 0;
        while at < counts.len() && counts[at].0 != kind
            invariant
                at <= counts.len(),
                before == count_views(counts@),
                forall|k: int| 0 <= k < at ==> (#[trigger] before[k]).0 != kind,
            decreases counts.len() - at,
        {
            assert(before[at as int].0 == counts@[at as int].0);
            at += 1;
        }
        proof {
            if at < counts.len() {
                assert(before[at as int].0 == counts@[at as int].0);
                assert(before[at as int].1 == counts@[at as int].1);
                assert(before[at as int].1 <= total(before));
            }
            counted_at(before, kind, at as int);
        }
        if at < counts.len() {
            let raised = counts[at].1 + 1;
            counts.set(at, (kind, raised));
            proof {
                assert(count_views(counts@) =~= before.update(
                    at as int,
                    (kind, before[at as int].1 + 1),
                ));
            }
        } else {
            counts.push((kind, 1));
            proof {
                assert(count_views(counts@) =~= before.push((kind, 1nat)));
            }
        }
        i += 1;
    }
    proof {
        assert(components@.take(i as int) == components@);
    }
    counts
}

} // verus!
