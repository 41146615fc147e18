//! The records of the catalog and of a query, as the explorer holds them.

pub mod discovery;
pub mod entity;
pub mod odata;
pub mod query;
pub mod solution;
pub mod system_jobs;
pub mod user;

pub use discovery::{DiscoveryInstance, DiscoveryResponse};
pub use entity::{
    AttributeMetadata, AttributeTypeName, EntityMetadata, LabelValue, LocalizedLabel,
    OptionSetMetadata, OptionSetValue, RelationshipMetadata, RequiredLevel,
};
pub use odata::ODataResponse;
pub use query::{LookupInfo, LookupTable, QueryDefinition, QueryField, QueryResult};
pub use solution::{ComponentType, Solution, SolutionComponent, SolutionComponentLayer};
pub use system_jobs::SystemJob;
pub use user::{BusinessUnitRef, RoleAssignment, RoleSource, SecurityRole, SystemUser, Team};
