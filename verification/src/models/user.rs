//! User, Team, and Security Role models

use vstd::prelude::*;
use crate::models::entity::copy_text;

verus! {

/// System user metadata
#[derive(Debug)]
pub struct SystemUser {
    pub id: String,
    pub full_name: Option<String>,
    pub domain_name: Option<String>,
    pub email: Option<String>,
    pub is_disabled: Option<bool>,
    pub business_unit: Option<BusinessUnitRef>,
    pub title: Option<String>,
    pub created_on: Option<String>,
}

impl Clone for SystemUser {
    fn clone(&self) -> (r: SystemUser)
        ensures
            r == *self,
    {
        SystemUser {
            id: self.id.clone(),
            full_name: copy_text(&self.full_name),
            domain_name: copy_text(&self.domain_name),
            email: copy_text(&self.email),
            is_disabled: self.is_disabled,
            business_unit: self.business_unit.clone(),
            title: copy_text(&self.title),
            created_on: copy_text(&self.created_on),
        }
    }
}

impl SystemUser {
    /// The name under which the user is shown: the full name, else the
    /// domain name, else `Unknown`.
    pub open spec fn display_text(&self) -> Seq<char> {
        match self.full_name {
            Some(name) => name@,
            None => match self.domain_name {
                Some(name) => name@,
                None => "Unknown"@,
            },
        }
    }

    /// Whether the user is marked as disabled.
    pub open spec fn disabled(&self) -> bool {
        self.is_disabled == Some(true)
    }

    pub fn get_display_name(&self) -> (out: String)
        ensures
            out@ == self.display_text(),
    {
        match &self.full_name {
            Some(name) => name.clone(),
            None => match &self.domain_name {
                Some(name) => name.clone(),
                None => String::from_str("Unknown"),
            },
        }
    }

    pub fn get_status(&self) -> (s: &'static str)
        ensures
            s@ == if self.disabled() {
                "Disabled"@
            } else {
                "Enabled"@
            },
    {
        let disabled = match self.is_disabled {
            Some(flag) => flag,
            None => false,
        };
        if disabled {
            "Disabled"
        } else {
            "Enabled"
        }
    }
}

/// Business unit reference (expanded in queries)
#[derive(Debug)]
pub struct BusinessUnitRef {
    pub id: Option<String>,
    pub name: Option<String>,
}

impl Clone for BusinessUnitRef {
    fn clone(&self) -> (r: BusinessUnitRef)
        ensures
            r == *self,
    {
        BusinessUnitRef { id: copy_text(&self.id), name: copy_text(&self.name) }
    }
}

/// Team metadata
#[derive(Debug)]
pub struct Team {
    pub id: String,
    pub name: String,
    pub team_type: Option<i32>,
    pub description: Option<String>,
    pub is_default: Option<bool>,
}

impl Clone for Team {
    fn clone(&self) -> (r: Team)
        ensures
            r == *self,
    {
        Team {
            id: self.id.clone(),
            name: self.name.clone(),
            team_type: self.team_type,
            description: copy_text(&self.description),
            is_default: self.is_default,
        }
    }
}

impl Team {
    /// The kind of the team as a user reads it.
    pub open spec fn type_text(&self) -> Seq<char> {
        if self.team_type == Some(0i32) {
            "Owner"@
        } else if self.team_type == Some(1i32) {
            "Access"@
        } else if self.team_type == Some(2i32) {
            "AAD Security Group"@
        } else if self.team_type == Some(3i32) {
            "AAD Office Group"@
        } else {
            "Unknown"@
        }
    }

    pub fn get_type_name(&self) -> (s: &'static str)
        ensures
            s@ == self.type_text(),
    {
        match self.team_type {
            Some(0) => "Owner",
            Some(1) => "Access",
            Some(2) => "AAD Security Group",
            Some(3) => "AAD Office Group",
            _ => "Unknown",
        }
    }
}

/// Security role metadata
#[derive(Debug)]
pub struct SecurityRole {
    pub id: String,
    pub name: String,
    pub business_unit: Option<BusinessUnitRef>,
    pub is_managed: Option<bool>,
}

impl Clone for SecurityRole {
    fn clone(&self) -> (r: SecurityRole)
        ensures
            r == *self,
    {
        SecurityRole {
            id: self.id.clone(),
            name: self.name.clone(),
            business_unit: self.business_unit.clone(),
            is_managed: self.is_managed,
        }
    }
}

impl SecurityRole {
    /// The name of the role's business unit, a dash where it is not known.
    pub open spec fn business_unit_text(&self) -> Seq<char> {
        match self.business_unit {
            Some(unit) => match unit.name {
                Some(name) => name@,
                None => "-"@,
            },
            None => "-"@,
        }
    }

    pub fn get_business_unit_name(&self) -> (out: String)
        ensures
            out@ == self.business_unit_text(),
    {
        match &self.business_unit {
            Some(unit) => match &unit.name {
                Some(name) => name.clone(),
                None => String::from_str("-"),
            },
            None => String::from_str("-"),
        }
    }
}

/// Role assignment source (for display purposes)
#[derive(Debug)]
pub enum RoleSource {
    /// Directly assigned to the user
    Direct,
    /// Inherited from a team
    Team(String),
}

impl Clone for RoleSource {
    fn clone(&self) -> (r: RoleSource)
        ensures
            r == *self,
    {
        match self {
            RoleSource::Direct => RoleSource::Direct,
            RoleSource::Team(name) => RoleSource::Team(name.clone()),
        }
    }
}

/// Combined role info with source
#[derive(Debug)]
pub struct RoleAssignment {
    pub role: SecurityRole,
    pub source: RoleSource,
}

impl Clone for RoleAssignment {
    fn clone(&self) -> (r: RoleAssignment)
        ensures
            r == *self,
    {
        RoleAssignment {
            role: self.role.clone(),
            source: self.source.clone(),
        }
    }
}

} // verus!
