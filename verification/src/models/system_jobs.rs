//! System Job (AsyncOperation) models

use vstd::prelude::*;
use crate::models::entity::copy_text;

verus! {

#[derive(Debug)]
pub struct SystemJob {
    pub id: String,
    pub name: Option<String>,
    pub operation_type: Option<i32>,
    pub status_code: Option<i32>,
    pub state_code: Option<i32>,
    pub started_on: Option<String>,
    pub completed_on: Option<String>,
    pub created_on: Option<String>,
    pub created_by: Option<String>,
    pub created_by_name: Option<String>,
    pub message: Option<String>,
    pub friendly_message: Option<String>,
    pub regarding_object_id: Option<String>,
    pub regarding_object_name: Option<String>,
    pub regarding_object_type: Option<String>,
}

impl Clone for SystemJob {
    fn clone(&self) -> (r: SystemJob)
        ensures
            r == *self,
    {
        SystemJob {
            id: self.id.clone(),
            name: copy_text(&self.name),
            operation_type: self.operation_type,
            status_code: self.status_code,
            state_code: self.state_code,
            started_on: copy_text(&self.started_on),
            completed_on: copy_text(&self.completed_on),
            created_on: copy_text(&self.created_on),
            created_by: copy_text(&self.created_by),
            created_by_name: copy_text(&self.created_by_name),
            message: copy_text(&self.message),
            friendly_message: copy_text(&self.friendly_message),
            regarding_object_id: copy_text(&self.regarding_object_id),
            regarding_object_name: copy_text(&self.regarding_object_name),
            regarding_object_type: copy_text(&self.regarding_object_type),
        }
    }
}

impl SystemJob {
    /// The name of the job, `Unknown Job` where it has none.
    pub open spec fn name_text(&self) -> Seq<char> {
        match self.name {
            Some(name) => name@,
            None => "Unknown Job"@,
        }
    }

    /// The status of the job as a user reads it.
    pub open spec fn status_text(&self) -> Seq<char> {
        if self.status_code == Some(0i32) {
            "Waiting For Resources"@
        } else if self.status_code == Some(10i32) {
            "Waiting"@
        } else if self.status_code == Some(20i32) {
            "In Progress"@
        } else if self.status_code == Some(21i32) {
            "Pausing"@
        } else if self.status_code == Some(22i32) {
            "Canceling"@
        } else if self.status_code == Some(30i32) {
            "Succeeded"@
        } else if self.status_code == Some(31i32) {
            "Failed"@
        } else if self.status_code == Some(32i32) {
            "Canceled"@
        } else {
            "Unknown"@
        }
    }

    /// The state of the job as a user reads it.
    pub open spec fn state_text(&self) -> Seq<char> {
        if self.state_code == Some(0i32) {
            "Ready"@
        } else if self.state_code == Some(1i32) {
            "Suspended"@
        } else if self.state_code == Some(2i32) {
            "Locked"@
        } else if self.state_code == Some(3i32) {
            "Completed"@
        } else {
            "Unknown"@
        }
    }

    pub fn get_name(&self) -> (out: String)
        ensures
            out@ == self.name_text(),
    {
        match &self.name {
            Some(name) => name.clone(),
            None => String::from_str("Unknown Job"),
        }
    }

    pub fn get_status_label(&self) -> (out: String)
        ensures
            out@ == self.status_text(),
    {
        String::from_str(
            match self.status_code {
                Some(0) => "Waiting For Resources",
                Some(10) => "Waiting",
                Some(20) => "In Progress",
                Some(21) => "Pausing",
                Some(22) => "Canceling",
                Some(30) => "Succeeded",
                Some(31) => "Failed",
                Some(32) => "Canceled",
                _ => "Unknown",
            },
        )
    }

    pub fn get_state_label(&self) -> (out: String)
        ensures
            out@ == self.state_text(),
    {
        String::from_str(
            match self.state_code {
                Some(0) => "Ready",
                Some(1) => "Suspended",
                Some(2) => "Locked",
                Some(3) => "Completed",
                _ => "Unknown",
            },
        )
    }
}

} // verus!
