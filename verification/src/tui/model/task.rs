use vstd::prelude::*;

use crate::text::str_eq;

verus! {

#[derive(Debug, PartialEq, Eq, Hash)]
pub struct TaskId(pub String);

impl Clone for TaskId {
    fn clone(&self) -> (r: Self)
        ensures
            r == *self,
    {
        TaskId(self.0.clone())
    }
}

#[derive(Debug, PartialEq, Eq, Structural, Clone, Copy)]
pub enum TaskStatus {
    Open,
    Completed,
    Abandoned,
}

impl TaskStatus {
    /// The status stored under `name`: "Open", "Completed" or "Abandoned".
    pub fn parse(name: &str) -> (r: Option<Self>)
        ensures
            r == if name@ == "Open"@ {
                Some(TaskStatus::Open)
            } else if name@ == "Completed"@ {
                Some(TaskStatus::Completed)
            } else if name@ == "Abandoned"@ {
                Some(TaskStatus::Abandoned)
            } else {
                None
            },
    {
        if str_eq(name, "Open") {
            Some(TaskStatus::Open)
        } else if str_eq(name, "Completed") {
            Some(TaskStatus::Completed)
        } else if str_eq(name, "Abandoned") {
            Some(TaskStatus::Abandoned)
        } else {
            None
        }
    }
}

#[derive(Debug, PartialEq, Eq, Structural, Clone, Copy)]
pub enum Priority {
    Low,
    Medium,
    High,
    Urgent,
}

/// The name under which a priority is stored.
pub open spec fn priority_name(p: Priority) -> Seq<char> {
    match p {
        Priority::Low => "Low"@,
        Priority::Medium => "Medium"@,
        Priority::High => "High"@,
        Priority::Urgent => "Urgent"@,
    }
}

impl Priority {
    /// The priority stored under `name`: "Low", "Medium", "High" or "Urgent".
    pub fn parse(name: &str) -> (r: Option<Self>)
        ensures
            r == priority_named(name@),
    {
        if str_eq(name, "Low") {
            Some(Priority::Low)
        } else if str_eq(name, "Medium") {
            Some(Priority::Medium)
        } else if str_eq(name, "High") {
            Some(Priority::High)
        } else if str_eq(name, "Urgent") {
            Some(Priority::Urgent)
        } else {
            None
        }
    }
}

/// The priority stored under `name`, if any.
pub open spec fn priority_named(name: Seq<char>) -> Option<Priority> {
    if name == "Low"@ {
        Some(Priority::Low)
    } else if name == "Medium"@ {
        Some(Priority::Medium)
    } else if name == "High"@ {
        Some(Priority::High)
    } else if name == "Urgent"@ {
        Some(Priority::Urgent)
    } else {
        None
    }
}

/// A priority's stored name reads back as that priority.
pub proof fn lemma_priority_round_trip(p: Priority)
    ensures
        priority_named(priority_name(p)) == Some(p),
{
    reveal_strlit("Low");
    reveal_strlit("Medium");
    reveal_strlit("High");
    reveal_strlit("Urgent");
    assert("Low"@.len() == 3 && "Medium"@.len() == 6 && "High"@.len() == 4 && "Urgent"@.len() == 6);
    assert("Medium"@[0] != "Urgent"@[0]);
}

/// A task of the terminal front end.
#[derive(Debug)]
pub struct Task {
    pub id: TaskId,
    pub title: String,
    pub description: Option<String>,
    pub status: TaskStatus,
    pub priority: Priority,
    pub created_at: i64,
    pub updated_at: Option<i64>,
}

impl Clone for Task {
    fn clone(&self) -> (r: Self)
        ensures
            r == *self,
    {
        let description = match &self.description {
            Some(d) => Some(d.clone()),
            None => None,
        };
        Task {
            id: self.id.clone(),
            title: self.title.clone(),
            description,
            status: self.status,
            priority: self.priority,
            created_at: self.created_at,
            updated_at: self.updated_at,
        }
    }
}

} // verus!
