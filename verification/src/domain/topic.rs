use vstd::prelude::*;

verus! {

#[derive(Debug, PartialEq, Eq, Hash)]
pub struct TopicId(pub u64);

impl Clone for TopicId {
    fn clone(&self) -> (r: Self)
        ensures
            r == *self,
    {
        TopicId(self.0)
    }
}

/// A topic within a subject.
#[derive(Debug)]
pub struct Topic {
    pub id: TopicId,
    pub name: String,
    pub created_at: u64,
    pub updated_at: u64,
}

impl Clone for Topic {
    fn clone(&self) -> (r: Self)
        ensures
            r == *self,
    {
        Topic {
            id: self.id.clone(),
            name: self.name.clone(),
            created_at: self.created_at,
            updated_at: self.updated_at,
        }
    }
}

} // verus!
