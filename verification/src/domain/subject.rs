use vstd::prelude::*;

use super::topic::Topic;

verus! {

#[derive(Debug, PartialEq, Eq, Hash)]
pub struct SubjectId(pub String);

impl Clone for SubjectId {
    fn clone(&self) -> (r: Self)
        ensures
            r == *self,
    {
        SubjectId(self.0.clone())
    }
}

/// Something to study, with its topics.
#[derive(Debug)]
pub struct Subject {
    pub id: SubjectId,
    pub name: String,
    pub color_hex: String,
    pub topics: Vec<Topic>,
    pub created_at: u64,
    pub updated_at: u64,
}

/// The mathematical value of a [`Subject`]: its topics as a sequence.
pub struct SubjectView {
    pub id: SubjectId,
    pub name: String,
    pub color_hex: String,
    pub topics: Seq<Topic>,
    pub created_at: u64,
    pub updated_at: u64,
}

impl View for Subject {
    type V = SubjectView;

    open spec fn view(&self) -> SubjectView {
        SubjectView {
            id: self.id,
            name: self.name,
            color_hex: self.color_hex,
            topics: self.topics@,
            created_at: self.created_at,
            updated_at: self.updated_at,
        }
    }
}

impl Clone for Subject {
    fn clone(&self) -> (r: Self)
        ensures
            r@ == self@,
    {
        let mut topics: Vec<Topic> = Vec::new();
        let mut i: usize = 0;
        while i < self.topics.len()
            invariant
                i <= self.topics.len(),
                topics@ == self.topics@.subrange(0, i as int),
            decreases self.topics.len() - i,
        {
            topics.push(self.topics[i].clone());
            i = i + 1;
        }
        assert(topics@ == self.topics@);
        Subject {
            id: self.id.clone(),
            name: self.name.clone(),
            color_hex: self.color_hex.clone(),
            topics,
            created_at: self.created_at,
            updated_at: self.updated_at,
        }
    }
}

} // verus!
