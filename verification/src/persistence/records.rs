//! The domain entities as records of a [`Store`](super::store::Store),
//! each keyed by the text of its id.

use vstd::prelude::*;

use super::store::Record;
use crate::domain::{Session, SessionView, StudyBlock, Subject, SubjectView, Task};

verus! {

impl Record for Session {
    open spec fn key_of(v: SessionView) -> Seq<char> {
        v.id.0@
    }

    fn key(&self) -> (r: &String) {
        &self.id.0
    }

    fn duplicate(&self) -> (r: Self) {
        self.clone()
    }
}

impl Record for Subject {
    open spec fn key_of(v: SubjectView) -> Seq<char> {
        v.id.0@
    }

    fn key(&self) -> (r: &String) {
        &self.id.0
    }

    fn duplicate(&self) -> (r: Self) {
        self.clone()
    }
}

impl Record for Task {
    open spec fn key_of(v: Task) -> Seq<char> {
        v.id.0@
    }

    fn key(&self) -> (r: &String) {
        &self.id.0
    }

    fn duplicate(&self) -> (r: Self) {
        self.clone()
    }
}

impl Record for StudyBlock {
    open spec fn key_of(v: StudyBlock) -> Seq<char> {
        v.id.0@
    }

    fn key(&self) -> (r: &String) {
        &self.id.0
    }

    fn duplicate(&self) -> (r: Self) {
        self.clone()
    }
}

} // verus!
