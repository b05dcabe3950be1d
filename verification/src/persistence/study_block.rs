//! Study blocks kept in memory.

use vstd::prelude::*;

use super::store::{unique_keys, Store};
use crate::application::study_block::StudyBlockRepository;
use crate::domain::{DomainError, DomainErrorView, StudyBlock, StudyBlockId};

verus! {

/// Study blocks kept in memory, in the order they were first saved.
pub struct InMemoryStudyBlockRepository {
    blocks: Store<StudyBlock>,
}

impl InMemoryStudyBlockRepository {
    /// A repository without study blocks.
    pub fn new() -> (r: Self)
        ensures
            r.blocks() == Seq::<StudyBlock>::empty(),
    {
        InMemoryStudyBlockRepository { blocks: Store::new() }
    }
}

impl StudyBlockRepository for InMemoryStudyBlockRepository {
    closed spec fn blocks(&self) -> Seq<StudyBlock> {
        self.blocks@
    }

    open spec fn save_error(&self, study_block: StudyBlock) -> Option<DomainErrorView> {
        None
    }

    open spec fn read_error(&self) -> Option<DomainErrorView> {
        None
    }

    fn save(&mut self, study_block: StudyBlock) -> (r: Result<(), DomainError>)
        ensures
            unique_keys::<StudyBlock>(old(self).blocks()),
            unique_keys::<StudyBlock>(final(self).blocks()),
    {
        self.blocks.upsert(study_block);
        Ok(())
    }

    fn find_all(&self) -> (r: Result<Vec<StudyBlock>, DomainError>)
        ensures
            unique_keys::<StudyBlock>(self.blocks()),
    {
        let v = self.blocks.all();
        assert(v@.map_values(|b: StudyBlock| b@) =~= v@);
        Ok(v)
    }

    fn find_by_id(&self, id: StudyBlockId) -> (r: Result<Option<StudyBlock>, DomainError>)
        ensures
            unique_keys::<StudyBlock>(self.blocks()),
    {
        Ok(self.blocks.find(&id.0))
    }
}

} // verus!
