//! Study blocks: the repository port and the use cases.

use vstd::prelude::*;

use super::helpers::{generate_uuid, now_secs, v4_uuid_text};
use crate::domain::{replies, DomainError, DomainErrorView, SessionId, StudyBlock, StudyBlockId, StudyBlockStatus};
use crate::persistence::store::{lookup, upserted};

verus! {

/// Where study blocks are kept. Each implementation decides which calls
/// fail and with what error (`save_error`, `read_error`); what a call that
/// succeeds does is fixed here.
pub trait StudyBlockRepository {
    /// The study blocks held, in order.
    spec fn blocks(&self) -> Seq<StudyBlock>;

    /// The error that saving `study_block` reports now, or `None` when the
    /// save succeeds.
    spec fn save_error(&self, study_block: StudyBlock) -> Option<DomainErrorView>;

    /// The error that a read reports now, or `None` when reads succeed.
    spec fn read_error(&self) -> Option<DomainErrorView>;

    /// Saves `study_block`, replacing the one with the same id.
    fn save(&mut self, study_block: StudyBlock) -> (r: Result<(), DomainError>)
        ensures
            replies(r, old(self).save_error(study_block)),
            final(self).blocks() == if r is Ok {
                upserted::<StudyBlock>(old(self).blocks(), study_block)
            } else {
                old(self).blocks()
            },
    ;

    /// All study blocks, in order.
    fn find_all(&self) -> (r: Result<Vec<StudyBlock>, DomainError>)
        ensures
            replies(r, self.read_error()),
            r matches Ok(v) ==> v@ == self.blocks(),
    ;

    /// The study block with id `id`, if any.
    fn find_by_id(&self, id: StudyBlockId) -> (r: Result<Option<StudyBlock>, DomainError>)
        ensures
            replies(r, self.read_error()),
            r matches Ok(Some(b)) ==> lookup::<StudyBlock>(self.blocks(), id.0@) == Some(b),
            r matches Ok(None) ==> lookup::<StudyBlock>(self.blocks(), id.0@) is None,
    ;
}

/// The block that [`StartStudyBlockUseCase`] starts: active, open-ended,
/// started and created at `now`.
pub open spec fn started_block(id: StudyBlockId, session_id: Option<SessionId>, now: u64) -> StudyBlock {
    StudyBlock {
        id,
        session_id,
        start_time: now,
        end_time: None,
        status: StudyBlockStatus::Active,
        created_at: now,
    }
}

/// `b` completed at `now`: it ends at `now` and is `Completed`; nothing else changes.
pub open spec fn completed_block(b: StudyBlock, now: u64) -> StudyBlock {
    StudyBlock { end_time: Some(now), status: StudyBlockStatus::Completed, ..b }
}

/// `r` is what saving the new block `block` into `pre` replies, `post` the
/// repository after it: the block, or the save's own error with nothing changed.
pub open spec fn block_started<R: StudyBlockRepository>(
    pre: R,
    post: R,
    block: StudyBlock,
    r: Result<StudyBlock, DomainError>,
) -> bool {
    &&& replies(r, pre.save_error(block))
    &&& r matches Ok(b) ==> b == block
    &&& post.blocks() == if r is Ok {
        upserted::<StudyBlock>(pre.blocks(), block)
    } else {
        pre.blocks()
    }
}

/// `r` is what completing block `id` of `pre` at time `now` replies, `post`
/// the repository after it: a failed read's error; `NotFound` when no block
/// has that id; otherwise the reply of saving the block completed at `now`.
/// Nothing changes unless that save succeeds.
pub open spec fn block_completed<R: StudyBlockRepository>(
    pre: R,
    post: R,
    id: Seq<char>,
    now: u64,
    r: Result<(), DomainError>,
) -> bool {
    match pre.read_error() {
        Some(e) => replies(r, Some(e)) && post.blocks() == pre.blocks(),
        None => match lookup::<StudyBlock>(pre.blocks(), id) {
            None => r matches Err(DomainError::NotFound) && post.blocks() == pre.blocks(),
            Some(b) => {
                &&& replies(r, pre.save_error(completed_block(b, now)))
                &&& post.blocks() == if r is Ok {
                    upserted::<StudyBlock>(pre.blocks(), completed_block(b, now))
                } else {
                    pre.blocks()
                }
            },
        },
    }
}

/// Starts a study block. The repository is lent to each call.
pub struct StartStudyBlockUseCase {}

impl StartStudyBlockUseCase {
    pub fn new() -> Self {
        StartStudyBlockUseCase {  }
    }

    /// Starts an active block with a fresh id at the current time, for the
    /// given session if any, and saves it.
    pub fn execute<R: StudyBlockRepository>(&self, repo: &mut R, session_id: Option<SessionId>) -> (r:
        Result<StudyBlock, DomainError>)
        ensures
            exists|id: StudyBlockId, now: u64|
                v4_uuid_text(id.0@) && #[trigger] block_started(*old(repo), *final(repo), started_block(id, session_id, now), r),
    {
        let id = StudyBlockId(generate_uuid());
        let now = now_secs();
        let ghost args = (id, session_id);
        let r = self.execute_with(repo, id, now, session_id);
        assert(block_started(*old(repo), *repo, started_block(args.0, args.1, now), r));
        r
    }

    /// Starts the block with id `id` at time `now` and saves it.
    pub fn execute_with<R: StudyBlockRepository>(
        &self,
        repo: &mut R,
        id: StudyBlockId,
        now: u64,
        session_id: Option<SessionId>,
    ) -> (r: Result<StudyBlock, DomainError>)
        ensures
            block_started(*old(repo), *final(repo), started_block(id, session_id, now), r),
    {
        let block = StudyBlock {
            id,
            session_id,
            start_time: now,
            end_time: None,
            status: StudyBlockStatus::Active,
            created_at: now,
        };
        match repo.save(block.clone()) {
            Ok(()) => Ok(block),
            Err(e) => Err(e),
        }
    }
}

/// Completes a study block. The repository is lent to each call.
pub struct CompleteStudyBlockUseCase {}

impl CompleteStudyBlockUseCase {
    pub fn new() -> Self {
        CompleteStudyBlockUseCase {  }
    }

    /// Marks the block with id `id` completed at the current time.
    /// `NotFound` when there is no such block.
    pub fn execute<R: StudyBlockRepository>(&self, repo: &mut R, id: StudyBlockId) -> (r: Result<
        (),
        DomainError,
    >)
        ensures
            exists|now: u64| #[trigger] block_completed(*old(repo), *final(repo), id.0@, now, r),
    {
        let now = now_secs();
        let ghost key = id.0@;
        let r = self.execute_with(repo, id, now);
        assert(block_completed(*old(repo), *repo, key, now, r));
        r
    }

    /// Marks the block with id `id` completed at time `now`.
    pub fn execute_with<R: StudyBlockRepository>(&self, repo: &mut R, id: StudyBlockId, now: u64) -> (r:
        Result<(), DomainError>)
        ensures
            block_completed(*old(repo), *final(repo), id.0@, now, r),
    {
        let found = match repo.find_by_id(id) {
            Ok(found) => found,
            Err(e) => {
                return Err(e);
            },
        };
        let block = match found {
            Some(b) => b,
            None => {
                return Err(DomainError::NotFound);
            },
        };
        let completed = StudyBlock {
            end_time: Some(now),
            status: StudyBlockStatus::Completed,
            ..block
        };
        repo.save(completed)
    }
}

/// Lists the study blocks.
pub struct GetStudyBlocksUseCase {}

impl GetStudyBlocksUseCase {
    pub fn new() -> Self {
        GetStudyBlocksUseCase {  }
    }

    /// All study blocks of the repository, in order.
    pub fn execute<R: StudyBlockRepository>(&self, repo: &R) -> (r: Result<Vec<StudyBlock>, DomainError>)
        ensures
            replies(r, repo.read_error()),
            r matches Ok(v) ==> v@ == repo.blocks(),
    {
        repo.find_all()
    }
}

} // verus!
