//! The planner's domain model: subjects and their topics, planned sessions,
//! study blocks actually spent, and tasks.

pub mod error;
pub mod session;
pub mod study_block;
pub mod subject;
pub mod task;
pub mod topic;

pub use error::{replies, DomainError, DomainErrorView};
pub use session::{Session, SessionId, SessionView};
pub use study_block::{StudyBlock, StudyBlockId, StudyBlockStatus};
pub use subject::{Subject, SubjectId, SubjectView};
pub use task::{Priority, Task, TaskId, TaskStatus};
pub use topic::{Topic, TopicId};
