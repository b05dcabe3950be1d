//! The records the terminal front end reads from its database: questions,
//! study blocks, subjects with their totals, and tasks.

pub mod question;
pub mod study_block;
pub mod subject;
pub mod task;

pub use question::{Question, QuestionId, QuestionStatus};
pub use study_block::{DailyStudyTime, StudyBlock, StudyBlockId, StudyBlockWithSubject};
pub use subject::{SubjectId, SubjectStats};
pub use task::{Priority, Task, TaskId, TaskStatus};
