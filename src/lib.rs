//! Task and project tracker core: the record store's logic, the ex-command
//! language, keymaps and the modal input session, verified with Verus.

pub mod actions;
pub mod ex;
pub mod keymap;
pub mod nav;
pub mod outside;
pub mod record;
pub mod session;
pub mod sort;
pub mod status;
pub mod store;
pub mod text;

pub use actions::Action;
pub use ex::{parse_ex, ExCommand, ExError, StatusSet};
pub use keymap::{default_keymap, key_token, keymap_with_overrides, KeyInput, KeyName, Keymap};
pub use record::{Frontmatter, Project, ProjectFrontmatter, ProjectNew, Task, TaskNew};
pub use session::{Effect, Field, Message, Mode, Session};
pub use status::Status;
pub use store::{StoreError, TaskPlan, ProjectPlan};
