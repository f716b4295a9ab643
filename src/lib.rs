//! A store of to-do lists whose encoded size never outgrows the byte
//! capacity fixed when each list is created.
pub mod encoding;
pub mod laws;
pub mod record;

pub use encoding::{record_size, LEN_PREFIX};
pub use record::{create, create_with_capacity, new_task, ToDoList, TodoError, CAPACITY_BYTES};
