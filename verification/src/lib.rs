//! A jailer for Firecracker: it isolates a process from the file system and hands it over to a
//! microVM monitor. Two backends do the isolation, a new root and Landlock rules; everything
//! else is the same for both, so that they can be compared.
//!
//! The kernel, the file system and the clock are not touched here. What the jailer does with
//! them is a function from what has happened to what is to be done next: such a function takes
//! the outcome of the last action and answers with the next one. The program around the library
//! performs the actions.
//!
//! * `orchestration`, `process`, `args`: the course of a jailer process and its command line.
//! * `landlock_jail`, `landlock_laws`: the Landlock rules of a jail, and how they are attached.
//! * `special`, `path`, `text`, `json`, `error`: special files, paths, texts, reports, failures.
//! * `setup_bench`, `multi_file`, `fleet`, `fio`: the benchmarks that compare the backends.
//! * the modules that end in `_laws`: what holds of whole runs, and of what one function makes of
//!   the result of another.

pub mod args;
pub mod error;
pub mod error_laws;
pub mod fio;
pub mod fio_laws;
pub mod fleet;
pub mod fleet_laws;
pub mod jailer_laws;
pub mod json;
pub mod landlock_jail;
pub mod landlock_laws;
pub mod multi_file;
pub mod multi_file_laws;
pub mod orchestration;
pub mod path;
pub mod path_laws;
pub mod process;
pub mod setup_bench;
pub mod setup_laws;
pub mod special;
pub mod text;
pub mod text_laws;
