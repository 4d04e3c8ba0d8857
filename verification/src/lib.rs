//! A small rendering core: cached transform matrices, a camera, a
//! model-view-projection controller, and owners for GPU buffers, vertex
//! arrays, shaders and programs.
//!
//! The library never touches the graphics API itself. Every call goes through
//! a [`context::Gl`] handle, which forwards it to a [`context::Driver`] and
//! keeps a ghost journal of what was issued and what came back. Contracts are
//! stated over that journal, so "exactly one upload" or "nothing is issued
//! before the layout is known to be valid" are proved, not promised.
//!
//! Resources are asked for through a [`shader::Loader`] in the same way: it
//! forwards each request to a [`shader::Resources`] and keeps a ghost record
//! of what was asked and what was answered.
//!
//! Matrix values are a type parameter: the library stores, copies and hands
//! them on, and takes multiplication as a function argument.
pub mod buffer;
pub mod cached_matrix;
pub mod camera;
pub mod context;
pub mod debug;
pub mod layout;
pub mod mvp_matrix;
pub mod shader;
pub mod text;
pub mod triangle;
pub mod viewport;
