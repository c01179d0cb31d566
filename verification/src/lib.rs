//! The decisions of a software factory, verified.
//!
//! A model proposes changes to a workspace, in plain text. [`mason_transport`]
//! reads whole files and patches out of a response, [`mason_tools`] reads the
//! tool calls of a message, [`mason_guard`] tells what must not be passed over or
//! read, and [`tool_loop`] decides what happens next between the model and its
//! workspace. [`gaia`] measures a benchmark, [`causal_graph`] decides how the
//! graph database is connected and what is answered without it, [`schema`] and
//! [`db`] decide what is kept in the state database.
//!
//! Nothing here reads a file, asks a model or talks to a database: that is done
//! around the library, on what it decides. What holds of several functions at
//! once is stated and proved in the modules whose names end in `_laws`, and next
//! to what it is about. What is believed without proof stands in [`outside`] and,
//! for `String::push`, in [`text`].

pub mod call_laws;
pub mod causal_graph;
pub mod db;
pub mod db_laws;
pub mod gaia;
pub mod gaia_laws;
pub mod guard_laws;
pub mod lines;
pub mod mason_guard;
pub mod mason_tools;
pub mod mason_transport;
pub mod numeral;
pub mod order;
pub mod outside;
pub mod pairs;
pub mod reading_laws;
pub mod report_laws;
pub mod response_laws;
pub mod row_laws;
pub mod run_laws;
pub mod schema;
pub mod schema_laws;
pub mod search;
pub mod store_laws;
pub mod text;
pub mod text_laws;
pub mod told_laws;
pub mod tool_laws;
pub mod tool_loop;
pub mod tool_loop_laws;
pub mod transport_laws;
pub mod view_laws;
pub mod wording_laws;
pub mod words;
pub mod workspace;
