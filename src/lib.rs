//! Script generation and process supervision for driving a pixel-art editor
//! through its batch mode: escaping text into script literals, naming and
//! cleaning up temporary scripts, deciding each step of a run (spawn, wait
//! with a timeout, kill, collect output) and of the search for the
//! executable, turning a run's output into a report, and building the
//! scripts and command lines of the editing operations.
pub mod color;
pub mod decimal;
pub mod invocation;
pub mod literal_grammar;
pub mod locate;
pub mod lua_helpers;
pub mod output;
pub mod reply;
pub mod runner;
pub mod script_text;
pub mod script_values;
pub mod template;
pub mod tools;
mod text;
