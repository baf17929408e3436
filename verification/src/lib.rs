//! Configuration of a p2panda node: where its settings come from, how they are checked, and how
//! they are shown when the node starts.
pub mod allow_list;
pub mod config;
pub mod config_file;
pub mod ids;
pub mod node;
pub mod outside;
pub mod report;
pub mod sources;
pub mod text;
pub mod value;
