/// Reserved account addresses.
pub mod addresses;
/// Concretization modes of the read/write set analysis.
pub mod concretize;
/// Help tables: rows, alignment and the uniqueness of their tokens.
pub mod help;
/// Two-level verb resolution and the default parameters of each command.
pub mod resolve;
/// The layout of a new package: manifest, stubs and ignore file.
pub mod scaffold;
/// Experimental analyses and the parsing of their parameters.
pub mod experimental;
