//! sonictok: exact byte-pair-encoding tokenizer.
pub mod blob;
pub mod bpe;
pub mod encoding;
pub mod hash;
pub mod import;
pub mod oracle;
pub mod pretok;
pub mod probe;
pub mod rank;
pub mod specials;
pub mod tokenizer;
pub mod unicode;
pub mod vocab;
