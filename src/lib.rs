//! Input marshalling and calldata parsing for a withdraw-proof pipeline.
//!
//! The library turns 256-bit words and field elements into canonical
//! decimal text, assembles the witness generator's JSON input, decides
//! what each external tool's outcome means, and parses the backend's
//! calldata dump into a [`Proof`].

pub mod calldata;
pub mod decimal;
pub mod pipeline;
pub mod witness;
pub mod word;

pub use calldata::{normalize_calldata, parse_calldata, split_commas, CalldataError, Proof};
pub use pipeline::{
    advance, check_silent, proof_from_calldata_output, start, Action, ProcessOutcome, ProveError,
    Step,
};
pub use witness::{witness_input_json, witness_matrix_json};
pub use word::{FieldElement, PublicKey, U256};
