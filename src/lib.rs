use vstd::prelude::*;

pub mod config;
pub mod engine;
pub mod error;
pub mod graph;
pub mod template;
pub mod text;
pub mod tools;

pub use config::{object_by_path, string_by_path, ConfigValue};
pub use engine::{
    match_choice, DecisionResult, DecisionState, Prediction, Selection, Turn, MAX_DEPTH,
    PREDICTION_MAX_TOKENS,
};
pub use error::{CognitionError, ModelError};
pub use graph::{Choice, Decision};
pub use template::DecisionPromptTemplate;
pub use tools::{Signal, Tool, ToolResponse, WolframAlpha};

verus! {

} // verus!
