//! Shader compilation, program linking and uniform reflection over a
//! stateful graphics driver. The driver calls themselves are made by the
//! caller; this library decides what they mean and what comes next.

mod error;
mod stage;
mod text;
mod uniform;
mod shader;
mod load;

pub use error::Error;
pub use stage::{ShaderStage, GL_FRAGMENT_SHADER, GL_VERTEX_SHADER};
pub use text::{decode_name, text_before_nul, whitespace_buffer};
pub use uniform::{ActiveUniform, Uniform, UniformTable, UniformType};
pub use shader::{Program, Shader};
pub use load::{LoadAction, LoadEvent, ProgramLoad};
pub use stage::lemma_extension_names_stage;
pub use uniform::{lemma_reflected_empty_iff, lemma_type_code_round_trip, lemma_type_decode_round_trip};
