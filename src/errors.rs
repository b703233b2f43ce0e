use vstd::prelude::*;

verus! {

/// Errors of the dictation tool. Failures that come from I/O, HTTP or JSON
/// handling are carried as the text that their source gave.
#[derive(Debug, Clone)]
pub enum VoxputError {
    Audio(String),
    NoDevice,
    Provider(String),
    MissingApiKey { env_var: String },
    Config(String),
    Output(String),
    Io(String),
    Http(String),
    Json(String),
}

/// The text shown to a user for an error.
pub open spec fn error_text(e: VoxputError) -> Seq<char> {
    match e {
        VoxputError::Audio(m) => "Audio error: "@ + m@,
        VoxputError::NoDevice => "No audio input device available"@,
        VoxputError::Provider(m) => "Transcription provider error: "@ + m@,
        VoxputError::MissingApiKey { env_var } => "API key not found: set "@ + env_var@
            + " or add to ~/.config/voxput/config.toml"@,
        VoxputError::Config(m) => "Configuration error: "@ + m@,
        VoxputError::Output(m) => "Output error: "@ + m@,
        VoxputError::Io(m) => m@,
        VoxputError::Http(m) => m@,
        VoxputError::Json(m) => m@,
    }
}

impl VoxputError {
    /// The text shown to a user for this error.
    pub fn message(&self) -> (r: String)
        ensures
            r@ == error_text(*self),
    {
        match self {
            VoxputError::Audio(m) => String::from_str("Audio error: ").concat(m.as_str()),
            VoxputError::NoDevice => String::from_str("No audio input device available"),
            VoxputError::Provider(m) => String::from_str("Transcription provider error: ").concat(
                m.as_str(),
            ),
            VoxputError::MissingApiKey { env_var } => String::from_str(
                "API key not found: set ",
            ).concat(env_var.as_str()).concat(" or add to ~/.config/voxput/config.toml"),
            VoxputError::Config(m) => String::from_str("Configuration error: ").concat(m.as_str()),
            VoxputError::Output(m) => String::from_str("Output error: ").concat(m.as_str()),
            VoxputError::Io(m) => m.clone(),
            VoxputError::Http(m) => m.clone(),
            VoxputError::Json(m) => m.clone(),
        }
    }
}

} // verus!
