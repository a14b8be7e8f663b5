use vstd::prelude::*;

verus! {

/// The error taxonomy of the build pipeline.
///
/// `ConfigError` is fatal to a whole run; `MissingField` and `InvalidModel`
/// are scoped to the one page whose declaration or model file is at fault;
/// `TemplateNotFound` and `RenderFailure` are scoped to the one page being
/// rendered; `IOError` reports a filesystem failure.
#[derive(Debug, Clone, PartialEq, Eq)]
pub enum IronSSGError {
    ConfigError(String),
    MissingField(String),
    InvalidModel(String),
    IOError(String),
    TemplateNotFound(String),
    RenderFailure(String),
}

impl IronSSGError {
    /// The human-readable message for this error, exactly as specified by
    /// `message_text`.
    pub fn message(&self) -> (r: String)
        ensures
            r@ == self.message_text(),
    {
        match self {
            IronSSGError::ConfigError(s) => {
                String::from_str("Configuration error: ").concat(s.as_str())
            },
            IronSSGError::MissingField(s) => {
                String::from_str("Missing '").concat(s.as_str()).concat("' field")
            },
            IronSSGError::InvalidModel(s) => {
                String::from_str("Invalid JSON: ").concat(s.as_str())
            },
            IronSSGError::IOError(s) => String::from_str("File error: ").concat(s.as_str()),
            IronSSGError::TemplateNotFound(s) => {
                String::from_str("Template not found: ").concat(s.as_str())
            },
            IronSSGError::RenderFailure(s) => {
                String::from_str("Rendering error: ").concat(s.as_str())
            },
        }
    }

    /// What `message` returns, variant by variant.
    pub open spec fn message_text(self) -> Seq<char> {
        match self {
            IronSSGError::ConfigError(s) => "Configuration error: "@ + s@,
            IronSSGError::MissingField(s) => "Missing '"@ + s@ + "' field"@,
            IronSSGError::InvalidModel(s) => "Invalid JSON: "@ + s@,
            IronSSGError::IOError(s) => "File error: "@ + s@,
            IronSSGError::TemplateNotFound(s) => "Template not found: "@ + s@,
            IronSSGError::RenderFailure(s) => "Rendering error: "@ + s@,
        }
    }
}

} // verus!
