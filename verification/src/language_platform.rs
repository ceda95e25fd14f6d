use vstd::prelude::*;

verus! {

/// The language that most of a project's sources are written in.
#[derive(Clone, Copy, Debug, PartialEq, Eq, Hash, Structural)]
pub enum LanguageType {
    Bash,
    Batch,
    Go,
    JavaScript,
    Php,
    Python,
    Ruby,
    Rust,
    TypeScript,
    Unknown,
}

/// The toolchain that runs a project's tasks.
#[derive(Clone, Copy, Debug, PartialEq, Eq, Hash, Structural)]
pub enum PlatformType {
    Deno,
    Node,
    Rust,
    System,
    Unknown,
}

/// What a project is declared to be.
#[derive(Clone, Copy, Debug, PartialEq, Eq, Hash, Structural)]
pub enum ProjectType {
    Application,
    Library,
    Tool,
    Unknown,
}

/// The platform that a language implies when none is configured.
pub open spec fn platform_of_language(language: LanguageType) -> PlatformType {
    match language {
        LanguageType::JavaScript | LanguageType::TypeScript => PlatformType::Node,
        LanguageType::Rust => PlatformType::Rust,
        LanguageType::Unknown => PlatformType::Unknown,
        LanguageType::Bash
        | LanguageType::Batch
        | LanguageType::Go
        | LanguageType::Php
        | LanguageType::Python
        | LanguageType::Ruby => PlatformType::System,
    }
}

/// The language of a project: the configured one where it is known, else
/// the detected one, else unknown.
pub open spec fn resolved_language(
    configured: LanguageType,
    detected: Option<LanguageType>,
) -> LanguageType {
    if configured != LanguageType::Unknown {
        configured
    } else {
        match detected {
            Some(language) => language,
            None => LanguageType::Unknown,
        }
    }
}

/// The platform of a project: the configured one where there is one, else
/// the one that the project's language implies.
pub open spec fn resolved_platform(
    configured: Option<PlatformType>,
    language: LanguageType,
) -> PlatformType {
    match configured {
        Some(platform) => platform,
        None => platform_of_language(language),
    }
}

/// Settles the language of a project from what its configuration says and
/// what a detector found.
pub fn resolve_language(configured: LanguageType, detected: Option<LanguageType>) -> (language:
    LanguageType)
    ensures
        language == resolved_language(configured, detected),
{
    if configured != LanguageType::Unknown {
        configured
    } else {
        match detected {
            Some(language) => language,
            None => LanguageType::Unknown,
        }
    }
}

/// Settles the platform of a project from what its configuration says and
/// the project's language.
pub fn resolve_platform(configured: Option<PlatformType>, language: LanguageType) -> (platform:
    PlatformType)
    ensures
        platform == resolved_platform(configured, language),
{
    match configured {
        Some(platform) => platform,
        None => language.to_platform(),
    }
}

impl LanguageType {
    /// The platform that this language implies.
    pub fn to_platform(self) -> (platform: PlatformType)
        ensures
            platform == platform_of_language(self),
    {
        match self {
            LanguageType::JavaScript | LanguageType::TypeScript => PlatformType::Node,
            LanguageType::Rust => PlatformType::Rust,
            LanguageType::Unknown => PlatformType::Unknown,
            LanguageType::Bash
            | LanguageType::Batch
            | LanguageType::Go
            | LanguageType::Php
            | LanguageType::Python
            | LanguageType::Ruby => PlatformType::System,
        }
    }
}

impl Default for LanguageType {
    fn default() -> (language: Self)
        ensures
            language == LanguageType::Unknown,
    {
        LanguageType::Unknown
    }
}

impl Default for PlatformType {
    fn default() -> (platform: Self)
        ensures
            platform == PlatformType::Unknown,
    {
        PlatformType::Unknown
    }
}

impl Default for ProjectType {
    fn default() -> (kind: Self)
        ensures
            kind == ProjectType::Unknown,
    {
        ProjectType::Unknown
    }
}

} // verus!
