//! What can go wrong, and the message that tells of it.

use crate::text::{glue, decimal, decimal_digits, string_of};
use vstd::prelude::*;

verus! {

/// One of the two roots of a project pair is missing or is no directory.
#[derive(Debug, PartialEq, Eq)]
pub enum PathError {
    LegacyMissing(String),
    NewMissing(String),
    LegacyNotDirectory(String),
    NewNotDirectory(String),
}

impl PathError {
    pub open spec fn message_text(self) -> Seq<char> {
        match self {
            PathError::LegacyMissing(p) => "Diretório legado não encontrado: "@ + p@,
            PathError::NewMissing(p) => "Diretório novo não encontrado: "@ + p@,
            PathError::LegacyNotDirectory(p) => "Path legado não é um diretório: "@ + p@,
            PathError::NewNotDirectory(p) => "Path novo não é um diretório: "@ + p@,
        }
    }

    pub fn message(&self) -> (r: String)
        ensures
            r@ == self.message_text(),
    {
        match self {
            PathError::LegacyMissing(p) => glue("Diretório legado não encontrado: ", p.as_str()),
            PathError::NewMissing(p) => glue("Diretório novo não encontrado: ", p.as_str()),
            PathError::LegacyNotDirectory(p) => glue(
                "Path legado não é um diretório: ",
                p.as_str(),
            ),
            PathError::NewNotDirectory(p) => glue("Path novo não é um diretório: ", p.as_str()),
        }
    }
}

/// No file under a project root holds source code.
#[derive(Debug, PartialEq, Eq)]
pub struct DiscoveryError {
    pub project_path: String,
}

impl DiscoveryError {
    pub open spec fn message_text(self) -> Seq<char> {
        "Nenhum arquivo de código encontrado em: "@ + self.project_path@
    }

    pub fn message(&self) -> (r: String)
        ensures
            r@ == self.message_text(),
    {
        glue("Nenhum arquivo de código encontrado em: ", self.project_path.as_str())
    }
}

/// A source file could not be turned into something that runs.
#[derive(Debug, PartialEq, Eq)]
pub enum BuildError {
    /// The source file does not exist.
    SourceMissing(String),
    /// The build tool could not be started.
    ToolUnavailable { tool: String, reason: String },
    /// The build tool ran and reported failure.
    CompilationFailed { language: String, diagnostics: String },
}

pub enum BuildErrorView {
    SourceMissing(Seq<char>),
    ToolUnavailable { tool: Seq<char>, reason: Seq<char> },
    CompilationFailed { language: Seq<char>, diagnostics: Seq<char> },
}

impl View for BuildError {
    type V = BuildErrorView;

    open spec fn view(&self) -> BuildErrorView {
        match self {
            BuildError::SourceMissing(p) => BuildErrorView::SourceMissing(p@),
            BuildError::ToolUnavailable { tool, reason } => BuildErrorView::ToolUnavailable {
                tool: tool@,
                reason: reason@,
            },
            BuildError::CompilationFailed {
                language,
                diagnostics,
            } => BuildErrorView::CompilationFailed { language: language@, diagnostics: diagnostics@ },
        }
    }
}

impl BuildErrorView {
    pub open spec fn message_text(self) -> Seq<char> {
        match self {
            BuildErrorView::SourceMissing(p) => "Arquivo não encontrado: "@ + p,
            BuildErrorView::ToolUnavailable { tool, reason } => "Erro ao executar "@ + tool + ": "@
                + reason,
            BuildErrorView::CompilationFailed { language, diagnostics } => "Erro na compilação "@
                + language + ": "@ + diagnostics,
        }
    }
}

impl BuildError {
    pub fn message(&self) -> (r: String)
        ensures
            r@ == self@.message_text(),
    {
        match self {
            BuildError::SourceMissing(p) => glue("Arquivo não encontrado: ", p.as_str()),
            BuildError::ToolUnavailable { tool, reason } => {
                let mut r = glue("Erro ao executar ", tool.as_str());
                r.append(": ");
                r.append(reason.as_str());
                r
            },
            BuildError::CompilationFailed { language, diagnostics } => {
                let mut r = glue("Erro na compilação ", language.as_str());
                r.append(": ");
                r.append(diagnostics.as_str());
                r
            },
        }
    }
}

/// The answer of a test generator could not be read.
#[derive(Debug, PartialEq, Eq)]
pub enum ParseError {
    /// The answer does not have the shape of a chat completion.
    InvalidResponse,
    /// The content of the answer is no JSON document.
    InvalidJson { reason: String },
    /// The content has no member `tests`.
    MissingTests,
    /// The member `tests` is no array.
    TestsNotArray,
    /// The scenario at this position of `tests` is malformed.
    InvalidTest(usize),
    /// Not one scenario of the answer could be read.
    NoValidTest,
}

pub enum ParseErrorView {
    InvalidResponse,
    InvalidJson { reason: Seq<char> },
    MissingTests,
    TestsNotArray,
    InvalidTest(usize),
    NoValidTest,
}

impl View for ParseError {
    type V = ParseErrorView;

    open spec fn view(&self) -> ParseErrorView {
        match self {
            ParseError::InvalidResponse => ParseErrorView::InvalidResponse,
            ParseError::InvalidJson { reason } => ParseErrorView::InvalidJson { reason: reason@ },
            ParseError::MissingTests => ParseErrorView::MissingTests,
            ParseError::TestsNotArray => ParseErrorView::TestsNotArray,
            ParseError::InvalidTest(i) => ParseErrorView::InvalidTest(*i),
            ParseError::NoValidTest => ParseErrorView::NoValidTest,
        }
    }
}

impl ParseErrorView {
    pub open spec fn message_text(self) -> Seq<char> {
        match self {
            ParseErrorView::InvalidResponse => "Formato de resposta inválido da Groq API"@,
            ParseErrorView::InvalidJson { reason } => "Erro ao parsear JSON da IA: "@ + reason,
            ParseErrorView::MissingTests => "Resposta não contém campo 'tests'"@,
            ParseErrorView::TestsNotArray => "'tests' não é um array"@,
            ParseErrorView::InvalidTest(i) => "Erro no teste "@ + decimal(i as nat)
                + ": formato inválido"@,
            ParseErrorView::NoValidTest => "Nenhum teste válido gerado"@,
        }
    }
}

impl ParseError {
    pub fn message(&self) -> (r: String)
        ensures
            r@ == self@.message_text(),
    {
        match self {
            ParseError::InvalidResponse => "Formato de resposta inválido da Groq API".to_owned(),
            ParseError::InvalidJson { reason } => glue(
                "Erro ao parsear JSON da IA: ",
                reason.as_str(),
            ),
            ParseError::MissingTests => "Resposta não contém campo 'tests'".to_owned(),
            ParseError::TestsNotArray => "'tests' não é um array".to_owned(),
            ParseError::InvalidTest(i) => {
                let digits = string_of(&decimal_digits(*i));
                let mut r = glue("Erro no teste ", digits.as_str());
                r.append(": formato inválido");
                r
            },
            ParseError::NoValidTest => "Nenhum teste válido gerado".to_owned(),
        }
    }
}

/// A suite was asked to run without a single scenario.
#[derive(Debug, PartialEq, Eq)]
pub struct EmptySuiteError;

impl EmptySuiteError {
    pub open spec fn message_text(self) -> Seq<char> {
        "Nenhum FullTestFromAI encontrado. Por favor, gere testes primeiro."@
    }

    pub fn message(&self) -> (r: String)
        ensures
            r@ == self.message_text(),
    {
        "Nenhum FullTestFromAI encontrado. Por favor, gere testes primeiro.".to_owned()
    }
}

} // verus!
