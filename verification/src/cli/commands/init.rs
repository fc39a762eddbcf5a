//! The command that sets a project up: which directories and which first
//! pages it makes.

use vstd::prelude::*;
use vstd::string::StringExecFns;
use crate::text::concat;

verus! {

/// What is done about a directory of documentation: it is left alone where
/// it is there already and nothing forces the command, else it is set up.
#[derive(Debug, Clone, Copy, PartialEq, Eq, Structural)]
pub enum Setup {
    Skip,
    Proceed,
}

/// What is done about the directory of documentation.
pub fn execute(docs_exist: bool, force: bool) -> (setup: Setup)
    ensures
        setup == if docs_exist && !force {
            Setup::Skip
        } else {
            Setup::Proceed
        },
{
    if docs_exist && !force {
        Setup::Skip
    } else {
        Setup::Proceed
    }
}

/// The directories below the directory of documentation.
pub fn create_docs_structure() -> (names: Vec<String>)
    ensures
        names.len() == 3,
        names@[0]@ == "api"@,
        names@[1]@ == "guides"@,
        names@[2]@ == "examples"@,
{
    let mut names: Vec<String> = Vec::new();
    names.push("api".to_string());
    names.push("guides".to_string());
    names.push("examples".to_string());
    names
}

/// What the knowledge graph says of a service that is new to it.
pub fn initialize_knowledge_graph(service: &str) -> (description: String)
    ensures
        description@ == "Documentation and knowledge graph for "@ + service@,
{
    concat("Documentation and knowledge graph for ", service)
}

/// The first page of the documentation of a service.
pub open spec fn readme_page(service: Seq<char>) -> Seq<char> {
    r#"# "#@ + service + r#" Documentation

Welcome to the "#@ + service + r#" documentation!

## Overview

This documentation is automatically maintained by ktme (Knowledge Transfer Me).

## Contents

- [Architecture](./architecture.md) - System architecture and design
- [API Documentation](./api.md) - API endpoints and usage
- [Change Log](./changelog.md) - Version history and changes

## Getting Started

To be written: Add getting started guide

## Contributing

To be written: Add contribution guidelines

---

*This documentation is maintained using [ktme](https://github.com/FreePeak/ktme)*
"#@
}

/// The first page of the documentation of a service.
pub fn readme(service: &str) -> (text: String)
    ensures
        text@ == readme_page(service@),
{
    let mut text = r#"# "#.to_string();
    text.append(service);
    text.append(r#" Documentation

Welcome to the "#);
    text.append(service);
    text.append(r#" documentation!

## Overview

This documentation is automatically maintained by ktme (Knowledge Transfer Me).

## Contents

- [Architecture](./architecture.md) - System architecture and design
- [API Documentation](./api.md) - API endpoints and usage
- [Change Log](./changelog.md) - Version history and changes

## Getting Started

To be written: Add getting started guide

## Contributing

To be written: Add contribution guidelines

---

*This documentation is maintained using [ktme](https://github.com/FreePeak/ktme)*
"#);
    text
}

/// The page on the architecture of a service.
pub open spec fn architecture_page(service: Seq<char>) -> Seq<char> {
    r#"# "#@ + service + r#" Architecture

## Overview

To be written: Add system overview

## Components

To be written: Document main components

## Data Flow

To be written: Describe data flow

## Technologies

To be written: List key technologies

---

*Generated by ktme*
"#@
}

/// The page on the architecture of a service.
pub fn architecture(service: &str) -> (text: String)
    ensures
        text@ == architecture_page(service@),
{
    let mut text = r#"# "#.to_string();
    text.append(service);
    text.append(r#" Architecture

## Overview

To be written: Add system overview

## Components

To be written: Document main components

## Data Flow

To be written: Describe data flow

## Technologies

To be written: List key technologies

---

*Generated by ktme*
"#);
    text
}

/// The page on the API of a service.
pub open spec fn api_page(service: Seq<char>) -> Seq<char> {
    r#"# "#@ + service + r#" API Documentation

## Endpoints

To be written: Document API endpoints

## Authentication

To be written: Describe authentication mechanism

## Examples

To be written: Add usage examples

---

*Generated by ktme*
"#@
}

/// The page on the API of a service.
pub fn api(service: &str) -> (text: String)
    ensures
        text@ == api_page(service@),
{
    let mut text = r#"# "#.to_string();
    text.append(service);
    text.append(r#" API Documentation

## Endpoints

To be written: Document API endpoints

## Authentication

To be written: Describe authentication mechanism

## Examples

To be written: Add usage examples

---

*Generated by ktme*
"#);
    text
}

/// The change log of a service.
pub open spec fn changelog_page(service: Seq<char>) -> Seq<char> {
    r#"# "#@ + service + r#" Change Log

## [Unreleased]

### Added
- Initial project setup
- Documentation structure

---

*Generated by ktme*
"#@
}

/// The change log of a service.
pub fn changelog(service: &str) -> (text: String)
    ensures
        text@ == changelog_page(service@),
{
    let mut text = r#"# "#.to_string();
    text.append(service);
    text.append(r#" Change Log

## [Unreleased]

### Added
- Initial project setup
- Documentation structure

---

*Generated by ktme*
"#);
    text
}

/// A first page: the name of its file and what it holds.
#[derive(Debug)]
pub struct InitialDocument {
    pub file_name: String,
    pub content: String,
}

/// The first pages of the documentation of a service. A page is written
/// only where its file is not there yet.
pub fn create_initial_docs(service: &str) -> (pages: Vec<InitialDocument>)
    ensures
        pages.len() == 4,
        pages@[0].file_name@ == "README.md"@ && pages@[0].content@ == readme_page(service@),
        pages@[1].file_name@ == "architecture.md"@ && pages@[1].content@ == architecture_page(
            service@,
        ),
        pages@[2].file_name@ == "api.md"@ && pages@[2].content@ == api_page(service@),
        pages@[3].file_name@ == "changelog.md"@ && pages@[3].content@ == changelog_page(service@),
{
    let mut pages: Vec<InitialDocument> = Vec::new();
    pages.push(InitialDocument { file_name: "README.md".to_string(), content: readme(service) });
    pages.push(
        InitialDocument { file_name: "architecture.md".to_string(), content: architecture(service) },
    );
    pages.push(InitialDocument { file_name: "api.md".to_string(), content: api(service) });
    pages.push(InitialDocument { file_name: "changelog.md".to_string(), content: changelog(service) });
    pages
}

} // verus!
