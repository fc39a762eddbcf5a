//! How the name of a service is found: in the repository, in the files of
//! the project, or by asking. Looking into directories is the caller's
//! part.

use vstd::prelude::*;
use vstd::string::StringExecFns;
use vstd::utf8::encode_utf8;
use crate::text::after_last_in;
use crate::text::chars_of;
use crate::text::from_chars;
use crate::text::has_prefix;
use crate::text::last_part;
use crate::text::lines;
use crate::text::lines_of;
use crate::text::matches_at;
use crate::text::second_part;
use crate::text::second_part_of;
use crate::text::str_eq;
use crate::text::string_of;
use crate::text::strip;
use crate::text::trim;
use crate::text::trim_spaces;
use crate::text::trimmed;
use crate::text::views;
use crate::text::CharClass;

verus! {

/// What is known of the place of a directory in a repository.
#[derive(Debug, Clone)]
pub struct RepositoryInfo {
    pub current_dir: String,
    pub repository_root: Option<String>,
    pub is_git_repository: bool,
}

/// One directory on the way from a directory up to the root, and whether
/// it holds a `.git`.
#[derive(Debug, Clone)]
pub struct DirectoryProbe {
    pub path: String,
    pub has_git: bool,
}

/// The index of the first of `probes` from `from` on that holds a `.git`.
pub open spec fn first_repository(probes: Seq<DirectoryProbe>, from: int) -> Option<int>
    decreases probes.len() - from,
{
    if from < 0 || from >= probes.len() {
        None
    } else if probes[from].has_git {
        Some(from)
    } else {
        first_repository(probes, from + 1)
    }
}

/// Whether a name can be the name of a service: it is not empty, not one
/// of the names that say nothing, and 2 to 50 bytes long.
pub open spec fn is_valid_name(name: Seq<char>) -> bool {
    name.len() > 0 && name != "unknown-service"@ && name != "app"@ && name != "project"@ && 2
        <= encode_utf8(name).len() <= 50
}

/// The name that a line of the form `name = "..."` gives: what stands
/// between the first `=` and the next one, without the white space and then
/// the quotes around it. A line of another form gives none, nor does an
/// empty name.
pub open spec fn assigned_name(line: Seq<char>) -> Option<Seq<char>> {
    let name = trimmed(trim_spaces(second_part(line, '=')), CharClass::Only('"'));
    if has_prefix(trim_spaces(line), "name = "@) && name.len() > 0 {
        Some(name)
    } else {
        None
    }
}

/// The name that a line of the form `"name": "..."` gives: what stands
/// between the first `:` and the next one, without the white space, then
/// the quotes and then the commas around it.
pub open spec fn package_name(line: Seq<char>) -> Option<Seq<char>> {
    let name = trimmed(
        trimmed(trim_spaces(second_part(line, ':')), CharClass::Only('"')),
        CharClass::Only(','),
    );
    if has_prefix(trim_spaces(line), "\"name\":"@) && name.len() > 0 {
        Some(name)
    } else {
        None
    }
}

/// What follows `module ` at the very beginning of a line, without the
/// white space around it; the empty text where the line begins otherwise.
pub open spec fn path_of_module(line: Seq<char>) -> Seq<char> {
    if has_prefix(line, "module "@) {
        trim_spaces(line.subrange(7, line.len() as int))
    } else {
        Seq::empty()
    }
}

/// The name that a line of the form `module ...` gives: the last part of
/// the module's path, without the quotes around it.
pub open spec fn module_name(line: Seq<char>) -> Option<Seq<char>> {
    let name = trimmed(last_part(path_of_module(line), '/'), CharClass::Only('"'));
    if has_prefix(trim_spaces(line), "module "@) && name.len() > 0 {
        Some(name)
    } else {
        None
    }
}

/// The kinds of file that name a project.
#[derive(Debug, Clone, Copy, PartialEq, Eq, Structural)]
pub enum ProjectFile {
    CargoToml,
    PackageJson,
    GoMod,
    PyprojectToml,
}

/// The name that one line of a project file gives.
pub open spec fn line_name(kind: ProjectFile, line: Seq<char>) -> Option<Seq<char>> {
    match kind {
        ProjectFile::CargoToml => assigned_name(line),
        ProjectFile::PackageJson => package_name(line),
        ProjectFile::GoMod => module_name(line),
        ProjectFile::PyprojectToml => assigned_name(line),
    }
}

/// The name that the first of `lines` from `from` on that gives one gives.
pub open spec fn first_name(kind: ProjectFile, lines: Seq<Seq<char>>, from: int) -> Option<
    Seq<char>,
>
    decreases lines.len() - from,
{
    if from < 0 || from >= lines.len() {
        None
    } else if line_name(kind, lines[from]) is Some {
        line_name(kind, lines[from])
    } else {
        first_name(kind, lines, from + 1)
    }
}

/// The name that a project file gives: that of its first line that gives
/// one.
pub open spec fn file_name(kind: ProjectFile, content: Seq<char>) -> Option<Seq<char>> {
    first_name(kind, lines_of(content), 0)
}

/// What an optional text stands for.
pub open spec fn text_model(text: Option<String>) -> Option<Seq<char>> {
    match text {
        Some(t) => Some(t@),
        None => None,
    }
}

/// What an optional borrowed text stands for.
pub open spec fn str_model(text: Option<&str>) -> Option<Seq<char>> {
    match text {
        Some(t) => Some(t@),
        None => None,
    }
}

/// The name that the files of a project give: that of the first of
/// `Cargo.toml`, `package.json`, `go.mod` and `pyproject.toml` that is
/// there and gives one.
pub open spec fn project_name(
    cargo_toml: Option<Seq<char>>,
    package_json: Option<Seq<char>>,
    go_mod: Option<Seq<char>>,
    pyproject_toml: Option<Seq<char>>,
) -> Option<Seq<char>> {
    if cargo_toml is Some && file_name(ProjectFile::CargoToml, cargo_toml->0) is Some {
        file_name(ProjectFile::CargoToml, cargo_toml->0)
    } else if package_json is Some && file_name(ProjectFile::PackageJson, package_json->0)
        is Some {
        file_name(ProjectFile::PackageJson, package_json->0)
    } else if go_mod is Some && file_name(ProjectFile::GoMod, go_mod->0) is Some {
        file_name(ProjectFile::GoMod, go_mod->0)
    } else if pyproject_toml is Some && file_name(ProjectFile::PyprojectToml, pyproject_toml->0)
        is Some {
        file_name(ProjectFile::PyprojectToml, pyproject_toml->0)
    } else {
        None
    }
}

/// The name of a service: that of the repository's directory, else that of
/// the project's files, else that of the directory, else a name that says
/// that none is known.
pub open spec fn service_name(
    repository: Option<Seq<char>>,
    project: Option<Seq<char>>,
    directory: Option<Seq<char>>,
) -> Seq<char> {
    match repository {
        Some(name) => name,
        None => match project {
            Some(name) => name,
            None => match directory {
                Some(name) => name,
                None => "unknown-service"@,
            },
        },
    }
}

/// The first line of a text, or a name that says that none is known where
/// the text has no line.
pub open spec fn first_line(text: Seq<char>) -> Seq<char> {
    if lines_of(text).len() > 0 {
        lines_of(text)[0]
    } else {
        "unknown-service"@
    }
}

/// The name that an answer gives: its first line once the white space
/// around the answer is gone, without the white space, then the double
/// quotes and then the single quotes around it; and a name that says that
/// none is known where that is empty.
pub open spec fn answered_name(response: Seq<char>) -> Seq<char> {
    let name = trimmed(
        trimmed(trim_spaces(first_line(trim_spaces(response))), CharClass::Only('"')),
        CharClass::Only('\''),
    );
    if name.len() == 0 {
        "unknown-service"@
    } else {
        name
    }
}

/// The line of one entry of a directory in the question.
pub open spec fn entry_line(name: Seq<char>) -> Seq<char> {
    "  - "@ + name + "\n"@
}

/// The lines of the first `n` of `names`.
pub open spec fn entry_lines(names: Seq<Seq<char>>, n: int) -> Seq<char>
    decreases n,
{
    if n <= 0 || n > names.len() {
        Seq::empty()
    } else {
        entry_lines(names, n - 1) + entry_line(names[n - 1])
    }
}

/// What the question says of a directory: its first ten entries.
pub open spec fn listing(names: Seq<Seq<char>>) -> Seq<char> {
    "Directory contents:\n"@ + entry_lines(
        names,
        if names.len() < 10 {
            names.len() as int
        } else {
            10
        },
    )
}

/// Finds the name of the service that a directory belongs to.
#[derive(Debug, Clone)]
pub struct ServiceDetector {
    current_dir: String,
}

impl ServiceDetector {
    /// The directory that the detector starts from.
    pub closed spec fn directory(&self) -> Seq<char> {
        self.current_dir@
    }

    /// A detector that starts from `dir`.
    pub fn from_directory(dir: String) -> (detector: Self)
        ensures
            detector.directory() == dir@,
    {
        Self { current_dir: dir }
    }

    /// The directory that the detector starts from.
    pub fn current_dir(&self) -> (dir: &str)
        ensures
            dir@ == self.directory(),
    {
        self.current_dir.as_str()
    }

    /// The name of the service, from what the three ways of looking gave.
    pub fn detect_service_name(
        &self,
        repository: Option<String>,
        project: Option<String>,
        directory: Option<String>,
    ) -> (name: String)
        ensures
            name@ == service_name(
                text_model(repository),
                text_model(project),
                text_model(directory),
            ),
    {
        match repository {
            Some(name) => name,
            None => match project {
                Some(name) => name,
                None => match directory {
                    Some(name) => name,
                    None => "unknown-service".to_string(),
                },
            },
        }
    }

    /// The name to go by without asking: the detected one, where it can be
    /// the name of a service.
    pub fn detect_with_ai_fallback(&self, detected: Option<String>) -> (name: Option<String>)
        ensures
            match name {
                Some(n) => detected is Some && n == detected->0 && is_valid_name(n@),
                None => detected is None || !is_valid_name(detected->0@),
            },
    {
        match detected {
            Some(name) => if self.is_valid_service_name(name.as_str()) {
                Some(name)
            } else {
                None
            },
            None => None,
        }
    }

    /// The directory of the repository: the first of the directories on
    /// the way up that holds a `.git`.
    pub fn get_git_repository_root(&self, probes: &Vec<DirectoryProbe>) -> (root: Option<String>)
        ensures
            match root {
                Some(path) => first_repository(probes@, 0) is Some && path@ == probes@[first_repository(
                    probes@,
                    0,
                )->0].path@,
                None => first_repository(probes@, 0) is None,
            },
    {
        let mut i: usize = 0;
        while i < probes.len()
            invariant
                i <= probes.len(),
                first_repository(probes@, 0) == first_repository(probes@, i as int),
            decreases probes.len() - i,
        {
            if probes[i].has_git {
                return Some(probes[i].path.clone());
            }
            i += 1;
        }
        None
    }

    /// The name of the repository's directory, where the directories on the
    /// way up show one.
    pub fn detect_from_git_repository(&self, probes: &Vec<DirectoryProbe>) -> (root: Option<String>)
        ensures
            match root {
                Some(path) => first_repository(probes@, 0) is Some && path@ == probes@[first_repository(
                    probes@,
                    0,
                )->0].path@,
                None => first_repository(probes@, 0) is None,
            },
    {
        self.get_git_repository_root(probes)
    }

    /// What is known of the place of the directory in a repository.
    pub fn get_repository_info(&self, probes: &Vec<DirectoryProbe>) -> (info: RepositoryInfo)
        ensures
            info.current_dir@ == self.directory(),
            info.is_git_repository == (first_repository(probes@, 0) is Some),
            info.is_git_repository == (info.repository_root is Some),
            info.repository_root is Some ==> info.repository_root->0@ == probes@[first_repository(
                probes@,
                0,
            )->0].path@,
    {
        let repository_root = self.get_git_repository_root(probes);
        let is_git_repository = repository_root.is_some();
        RepositoryInfo {
            current_dir: self.current_dir.clone(),
            repository_root,
            is_git_repository,
        }
    }

    /// The name that one line of a project file gives.
    pub fn name_in_line(kind: ProjectFile, line: &str) -> (name: Option<String>)
        ensures
            text_model(name) == line_name(kind, line@),
    {
        let trimmed_line = trim(line);
        let text = chars_of(line);
        let start = chars_of(trimmed_line.as_str());
        let name = match kind {
            ProjectFile::CargoToml | ProjectFile::PyprojectToml => {
                if !matches_at(&start, &chars_of("name = "), 0) {
                    return None;
                }
                let part = from_chars(&second_part_of(&text, '='));
                strip(trim(part.as_str()).as_str(), CharClass::Only('"'))
            },
            ProjectFile::PackageJson => {
                if !matches_at(&start, &chars_of("\"name\":"), 0) {
                    return None;
                }
                let part = from_chars(&second_part_of(&text, ':'));
                let unquoted = strip(trim(part.as_str()).as_str(), CharClass::Only('"'));
                strip(unquoted.as_str(), CharClass::Only(','))
            },
            ProjectFile::GoMod => {
                let prefix = chars_of("module ");
                if !matches_at(&start, &prefix, 0) {
                    return None;
                }
                proof {
                    reveal_strlit("module ");
                }
                let path = if matches_at(&text, &prefix, 0) {
                    trim(string_of(&text, 7, text.len()).as_str())
                } else {
                    String::new()
                };
                let parts = chars_of(path.as_str());
                let last = if parts.len() == 0 {
                    path
                } else {
                    let from = after_last_in(&parts, '/', parts.len());
                    string_of(&parts, from, parts.len())
                };
                strip(last.as_str(), CharClass::Only('"'))
            },
        };
        if name.as_str().is_empty() {
            None
        } else {
            Some(name)
        }
    }

    /// The name that a project file of one kind gives.
    pub fn name_in_file(kind: ProjectFile, content: &str) -> (name: Option<String>)
        ensures
            text_model(name) == file_name(kind, content@),
    {
        let list = lines(content);
        let mut i: usize = 0;
        while i < list.len()
            invariant
                i <= list.len(),
                views(list@) == lines_of(content@),
                first_name(kind, lines_of(content@), 0) == first_name(
                    kind,
                    lines_of(content@),
                    i as int,
                ),
            decreases list.len() - i,
        {
            proof {
                assert(views(list@)[i as int] == list@[i as int]@);
            }
            match Self::name_in_line(kind, list[i].as_str()) {
                Some(name) => {
                    return Some(name);
                },
                None => {},
            }
            i += 1;
        }
        None
    }

    /// The name that a `Cargo.toml` gives.
    pub fn extract_name_from_cargo_toml(content: &str) -> (name: Option<String>)
        ensures
            text_model(name) == file_name(ProjectFile::CargoToml, content@),
    {
        Self::name_in_file(ProjectFile::CargoToml, content)
    }

    /// The name that a `package.json` gives.
    pub fn extract_name_from_package_json(content: &str) -> (name: Option<String>)
        ensures
            text_model(name) == file_name(ProjectFile::PackageJson, content@),
    {
        Self::name_in_file(ProjectFile::PackageJson, content)
    }

    /// The name that a `go.mod` gives.
    pub fn extract_name_from_go_mod(content: &str) -> (name: Option<String>)
        ensures
            text_model(name) == file_name(ProjectFile::GoMod, content@),
    {
        Self::name_in_file(ProjectFile::GoMod, content)
    }

    /// The name that a `pyproject.toml` gives.
    pub fn extract_name_from_pyproject_toml(content: &str) -> (name: Option<String>)
        ensures
            text_model(name) == file_name(ProjectFile::PyprojectToml, content@),
    {
        Self::name_in_file(ProjectFile::PyprojectToml, content)
    }

    /// The name that the files of the project give. Each argument is the
    /// content of one file, where the file is there.
    pub fn detect_from_project_indicators(
        cargo_toml: Option<&str>,
        package_json: Option<&str>,
        go_mod: Option<&str>,
        pyproject_toml: Option<&str>,
    ) -> (name: Option<String>)
        ensures
            text_model(name) == project_name(
                str_model(cargo_toml),
                str_model(package_json),
                str_model(go_mod),
                str_model(pyproject_toml),
            ),
    {
        if let Some(content) = cargo_toml {
            if let Some(name) = Self::extract_name_from_cargo_toml(content) {
                return Some(name);
            }
        }
        if let Some(content) = package_json {
            if let Some(name) = Self::extract_name_from_package_json(content) {
                return Some(name);
            }
        }
        if let Some(content) = go_mod {
            if let Some(name) = Self::extract_name_from_go_mod(content) {
                return Some(name);
            }
        }
        if let Some(content) = pyproject_toml {
            if let Some(name) = Self::extract_name_from_pyproject_toml(content) {
                return Some(name);
            }
        }
        None
    }

    /// Whether `name` can be the name of a service.
    pub fn is_valid_service_name(&self, name: &str) -> (valid: bool)
        ensures
            valid == is_valid_name(name@),
    {
        let bytes = name.as_bytes().len();
        !name.is_empty() && !str_eq(name, "unknown-service") && !str_eq(name, "app") && !str_eq(
            name,
            "project",
        ) && bytes >= 2 && bytes <= 50
    }

    /// The name that the answer to the question gives.
    pub fn service_name_from_response(response: &str) -> (name: String)
        ensures
            name@ == answered_name(response@),
    {
        let answer = trim(response);
        let list = lines(answer.as_str());
        let first = if list.len() > 0 {
            proof {
                assert(views(list@)[0] == list@[0]@);
            }
            list[0].clone()
        } else {
            "unknown-service".to_string()
        };
        let unquoted = strip(trim(first.as_str()).as_str(), CharClass::Only('"'));
        let name = strip(unquoted.as_str(), CharClass::Only('\''));
        if name.as_str().is_empty() {
            "unknown-service".to_string()
        } else {
            name
        }
    }

    /// What the question says of the directory: its first ten entries.
    pub fn directory_listing(names: &Vec<String>) -> (text: String)
        ensures
            text@ == listing(views(names@)),
    {
        let mut text = "Directory contents:\n".to_string();
        let limit: usize = if names.len() < 10 {
            names.len()
        } else {
            10
        };
        proof {
            assert(text@ + entry_lines(views(names@), 0) =~= text@);
        }
        let mut i: usize = 0;
        while i < limit
            invariant
                i <= limit <= names.len(),
                text@ == "Directory contents:\n"@ + entry_lines(views(names@), i as int),
            decreases limit - i,
        {
            proof {
                assert(views(names@)[i as int] == names@[i as int]@);
                assert("Directory contents:\n"@ + entry_lines(views(names@), i + 1) =~= text@
                    + "  - "@ + names@[i as int]@ + "\n"@);
            }
            text.append("  - ");
            text.append(names[i].as_str());
            text.append("\n");
            i += 1;
        }
        text
    }
}

} // verus!
