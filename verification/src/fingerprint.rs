//! The fingerprint of a project: what kind of project it is and what it
//! depends on.

use crate::text::{chars_of, contains, contains_text, copy_str, find, find_from, has_prefix,
    lemma_find_from, lines, lines_of, push_str, rows, slice_of, starts_with, str_eq, string_of,
    strip, stripped, trim, trimmed};
use vstd::prelude::*;

verus! {

/// The kind of a project.
#[derive(Debug, Clone, Copy, PartialEq, Eq)]
pub enum ProjectType {
    RustCli,
    RustLib,
    RustWeb,
    NodeJs,
    TypeScript,
    Python,
    PythonMl,
    NextJs,
    React,
    Unknown,
}

/// One thing a project depends on.
#[derive(Debug, Clone, PartialEq)]
pub struct Dependency {
    pub name: String,
    pub version: Option<String>,
}

/// What is known of a project.
#[derive(Debug, Clone, PartialEq)]
pub struct ProjectFingerprint {
    pub project_type: ProjectType,
    pub tech_stack: Vec<String>,
    pub dependencies: Vec<Dependency>,
}

/// The mathematical value of a [`Dependency`].
pub struct DependencyV {
    pub name: Seq<char>,
    pub version: Option<Seq<char>>,
}

impl View for Dependency {
    type V = DependencyV;

    open spec fn view(&self) -> DependencyV {
        DependencyV {
            name: self.name@,
            version: match self.version {
                Some(v) => Some(v@),
                None => None,
            },
        }
    }
}

/// The values of a list of dependencies.
pub open spec fn dependency_views(deps: Seq<Dependency>) -> Seq<DependencyV> {
    deps.map_values(|d: Dependency| d@)
}

/// Whether a line of a Rust manifest opens a table of dependencies.
pub open spec fn opens_dependencies(line: Seq<char>) -> bool {
    has_prefix(line, "[dependencies]"@) || has_prefix(line, "[dev-dependencies]"@)
}

/// The dependency that a line of a table of dependencies names, if the line
/// holds an equals sign: the name before the first one, trimmed, and the
/// version behind it, trimmed and without the quotes around it.
pub open spec fn cargo_dependency(line: Seq<char>) -> Option<DependencyV> {
    match find_from(line, "="@, 0) {
        Some(eq) => Some(
            DependencyV {
                name: trimmed(line.subrange(0, eq)),
                version: Some(
                    stripped(trimmed(line.subrange(eq + 1, line.len() as int)), '"', '"'),
                ),
            },
        ),
        None => None,
    }
}

/// The dependencies that the lines of a Rust manifest from index `i` on
/// name, where `inside` says whether the line before lay in a table of
/// dependencies. Such a table runs from its heading to the next heading.
pub open spec fn cargo_deps_from(lines: Seq<Seq<char>>, i: int, inside: bool) -> Seq<DependencyV>
    decreases lines.len() - i,
{
    if i < 0 || i >= lines.len() {
        seq![]
    } else if opens_dependencies(lines[i]) {
        cargo_deps_from(lines, i + 1, true)
    } else {
        let still = inside && !has_prefix(lines[i], "["@);
        match cargo_dependency(lines[i]) {
            Some(d) => if still {
                seq![d] + cargo_deps_from(lines, i + 1, still)
            } else {
                cargo_deps_from(lines, i + 1, still)
            },
            None => cargo_deps_from(lines, i + 1, still),
        }
    }
}

/// Whether a character begins the version of a requirement.
pub open spec fn is_version_mark(c: char) -> bool {
    c == '=' || c == '>' || c == '<'
}

/// The index of the first version mark at or after `i`, or the length of
/// the line.
pub open spec fn first_mark(line: Seq<char>, i: int) -> int
    decreases line.len() - i,
{
    if 0 <= i < line.len() && !is_version_mark(line[i]) {
        first_mark(line, i + 1)
    } else {
        i
    }
}

/// The dependency that a line of a requirements file names: the name before
/// the first version mark, trimmed; and, where there is a mark, the version
/// behind it, without the equals signs and blanks around it.
pub open spec fn requirement(line: Seq<char>) -> DependencyV {
    let mark = first_mark(line, 0);
    DependencyV {
        name: trimmed(line.subrange(0, mark)),
        version: if mark < line.len() {
            Some(stripped(line.subrange(mark + 1, line.len() as int), '=', ' '))
        } else {
            None
        },
    }
}

/// Whether a line of a requirements file names a dependency: it is not
/// blank and does not begin with `#`.
pub open spec fn is_requirement(line: Seq<char>) -> bool {
    trimmed(line).len() > 0 && !has_prefix(line, "#"@)
}

/// The dependencies that the lines of a requirements file from index `i` on
/// name.
pub open spec fn requirements_from(lines: Seq<Seq<char>>, i: int) -> Seq<DependencyV>
    decreases lines.len() - i,
{
    if i < 0 || i >= lines.len() {
        seq![]
    } else if is_requirement(lines[i]) {
        seq![requirement(lines[i])] + requirements_from(lines, i + 1)
    } else {
        requirements_from(lines, i + 1)
    }
}

/// The names of a list of dependencies.
pub open spec fn names_of(deps: Seq<Dependency>) -> Seq<Seq<char>> {
    deps.map_values(|d: Dependency| d.name@)
}

/// The kind of a Rust project, by its manifest: a web application where
/// the manifest names a web framework, a library where it has a `[lib]`
/// section, else a command-line application.
pub open spec fn rust_kind(manifest: Seq<char>) -> ProjectType {
    if contains_text(manifest, "actix"@) || contains_text(manifest, "axum"@) || contains_text(
        manifest,
        "warp"@,
    ) {
        ProjectType::RustWeb
    } else if contains_text(manifest, "[lib]"@) {
        ProjectType::RustLib
    } else {
        ProjectType::RustCli
    }
}

/// Whether a name is that of a library for machine learning.
pub open spec fn is_ml_library(name: Seq<char>) -> bool {
    ||| name == "torch"@
    ||| name == "tensorflow"@
    ||| name == "sklearn"@
    ||| name == "numpy"@
    ||| name == "pandas"@
    ||| name == "keras"@
}

/// The kind of a Python project: one for machine learning where it depends
/// on a library for that.
pub open spec fn python_kind(names: Seq<Seq<char>>) -> ProjectType {
    if exists|i: int| 0 <= i < names.len() && is_ml_library(#[trigger] names[i]) {
        ProjectType::PythonMl
    } else {
        ProjectType::Python
    }
}

/// The advice that goes with a kind of project.
pub open spec fn prompt_for(kind: ProjectType) -> Seq<char> {
    match kind {
        ProjectType::RustCli => "This is a Rust CLI application. Use idiomatic Rust patterns, prefer clap for arg parsing, and ensure proper error handling with anyhow or thiserror."@,
        ProjectType::RustLib => "This is a Rust library. Focus on clean public APIs, comprehensive documentation, and avoid unnecessary dependencies."@,
        ProjectType::RustWeb => "This is a Rust web application. Use async patterns, implement proper middleware, and follow RESTful conventions."@,
        ProjectType::NextJs => "This is a Next.js application. Use App Router patterns, Server Components where appropriate, and follow React best practices."@,
        ProjectType::React => "This is a React application. Use functional components with hooks, implement proper state management, and ensure accessibility."@,
        ProjectType::TypeScript => "This is a TypeScript project. Ensure strict type safety, use interfaces for data shapes, and avoid 'any' types."@,
        ProjectType::NodeJs => "This is a Node.js project. Use modern ES modules, handle async operations properly, and implement robust error handling."@,
        ProjectType::Python => "This is a Python project. Follow PEP 8, use type hints, and prefer dataclasses or Pydantic for data modeling."@,
        ProjectType::PythonMl => "This is a Python ML project. Use numpy/pandas efficiently, implement proper data validation, and document model assumptions."@,
        ProjectType::Unknown => "No specific project type detected. Apply general software engineering best practices."@,
    }
}

/// The texts from index `i` on up to `end`, each but the first with `, `
/// before it.
pub open spec fn listed(names: Seq<Seq<char>>, i: int, end: int) -> Seq<char>
    decreases end - i,
{
    if i < 0 || i >= end || end > names.len() {
        seq![]
    } else if i == 0 {
        names[i] + listed(names, i + 1, end)
    } else {
        ", "@ + names[i] + listed(names, i + 1, end)
    }
}

/// The line that names the dependencies that matter most: the first ten;
/// empty where there are none.
pub open spec fn dependency_line(names: Seq<Seq<char>>) -> Seq<char> {
    if names.len() == 0 {
        Seq::empty()
    } else {
        "KEY DEPENDENCIES: "@ + listed(
            names,
            0,
            if names.len() < 10 {
                names.len() as int
            } else {
                10
            },
        )
    }
}

impl ProjectFingerprint {
    /// The kind of a Rust project, by the text of its manifest.
    pub fn detect_rust_type(cargo_content: &str) -> (out: ProjectType)
        ensures
            out == rust_kind(cargo_content@),
    {
        let m = chars_of(cargo_content);
        if contains(&m, &chars_of("actix")) || contains(&m, &chars_of("axum")) || contains(
            &m,
            &chars_of("warp"),
        ) {
            ProjectType::RustWeb
        } else if contains(&m, &chars_of("[lib]")) {
            ProjectType::RustLib
        } else {
            ProjectType::RustCli
        }
    }

    /// The dependencies that a Rust manifest names in its tables of
    /// dependencies, in order.
    pub fn parse_cargo_deps(content: &str) -> (out: Vec<Dependency>)
        ensures
            dependency_views(out@) == cargo_deps_from(lines_of(content@), 0, false),
    {
        let all = lines(&chars_of(content));
        let mut out: Vec<Dependency> = Vec::new();
        let mut inside = false;
        let mut i: usize = 0;
        proof {
            reveal_strlit("=");
            assert(dependency_views(out@) + cargo_deps_from(rows(all@), 0, false)
                =~= cargo_deps_from(rows(all@), 0, false));
        }
        while i < all.len()
            invariant
                i <= all.len(),
                "="@.len() == 1,
                cargo_deps_from(rows(all@), 0, false) == dependency_views(out@) + cargo_deps_from(
                    rows(all@),
                    i as int,
                    inside,
                ),
            decreases all.len() - i,
        {
            let line = &all[i];
            assert(rows(all@)[i as int] == line@);
            if starts_with(line, &chars_of("[dependencies]")) || starts_with(
                line,
                &chars_of("[dev-dependencies]"),
            ) {
                inside = true;
            } else {
                if starts_with(line, &chars_of("[")) {
                    inside = false;
                }
                proof {
                    lemma_find_from(line@, "="@, 0);
                }
                match find(line, &chars_of("="), 0) {
                    Some(eq) => {
                        if inside {
                            let name = trim(&slice_of(line, 0, eq));
                            let version = strip(&trim(&slice_of(line, eq + 1, line.len())), '"', '"');
                            let d = Dependency {
                                name: string_of(&name),
                                version: Some(string_of(&version)),
                            };
                            let ghost before = dependency_views(out@);
                            out.push(d);
                            assert(dependency_views(out@) =~= before.push(d@));
                            assert(before + (seq![d@] + cargo_deps_from(
                                rows(all@),
                                i + 1,
                                inside,
                            )) =~= before.push(d@) + cargo_deps_from(rows(all@), i + 1, inside));
                        }
                    },
                    None => {},
                }
            }
            i += 1;
        }
        assert(dependency_views(out@) + Seq::<DependencyV>::empty() =~= dependency_views(out@));
        out
    }

    /// The dependencies that a requirements file names, in order.
    pub fn parse_requirements(content: &str) -> (out: Vec<Dependency>)
        ensures
            dependency_views(out@) == requirements_from(lines_of(content@), 0),
    {
        let all = lines(&chars_of(content));
        let mut out: Vec<Dependency> = Vec::new();
        let mut i: usize = 0;
        assert(dependency_views(out@) + requirements_from(rows(all@), 0) =~= requirements_from(
            rows(all@),
            0,
        ));
        while i < all.len()
            invariant
                i <= all.len(),
                requirements_from(rows(all@), 0) == dependency_views(out@) + requirements_from(
                    rows(all@),
                    i as int,
                ),
            decreases all.len() - i,
        {
            let line = &all[i];
            assert(rows(all@)[i as int] == line@);
            if trim(line).len() > 0 && !starts_with(line, &chars_of("#")) {
                let mut mark: usize = 0;
                while mark < line.len() && !(line[mark] == '=' || line[mark] == '>' || line[mark]
                    == '<')
                    invariant
                        mark <= line.len(),
                        first_mark(line@, 0) == first_mark(line@, mark as int),
                    decreases line.len() - mark,
                {
                    mark += 1;
                }
                let name = trim(&slice_of(line, 0, mark));
                let version = if mark < line.len() {
                    Some(string_of(&strip(&slice_of(line, mark + 1, line.len()), '=', ' ')))
                } else {
                    None
                };
                let d = Dependency { name: string_of(&name), version };
                assert(d@ == requirement(line@));
                let ghost before = dependency_views(out@);
                out.push(d);
                assert(dependency_views(out@) =~= before.push(d@));
                assert(before + (seq![d@] + requirements_from(rows(all@), i + 1))
                    =~= before.push(d@) + requirements_from(rows(all@), i + 1));
            }
            i += 1;
        }
        assert(dependency_views(out@) + Seq::<DependencyV>::empty() =~= dependency_views(out@));
        out
    }

    /// The kind of a Python project, by what it depends on.
    pub fn detect_python_type(deps: &Vec<Dependency>) -> (out: ProjectType)
        ensures
            out == python_kind(names_of(deps@)),
    {
        let mut i: usize = 0;
        while i < deps.len()
            invariant
                i <= deps.len(),
                forall|k: int| 0 <= k < i ==> !is_ml_library(#[trigger] names_of(deps@)[k]),
            decreases deps.len() - i,
        {
            let n = deps[i].name.as_str();
            assert(names_of(deps@)[i as int] == n@);
            if str_eq(n, "torch") || str_eq(n, "tensorflow") || str_eq(n, "sklearn") || str_eq(
                n,
                "numpy",
            ) || str_eq(n, "pandas") || str_eq(n, "keras") {
                return ProjectType::PythonMl;
            }
            i += 1;
        }
        ProjectType::Python
    }

    /// The advice that goes with the kind of this project.
    pub fn specialized_prompt(&self) -> (out: String)
        ensures
            out@ == prompt_for(self.project_type),
    {
        match self.project_type {
            ProjectType::RustCli => copy_str("This is a Rust CLI application. Use idiomatic Rust patterns, prefer clap for arg parsing, and ensure proper error handling with anyhow or thiserror."),
            ProjectType::RustLib => copy_str("This is a Rust library. Focus on clean public APIs, comprehensive documentation, and avoid unnecessary dependencies."),
            ProjectType::RustWeb => copy_str("This is a Rust web application. Use async patterns, implement proper middleware, and follow RESTful conventions."),
            ProjectType::NextJs => copy_str("This is a Next.js application. Use App Router patterns, Server Components where appropriate, and follow React best practices."),
            ProjectType::React => copy_str("This is a React application. Use functional components with hooks, implement proper state management, and ensure accessibility."),
            ProjectType::TypeScript => copy_str("This is a TypeScript project. Ensure strict type safety, use interfaces for data shapes, and avoid 'any' types."),
            ProjectType::NodeJs => copy_str("This is a Node.js project. Use modern ES modules, handle async operations properly, and implement robust error handling."),
            ProjectType::Python => copy_str("This is a Python project. Follow PEP 8, use type hints, and prefer dataclasses or Pydantic for data modeling."),
            ProjectType::PythonMl => copy_str("This is a Python ML project. Use numpy/pandas efficiently, implement proper data validation, and document model assumptions."),
            ProjectType::Unknown => copy_str("No specific project type detected. Apply general software engineering best practices."),
        }
    }

    /// The line that names the dependencies that matter most.
    pub fn dependency_context(&self) -> (out: String)
        ensures
            out@ == dependency_line(names_of(self.dependencies@)),
    {
        if self.dependencies.len() == 0 {
            return String::new();
        }
        let ghost names = names_of(self.dependencies@);
        let end: usize = if self.dependencies.len() < 10 {
            self.dependencies.len()
        } else {
            10
        };
        let mut buf: Vec<char> = Vec::new();
        let mut i: usize = 0;
        assert(buf@ + listed(names, 0, end as int) =~= listed(names, 0, end as int));
        while i < end
            invariant
                i <= end <= self.dependencies.len(),
                names == names_of(self.dependencies@),
                listed(names, 0, end as int) == buf@ + listed(names, i as int, end as int),
            decreases end - i,
        {
            let ghost before = buf@;
            assert(names[i as int] == self.dependencies@[i as int].name@);
            if i > 0 {
                push_str(&mut buf, ", ");
            }
            push_str(&mut buf, self.dependencies[i].name.as_str());
            assert(before + listed(names, i as int, end as int) =~= buf@ + listed(
                names,
                i + 1,
                end as int,
            ));
            i += 1;
        }
        assert(buf@ + Seq::<char>::empty() =~= buf@);
        let mut out = chars_of("KEY DEPENDENCIES: ");
        crate::text::push_all(&mut out, &buf);
        string_of(&out)
    }
}

} // verus!
