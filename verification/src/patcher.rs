//! The variant patcher: which generated files change for the chosen language.
//!
//! The patcher reads nothing and writes nothing. It is told what was found on
//! disk and answers with the file operations to carry out, in order.

use crate::descriptor::{content_of, lines_of, BuildDescriptor};
use crate::language::ProgrammingLanguage;
use crate::path::{join_path, join_paths};
use crate::text::{
    has_char, lemma_split_join, lemma_split_join_tail, lemma_split_nonempty,
    lemma_split_pieces_free, str_of, text_of,
};
use vstd::prelude::*;
use vstd::string::*;

verus! {

/// Why a project could not be patched.
#[derive(Debug, Clone, PartialEq, Eq)]
pub enum PatchError {
    /// The main source file is not where the template puts it.
    MissingSource,
    /// A build descriptor has no line at the position that is to be
    /// replaced, or the project's descriptor could not be read at all.
    MalformedDescriptor,
    /// A file could not be written.
    WriteFailed { path: String },
}

/// A line of a build descriptor that is to be replaced.
#[derive(Debug, Clone, PartialEq, Eq)]
pub struct LineEdit {
    /// The position of the line, counted from 0.
    pub index: usize,
    /// The new line.
    pub text: String,
}

/// What the patcher has to know of the template a project is made from.
#[derive(Debug, Clone, PartialEq, Eq)]
pub struct Template {
    /// The main source file of a C project, seen from the project directory.
    pub c_source: String,
    /// The main source file of a C++ project.
    pub cpp_source: String,
    /// What the main source file of a C project holds.
    pub c_body: String,
    /// What the main source file of a C++ project holds.
    pub cpp_body: String,
    /// The build descriptor of the component the main source belongs to.
    pub component_descriptor: String,
    /// The line of the component's descriptor that names the main source
    /// of a C++ project.
    pub component_edit: LineEdit,
    /// The build descriptor of the project.
    pub project_descriptor: String,
    /// The position of the one line of the project's descriptor that is
    /// rewritten: the line that declares the language standard.
    pub standard_line: usize,
}

/// One change to the files of a project.
#[derive(Debug, Clone, PartialEq, Eq)]
pub enum FileOp {
    /// Write `content` to `path`, replacing what is there.
    Write { path: String, content: String },
    /// Delete the file at `path`.
    Remove { path: String },
}

/// A file operation, as texts.
pub enum FileChange {
    Write { path: Seq<char>, content: Seq<char> },
    Remove { path: Seq<char> },
}

impl View for FileOp {
    type V = FileChange;

    open spec fn view(&self) -> FileChange {
        match self {
            FileOp::Write { path, content } => FileChange::Write {
                path: path@,
                content: content@,
            },
            FileOp::Remove { path } => FileChange::Remove { path: path@ },
        }
    }
}

/// The path a change is made at.
pub open spec fn change_path(change: FileChange) -> Seq<char> {
    match change {
        FileChange::Write { path, .. } => path,
        FileChange::Remove { path } => path,
    }
}

impl FileOp {
    /// The path the operation is made at.
    pub fn path(&self) -> (path: &str)
        ensures
            path@ == change_path(self@),
    {
        match self {
            FileOp::Write { path, .. } => path.as_str(),
            FileOp::Remove { path } => path.as_str(),
        }
    }

    /// The error to report where the operation could not be carried out: it
    /// names the path of the operation.
    pub fn failed(&self) -> (error: PatchError)
        ensures
            error matches PatchError::WriteFailed { path } && path@ == change_path(self@),
    {
        PatchError::WriteFailed { path: self.path().to_owned() }
    }
}

/// The changes that a list of file operations stands for.
pub open spec fn changes(ops: Seq<FileOp>) -> Seq<FileChange> {
    Seq::new(ops.len(), |i: int| ops[i]@)
}

/// The line that names the project.
pub open spec fn project_line(name: Seq<char>) -> Seq<char> {
    "project("@ + name + ")"@
}

/// The changes to the main source file: a C project has the C body written
/// over the file; a C++ project loses the file and gets the C++ body in a
/// file of its own.
pub open spec fn main_source_changes(
    directory: Seq<char>,
    language: ProgrammingLanguage,
    template: Template,
) -> Seq<FileChange> {
    if language == ProgrammingLanguage::C {
        seq![
            FileChange::Write {
                path: join_path(directory, template.c_source@),
                content: template.c_body@,
            },
        ]
    } else {
        seq![
            FileChange::Remove { path: join_path(directory, template.c_source@) },
            FileChange::Write {
                path: join_path(directory, template.cpp_source@),
                content: template.cpp_body@,
            },
        ]
    }
}

/// The change to the component's descriptor.
///
/// A C project leaves the descriptor alone, and so does a project that has
/// no such descriptor: there is no line to rewrite then. In the descriptor
/// of a C++ project the template's line is replaced; a descriptor that is
/// too short to have that line is malformed.
pub open spec fn component_change(
    directory: Seq<char>,
    language: ProgrammingLanguage,
    template: Template,
    content: Option<Seq<char>>,
) -> Result<Seq<FileChange>, PatchError> {
    if language == ProgrammingLanguage::C {
        Ok(Seq::<FileChange>::empty())
    } else {
        match content {
            Some(text) => if template.component_edit.index < lines_of(text).len() {
                Ok(
                    seq![
                        FileChange::Write {
                            path: join_path(directory, template.component_descriptor@),
                            content: content_of(
                                lines_of(text).update(
                                    template.component_edit.index as int,
                                    template.component_edit.text@,
                                ),
                            ),
                        },
                    ],
                )
            } else {
                Err(PatchError::MalformedDescriptor)
            },
            None => Ok(Seq::<FileChange>::empty()),
        }
    }
}

/// The changes to the main source file and to the descriptor of its
/// component, in this order. Where the main source is missing or the
/// descriptor is malformed there is an error, and no change at all.
pub open spec fn main_file_changes(
    directory: Seq<char>,
    language: ProgrammingLanguage,
    template: Template,
    source_present: bool,
    component: Option<Seq<char>>,
) -> Result<Seq<FileChange>, PatchError> {
    if !source_present {
        Err(PatchError::MissingSource)
    } else {
        match component_change(directory, language, template, component) {
            Ok(rewritten) => Ok(main_source_changes(directory, language, template) + rewritten),
            Err(error) => Err(error),
        }
    }
}

/// The change to the project's descriptor: the one line at the template's
/// position is rewritten to declare the language standard, every other line
/// stays as it is, and one new last line names the project. The descriptor
/// is malformed where it is missing or too short to have the line that
/// declares the standard.
pub open spec fn project_change(
    directory: Seq<char>,
    directive: Seq<char>,
    project_name: Seq<char>,
    template: Template,
    content: Option<Seq<char>>,
) -> Result<FileChange, PatchError> {
    match content {
        Some(text) => if template.standard_line < lines_of(text).len() {
            Ok(
                FileChange::Write {
                    path: join_path(directory, template.project_descriptor@),
                    content: content_of(
                        lines_of(text).update(template.standard_line as int, directive).push(
                            project_line(project_name),
                        ),
                    ),
                },
            )
        } else {
            Err(PatchError::MalformedDescriptor)
        },
        None => Err(PatchError::MalformedDescriptor),
    }
}

/// Decides what becomes of the descriptor of the component.
///
/// `content` is what the descriptor holds, or `None` where the project has
/// no such descriptor. A C project leaves the descriptor alone, whatever it
/// holds.
pub fn rewrite_component_descriptor(
    directory: &str,
    language: ProgrammingLanguage,
    template: &Template,
    content: Option<&str>,
) -> (plan: Result<Vec<FileOp>, PatchError>)
    requires
        language != ProgrammingLanguage::Unknown,
    ensures
        match plan {
            Ok(ops) => component_change(
                directory@,
                language,
                *template,
                str_of(content),
            ) == Ok::<Seq<FileChange>, PatchError>(changes(ops@)),
            Err(error) => component_change(directory@, language, *template, str_of(content))
                == Err::<Seq<FileChange>, PatchError>(error),
        },
{
    let mut ops: Vec<FileOp> = Vec::new();
    assert(changes(ops@) =~= Seq::<FileChange>::empty());
    if !language.uses_cpp() {
        return Ok(ops);
    }
    match content {
        Some(text) => {
            let mut descriptor = BuildDescriptor::parse(text);
            if !descriptor.replace_line(
                template.component_edit.index,
                template.component_edit.text.as_str(),
            ) {
                return Err(PatchError::MalformedDescriptor);
            }
            ops.push(
                FileOp::Write {
                    path: join_paths(directory, template.component_descriptor.as_str()),
                    content: descriptor.render(),
                },
            );
            assert(changes(ops@) =~= component_change(
                directory@,
                language,
                *template,
                str_of(content),
            )->Ok_0);
            Ok(ops)
        },
        None => Ok(ops),
    }
}

/// Decides what becomes of the main source file and of the descriptor of
/// its component.
///
/// `source_present` tells whether the C main source of the template was
/// found in `directory`, and `component_descriptor` is what the component's
/// descriptor holds, or `None` where the project has none. Either every
/// change is answered, or an error and no change: `MissingSource` where the
/// main source was not found, else `MalformedDescriptor` where a C++ project
/// has a component descriptor without the line that is to be replaced.
pub fn replace_main_file(
    directory: &str,
    language: ProgrammingLanguage,
    template: &Template,
    source_present: bool,
    component_descriptor: Option<&str>,
) -> (plan: Result<Vec<FileOp>, PatchError>)
    requires
        language != ProgrammingLanguage::Unknown,
    ensures
        match plan {
            Ok(ops) => main_file_changes(
                directory@,
                language,
                *template,
                source_present,
                str_of(component_descriptor),
            ) == Ok::<Seq<FileChange>, PatchError>(changes(ops@)),
            Err(error) => main_file_changes(
                directory@,
                language,
                *template,
                source_present,
                str_of(component_descriptor),
            ) == Err::<Seq<FileChange>, PatchError>(error),
        },
{
    if !source_present {
        return Err(PatchError::MissingSource);
    }
    let mut rewritten = match rewrite_component_descriptor(
        directory,
        language,
        template,
        component_descriptor,
    ) {
        Ok(ops) => ops,
        Err(error) => {
            return Err(error);
        },
    };
    let c_file = join_paths(directory, template.c_source.as_str());
    let mut ops: Vec<FileOp> = Vec::new();
    if language.uses_cpp() {
        ops.push(FileOp::Remove { path: c_file });
        ops.push(
            FileOp::Write {
                path: join_paths(directory, template.cpp_source.as_str()),
                content: template.cpp_body.clone(),
            },
        );
    } else {
        ops.push(FileOp::Write { path: c_file, content: template.c_body.clone() });
    }
    assert(changes(ops@) =~= main_source_changes(directory@, language, *template));
    let ghost main_source = changes(ops@);
    let ghost component = changes(rewritten@);
    ops.append(&mut rewritten);
    assert(changes(ops@) =~= main_source + component);
    Ok(ops)
}

/// Decides what becomes of the descriptor of the project.
///
/// `project_language` is the line that declares the language standard and
/// `content` what the descriptor holds, or `None` where it could not be read.
/// Either the whole new content is answered or an error: the content that
/// was handed in is never changed.
pub fn set_cmake_options(
    directory: &str,
    project_language: &str,
    project_name: &str,
    template: &Template,
    content: Option<&str>,
) -> (plan: Result<FileOp, PatchError>)
    ensures
        match plan {
            Ok(op) => project_change(
                directory@,
                project_language@,
                project_name@,
                *template,
                str_of(content),
            ) == Ok::<FileChange, PatchError>(op@),
            Err(error) => project_change(
                directory@,
                project_language@,
                project_name@,
                *template,
                str_of(content),
            ) == Err::<FileChange, PatchError>(error),
        },
{
    match content {
        Some(text) => {
            let mut descriptor = BuildDescriptor::parse(text);
            if !descriptor.replace_line(template.standard_line, project_language) {
                return Err(PatchError::MalformedDescriptor);
            }
            let mut last = "project(".to_owned();
            last.append(project_name);
            last.append(")");
            descriptor.push_line(last.as_str());
            Ok(
                FileOp::Write {
                    path: join_paths(directory, template.project_descriptor.as_str()),
                    content: descriptor.render(),
                },
            )
        },
        None => Err(PatchError::MalformedDescriptor),
    }
}

/// What was found of a project's files before it is patched.
#[derive(Debug, Clone, PartialEq, Eq)]
pub struct ProjectFiles {
    /// Whether the C main source of the template is there.
    pub source_present: bool,
    /// What the component's descriptor holds, if the project has one.
    pub component_descriptor: Option<String>,
    /// What the project's descriptor holds, if it could be read.
    pub project_descriptor: Option<String>,
}

/// All changes that patching a project makes, in order: the main source,
/// the component's descriptor, the project's descriptor. The first step that
/// cannot be taken gives its error, and then there is no change at all.
pub open spec fn patch_changes(
    destination: Seq<char>,
    variant: ProgrammingLanguage,
    project_name: Seq<char>,
    template: Template,
    files: ProjectFiles,
) -> Result<Seq<FileChange>, PatchError> {
    match main_file_changes(
        destination,
        variant,
        template,
        files.source_present,
        text_of(files.component_descriptor),
    ) {
        Err(error) => Err(error),
        Ok(main_file) => match project_change(
            destination,
            variant.directive(),
            project_name,
            template,
            text_of(files.project_descriptor),
        ) {
            Err(error) => Err(error),
            Ok(project) => Ok(main_file.push(project)),
        },
    }
}

/// Borrows the text of a string that may be missing.
fn borrow_text(content: &Option<String>) -> (text: Option<&str>)
    ensures
        str_of(text) == text_of(*content),
{
    match content {
        Some(owned) => Some(owned.as_str()),
        None => None,
    }
}

/// Plans the patching of the project in `destination` for `variant`.
///
/// Either every change is answered, in the order in which it is to be made,
/// or the error of the first step that cannot be taken. Nothing is to be
/// written in that case.
pub fn patch(
    destination: &str,
    variant: ProgrammingLanguage,
    project_name: &str,
    template: &Template,
    files: &ProjectFiles,
) -> (plan: Result<Vec<FileOp>, PatchError>)
    requires
        variant != ProgrammingLanguage::Unknown,
    ensures
        match plan {
            Ok(ops) => patch_changes(destination@, variant, project_name@, *template, *files)
                == Ok::<Seq<FileChange>, PatchError>(changes(ops@)),
            Err(error) => patch_changes(destination@, variant, project_name@, *template, *files)
                == Err::<Seq<FileChange>, PatchError>(error),
        },
{
    let mut ops = match replace_main_file(
        destination,
        variant,
        template,
        files.source_present,
        borrow_text(&files.component_descriptor),
    ) {
        Ok(ops) => ops,
        Err(error) => {
            return Err(error);
        },
    };
    let directive = match variant.standard_directive() {
        Some(line) => line,
        None => "",
    };
    let project = match set_cmake_options(
        destination,
        directive,
        project_name,
        template,
        borrow_text(&files.project_descriptor),
    ) {
        Ok(op) => op,
        Err(error) => {
            return Err(error);
        },
    };
    let ghost main_file = changes(ops@);
    ops.push(project);
    assert(changes(ops@) =~= main_file.push(project@));
    Ok(ops)
}

impl Template {
    /// Whether the line the template puts into the component's descriptor
    /// is a line: it holds no line break.
    pub open spec fn well_formed(&self) -> bool {
        !self.component_edit.text@.contains('\n')
    }

    /// Checks whether the template is well formed.
    pub fn validate(&self) -> (valid: bool)
        ensures
            valid == self.well_formed(),
    {
        !has_char(self.component_edit.text.as_str(), '\n')
    }
}

/// A C project keeps its main source file, which is given the C body, and
/// its component's descriptor is left alone, whatever it holds.
pub proof fn lemma_c_project(directory: Seq<char>, template: Template, content: Option<Seq<char>>)
    ensures
        main_source_changes(directory, ProgrammingLanguage::C, template) == seq![
            FileChange::Write {
                path: join_path(directory, template.c_source@),
                content: template.c_body@,
            },
        ],
        template.c_source@.is_suffix_of(join_path(directory, template.c_source@)),
        component_change(directory, ProgrammingLanguage::C, template, content) == Ok::<
            Seq<FileChange>,
            PatchError,
        >(Seq::empty()),
        main_file_changes(directory, ProgrammingLanguage::C, template, true, content) == Ok::<
            Seq<FileChange>,
            PatchError,
        >(main_source_changes(directory, ProgrammingLanguage::C, template)),
{
    assert(main_source_changes(directory, ProgrammingLanguage::C, template) + Seq::<
        FileChange,
    >::empty() =~= main_source_changes(directory, ProgrammingLanguage::C, template));
}

/// A C++ project loses the C main source and gets the C++ body in the C++
/// main source file.
pub proof fn lemma_cpp_project(
    directory: Seq<char>,
    language: ProgrammingLanguage,
    template: Template,
)
    requires
        language.is_cpp(),
    ensures
        main_source_changes(directory, language, template) == seq![
            FileChange::Remove { path: join_path(directory, template.c_source@) },
            FileChange::Write {
                path: join_path(directory, template.cpp_source@),
                content: template.cpp_body@,
            },
        ],
        template.cpp_source@.is_suffix_of(join_path(directory, template.cpp_source@)),
{
}

/// A project is patched as soon as its main source is there, its component
/// descriptor, if it has one, has the line that is to be replaced, and its
/// project descriptor has the line that declares the standard: nothing else
/// can make patching fail.
pub proof fn lemma_patch_succeeds(
    destination: Seq<char>,
    variant: ProgrammingLanguage,
    project_name: Seq<char>,
    template: Template,
    files: ProjectFiles,
)
    requires
        files.source_present,
        files.component_descriptor matches Some(component) ==> template.component_edit.index
            < lines_of(component@).len(),
        files.project_descriptor matches Some(project) && template.standard_line < lines_of(
            project@,
        ).len(),
    ensures
        patch_changes(destination, variant, project_name, template, files) is Ok,
{
}

/// The line that declares a language standard holds no line break.
pub proof fn lemma_directive_is_line(language: ProgrammingLanguage)
    ensures
        !language.directive().contains('\n'),
{
    reveal_strlit("set(CMAKE_CXX_STANDARD 11)");
    reveal_strlit("set(CMAKE_CXX_STANDARD 14)");
    reveal_strlit("set(CMAKE_CXX_STANDARD 17)");
    reveal_strlit("");
}

/// In the descriptor of a C++ project's component, the template's line
/// stands at the template's position, and no line was added or lost.
pub proof fn lemma_component_line_replaced(
    directory: Seq<char>,
    language: ProgrammingLanguage,
    template: Template,
    text: Seq<char>,
)
    requires
        language.is_cpp(),
        template.well_formed(),
        template.component_edit.index < lines_of(text).len(),
    ensures
        ({
            &&& component_change(directory, language, template, Some(text)) matches Ok(written)
            &&& written.len() == 1
            &&& written[0] matches FileChange::Write { path, content }
            &&& path == join_path(directory, template.component_descriptor@)
            &&& lines_of(content).len() == lines_of(text).len()
            &&& lines_of(content)[template.component_edit.index as int]
                == template.component_edit.text@
        }),
{
    let lines = lines_of(text);
    let index = template.component_edit.index as int;
    let new_lines = lines.update(index, template.component_edit.text@);
    lemma_split_pieces_free(text, '\n');
    assert forall|i: int| 0 <= i < new_lines.len() implies !(#[trigger] new_lines[i]).contains(
        '\n',
    ) by {}
    lemma_split_join(new_lines, '\n');
}

/// A project descriptor that has the line that declares the standard is
/// always patched, whatever the project is called, and only that line is
/// rewritten. Reading the new content back gives the old lines, with the
/// language standard at its position, followed by the line that names the
/// project (by its lines, should the name hold a line break).
pub proof fn lemma_project_lines(
    directory: Seq<char>,
    directive: Seq<char>,
    project_name: Seq<char>,
    template: Template,
    text: Seq<char>,
)
    requires
        !directive.contains('\n'),
        template.standard_line < lines_of(text).len(),
    ensures
        ({
            &&& project_change(directory, directive, project_name, template, Some(text))
                matches Ok(FileChange::Write { path, content })
            &&& path == join_path(directory, template.project_descriptor@)
            &&& lines_of(content) == lines_of(text).update(
                template.standard_line as int,
                directive,
            ) + lines_of(project_line(project_name))
            &&& lines_of(content).len() > lines_of(text).len()
            &&& lines_of(content)[template.standard_line as int] == directive
            &&& forall|i: int|
                0 <= i < lines_of(text).len() && i != template.standard_line ==> lines_of(
                    content,
                )[i] == lines_of(text)[i]
            &&& !project_name.contains('\n') ==> lines_of(content) == lines_of(text).update(
                template.standard_line as int,
                directive,
            ).push(project_line(project_name))
        }),
{
    let lines = lines_of(text);
    let position = template.standard_line as int;
    let declared = lines.update(position, directive);
    lemma_split_pieces_free(text, '\n');
    let last = project_line(project_name);
    let named = declared.push(last);
    assert(named.drop_last() =~= declared);
    assert forall|i: int| 0 <= i < named.len() - 1 implies !(#[trigger] named[i]).contains(
        '\n',
    ) by {
        if i != position {
            assert(named[i] == lines[i]);
        }
    }
    lemma_split_join_tail(named, '\n');
    lemma_split_nonempty(last, '\n');
    if !project_name.contains('\n') {
        reveal_strlit("project(");
        reveal_strlit(")");
        assert forall|k: int| 0 <= k < last.len() implies last[k] != '\n' by {}
        lemma_split_join(seq![last], '\n');
        assert(declared + seq![last] =~= declared.push(last));
    }
}

/// In the patched descriptor of a project the line at the template's
/// position declares the language standard, whatever the language and the
/// name of the project are, every other line stands where it stood, and
/// lines are only added after them. Where the name is a line, the one new
/// last line names the project.
pub proof fn lemma_standard_declared(
    directory: Seq<char>,
    language: ProgrammingLanguage,
    project_name: Seq<char>,
    template: Template,
    text: Seq<char>,
)
    requires
        template.standard_line < lines_of(text).len(),
    ensures
        ({
            &&& project_change(
                directory,
                language.directive(),
                project_name,
                template,
                Some(text),
            ) matches Ok(FileChange::Write { path, content })
            &&& path == join_path(directory, template.project_descriptor@)
            &&& lines_of(content).len() > lines_of(text).len()
            &&& lines_of(content)[template.standard_line as int] == language.directive()
            &&& forall|i: int|
                0 <= i < lines_of(text).len() && i != template.standard_line ==> lines_of(
                    content,
                )[i] == lines_of(text)[i]
            &&& !project_name.contains('\n') ==> lines_of(content).len() == lines_of(text).len()
                + 1 && lines_of(content).last() == project_line(project_name)
        }),
{
    lemma_directive_is_line(language);
    lemma_project_lines(directory, language.directive(), project_name, template, text);
}

/// A project descriptor that cannot be read, or that ends before the line
/// that declares the standard, is malformed, and nothing else is.
pub proof fn lemma_malformed_descriptor(
    directory: Seq<char>,
    directive: Seq<char>,
    project_name: Seq<char>,
    template: Template,
    content: Option<Seq<char>>,
)
    ensures
        project_change(directory, directive, project_name, template, content) is Err <==> (
        content matches Some(text) ==> lines_of(text).len() <= template.standard_line),
        project_change(directory, directive, project_name, template, content) matches Err(error)
            ==> error == PatchError::MalformedDescriptor,
{
}

} // verus!
