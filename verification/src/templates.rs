//! The ESP-IDF project template: where it is fetched from and what the
//! patcher has to know of it.

use crate::descriptor::lines_of;
use crate::language::ProgrammingLanguage;
use crate::patcher::{
    lemma_standard_declared, project_change, project_line, FileChange, LineEdit, PatchError,
    Template,
};
use vstd::prelude::*;

verus! {

/// URL to download the template from
pub const TEMPLATE_FILE: &'static str =
    "https://github.com/espressif/esp-idf-template/archive/refs/heads/master.zip";

/// IDF C template
pub const C_TEMPLATE: &'static str = r#"#include <stdio.h>
#include "freertos/FreeRTOS.h"
#include "freertos/task.h"


void app_main(void)
{
    // TODO Insert code
}
"#;

/// IDF C++ template, it requires extern "C" due to link requirements
pub const CPP_TEMPLATE: &'static str = r#"#include <stdio.h>
#include "freertos/FreeRTOS.h"
#include "freertos/task.h"


extern "C" void app_main(void)
{
    // TODO Insert code
}
"#;

/// Whether `template` is the IDF template: the main source is
/// `main/main.c` or `main/main.cpp`, line 4 of the component's descriptor
/// names the C++ source, and line 4 of the project's descriptor declares the
/// language standard.
pub open spec fn is_idf_template(template: Template) -> bool {
    &&& template.c_source@ == "main/main.c"@
    &&& template.cpp_source@ == "main/main.cpp"@
    &&& template.c_body@ == C_TEMPLATE@
    &&& template.cpp_body@ == CPP_TEMPLATE@
    &&& template.component_descriptor@ == "main/CMakeLists.txt"@
    &&& template.component_edit.index == 4
    &&& template.component_edit.text@ == "set(COMPONENT_SRCS \"main.cpp\")"@
    &&& template.project_descriptor@ == "CMakeLists.txt"@
    &&& template.standard_line == 4
}

/// The IDF template is well formed.
pub proof fn lemma_idf_template_well_formed(template: Template)
    requires
        is_idf_template(template),
    ensures
        template.well_formed(),
{
    reveal_strlit("set(COMPONENT_SRCS \"main.cpp\")");
}

/// What the patcher has to know of the IDF template.
pub fn idf_template() -> (template: Template)
    ensures
        is_idf_template(template),
        template.well_formed(),
{
    let template = Template {
        c_source: "main/main.c".to_owned(),
        cpp_source: "main/main.cpp".to_owned(),
        c_body: C_TEMPLATE.to_owned(),
        cpp_body: CPP_TEMPLATE.to_owned(),
        component_descriptor: "main/CMakeLists.txt".to_owned(),
        component_edit: LineEdit { index: 4, text: "set(COMPONENT_SRCS \"main.cpp\")".to_owned() },
        project_descriptor: "CMakeLists.txt".to_owned(),
        standard_line: 4,
    };
    proof {
        lemma_idf_template_well_formed(template);
    }
    template
}

/// A project descriptor of five lines or more is patched with the IDF
/// template for every language and every name of the project, and one line
/// of it is rewritten: line 4 of the new descriptor declares the language
/// standard, every other line stands where it stood, and lines are only
/// added after them. Where the name of the project is a line, one line is
/// added, and it names the project.
pub proof fn lemma_idf_project_descriptor(
    directory: Seq<char>,
    language: ProgrammingLanguage,
    project_name: Seq<char>,
    template: Template,
    text: Seq<char>,
)
    requires
        is_idf_template(template),
        lines_of(text).len() >= 5,
    ensures
        ({
            &&& project_change(
                directory,
                language.directive(),
                project_name,
                template,
                Some(text),
            ) matches Ok(FileChange::Write { path, content })
            &&& lines_of(content).len() > lines_of(text).len()
            &&& lines_of(content)[4] == language.directive()
            &&& forall|i: int|
                0 <= i < lines_of(text).len() && i != 4 ==> lines_of(content)[i] == lines_of(
                    text,
                )[i]
            &&& !project_name.contains('\n') ==> lines_of(content).len() == lines_of(text).len()
                + 1 && lines_of(content).last() == project_line(project_name)
        }),
{
    lemma_standard_declared(directory, language, project_name, template, text);
}

/// A project descriptor of four lines or fewer, or one that cannot be read,
/// is malformed for the IDF template.
pub proof fn lemma_idf_short_descriptor(
    directory: Seq<char>,
    directive: Seq<char>,
    project_name: Seq<char>,
    template: Template,
    content: Option<Seq<char>>,
)
    requires
        is_idf_template(template),
        content matches Some(text) ==> lines_of(text).len() <= 4,
    ensures
        project_change(directory, directive, project_name, template, content) == Err::<
            FileChange,
            PatchError,
        >(PatchError::MalformedDescriptor),
{
}

} // verus!
