use std::collections::{BTreeMap, BTreeSet};
use std::io::{Cursor, Write};

use esp_scaffold::archive::{root_prefix, Archive};
use esp_scaffold::extractor::{extract_zip, ExtractStep, ExtractionPlan, Progress};
use esp_scaffold::guard::DestinationState;
use esp_scaffold::language::ProgrammingLanguage;
use esp_scaffold::orchestrator::{Action, Event, Failure, Orchestrator, RunState};
use esp_scaffold::patcher::{patch, FileOp, PatchError, ProjectFiles};
use esp_scaffold::templates::{idf_template, CPP_TEMPLATE, C_TEMPLATE};
use zip::write::{FileOptions, ZipWriter};

const PLACEHOLDER: &str = "void app_main(void) { }\n";
const PROJECT: &str = "# boilerplate\n# in this exact order\ncmake_minimum_required(VERSION 3.5)\n\ninclude($ENV{IDF_PATH}/tools/cmake/project.cmake)\nproject(app-template)\n";
const COMPONENT: &str = "# component\nset(COMPONENT_REQUIRES )\nset(COMPONENT_PRIV_REQUIRES )\n\nset(COMPONENT_SRCS \"main.c\")\nregister_component()\n";

/// Directories and files, by path, standing in for a disk.
struct Tree {
    directories: BTreeSet<String>,
    files: BTreeMap<String, Vec<u8>>,
    writes: usize,
}

impl Tree {
    fn new() -> Tree {
        Tree { directories: BTreeSet::new(), files: BTreeMap::new(), writes: 0 }
    }

    fn state_of(&self, path: &str) -> DestinationState {
        let inside = format!("{}/", path.trim_end_matches('/'));
        if !self.directories.contains(path) {
            DestinationState::Absent
        } else if self.files.keys().chain(self.directories.iter()).any(|p| p.starts_with(&inside)) {
            DestinationState::Occupied
        } else {
            DestinationState::Empty
        }
    }

    fn create_directories(&mut self, path: &str) {
        let path = path.trim_end_matches('/');
        let mut so_far = String::new();
        for segment in path.split('/') {
            if !so_far.is_empty() {
                so_far.push('/');
            }
            so_far.push_str(segment);
            self.directories.insert(so_far.clone());
        }
        self.writes += 1;
    }

    fn carry_out(&mut self, step: &ExtractStep) {
        match step {
            ExtractStep::CreateDirectory { path, .. } => self.create_directories(path),
            ExtractStep::WriteFile { path, content, .. } => {
                if let Some((parent, _)) = path.rsplit_once('/') {
                    self.create_directories(parent);
                }
                self.files.insert(path.clone(), content.clone());
                self.writes += 1;
            }
        }
    }

    fn apply(&mut self, op: &FileOp) {
        match op {
            FileOp::Write { path, content } => {
                self.files.insert(path.clone(), content.clone().into_bytes());
            }
            FileOp::Remove { path } => {
                self.files.remove(path);
            }
        }
        self.writes += 1;
    }

    fn text(&self, path: &str) -> Option<String> {
        self.files.get(path).map(|bytes| String::from_utf8(bytes.clone()).unwrap())
    }
}

/// The archive of the template: its root directory, the main source, the
/// project descriptor and, if asked for, the component descriptor.
fn template_archive(project: &str, with_component: bool) -> Vec<u8> {
    let mut writer = ZipWriter::new(Cursor::new(Vec::new()));
    writer.add_directory("tmpl-1.0/", FileOptions::default()).unwrap();
    let mut entries = vec![("tmpl-1.0/main/main.c", PLACEHOLDER)];
    if with_component {
        entries.push(("tmpl-1.0/main/CMakeLists.txt", COMPONENT));
    }
    entries.push(("tmpl-1.0/CMakeLists.txt", project));
    for (name, content) in entries {
        writer.start_file(name, FileOptions::default()).unwrap();
        writer.write_all(content.as_bytes()).unwrap();
    }
    writer.finish().unwrap().into_inner()
}

/// Carries out a plan in the tree, as far as the plan's policy lets it go.
fn carry_out_plan(tree: &mut Tree, plan: &ExtractionPlan) -> Progress {
    let mut progress = plan.begin();
    while let Progress::Step(position) = progress {
        tree.carry_out(&plan.steps[position]);
        progress = plan.after_step(position, Ok(()));
    }
    progress
}

fn found_in(tree: &Tree, destination: &str) -> ProjectFiles {
    ProjectFiles {
        source_present: tree.files.contains_key(&format!("{}/main/main.c", destination)),
        component_descriptor: tree.text(&format!("{}/main/CMakeLists.txt", destination)),
        project_descriptor: tree.text(&format!("{}/CMakeLists.txt", destination)),
    }
}

/// Runs the orchestrator to its end, doing in the tree what it asks for.
fn scaffold(
    tree: &mut Tree,
    destination: &str,
    index: usize,
    consent: bool,
    source: Vec<u8>,
) -> (RunState, Vec<Action>, Option<PatchError>) {
    let mut orchestrator = Orchestrator::new();
    let mut actions = Vec::new();
    let mut patch_error = None;
    while !orchestrator.is_finished() {
        let action = orchestrator.action();
        actions.push(action);
        let event = match action {
            Action::InspectDestination => Event::Inspected(tree.state_of(destination)),
            Action::CreateDestination => {
                tree.create_directories(destination);
                Event::Completed
            }
            Action::ConfirmReset => Event::Answered(consent),
            Action::ClearDestination => {
                let inside = format!("{}/", destination);
                tree.files.retain(|path, _| !path.starts_with(&inside));
                tree.directories.retain(|path| !path.starts_with(&inside));
                tree.writes += 1;
                Event::Completed
            }
            Action::Select => Event::Selected { index, init_vcs: false },
            Action::Fetch => Event::Completed,
            Action::Extract => match Archive::open(source.clone()) {
                Err(_) => Event::Failed(Failure::ArchiveCorrupt),
                Ok(mut archive) => match root_prefix(&mut archive) {
                    None => Event::Failed(Failure::ArchiveCorrupt),
                    Some(prefix) => {
                        let plan = extract_zip(destination, &mut archive, &prefix);
                        match carry_out_plan(tree, &plan) {
                            Progress::Done => Event::Completed,
                            Progress::Failed(_) => Event::Failed(Failure::ExtractFailed),
                            _ => Event::Failed(Failure::ArchiveCorrupt),
                        }
                    }
                },
            },
            Action::Patch(variant) => {
                assert_ne!(variant, ProgrammingLanguage::Unknown);
                match patch(destination, variant, destination, &idf_template(), &found_in(tree, destination)) {
                    Ok(ops) => {
                        for op in &ops {
                            tree.apply(op);
                        }
                        Event::Completed
                    }
                    Err(error) => {
                        patch_error = Some(error);
                        Event::Failed(Failure::PatchFailed)
                    }
                }
            }
            Action::InitVcs | Action::Finish => Event::Completed,
            Action::Stop => unreachable!(),
        };
        orchestrator.handle(event);
    }
    (orchestrator.state(), actions, patch_error)
}

#[test]
fn new_cpp11_project_in_a_missing_directory() {
    let mut tree = Tree::new();
    let (state, actions, _) = scaffold(&mut tree, "proj", 1, false, template_archive(PROJECT, false));
    assert_eq!(state, RunState::Done);
    assert_eq!(actions[0], Action::InspectDestination);
    assert_eq!(actions[1], Action::CreateDestination);
    assert!(tree.directories.contains("proj"));
    assert!(tree.directories.contains("proj/main"));
    assert_eq!(tree.text("proj/main/main.c"), None);
    assert_eq!(tree.text("proj/main/main.cpp"), Some(CPP_TEMPLATE.to_string()));
    let project = tree.text("proj/CMakeLists.txt").unwrap();
    assert_eq!(project.split('\n').nth(4), Some("set(CMAKE_CXX_STANDARD 11)"));
    assert_eq!(project.split('\n').last(), Some("project(proj)"));
    assert_eq!(tree.files.len(), 2);
}

#[test]
fn new_cpp11_project_with_a_component_descriptor() {
    let mut tree = Tree::new();
    let (state, _, _) = scaffold(&mut tree, "proj", 1, false, template_archive(PROJECT, true));
    assert_eq!(state, RunState::Done);
    assert_eq!(tree.text("proj/main/main.cpp"), Some(CPP_TEMPLATE.to_string()));
    let component = tree.text("proj/main/CMakeLists.txt").unwrap();
    assert_eq!(component.split('\n').nth(4), Some("set(COMPONENT_SRCS \"main.cpp\")"));
    let project = tree.text("proj/CMakeLists.txt").unwrap();
    assert_eq!(project.split('\n').nth(4), Some("set(CMAKE_CXX_STANDARD 11)"));
}

#[test]
fn project_descriptor_of_five_lines_is_enough() {
    let mut tree = Tree::new();
    let (state, _, _) =
        scaffold(&mut tree, "proj", 3, false, template_archive("a\nb\nc\nd\ne", false));
    assert_eq!(state, RunState::Done);
    let project = tree.text("proj/CMakeLists.txt").unwrap();
    assert_eq!(project.split('\n').nth(4), Some("set(CMAKE_CXX_STANDARD 17)"));
}

#[test]
fn extraction_keeps_the_content_of_the_archive() {
    let mut tree = Tree::new();
    tree.create_directories("proj");
    let mut archive = Archive::open(template_archive(PROJECT, true)).unwrap();
    let prefix = root_prefix(&mut archive).unwrap();
    assert_eq!(prefix, "tmpl-1.0/");
    let plan = extract_zip("proj", &mut archive, &prefix);
    assert_eq!(carry_out_plan(&mut tree, &plan), Progress::Done);
    assert_eq!(tree.text("proj/main/main.c"), Some(PLACEHOLDER.to_string()));
    assert_eq!(tree.text("proj/CMakeLists.txt"), Some(PROJECT.to_string()));
    assert_eq!(tree.text("proj/main/CMakeLists.txt"), Some(COMPONENT.to_string()));
    assert!(tree.files.keys().all(|path| path.starts_with("proj/")));
}

#[test]
fn extracting_again_into_the_same_tree_changes_nothing() {
    let mut tree = Tree::new();
    let mut archive = Archive::open(template_archive(PROJECT, true)).unwrap();
    for _ in 0..2 {
        let plan = extract_zip("proj", &mut archive, "tmpl-1.0/");
        assert_eq!(carry_out_plan(&mut tree, &plan), Progress::Done);
    }
    assert_eq!(tree.files.len(), 3);
    assert_eq!(tree.text("proj/main/main.c"), Some(PLACEHOLDER.to_string()));
    assert!(tree.directories.contains("proj/main"));
}

#[test]
fn new_c_project_keeps_the_c_source() {
    let mut tree = Tree::new();
    let (state, _, _) = scaffold(&mut tree, "proj", 0, false, template_archive(PROJECT, true));
    assert_eq!(state, RunState::Done);
    assert_eq!(tree.text("proj/main/main.c"), Some(C_TEMPLATE.to_string()));
    assert_eq!(tree.text("proj/main/main.cpp"), None);
    assert_eq!(tree.text("proj/main/CMakeLists.txt"), Some(COMPONENT.to_string()));
    assert_eq!(tree.text("proj/CMakeLists.txt").unwrap().split('\n').nth(4), Some(""));
}

#[test]
fn declined_reset_leaves_the_destination_untouched() {
    let mut tree = Tree::new();
    tree.create_directories("proj");
    tree.files.insert("proj/keep.txt".to_string(), b"mine".to_vec());
    tree.writes = 0;
    let (state, actions, _) = scaffold(&mut tree, "proj", 1, false, template_archive(PROJECT, true));
    assert_eq!(state, RunState::Aborted);
    assert_eq!(actions, vec![Action::InspectDestination, Action::ConfirmReset]);
    assert_eq!(tree.writes, 0);
    assert_eq!(tree.text("proj/keep.txt"), Some("mine".to_string()));
    assert_eq!(tree.files.len(), 1);
}

#[test]
fn confirmed_reset_replaces_what_was_there() {
    let mut tree = Tree::new();
    tree.create_directories("proj");
    tree.files.insert("proj/old.txt".to_string(), b"old".to_vec());
    let (state, actions, _) = scaffold(&mut tree, "proj", 3, true, template_archive(PROJECT, true));
    assert_eq!(state, RunState::Done);
    assert_eq!(actions[..3], [Action::InspectDestination, Action::ConfirmReset, Action::ClearDestination]);
    assert_eq!(tree.text("proj/old.txt"), None);
    assert_eq!(
        tree.text("proj/CMakeLists.txt").unwrap().split('\n').nth(4),
        Some("set(CMAKE_CXX_STANDARD 17)")
    );
}

#[test]
fn short_descriptor_fails_the_run_and_is_not_written() {
    let mut tree = Tree::new();
    let (state, _, error) = scaffold(&mut tree, "proj", 2, false, template_archive("a\nb\nc", true));
    assert_eq!(state, RunState::Failed(Failure::PatchFailed));
    assert_eq!(error, Some(PatchError::MalformedDescriptor));
    assert_eq!(tree.text("proj/CMakeLists.txt"), Some("a\nb\nc".to_string()));
    assert_eq!(tree.text("proj/main/main.c"), Some(PLACEHOLDER.to_string()));
}

#[test]
fn unknown_language_changes_nothing_but_the_destination() {
    let mut tree = Tree::new();
    let (state, actions, _) = scaffold(&mut tree, "proj", 4, false, template_archive(PROJECT, true));
    assert_eq!(state, RunState::Failed(Failure::InvalidVariant));
    assert_eq!(actions, vec![Action::InspectDestination, Action::CreateDestination, Action::Select]);
    assert!(tree.files.is_empty());
}

#[test]
fn corrupt_archive_fails_the_run() {
    let mut tree = Tree::new();
    let (state, _, _) = scaffold(&mut tree, "proj", 0, false, b"no archive".to_vec());
    assert_eq!(state, RunState::Failed(Failure::ArchiveCorrupt));
    assert!(tree.files.is_empty());
}
