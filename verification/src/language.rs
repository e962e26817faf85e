//! The language a new project is generated for.

use vstd::prelude::*;
use vstd::std_specs::convert::FromSpecImpl;

verus! {

/// Language and standard of the generated project.
///
/// `Unknown` stands for every menu index that has no language behind it. It
/// is never a valid selection: it only makes the conversion from an index
/// total.
#[derive(Debug, PartialEq, Eq, Copy, Clone, Structural)]
pub enum ProgrammingLanguage {
    Unknown,
    C,
    Cpp11,
    Cpp14,
    Cpp17,
}

/// The language behind the menu index `index`.
pub open spec fn language_of_index(index: usize) -> ProgrammingLanguage {
    if index == 0 {
        ProgrammingLanguage::C
    } else if index == 1 {
        ProgrammingLanguage::Cpp11
    } else if index == 2 {
        ProgrammingLanguage::Cpp14
    } else if index == 3 {
        ProgrammingLanguage::Cpp17
    } else {
        ProgrammingLanguage::Unknown
    }
}

impl From<usize> for ProgrammingLanguage {
    fn from(lang: usize) -> (language: Self)
        ensures
            language == language_of_index(lang),
    {
        match lang {
            0 => ProgrammingLanguage::C,
            1 => ProgrammingLanguage::Cpp11,
            2 => ProgrammingLanguage::Cpp14,
            3 => ProgrammingLanguage::Cpp17,
            _ => ProgrammingLanguage::Unknown,
        }
    }
}

impl FromSpecImpl<usize> for ProgrammingLanguage {
    open spec fn obeys_from_spec() -> bool {
        true
    }

    open spec fn from_spec(lang: usize) -> Self {
        language_of_index(lang)
    }
}

impl ProgrammingLanguage {
    /// Whether the language is one of the C++ standards.
    pub open spec fn is_cpp(self) -> bool {
        self == ProgrammingLanguage::Cpp11 || self == ProgrammingLanguage::Cpp14 || self
            == ProgrammingLanguage::Cpp17
    }

    /// The line that declares the language standard in the project's build
    /// descriptor: empty for plain C, and for `Unknown`, which has none.
    pub open spec fn directive(self) -> Seq<char> {
        match self {
            ProgrammingLanguage::Cpp11 => "set(CMAKE_CXX_STANDARD 11)"@,
            ProgrammingLanguage::Cpp14 => "set(CMAKE_CXX_STANDARD 14)"@,
            ProgrammingLanguage::Cpp17 => "set(CMAKE_CXX_STANDARD 17)"@,
            _ => ""@,
        }
    }

    /// Whether the language is one of the C++ standards.
    pub fn uses_cpp(self) -> (cpp: bool)
        ensures
            cpp == self.is_cpp(),
    {
        match self {
            ProgrammingLanguage::Cpp11 | ProgrammingLanguage::Cpp14 | ProgrammingLanguage::Cpp17 => true,
            _ => false,
        }
    }

    /// The line that declares the language standard, or `None` for
    /// `Unknown`, which cannot be generated for.
    pub fn standard_directive(self) -> (line: Option<&'static str>)
        ensures
            match line {
                Some(text) => self != ProgrammingLanguage::Unknown && text@ == self.directive(),
                None => self == ProgrammingLanguage::Unknown,
            },
    {
        match self {
            ProgrammingLanguage::C => Some(""),
            ProgrammingLanguage::Cpp11 => Some("set(CMAKE_CXX_STANDARD 11)"),
            ProgrammingLanguage::Cpp14 => Some("set(CMAKE_CXX_STANDARD 14)"),
            ProgrammingLanguage::Cpp17 => Some("set(CMAKE_CXX_STANDARD 17)"),
            ProgrammingLanguage::Unknown => None,
        }
    }
}

} // verus!
