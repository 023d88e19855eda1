//! The files of the project that accompanies a module or a generated
//! application.
//!
//! Here the names and the contents of the files are worked out. Writing
//! them is left to the caller.

use crate::learning_module::LearningModule;
use crate::prompt_response::Exercise;
use crate::question_generator::GeneratedApplication;
use crate::text::{chars_of, decimal_text, has_at, occurs_at, push_decimal, push_str, string_of};
use vstd::prelude::*;

verus! {

/// Whether a character is a letter or a number in the sense of
/// `char::is_alphanumeric`: it carries the Unicode property `Alphabetic`
/// or one of the general categories `Nd`, `Nl`, `No`.
pub uninterp spec fn is_alphanumeric_char(c: char) -> bool;

/// Whether a character is a number in the sense of `char::is_numeric`: it
/// has one of the Unicode general categories `Nd`, `Nl`, `No`.
pub uninterp spec fn is_numeric_char(c: char) -> bool;

/// The lower-case form of a text in the sense of `str::to_lowercase`, by
/// the Unicode property `Lowercase`.
pub uninterp spec fn lowercase_of(s: Seq<char>) -> Seq<char>;

/// `char::is_alphanumeric` depends on the character alone. Nothing more
/// is claimed of it than that its result has a name.
pub assume_specification[ char::is_alphanumeric ](c: char) -> (b: bool)
    ensures
        b == is_alphanumeric_char(c),
;

/// `char::is_numeric` depends on the character alone. Nothing more is
/// claimed of it than that its result has a name.
pub assume_specification[ char::is_numeric ](c: char) -> (b: bool)
    ensures
        b == is_numeric_char(c),
;

/// `str::to_lowercase` depends on the text alone. Nothing more is claimed
/// of it than that its result has a name.
pub assume_specification[ str::to_lowercase ](s: &str) -> (lower: String)
    ensures
        lower@ == lowercase_of(s@),
;

/// A file to write, by its path below the project's directory, with `/`
/// between the parts of the path.
#[derive(Debug, Clone)]
pub struct ProjectFile {
    pub path: String,
    pub content: String,
}

/// Mathematical value of a `ProjectFile`.
pub struct ProjectFileView {
    pub path: Seq<char>,
    pub content: Seq<char>,
}

impl View for ProjectFile {
    type V = ProjectFileView;

    open spec fn view(&self) -> ProjectFileView {
        ProjectFileView { path: self.path@, content: self.content@ }
    }
}

/// The values of a sequence of files.
pub open spec fn file_views(v: Seq<ProjectFile>) -> Seq<ProjectFileView> {
    v.map_values(|f: ProjectFile| f@)
}

/// The character that stands for `c` in a name: `c` itself where it is a
/// letter, a number or an underscore, else an underscore.
pub open spec fn name_char(c: char) -> char {
    if is_alphanumeric_char(c) || c == '_' {
        c
    } else {
        '_'
    }
}

/// The character that stands for `c` in the name of a directory: `c`
/// itself where it is a letter or a number, else an underscore.
pub open spec fn slug_char(c: char) -> char {
    if is_alphanumeric_char(c) {
        c
    } else {
        '_'
    }
}

/// What stands before the number in a name that was made up.
pub const FALLBACK_NAME_HEAD: &'static str = "exercise_";

/// The name of a file for a title: the title in lower case with every
/// character that is no letter, number or underscore replaced by an
/// underscore; where that is empty or begins with a number, a name made
/// up from `fallback_index`.
pub open spec fn sanitized_name(name: Seq<char>, fallback_index: usize) -> Seq<char> {
    let sanitized = lowercase_of(name).map_values(|c: char| name_char(c));
    if sanitized.len() == 0 || is_numeric_char(sanitized[0]) {
        FALLBACK_NAME_HEAD@ + decimal_text(fallback_index as nat)
    } else {
        sanitized
    }
}

/// The name of a file for a title.
pub fn sanitize_filename(name: &str, fallback_index: usize) -> (file_name: String)
    ensures
        file_name@ == sanitized_name(name@, fallback_index),
{
    let lower = name.to_lowercase();
    let source = chars_of(lower.as_str());
    let mut sanitized: Vec<char> = Vec::new();
    let mut i: usize = 0;
    while i < source.len()
        invariant
            i <= source.len(),
            sanitized@ == source@.take(i as int).map_values(|c: char| name_char(c)),
        decreases source.len() - i,
    {
        let c = source[i];
        let kept = if c.is_alphanumeric() || c == '_' {
            c
        } else {
            '_'
        };
        sanitized.push(kept);
        assert(sanitized@ =~= source@.take(i + 1).map_values(|c: char| name_char(c)));
        i += 1;
    }
    assert(source@.take(i as int) =~= source@);
    if sanitized.len() == 0 || sanitized[0].is_numeric() {
        let mut made: Vec<char> = Vec::new();
        push_str(&mut made, FALLBACK_NAME_HEAD);
        push_decimal(&mut made, fallback_index as u64);
        string_of(made.as_slice())
    } else {
        string_of(sanitized.as_slice())
    }
}

/// The start of a directory's name for a title: every character of the
/// title that is no letter or number replaced by an underscore, then in
/// lower case.
pub open spec fn slug_of(title: Seq<char>) -> Seq<char> {
    lowercase_of(title.map_values(|c: char| slug_char(c)))
}

/// The start of a directory's name for a title.
pub fn project_slug(title: &str) -> (slug: String)
    ensures
        slug@ == slug_of(title@),
{
    let source = chars_of(title);
    let mut replaced: Vec<char> = Vec::new();
    let mut i: usize = 0;
    while i < source.len()
        invariant
            i <= source.len(),
            replaced@ == source@.take(i as int).map_values(|c: char| slug_char(c)),
        decreases source.len() - i,
    {
        let c = source[i];
        let kept = if c.is_alphanumeric() {
            c
        } else {
            '_'
        };
        replaced.push(kept);
        assert(replaced@ =~= source@.take(i + 1).map_values(|c: char| slug_char(c)));
        i += 1;
    }
    assert(source@.take(i as int) =~= source@);
    string_of(replaced.as_slice()).as_str().to_lowercase()
}

/// The name of the directory of a module's project: the topic's slug, the
/// level and the date.
pub open spec fn module_directory(topic: Seq<char>, level: u8, date: Seq<char>) -> Seq<char> {
    slug_of(topic) + seq!['_'] + decimal_text(level as nat) + seq!['_'] + date
}

/// The name of the directory of an application's project: the name's slug
/// and the date.
pub open spec fn application_directory(name: Seq<char>, date: Seq<char>) -> Seq<char> {
    slug_of(name) + seq!['_'] + date
}

/// The name of the directory of a module's project.
pub fn module_directory_name(topic: &str, level: u8, date: &str) -> (name: String)
    ensures
        name@ == module_directory(topic@, level, date@),
{
    let slug = project_slug(topic);
    let mut name: Vec<char> = Vec::new();
    push_str(&mut name, slug.as_str());
    name.push('_');
    push_decimal(&mut name, level as u64);
    name.push('_');
    push_str(&mut name, date);
    assert(name@ =~= module_directory(topic@, level, date@));
    string_of(name.as_slice())
}

/// The name of the directory of an application's project.
pub fn application_directory_name(app_name: &str, date: &str) -> (name: String)
    ensures
        name@ == application_directory(app_name@, date@),
{
    let slug = project_slug(app_name);
    let mut name: Vec<char> = Vec::new();
    push_str(&mut name, slug.as_str());
    name.push('_');
    push_str(&mut name, date);
    assert(name@ =~= application_directory(app_name@, date@));
    string_of(name.as_slice())
}

/// The name under which the project is initialised: the slug in lower
/// case with every space replaced by an underscore.
pub open spec fn package_name(slug: Seq<char>) -> Seq<char> {
    lowercase_of(slug).map_values(|c: char| package_char(c))
}

/// The character that stands for `c` in the name of a package: an
/// underscore for a space, else `c` itself.
pub open spec fn package_char(c: char) -> char {
    if c == ' ' {
        '_'
    } else {
        c
    }
}

/// The name under which the project is initialised.
pub fn project_package_name(slug: &str) -> (name: String)
    ensures
        name@ == package_name(slug@),
{
    let lower = slug.to_lowercase();
    let source = chars_of(lower.as_str());
    let mut name: Vec<char> = Vec::new();
    let mut i: usize = 0;
    while i < source.len()
        invariant
            i <= source.len(),
            name@ == source@.take(i as int).map_values(|c: char| package_char(c)),
        decreases source.len() - i,
    {
        let c = source[i];
        let kept = if c == ' ' {
            '_'
        } else {
            c
        };
        name.push(kept);
        assert(name@ =~= source@.take(i + 1).map_values(|c: char| package_char(c)));
        i += 1;
    }
    assert(source@.take(i as int) =~= source@);
    string_of(name.as_slice())
}

/// The explanation as a document: the topic as its heading.
pub open spec fn explanation_document(topic: Seq<char>, explanation: Seq<char>) -> Seq<char> {
    "# "@ + topic + "\n\n"@ + explanation
}

/// A source file: the title and the description as comments, a blank
/// line, and the code.
pub open spec fn source_document(title: Seq<char>, description: Seq<char>, code: Seq<char>) -> Seq<
    char,
> {
    "// "@ + title + "\n// "@ + description + "\n\n"@ + code
}

/// The path of a source file in a directory.
pub open spec fn source_path(directory: Seq<char>, file_name: Seq<char>) -> Seq<char> {
    directory + file_name + ".rs"@
}

/// Directory of the files of the code snippets.
pub const EXAMPLES_DIRECTORY: &'static str = "examples/";

/// Directory of the files of the exercises and of further programs.
pub const BINARIES_DIRECTORY: &'static str = "src/bin/";

/// The files of the given code snippets, in order, numbered from
/// `done + 1`.
pub open spec fn snippet_files(snippets: Seq<crate::prompt_response::CodeSnippetView>) -> Seq<
    ProjectFileView,
>
    decreases snippets.len(),
{
    if snippets.len() == 0 {
        Seq::empty()
    } else {
        snippet_files(snippets.drop_last()).push(
            ProjectFileView {
                path: source_path(
                    EXAMPLES_DIRECTORY@,
                    sanitized_name(snippets.last().title, snippets.len() as usize),
                ),
                content: source_document(
                    snippets.last().title,
                    snippets.last().description,
                    snippets.last().code,
                ),
            },
        )
    }
}

/// The files of the given exercises, in order.
pub open spec fn exercise_files(exercises: Seq<crate::prompt_response::ExerciseView>) -> Seq<
    ProjectFileView,
>
    decreases exercises.len(),
{
    if exercises.len() == 0 {
        Seq::empty()
    } else {
        exercise_files(exercises.drop_last()).push(
            ProjectFileView {
                path: source_path(
                    BINARIES_DIRECTORY@,
                    sanitized_name(exercises.last().name, exercises.len() as usize),
                ),
                content: source_document(
                    exercises.last().name,
                    exercises.last().description,
                    exercises.last().code,
                ),
            },
        )
    }
}

/// The entry of the manifest for a program.
pub open spec fn binary_entry(name: Seq<char>) -> Seq<char> {
    "[[bin]]\nname = \""@ + name + "\"\npath = \"src/bin/"@ + name + ".rs\"\n"@
}

/// The entries of the manifest for the given exercises, each followed by a
/// blank line.
pub open spec fn exercise_entries(exercises: Seq<crate::prompt_response::ExerciseView>) -> Seq<
    char,
>
    decreases exercises.len(),
{
    if exercises.len() == 0 {
        Seq::empty()
    } else {
        exercise_entries(exercises.drop_last()) + binary_entry(
            sanitized_name(exercises.last().name, exercises.len() as usize),
        ) + "\n"@
    }
}

/// What is added to the manifest of a module's project: a blank line and
/// the entries of the exercises.
pub open spec fn module_manifest_addition(
    exercises: Seq<crate::prompt_response::ExerciseView>,
) -> Seq<char> {
    "\n"@ + exercise_entries(exercises)
}

/// What is added to the manifest of an application's project for one
/// further program.
pub open spec fn binary_manifest_addition(name: Seq<char>) -> Seq<char> {
    "\n"@ + binary_entry(name)
}

/// The files of a module's project besides the manifest: the explanation
/// twice, the code snippets and the exercises.
pub open spec fn module_files(module: crate::learning_module::LearningModuleView) -> Seq<
    ProjectFileView,
> {
    seq![
        ProjectFileView {
            path: "README.md"@,
            content: explanation_document(module.topic, module.explanation),
        },
        ProjectFileView {
            path: "docs/explanation.md"@,
            content: explanation_document(module.topic, module.explanation),
        },
    ] + snippet_files(module.code_snippets) + exercise_files(module.exercises)
}

/// A text made of the given parts.
fn concat(parts: &[&str]) -> (s: String)
    ensures
        s@ == joined_parts(parts@),
{
    let mut text: Vec<char> = Vec::new();
    let mut i: usize = 0;
    assert(parts@.take(0) =~= Seq::<&str>::empty());
    while i < parts.len()
        invariant
            i <= parts.len(),
            text@ == joined_parts(parts@.take(i as int)),
        decreases parts.len() - i,
    {
        assert(parts@.take(i + 1).drop_last() =~= parts@.take(i as int));
        push_str(&mut text, parts[i]);
        i += 1;
    }
    assert(parts@.take(i as int) =~= parts@);
    string_of(text.as_slice())
}

/// The given parts, one after the other.
pub open spec fn joined_parts(parts: Seq<&str>) -> Seq<char>
    decreases parts.len(),
{
    if parts.len() == 0 {
        Seq::empty()
    } else {
        joined_parts(parts.drop_last()) + parts.last()@
    }
}

/// Unfolds `joined_parts` for up to five parts.
proof fn lemma_joined_parts(parts: Seq<&str>)
    ensures
        parts.len() == 3 ==> joined_parts(parts) == parts[0]@ + parts[1]@ + parts[2]@,
        parts.len() == 4 ==> joined_parts(parts) == parts[0]@ + parts[1]@ + parts[2]@
            + parts[3]@,
        parts.len() == 5 ==> joined_parts(parts) == parts[0]@ + parts[1]@ + parts[2]@
            + parts[3]@ + parts[4]@,
        parts.len() == 6 ==> joined_parts(parts) == parts[0]@ + parts[1]@ + parts[2]@
            + parts[3]@ + parts[4]@ + parts[5]@,
{
    reveal_with_fuel(joined_parts, 8);
    if parts.len() >= 3 && parts.len() <= 6 {
        let p1 = parts.drop_last();
        let p2 = p1.drop_last();
        let p3 = p2.drop_last();
        assert(joined_parts(Seq::<&str>::empty()) =~= Seq::<char>::empty());
        if parts.len() == 3 {
            assert(p3 =~= Seq::<&str>::empty());
            assert(joined_parts(parts) =~= parts[0]@ + parts[1]@ + parts[2]@);
        } else if parts.len() == 4 {
            let p4 = p3.drop_last();
            assert(p4 =~= Seq::<&str>::empty());
            assert(joined_parts(parts) =~= parts[0]@ + parts[1]@ + parts[2]@ + parts[3]@);
        } else if parts.len() == 5 {
            let p4 = p3.drop_last();
            let p5 = p4.drop_last();
            assert(p5 =~= Seq::<&str>::empty());
            assert(joined_parts(parts) =~= parts[0]@ + parts[1]@ + parts[2]@ + parts[3]@
                + parts[4]@);
        } else {
            let p4 = p3.drop_last();
            let p5 = p4.drop_last();
            let p6 = p5.drop_last();
            assert(p6 =~= Seq::<&str>::empty());
            assert(joined_parts(parts) =~= parts[0]@ + parts[1]@ + parts[2]@ + parts[3]@
                + parts[4]@ + parts[5]@);
        }
    }
}

/// The explanation as a document.
pub fn explanation_file_content(topic: &str, explanation: &str) -> (content: String)
    ensures
        content@ == explanation_document(topic@, explanation@),
{
    let parts = ["# ", topic, "\n\n", explanation];
    proof {
        lemma_joined_parts(parts@);
    }
    concat(&parts)
}

/// A source file.
pub fn source_file(directory: &str, file_name: &str, title: &str, description: &str, code: &str) -> (file:
    ProjectFile)
    ensures
        file@ == (ProjectFileView {
            path: source_path(directory@, file_name@),
            content: source_document(title@, description@, code@),
        }),
{
    let path_parts = [directory, file_name, ".rs"];
    let content_parts = ["// ", title, "\n// ", description, "\n\n", code];
    proof {
        lemma_joined_parts(path_parts@);
        lemma_joined_parts(content_parts@);
    }
    ProjectFile { path: concat(&path_parts), content: concat(&content_parts) }
}

/// The entry of the manifest for a program.
pub fn binary_manifest_entry(name: &str) -> (entry: String)
    ensures
        entry@ == binary_entry(name@),
{
    let parts = ["[[bin]]\nname = \"", name, "\"\npath = \"src/bin/", name, ".rs\"\n"];
    proof {
        lemma_joined_parts(parts@);
    }
    concat(&parts)
}

/// The files of a module's project besides the manifest.
pub fn module_project_files(module: &LearningModule) -> (files: Vec<ProjectFile>)
    ensures
        file_views(files@) == module_files(module@),
{
    let mut files: Vec<ProjectFile> = Vec::new();
    files.push(
        ProjectFile {
            path: "README.md".to_owned(),
            content: explanation_file_content(module.topic.as_str(), module.explanation.as_str()),
        },
    );
    files.push(
        ProjectFile {
            path: "docs/explanation.md".to_owned(),
            content: explanation_file_content(module.topic.as_str(), module.explanation.as_str()),
        },
    );
    let ghost head = file_views(files@);
    let ghost snippets = module@.code_snippets;
    let ghost exercises = module@.exercises;
    assert(head =~= seq![
        ProjectFileView {
            path: "README.md"@,
            content: explanation_document(module@.topic, module@.explanation),
        },
        ProjectFileView {
            path: "docs/explanation.md"@,
            content: explanation_document(module@.topic, module@.explanation),
        },
    ]);
    let mut i: usize = 0;
    assert(snippets.take(0) =~= Seq::<crate::prompt_response::CodeSnippetView>::empty());
    assert(head + Seq::<ProjectFileView>::empty() =~= head);
    while i < module.code_snippets.len()
        invariant
            i <= module.code_snippets.len(),
            snippets == crate::prompt_response::snippet_views(module.code_snippets@),
            file_views(files@) == head + snippet_files(snippets.take(i as int)),
        decreases module.code_snippets.len() - i,
    {
        assert(snippets.take(i + 1).drop_last() =~= snippets.take(i as int));
        let snippet = &module.code_snippets[i];
        let name = sanitize_filename(snippet.title.as_str(), i + 1);
        let file = source_file(
            EXAMPLES_DIRECTORY,
            name.as_str(),
            snippet.title.as_str(),
            snippet.description.as_str(),
            snippet.code.as_str(),
        );
        proof {
            assert(snippets[i as int] == snippet@);
            assert(file_views(files@.push(file)) =~= file_views(files@).push(file@));
            let found = snippet_files(snippets.take(i as int));
            assert((head + found).push(file@) =~= head + found.push(file@));
        }
        files.push(file);
        i += 1;
    }
    assert(snippets.take(i as int) =~= snippets);
    let ghost middle = file_views(files@);
    let mut j: usize = 0;
    assert(exercises.take(0) =~= Seq::<crate::prompt_response::ExerciseView>::empty());
    assert(middle + Seq::<ProjectFileView>::empty() =~= middle);
    while j < module.exercises.len()
        invariant
            j <= module.exercises.len(),
            exercises == crate::prompt_response::exercise_views(module.exercises@),
            file_views(files@) == middle + exercise_files(exercises.take(j as int)),
        decreases module.exercises.len() - j,
    {
        assert(exercises.take(j + 1).drop_last() =~= exercises.take(j as int));
        let exercise = &module.exercises[j];
        let name = sanitize_filename(exercise.name.as_str(), j + 1);
        let file = source_file(
            BINARIES_DIRECTORY,
            name.as_str(),
            exercise.name.as_str(),
            exercise.description.as_str(),
            exercise.code.as_str(),
        );
        proof {
            assert(exercises[j as int] == exercise@);
            assert(file_views(files@.push(file)) =~= file_views(files@).push(file@));
            let found = exercise_files(exercises.take(j as int));
            assert((middle + found).push(file@) =~= middle + found.push(file@));
        }
        files.push(file);
        j += 1;
    }
    assert(exercises.take(j as int) =~= exercises);
    files
}

/// What is added to the manifest of a module's project.
pub fn module_manifest_entries(exercises: &Vec<Exercise>) -> (addition: String)
    ensures
        addition@ == module_manifest_addition(
            crate::prompt_response::exercise_views(exercises@),
        ),
{
    let mut text: Vec<char> = Vec::new();
    push_str(&mut text, "\n");
    let ghost all = crate::prompt_response::exercise_views(exercises@);
    let mut i: usize = 0;
    assert(all.take(0) =~= Seq::<crate::prompt_response::ExerciseView>::empty());
    assert("\n"@ + Seq::<char>::empty() =~= "\n"@);
    while i < exercises.len()
        invariant
            i <= exercises.len(),
            all == crate::prompt_response::exercise_views(exercises@),
            text@ == "\n"@ + exercise_entries(all.take(i as int)),
        decreases exercises.len() - i,
    {
        assert(all.take(i + 1).drop_last() =~= all.take(i as int));
        let name = sanitize_filename(exercises[i].name.as_str(), i + 1);
        let entry = binary_manifest_entry(name.as_str());
        let ghost before = exercise_entries(all.take(i as int));
        push_str(&mut text, entry.as_str());
        push_str(&mut text, "\n");
        assert(all[i as int] == exercises[i as int]@);
        assert(text@ =~= "\n"@ + (before + entry@ + "\n"@));
        i += 1;
    }
    assert(all.take(i as int) =~= all);
    string_of(text.as_slice())
}

/// Whether `pat` stands somewhere in `s`.
pub open spec fn contains_text(s: Seq<char>, pat: Seq<char>) -> bool {
    exists|at: int| #[trigger] occurs_at(s, at, pat)
}

/// Tests whether the string `pat` stands somewhere in `s`.
pub fn includes(s: &[char], pat: &str) -> (b: bool)
    ensures
        b == contains_text(s@, pat@),
{
    let mut at: usize = 0;
    while at < s.len()
        invariant
            at <= s.len(),
            forall|i: int| 0 <= i < at ==> !occurs_at(s@, i, pat@),
        decreases s.len() - at,
    {
        if has_at(s, at, pat) {
            return true;
        }
        at += 1;
    }
    let last = has_at(s, at, pat);
    proof {
        if !last {
            assert forall|i: int| !occurs_at(s@, i, pat@) by {
                if i > at {
                    assert(!occurs_at(s@, i, pat@));
                }
            }
        }
    }
    last
}

/// Where the code of a snippet of an application goes.
pub enum SnippetPlace {
    /// The program's entry point.
    Main,
    /// The library.
    Library,
    /// A further program of the given name.
    Binary(String),
}

/// Mathematical value of a `SnippetPlace`.
pub enum SnippetPlaceView {
    Main,
    Library,
    Binary(Seq<char>),
}

impl View for SnippetPlace {
    type V = SnippetPlaceView;

    open spec fn view(&self) -> SnippetPlaceView {
        match *self {
            SnippetPlace::Main => SnippetPlaceView::Main,
            SnippetPlace::Library => SnippetPlaceView::Library,
            SnippetPlace::Binary(name) => SnippetPlaceView::Binary(name@),
        }
    }
}

/// Where the code of the snippet at place `index` goes: the first snippet
/// and any whose title mentions "main" is the entry point; of the others,
/// one whose file name or title mentions "lib" is the library, and the
/// rest are further programs under their file names.
pub open spec fn snippet_place(title: Seq<char>, index: usize) -> SnippetPlaceView {
    let file_name = sanitized_name(title, (index + 1) as usize);
    if index == 0 || contains_text(lowercase_of(title), "main"@) {
        SnippetPlaceView::Main
    } else if contains_text(file_name, "lib"@) || contains_text(lowercase_of(title), "lib"@) {
        SnippetPlaceView::Library
    } else {
        SnippetPlaceView::Binary(file_name)
    }
}

/// Where the code of the snippet at place `index` goes.
pub fn place_of_snippet(title: &str, index: usize) -> (place: SnippetPlace)
    requires
        index < usize::MAX,
    ensures
        place@ == snippet_place(title@, index),
{
    let lower = title.to_lowercase();
    let lower_chars = chars_of(lower.as_str());
    if index == 0 || includes(lower_chars.as_slice(), "main") {
        return SnippetPlace::Main;
    }
    let file_name = sanitize_filename(title, index + 1);
    let name_chars = chars_of(file_name.as_str());
    if includes(name_chars.as_slice(), "lib") || includes(lower_chars.as_slice(), "lib") {
        SnippetPlace::Library
    } else {
        SnippetPlace::Binary(file_name)
    }
}

/// The features as a list, one line each, without a line feed at the end.
pub open spec fn feature_list(features: Seq<Seq<char>>) -> Seq<char>
    decreases features.len(),
{
    if features.len() == 0 {
        Seq::empty()
    } else if features.len() == 1 {
        "- "@ + features[0]
    } else {
        feature_list(features.drop_last()) + "\n- "@ + features.last()
    }
}

/// The description of an application as a document.
pub open spec fn application_document(
    name: Seq<char>,
    description: Seq<char>,
    features: Seq<Seq<char>>,
) -> Seq<char> {
    "# "@ + name + "\n\n"@ + description + "\n\n## Features\n\n"@ + feature_list(features)
}

/// The description of an application as a document.
pub fn application_readme(application: &GeneratedApplication) -> (content: String)
    ensures
        content@ == application_document(
            application@.name,
            application@.description,
            application@.features,
        ),
{
    let mut text: Vec<char> = Vec::new();
    push_str(&mut text, "# ");
    push_str(&mut text, application.name.as_str());
    push_str(&mut text, "\n\n");
    push_str(&mut text, application.description.as_str());
    push_str(&mut text, "\n\n## Features\n\n");
    let ghost head = text@;
    let ghost all = application@.features;
    let mut i: usize = 0;
    assert(all.take(0) =~= Seq::<Seq<char>>::empty());
    assert(head + Seq::<char>::empty() =~= head);
    while i < application.features.len()
        invariant
            i <= application.features.len(),
            all == crate::question_generator::texts(application.features@),
            text@ == head + feature_list(all.take(i as int)),
        decreases application.features.len() - i,
    {
        assert(all.take(i + 1).drop_last() =~= all.take(i as int));
        let ghost before = feature_list(all.take(i as int));
        if i > 0 {
            push_str(&mut text, "\n- ");
        } else {
            push_str(&mut text, "- ");
        }
        push_str(&mut text, application.features[i].as_str());
        proof {
            assert(all[i as int] == application.features[i as int]@);
            if i == 0 {
                assert(all.take(1)[0] == all[0]);
                assert(text@ =~= head + ("- "@ + all[0]));
            } else {
                assert(text@ =~= head + (before + "\n- "@ + all[i as int]));
            }
        }
        i += 1;
    }
    assert(all.take(i as int) =~= all);
    assert(text@ =~= application_document(
        application@.name,
        application@.description,
        application@.features,
    ));
    string_of(text.as_slice())
}

/// The path of the file that the code of a snippet goes to.
pub open spec fn place_path(place: SnippetPlaceView) -> Seq<char> {
    match place {
        SnippetPlaceView::Main => "src/main.rs"@,
        SnippetPlaceView::Library => "src/lib.rs"@,
        SnippetPlaceView::Binary(name) => source_path(BINARIES_DIRECTORY@, name),
    }
}

/// What a snippet adds to the manifest: an entry where it is a further
/// program, nothing otherwise.
pub open spec fn place_manifest_addition(place: SnippetPlaceView) -> Seq<char> {
    match place {
        SnippetPlaceView::Binary(name) => binary_manifest_addition(name),
        _ => Seq::empty(),
    }
}

/// The files of the given snippets of an application, in order. A file
/// that is listed more than once is written more than once: the last one
/// stays.
pub open spec fn application_snippet_files(
    snippets: Seq<crate::prompt_response::CodeSnippetView>,
) -> Seq<ProjectFileView>
    decreases snippets.len(),
{
    if snippets.len() == 0 {
        Seq::empty()
    } else {
        application_snippet_files(snippets.drop_last()).push(
            ProjectFileView {
                path: place_path(
                    snippet_place(snippets.last().title, (snippets.len() - 1) as usize),
                ),
                content: snippets.last().code,
            },
        )
    }
}

/// What the given snippets of an application add to the manifest.
pub open spec fn application_manifest_for(
    snippets: Seq<crate::prompt_response::CodeSnippetView>,
) -> Seq<char>
    decreases snippets.len(),
{
    if snippets.len() == 0 {
        Seq::empty()
    } else {
        application_manifest_for(snippets.drop_last()) + place_manifest_addition(
            snippet_place(snippets.last().title, (snippets.len() - 1) as usize),
        )
    }
}

/// The files of an application's project besides the manifest: the
/// description, then the code of every snippet at its place.
pub open spec fn application_files(
    application: crate::question_generator::GeneratedApplicationView,
) -> Seq<ProjectFileView> {
    seq![
        ProjectFileView {
            path: "README.md"@,
            content: application_document(
                application.name,
                application.description,
                application.features,
            ),
        },
    ] + application_snippet_files(application.code_snippets)
}

/// The files of an application's project besides the manifest.
pub fn application_project_files(application: &GeneratedApplication) -> (files: Vec<ProjectFile>)
    ensures
        file_views(files@) == application_files(application@),
{
    let mut files: Vec<ProjectFile> = Vec::new();
    files.push(ProjectFile { path: "README.md".to_owned(), content: application_readme(application) });
    let ghost head = file_views(files@);
    let ghost snippets = application@.code_snippets;
    assert(head =~= seq![
        ProjectFileView {
            path: "README.md"@,
            content: application_document(
                application@.name,
                application@.description,
                application@.features,
            ),
        },
    ]);
    let mut i: usize = 0;
    assert(snippets.take(0) =~= Seq::<crate::prompt_response::CodeSnippetView>::empty());
    assert(head + Seq::<ProjectFileView>::empty() =~= head);
    while i < application.code_snippets.len()
        invariant
            i <= application.code_snippets.len(),
            snippets == crate::prompt_response::snippet_views(application.code_snippets@),
            file_views(files@) == head + application_snippet_files(snippets.take(i as int)),
        decreases application.code_snippets.len() - i,
    {
        assert(snippets.take(i + 1).drop_last() =~= snippets.take(i as int));
        let snippet = &application.code_snippets[i];
        let path = match place_of_snippet(snippet.title.as_str(), i) {
            SnippetPlace::Main => "src/main.rs".to_owned(),
            SnippetPlace::Library => "src/lib.rs".to_owned(),
            SnippetPlace::Binary(name) => {
                let parts = [BINARIES_DIRECTORY, name.as_str(), ".rs"];
                proof {
                    lemma_joined_parts(parts@);
                }
                concat(&parts)
            },
        };
        let file = ProjectFile { path, content: snippet.code.clone() };
        proof {
            assert(snippets[i as int] == snippet@);
            assert(file_views(files@.push(file)) =~= file_views(files@).push(file@));
            let found = application_snippet_files(snippets.take(i as int));
            assert((head + found).push(file@) =~= head + found.push(file@));
        }
        files.push(file);
        i += 1;
    }
    assert(snippets.take(i as int) =~= snippets);
    files
}

/// What an application's project adds to the manifest.
pub fn application_manifest_entries(application: &GeneratedApplication) -> (addition: String)
    ensures
        addition@ == application_manifest_for(application@.code_snippets),
{
    let mut text: Vec<char> = Vec::new();
    let ghost snippets = application@.code_snippets;
    let mut i: usize = 0;
    assert(snippets.take(0) =~= Seq::<crate::prompt_response::CodeSnippetView>::empty());
    while i < application.code_snippets.len()
        invariant
            i <= application.code_snippets.len(),
            snippets == crate::prompt_response::snippet_views(application.code_snippets@),
            text@ == application_manifest_for(snippets.take(i as int)),
        decreases application.code_snippets.len() - i,
    {
        assert(snippets.take(i + 1).drop_last() =~= snippets.take(i as int));
        let snippet = &application.code_snippets[i];
        let ghost before = text@;
        assert(snippets[i as int] == snippet@);
        match place_of_snippet(snippet.title.as_str(), i) {
            SnippetPlace::Binary(name) => {
                let entry = binary_manifest_entry(name.as_str());
                push_str(&mut text, "\n");
                push_str(&mut text, entry.as_str());
                assert(text@ =~= before + binary_manifest_addition(name@));
            },
            _ => {
                assert(text@ =~= before + Seq::<char>::empty());
            },
        }
        i += 1;
    }
    assert(snippets.take(i as int) =~= snippets);
    string_of(text.as_slice())
}

} // verus!
