use vstd::prelude::*;
use std::path::Path;
use crate::gfx::device::{first_true, spec_first_true};

verus! {

/// The part of `path` after its last `/`, all of it when it has none.
pub open spec fn after_last_slash(path: Seq<char>) -> Seq<char>
    decreases path.len(),
{
    if path.len() == 0 {
        path
    } else if path.last() == '/' {
        Seq::empty()
    } else {
        after_last_slash(path.drop_last()).push(path.last())
    }
}

/// A path that every platform splits on `/` alone: it holds no `\` and no `:` and does not
/// start with two `/` (which Windows reads as a network share), so it has no prefix and no
/// other separator.
pub open spec fn portable_path(path: Seq<char>) -> bool {
    &&& !path.contains('\\')
    &&& !path.contains(':')
    &&& !(path.len() >= 2 && path[0] == '/' && path[1] == '/')
}

/// The component `..`, which names the parent directory.
pub open spec fn parent_component() -> Seq<char> {
    seq!['.', '.']
}

/// A path component that names a file or a directory: not empty, not `.` and not `..`.
pub open spec fn normal_component(c: Seq<char>) -> bool {
    c.len() > 0 && c != seq!['.'] && c != parent_component()
}

/// Calls `std::path::Path::file_name` (then `OsStr::to_str`), which gives the final component
/// of `path` when it names a file or a directory. Trusted to give, for a path split on `/`
/// alone, the text after its last `/` when that is such a component, and nothing for the
/// empty path or for `..`; what it gives for other paths depends on the platform's path
/// syntax and is not stated.
#[verifier::external_body]
fn path_file_name(path: &str) -> (r: Option<String>)
    ensures
        portable_path(path@) && normal_component(after_last_slash(path@)) ==> r is Some,
        portable_path(path@) && normal_component(after_last_slash(path@)) ==> r.unwrap()@ == after_last_slash(path@),
        path@.len() == 0 ==> r is None,
        path@ == parent_component() ==> r is None,
{
    match Path::new(path).file_name() {
        Some(name) => name.to_str().map(|s| s.to_string()),
        None => None,
    }
}

/// The path starts with a separator, `/` or `\\`.
pub open spec fn starts_with_separator(path: Seq<char>) -> bool {
    path.len() > 0 && (path[0] == '/' || path[0] == '\\')
}

/// Calls `std::path::Path::is_absolute`. What makes a path absolute depends on the platform
/// (a root on Unix, a drive or network prefix with a root on Windows); trusted to say that a
/// path starting with no separator and holding no `:` is not absolute, which holds on every
/// platform, and nothing of other paths.
#[verifier::external_body]
fn path_is_absolute(path: &str) -> (r: bool)
    ensures
        !starts_with_separator(path@) && !path@.contains(':') ==> !r,
{
    Path::new(path).is_absolute()
}

/// The stage a shader is compiled for.
#[allow(non_camel_case_types)]
#[derive(Clone, Copy, Debug, PartialEq, Eq, Structural)]
pub enum ShaderStage {
    VERTEX,
    PIXEL,
    COMPUTE,
}

/// Where the source code of a shader is.
#[derive(Clone, Debug, PartialEq, Eq)]
pub enum ShaderCode {
    /// The code itself.
    Inline(String),
    /// A file to load through the include handler.
    File(String),
}

/// A shader to compile: its file name, where its code is, its entry point and target profile.
pub trait ShaderDefinition {
    fn file_name(&self) -> Option<String>;

    fn code(&self) -> ShaderCode;

    fn entry_point(&self) -> &String;

    fn target_profile(&self) -> &String;
}

/// A shader whose code is in a file.
pub struct ShaderFileDefinition {
    path: String,
    entry_point: String,
    target_profile: String,
}

impl ShaderFileDefinition {
    pub closed spec fn spec_path(&self) -> Seq<char> {
        self.path@
    }

    pub closed spec fn spec_entry_point(&self) -> Seq<char> {
        self.entry_point@
    }

    pub closed spec fn spec_target_profile(&self) -> Seq<char> {
        self.target_profile@
    }

    /// The shader in the file at `path`, with entry point `main`.
    pub fn new(path: String, target_profile: &str) -> (r: ShaderFileDefinition)
        ensures
            r.spec_path() == path@,
            r.spec_entry_point() == "main"@,
            r.spec_target_profile() == target_profile@,
    {
        ShaderFileDefinition { path, entry_point: "main".to_owned(), target_profile: target_profile.to_owned() }
    }

    /// The same shader with another entry point.
    pub fn set_entry_point(self, entry_point: String) -> (r: ShaderFileDefinition)
        ensures
            r.spec_path() == self.spec_path(),
            r.spec_entry_point() == entry_point@,
            r.spec_target_profile() == self.spec_target_profile(),
    {
        let mut this = self;
        this.entry_point = entry_point;
        this
    }

    pub fn path(&self) -> (r: &String)
        ensures
            r@ == self.spec_path(),
    {
        &self.path
    }
}

impl ShaderDefinition for ShaderFileDefinition {
    /// The last component of the path: the text after its last `/` for a path that every
    /// platform splits on `/`, nothing for an empty path or `..`.
    fn file_name(&self) -> (r: Option<String>)
        ensures
            portable_path(self.spec_path()) && normal_component(after_last_slash(self.spec_path())) ==> (r matches Some(
                n,
            ) && n@ == after_last_slash(self.spec_path())),
            self.spec_path().len() == 0 ==> r is None,
            self.spec_path() == parent_component() ==> r is None,
    {
        path_file_name(self.path.as_str())
    }

    fn code(&self) -> (r: ShaderCode)
        ensures
            r matches ShaderCode::File(p) && p@ == self.spec_path(),
    {
        ShaderCode::File(self.path.clone())
    }

    fn entry_point(&self) -> (r: &String)
        ensures
            r@ == self.spec_entry_point(),
    {
        &self.entry_point
    }

    fn target_profile(&self) -> (r: &String)
        ensures
            r@ == self.spec_target_profile(),
    {
        &self.target_profile
    }
}

/// A shader whose code is given as text.
pub struct RawShaderDefinition {
    filename: String,
    data: String,
    entry_point: String,
    target_profile: String,
}

impl RawShaderDefinition {
    pub closed spec fn spec_filename(&self) -> Seq<char> {
        self.filename@
    }

    pub closed spec fn spec_data(&self) -> Seq<char> {
        self.data@
    }

    pub closed spec fn spec_entry_point(&self) -> Seq<char> {
        self.entry_point@
    }

    pub closed spec fn spec_target_profile(&self) -> Seq<char> {
        self.target_profile@
    }

    /// The shader with code `data`, reported as `filename`, with entry point `main`.
    pub fn new(filename: &str, target_profile: &str, data: String) -> (r: RawShaderDefinition)
        ensures
            r.spec_filename() == filename@,
            r.spec_data() == data@,
            r.spec_entry_point() == "main"@,
            r.spec_target_profile() == target_profile@,
    {
        RawShaderDefinition {
            filename: filename.to_owned(),
            data,
            entry_point: "main".to_owned(),
            target_profile: target_profile.to_owned(),
        }
    }

    /// The same shader with another entry point.
    pub fn set_entry_point(self, entry_point: String) -> (r: RawShaderDefinition)
        ensures
            r.spec_filename() == self.spec_filename(),
            r.spec_data() == self.spec_data(),
            r.spec_entry_point() == entry_point@,
            r.spec_target_profile() == self.spec_target_profile(),
    {
        let mut this = self;
        this.entry_point = entry_point;
        this
    }

    pub fn file_name_of(&self) -> (r: String)
        ensures
            r@ == self.spec_filename(),
    {
        self.filename.clone()
    }

    pub fn code_of(&self) -> (r: String)
        ensures
            r@ == self.spec_data(),
    {
        self.data.clone()
    }

    pub fn entry_point_of(&self) -> (r: &String)
        ensures
            r@ == self.spec_entry_point(),
    {
        &self.entry_point
    }

    pub fn target_profile_of(&self) -> (r: &String)
        ensures
            r@ == self.spec_target_profile(),
    {
        &self.target_profile
    }
}

impl ShaderDefinition for RawShaderDefinition {
    fn file_name(&self) -> (r: Option<String>)
        ensures
            r matches Some(n) && n@ == self.spec_filename(),
    {
        Some(self.file_name_of())
    }

    fn code(&self) -> (r: ShaderCode)
        ensures
            r matches ShaderCode::Inline(c) && c@ == self.spec_data(),
    {
        ShaderCode::Inline(self.code_of())
    }

    fn entry_point(&self) -> (r: &String)
        ensures
            r@ == self.spec_entry_point(),
    {
        self.entry_point_of()
    }

    fn target_profile(&self) -> (r: &String)
        ensures
            r@ == self.spec_target_profile(),
    {
        self.target_profile_of()
    }
}

/// Compiled SPIR-V byte code.
pub struct SpirV {
    raw: Vec<u8>,
}

impl SpirV {
    pub closed spec fn spec_raw(&self) -> Seq<u8> {
        self.raw@
    }

    pub fn from_raw(raw: Vec<u8>) -> (r: SpirV)
        ensures
            r.spec_raw() == raw@,
    {
        SpirV { raw }
    }

    /// The byte code.
    pub fn raw(self) -> (r: Vec<u8>)
        ensures
            r@ == self.spec_raw(),
    {
        self.raw
    }
}

/// The directories searched, in order, for a shader file given by a relative path.
pub open spec fn spec_search_dirs() -> Seq<Seq<char>> {
    seq!["./shaders/"@, "./"@]
}

/// Finds the files that shader sources and their includes name.
pub struct IncludeHandler {}

impl IncludeHandler {
    pub fn new() -> (r: IncludeHandler) {
        IncludeHandler {}
    }

    /// The files to try, in order, for the source at `path`: the path itself when it is
    /// absolute, else the path in `./shaders/` and then in `./`. The first of them that exists
    /// is the one that is read.
    pub fn candidates(&self, path: &str, is_absolute: bool) -> (r: Vec<String>)
        ensures
            is_absolute ==> r@.len() == 1 && r@[0]@ == path@,
            !is_absolute ==> r@.len() == 2 && r@[0]@ == spec_search_dirs()[0] + path@ && r@[1]@
                == spec_search_dirs()[1] + path@,
    {
        let mut out: Vec<String> = Vec::new();
        if is_absolute {
            out.push(path.to_owned());
        } else {
            let mut shaders_dir = "./shaders/".to_owned();
            shaders_dir.append(path);
            out.push(shaders_dir);
            let mut current_dir = "./".to_owned();
            current_dir.append(path);
            out.push(current_dir);
        }
        out
    }

    /// The files to try, in order, for the source at `path`, whether it is absolute being
    /// what the platform says of it: a path starting with no separator and holding no `:` is
    /// relative and looked for in `./shaders/` and then in `./`.
    pub fn source_candidates(&self, path: &str) -> (r: Vec<String>)
        ensures
            r@.len() == 1 ==> r@[0]@ == path@,
            r@.len() == 2 ==> r@[0]@ == spec_search_dirs()[0] + path@ && r@[1]@ == spec_search_dirs()[1] + path@,
            r@.len() == 1 || r@.len() == 2,
            !starts_with_separator(path@) && !path@.contains(':') ==> r@.len() == 2,
    {
        let is_absolute = path_is_absolute(path);
        self.candidates(path, is_absolute)
    }

    /// Which candidate is read: the first one that exists (`exists` tells, candidate by
    /// candidate), none when none does.
    pub fn chosen_candidate(&self, exists: &Vec<bool>) -> (r: Option<usize>)
        ensures
            match r {
                Some(i) => spec_first_true(exists@) == Some(i as int),
                None => spec_first_true(exists@) is None,
            },
    {
        first_true(exists)
    }
}

/// Why a shader could not be compiled.
#[derive(Clone, Copy, Debug, PartialEq, Eq, Structural)]
pub enum ShaderError {
    SourceNotFound,
    CompilationFailed,
}

/// Compiles shaders to SPIR-V, finding included files through its include handler.
pub struct HlslCompiler {
    include_handler: IncludeHandler,
}

impl HlslCompiler {
    pub fn new() -> (r: Result<HlslCompiler, ShaderError>)
        ensures
            r is Ok,
    {
        let include_handler = IncludeHandler::new();
        Ok(HlslCompiler { include_handler })
    }

    pub fn include_handler(&self) -> &IncludeHandler {
        &self.include_handler
    }
}

} // verus!
