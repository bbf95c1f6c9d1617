//! Assembling a Miden assembly library (an account component's code) from its source text.
use vstd::prelude::*;
use std::sync::Arc;
use miden_assembly::ast::{Module, ModuleKind};
use miden_assembly::{Assembler, DefaultSourceManager, Library, LibraryPath, PathError, Report};

verus! {

#[verifier::external_type_specification]
#[verifier::external_body]
pub struct ExAssembler(Assembler);

#[verifier::external_type_specification]
#[verifier::external_body]
pub struct ExLibrary(Library);

#[verifier::external_type_specification]
#[verifier::external_body]
pub struct ExLibraryPath(LibraryPath);

#[verifier::external_type_specification]
#[verifier::external_body]
pub struct ExPathError(PathError);

#[verifier::external_type_specification]
#[verifier::external_body]
pub struct ExReport(Report);

#[verifier::external_type_specification]
#[verifier::external_body]
pub struct ExModule(Module);

/// Why a library could not be made.
pub enum LibraryError {
    /// The library path is not a valid path (such as `external_contract::counter_contract`).
    InvalidPath(PathError),
    /// The source text does not parse as a library module.
    Parse(Report),
    /// The module parsed but the assembler could not assemble it.
    Assembly(Report),
}

/// Whether `LibraryPath::new` of `miden-assembly` accepts this text as a library path.
pub uninterp spec fn is_library_path(path: Seq<char>) -> bool;

/// Calls `LibraryPath::new` of `miden-assembly`. Trusted: it succeeds exactly on the texts
/// that the named predicate holds of (a function of the text alone; the path's rules,
/// namespace then `::`-separated identifiers, are not written out here).
#[verifier::external_body]
fn library_path_new(path: &str) -> (result: Result<LibraryPath, PathError>)
    ensures
        result is Ok <==> is_library_path(path@),
{
    LibraryPath::new(path)
}

/// Whether `ModuleParser::parse_str` of `miden-assembly` parses `source` as a library
/// module named by the library path `path`.
pub uninterp spec fn parses_as_library_module(path: Seq<char>, source: Seq<char>) -> bool;

/// The module that `ModuleParser::parse_str` of `miden-assembly` makes of `source` as a
/// library module named by the library path `path`.
pub uninterp spec fn parsed_module(path: Seq<char>, source: Seq<char>) -> Module;

/// Whether `Assembler::assemble_library` of `miden-assembly` assembles this one module with
/// this assembler.
pub uninterp spec fn assembles(assembler: Assembler, module: Module) -> bool;

/// The library that `Assembler::assemble_library` of `miden-assembly` makes of this one
/// module with this assembler.
pub uninterp spec fn assembled_library(assembler: Assembler, module: Module) -> Library;

/// Calls `ModuleParser::parse_str` of `miden-assembly` for a library module named by the
/// library path `path` (made with `LibraryPath::new`, which the `requires` says accepts it),
/// with a fresh default source manager. Trusted: it succeeds exactly when the named
/// predicate holds of the path and the source (a function of the two texts alone), and the
/// module is the named module of the two texts.
#[verifier::external_body]
fn parse_library_module(path: &str, source: &str) -> (result: Result<Box<Module>, Report>)
    requires
        is_library_path(path@),
    ensures
        result is Ok <==> parses_as_library_module(path@, source@),
        result matches Ok(module) ==> *module == parsed_module(path@, source@),
{
    let path = LibraryPath::new(path).expect("the path is a library path");
    let source_manager = Arc::new(DefaultSourceManager::default());
    Module::parser(ModuleKind::Library).parse_str(path, source, &*source_manager)
}

/// Calls `Assembler::assemble_library` of `miden-assembly` on one module. Trusted: it
/// succeeds exactly when the named predicate holds of the assembler and the module (the
/// outcome depends on these two alone), and the library is the named library of the two.
#[verifier::external_body]
fn assemble_library(assembler: Assembler, module: Box<Module>) -> (result: Result<Library, Report>)
    ensures
        result is Ok <==> assembles(assembler, *module),
        result matches Ok(library) ==> library == assembled_library(assembler, *module),
{
    assembler.assemble_library([module])
}

/// Parses `source_code` as the library module at `library_path` and assembles it with
/// `assembler`. Fails with `InvalidPath` exactly when the path is not a library path,
/// with `Parse` exactly when the path is one but the source does not parse as a library
/// module at it, and with `Assembly` exactly when the parsed module does not assemble;
/// otherwise it gives the library assembled from the parsed module.
pub fn create_library(assembler: Assembler, library_path: &str, source_code: &str) -> (result: Result<Library, LibraryError>)
    ensures
        result matches Err(LibraryError::InvalidPath(_)) <==> !is_library_path(library_path@),
        result matches Err(LibraryError::Parse(_)) <==> is_library_path(library_path@)
            && !parses_as_library_module(library_path@, source_code@),
        result matches Err(LibraryError::Assembly(_)) <==> is_library_path(library_path@)
            && parses_as_library_module(library_path@, source_code@)
            && !assembles(assembler, parsed_module(library_path@, source_code@)),
        result is Ok <==> is_library_path(library_path@) && parses_as_library_module(library_path@, source_code@)
            && assembles(assembler, parsed_module(library_path@, source_code@)),
        result matches Ok(library) ==> library == assembled_library(assembler, parsed_module(library_path@, source_code@)),
{
    match library_path_new(library_path) {
        Ok(_) => {},
        Err(e) => return Err(LibraryError::InvalidPath(e)),
    }
    let module = match parse_library_module(library_path, source_code) {
        Ok(module) => module,
        Err(e) => return Err(LibraryError::Parse(e)),
    };
    match assemble_library(assembler, module) {
        Ok(library) => Ok(library),
        Err(e) => Err(LibraryError::Assembly(e)),
    }
}

} // verus!
