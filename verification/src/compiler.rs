//! Compiling Stoffel source to bytecode with the Stoffel-Lang compiler.
//!
//! The compiler itself is the `stoffellang` crate; this module chooses its
//! options, turns its diagnostics into the library's error and serializes the
//! program it produces.

use vstd::prelude::*;
use crate::error::{Error, ErrorView, rview};
use crate::text::{concat_str, owned};

verus! {

#[verifier::external_type_specification]
#[verifier::external_body]
pub struct ExCompiledProgram(stoffellang::CompiledProgram);

#[verifier::external_type_specification]
#[verifier::external_body]
pub struct ExCompiledBinary(stoffellang::stoffel_vm_types::compiled_binary::CompiledBinary);

/// The texts of a list of strings.
pub open spec fn texts(v: Seq<String>) -> Seq<Seq<char>> {
    v.map_values(|s: String| s@)
}

/// The options handed to the compiler with a source text: the file name it
/// is compiled under and the fields set in `stoffellang::CompilerOptions`.
pub struct CompileSettings {
    /// The file name used in diagnostics.
    pub filename: String,
    /// Whether optimization passes run.
    pub optimize: bool,
    /// The optimization level (0 to 3).
    pub level: u8,
    /// Whether the intermediate forms are printed.
    pub print_ir: bool,
}

/// Calls `stoffellang::compile(source, &settings.filename, &options)`, where
/// `options` is `CompilerOptions::default()` with `optimize`,
/// `optimization_level` and `print_ir` taken from `settings`; a rejection
/// hands back the `Display` text of each `CompilerError`, in order. Nothing
/// is claimed of the outcome: besides the arguments it depends on the
/// environment (`STOFFEL_CONST_PIN_MAX` and `STOFFEL_SPILL_CACHE` steer
/// register allocation, which can fail), and the texts of the diagnostics
/// may name any of several equally close identifiers, picked in the order in
/// which a hash map is walked. With `print_ir` the compiler also prints its
/// intermediate forms to standard output.
#[verifier::external_body]
fn stoffellang_compile(source: &str, settings: &CompileSettings) -> (r: Result<
    stoffellang::CompiledProgram,
    Vec<String>,
>)
{
    let mut options = stoffellang::CompilerOptions::default();
    options.optimize = settings.optimize;
    options.optimization_level = settings.level;
    options.print_ir = settings.print_ir;
    stoffellang::compile(source, settings.filename.as_str(), &options)
        .map_err(|errors| errors.iter().map(|e| format!("{}", e)).collect())
}

/// Calls `stoffellang::convert_to_binary`, which lays out a compiled program
/// in the VM's binary form. Nothing is claimed of the result.
#[verifier::external_body]
fn stoffellang_convert(program: &stoffellang::CompiledProgram) -> (b:
    stoffellang::stoffel_vm_types::compiled_binary::CompiledBinary)
{
    stoffellang::convert_to_binary(program)
}

/// Calls `CompiledBinary::serialize` into a fresh `Vec<u8>`; an error comes
/// back as its `Debug` text. Nothing is claimed of the bytes: they depend on
/// the binary, which Verus does not see into.
#[verifier::external_body]
fn serialize_binary(
    binary: &stoffellang::stoffel_vm_types::compiled_binary::CompiledBinary,
) -> (r: Result<Vec<u8>, String>)
{
    let mut buffer: Vec<u8> = Vec::new();
    match binary.serialize(&mut buffer) {
        Ok(()) => Ok(buffer),
        Err(e) => Err(format!("{:?}", e)),
    }
}

/// Optimization levels of the compiler.
#[derive(Clone, Copy, Debug, PartialEq, Eq, Structural)]
pub enum OptimizationLevel {
    /// No optimization.
    O0,
    /// Basic optimization.
    O1,
    /// Moderate optimization.
    O2,
    /// Aggressive optimization.
    O3,
}

/// The number of a level, as the compiler's options take it.
pub open spec fn level_number(level: OptimizationLevel) -> u8 {
    match level {
        OptimizationLevel::O0 => 0,
        OptimizationLevel::O1 => 1,
        OptimizationLevel::O2 => 2,
        OptimizationLevel::O3 => 3,
    }
}

fn level_to_u8(level: OptimizationLevel) -> (n: u8)
    ensures
        n == level_number(level),
{
    match level {
        OptimizationLevel::O0 => 0,
        OptimizationLevel::O1 => 1,
        OptimizationLevel::O2 => 2,
        OptimizationLevel::O3 => 3,
    }
}

/// The file name under which source text is compiled.
pub open spec fn source_file_name() -> Seq<char> {
    "source.stfl"@
}

/// The diagnostics joined into one text, one per line.
pub open spec fn joined_lines(lines: Seq<Seq<char>>) -> Seq<char>
    decreases lines.len(),
{
    if lines.len() == 0 {
        Seq::empty()
    } else if lines.len() == 1 {
        lines[0]
    } else {
        joined_lines(lines.drop_last()) + "\n"@ + lines.last()
    }
}

/// The prefix of the message given when the binary cannot be serialized.
pub open spec fn serialize_failure_prefix() -> Seq<char> {
    "Failed to serialize binary: "@
}

/// The error for a program that the compiler rejected: its diagnostics joined
/// into one message, one per line.
pub fn compilation_failure(errors: &Vec<String>) -> (e: Error)
    ensures
        e matches Error::Compilation(m) && m@ == joined_lines(texts(errors@)),
{
    let mut m = String::new();
    let mut i: usize = 0;
    while i < errors.len()
        invariant
            i <= errors@.len(),
            m@ == joined_lines(texts(errors@).take(i as int)),
        decreases errors@.len() - i,
    {
        let ghost before = texts(errors@).take(i as int);
        if i > 0 {
            m = concat_str(m, "\n");
        }
        m = concat_str(m, errors[i].as_str());
        proof {
            let after = texts(errors@).take(i + 1);
            assert(after.drop_last() =~= before);
            assert(after.last() == errors@[i as int]@);
            if i == 0 {
                assert(after.len() == 1);
            }
        }
        i = i + 1;
    }
    assert(texts(errors@).take(errors@.len() as int) =~= texts(errors@));
    Error::Compilation(m)
}

/// The error for a binary that could not be serialized, with the reason.
pub fn serialization_failure(reason: String) -> (e: Error)
    ensures
        e matches Error::Compilation(m) && m@ == serialize_failure_prefix() + reason@,
{
    Error::Compilation(concat_str(owned("Failed to serialize binary: "), reason.as_str()))
}

/// The bytecode of a compiled program from what serializing its binary
/// gave: the bytes as they are, or the serialization failure.
pub fn finish_compilation(serialized: Result<Vec<u8>, String>) -> (r: Result<Vec<u8>, Error>)
    ensures
        match serialized {
            Ok(b) => r matches Ok(c) && c@ == b@,
            Err(reason) => r matches Err(Error::Compilation(m)) && m@ == serialize_failure_prefix()
                + reason@,
        },
{
    match serialized {
        Ok(bytes) => Ok(bytes),
        Err(reason) => Err(serialization_failure(reason)),
    }
}

/// High-level compiler for Stoffel source code.
pub struct Compiler {
    optimize: bool,
    optimization_level: OptimizationLevel,
    print_ir: bool,
}

/// Bytecode and, when asked for, a note on the intermediate representation.
pub struct CompilationOutput {
    /// The compiled bytecode.
    pub bytecode: Vec<u8>,
    /// The intermediate representation, if requested.
    pub ir: Option<String>,
}

/// What compiling can give, whatever the compiler does: bytecode, or a
/// compilation error (the compiler's diagnostics joined one per line, see
/// [`compilation_failure`], or a serialization failure, see
/// [`finish_compilation`]).
pub open spec fn compile_outcome(r: Result<Vec<u8>, Error>) -> bool {
    r is Ok || r matches Err(Error::Compilation(_))
}

impl Compiler {
    /// Whether optimization is enabled.
    pub closed spec fn optimize_enabled(&self) -> bool {
        self.optimize
    }

    /// The optimization level.
    pub closed spec fn level(&self) -> OptimizationLevel {
        self.optimization_level
    }

    /// Whether the intermediate representation is printed.
    pub closed spec fn prints_ir(&self) -> bool {
        self.print_ir
    }

    /// A compiler without optimization and without printing.
    pub fn new() -> (c: Self)
        ensures
            !c.optimize_enabled(),
            c.level() == OptimizationLevel::O0,
            !c.prints_ir(),
    {
        Compiler { optimize: false, optimization_level: OptimizationLevel::O0, print_ir: false }
    }

    /// Enables or disables optimization; enabling it at level `O0` raises
    /// the level to `O2`.
    pub fn optimize(self, enable: bool) -> (c: Self)
        ensures
            c.optimize_enabled() == enable,
            c.level() == (if enable && self.level() == OptimizationLevel::O0 {
                OptimizationLevel::O2
            } else {
                self.level()
            }),
            c.prints_ir() == self.prints_ir(),
    {
        let mut c = self;
        c.optimize = enable;
        if enable && c.optimization_level == OptimizationLevel::O0 {
            c.optimization_level = OptimizationLevel::O2;
        }
        c
    }

    /// Sets the level; optimization is enabled exactly when it is not `O0`.
    pub fn optimization_level(self, level: OptimizationLevel) -> (c: Self)
        ensures
            c.level() == level,
            c.optimize_enabled() == (level != OptimizationLevel::O0),
            c.prints_ir() == self.prints_ir(),
    {
        let mut c = self;
        c.optimization_level = level;
        c.optimize = level != OptimizationLevel::O0;
        c
    }

    /// Enables or disables printing of the intermediate representation.
    pub fn print_ir(self, enable: bool) -> (c: Self)
        ensures
            c.prints_ir() == enable,
            c.optimize_enabled() == self.optimize_enabled(),
            c.level() == self.level(),
    {
        let mut c = self;
        c.print_ir = enable;
        c
    }

    /// The settings handed to the compiler: the file name `source.stfl`,
    /// this compiler's optimization flag and level, and `print_ir`.
    pub fn settings(&self, print_ir: bool) -> (c: CompileSettings)
        ensures
            c.filename@ == source_file_name(),
            c.optimize == self.optimize_enabled(),
            c.level == level_number(self.level()),
            c.print_ir == print_ir,
    {
        CompileSettings {
            filename: owned("source.stfl"),
            optimize: self.optimize,
            level: level_to_u8(self.optimization_level),
            print_ir,
        }
    }

    /// Compiles source text to bytecode, with the [`Compiler::settings`] of
    /// this compiler (printing the intermediate forms when it was asked to).
    pub fn compile_source(&self, source: &str) -> (r: Result<Vec<u8>, Error>)
        ensures
            compile_outcome(r),
    {
        self.compile_with_settings(source, self.settings(self.print_ir))
    }

    fn compile_with_settings(&self, source: &str, settings: CompileSettings) -> (r: Result<
        Vec<u8>,
        Error,
    >)
        ensures
            compile_outcome(r),
    {
        let compiled = match stoffellang_compile(source, &settings) {
            Ok(p) => p,
            Err(errors) => {
                return Err(compilation_failure(&errors));
            },
        };
        let binary = stoffellang_convert(&compiled);
        let serialized = serialize_binary(&binary);
        finish_compilation(serialized)
    }

    /// Compiles with printing of the intermediate representation enabled; the
    /// compiler prints it to standard output, and the output carries a note
    /// that says so.
    pub fn compile_with_ir(&self, source: &str) -> (r: Result<CompilationOutput, Error>)
        ensures
            match r {
                Ok(out) => out.ir matches Some(note) && note@ == ir_note(),
                Err(e) => e matches Error::Compilation(_),
            },
    {
        match self.compile_with_settings(source, self.settings(true)) {
            Ok(bytecode) => Ok(CompilationOutput {
                bytecode,
                ir: Some(owned("IR printed to stdout (see console)")),
            }),
            Err(e) => Err(e),
        }
    }
}

/// The note that stands for the intermediate representation.
pub open spec fn ir_note() -> Seq<char> {
    "IR printed to stdout (see console)"@
}

impl Default for Compiler {
    fn default() -> (c: Self)
        ensures
            !c.optimize_enabled(),
            c.level() == OptimizationLevel::O0,
            !c.prints_ir(),
    {
        Compiler::new()
    }
}

} // verus!
