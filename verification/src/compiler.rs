//! The two compilers, the optimization levels each test case is built at, and
//! the command line that builds it.

use crate::text::{decode_lossy, decoded_text, texts};
use vstd::prelude::*;
use vstd::string::*;

verus! {

/// One of the two compilers under comparison.
#[derive(Clone, Copy, Debug, PartialEq, Eq, Structural)]
pub enum CompilerKind {
    Rustc,
    Gccrs,
}

impl CompilerKind {
    /// The compiler's name.
    pub open spec fn spec_name(self) -> Seq<char> {
        match self {
            CompilerKind::Rustc => "rustc"@,
            CompilerKind::Gccrs => "gccrs"@,
        }
    }

    /// The compiler's name.
    pub fn name(self) -> (text: &'static str)
        ensures
            text@ == self.spec_name(),
    {
        match self {
            CompilerKind::Rustc => "rustc",
            CompilerKind::Gccrs => "gccrs",
        }
    }
}

/// An optimization level.
#[derive(Clone, Copy, Debug, PartialEq, Eq, Structural)]
pub enum Optimization {
    Zero,
    One,
    Two,
    Three,
    S,
    Z,
}

/// The levels at which every test case is built, in the order in which they
/// are tried.
pub open spec fn all_levels() -> Seq<Optimization> {
    seq![
        Optimization::Zero,
        Optimization::One,
        Optimization::Two,
        Optimization::Three,
        Optimization::S,
        Optimization::Z,
    ]
}

/// The levels at which every test case is built.
pub fn optimization_levels() -> (levels: Vec<Optimization>)
    ensures
        levels@ == all_levels(),
{
    let mut levels: Vec<Optimization> = Vec::new();
    levels.push(Optimization::Zero);
    levels.push(Optimization::One);
    levels.push(Optimization::Two);
    levels.push(Optimization::Three);
    levels.push(Optimization::S);
    levels.push(Optimization::Z);
    assert(levels@ =~= all_levels());
    levels
}

/// The levels at which a session analyses each test case: the lowest alone
/// where optimization is switched off, else all of them.
pub open spec fn levels_to_analyze(no_opt: bool) -> Seq<Optimization> {
    if no_opt {
        seq![Optimization::Zero]
    } else {
        all_levels()
    }
}

/// The levels at which a session analyses each test case.
pub fn analysis_levels(no_opt: bool) -> (levels: Vec<Optimization>)
    ensures
        levels@ == levels_to_analyze(no_opt),
{
    if no_opt {
        let mut levels: Vec<Optimization> = Vec::new();
        levels.push(Optimization::Zero);
        assert(levels@ =~= levels_to_analyze(no_opt));
        levels
    } else {
        optimization_levels()
    }
}

/// The name under which a test case is analysed at one level.
pub open spec fn spec_analysis_name(case: Seq<char>, level: Optimization) -> Seq<char> {
    case + " with optimization="@ + level.spec_numeric()
}

/// The name under which a test case is analysed at one level.
pub fn analysis_name(case: &str, level: Optimization) -> (name: String)
    ensures
        name@ == spec_analysis_name(case@, level),
{
    let mut name = String::from_str(case);
    name.append(" with optimization=");
    name.append(level.numeric());
    name
}

impl Optimization {
    /// The level as it is written on a command line.
    pub open spec fn spec_numeric(self) -> Seq<char> {
        match self {
            Optimization::Zero => "0"@,
            Optimization::One => "1"@,
            Optimization::Two => "2"@,
            Optimization::Three => "3"@,
            Optimization::S => "s"@,
            Optimization::Z => "z"@,
        }
    }

    /// The level as it is written on a command line.
    pub fn numeric(self) -> (text: &'static str)
        ensures
            text@ == self.spec_numeric(),
    {
        match self {
            Optimization::Zero => "0",
            Optimization::One => "1",
            Optimization::Two => "2",
            Optimization::Three => "3",
            Optimization::S => "s",
            Optimization::Z => "z",
        }
    }

    /// The arguments that ask `compiler` for this level: `-O` and the level
    /// for gccrs, `-C` and `opt-level=` with the level for rustc.
    pub open spec fn spec_for_compiler(self, compiler: CompilerKind) -> Seq<Seq<char>> {
        match compiler {
            CompilerKind::Gccrs => seq!["-O"@ + self.spec_numeric()],
            CompilerKind::Rustc => seq!["-C"@, "opt-level="@ + self.spec_numeric()],
        }
    }

    /// The arguments that ask `compiler` for this level.
    pub fn for_compiler(self, compiler: CompilerKind) -> (flags: Vec<String>)
        ensures
            texts(flags@) == self.spec_for_compiler(compiler),
    {
        let mut flags: Vec<String> = Vec::new();
        match compiler {
            CompilerKind::Gccrs => {
                let mut flag = String::from_str("-O");
                flag.append(self.numeric());
                flags.push(flag);
            },
            CompilerKind::Rustc => {
                flags.push(String::from_str("-C"));
                let mut flag = String::from_str("opt-level=");
                flag.append(self.numeric());
                flags.push(flag);
            },
        }
        assert(texts(flags@) =~= self.spec_for_compiler(compiler));
        flags
    }
}

/// Where the binary that `compiler` builds at `level` is put.
pub open spec fn spec_binary_path(compiler: CompilerKind, level: Optimization) -> Seq<char> {
    "out/"@ + compiler.spec_name() + "_"@ + level.spec_numeric() + ".out"@
}

/// Where the binary that `compiler` builds at `level` is put.
pub fn binary_path(compiler: CompilerKind, level: Optimization) -> (path: String)
    ensures
        path@ == spec_binary_path(compiler, level),
{
    let mut path = String::from_str("out/");
    path.append(compiler.name());
    path.append("_");
    path.append(level.numeric());
    path.append(".out");
    path
}

/// The arguments of one compiler run: the source file, the configured
/// arguments, those for the level, then `-o` and the path of the binary.
pub open spec fn spec_compiler_arguments(
    src_file_path: Seq<char>,
    args: Seq<Seq<char>>,
    level: Optimization,
    compiler: CompilerKind,
) -> Seq<Seq<char>> {
    seq![src_file_path] + args + level.spec_for_compiler(compiler) + seq![
        "-o"@,
        spec_binary_path(compiler, level),
    ]
}

/// The arguments of one compiler run.
pub fn compiler_arguments(
    src_file_path: &str,
    args: &Vec<String>,
    level: Optimization,
    compiler: CompilerKind,
) -> (line: Vec<String>)
    ensures
        texts(line@) == spec_compiler_arguments(src_file_path@, texts(args@), level, compiler),
{
    let mut line: Vec<String> = Vec::new();
    line.push(String::from_str(src_file_path));
    let mut i: usize = 0;
    while i < args.len()
        invariant
            i <= args.len(),
            line@.len() == 1 + i,
            line@[0]@ == src_file_path@,
            forall|k: int| 0 <= k < i ==> line@[1 + k]@ == args@[k]@,
        decreases args.len() - i,
    {
        let arg = args[i].clone();
        line.push(arg);
        i += 1;
    }
    let flags = level.for_compiler(compiler);
    let mut j: usize = 0;
    while j < flags.len()
        invariant
            j <= flags.len(),
            line@.len() == 1 + args.len() + j,
            line@[0]@ == src_file_path@,
            forall|k: int| 0 <= k < args.len() ==> line@[1 + k]@ == args@[k]@,
            forall|k: int| 0 <= k < j ==> line@[1 + args.len() + k]@ == flags@[k]@,
        decreases flags.len() - j,
    {
        let flag = flags[j].clone();
        line.push(flag);
        j += 1;
    }
    assert(forall|k: int|
        0 <= k < flags.len() ==> texts(flags@)[k] == #[trigger] flags@[k]@);
    line.push(String::from_str("-o"));
    line.push(binary_path(compiler, level));
    assert(texts(line@) =~= spec_compiler_arguments(
        src_file_path@,
        texts(args@),
        level,
        compiler,
    ));
    line
}

/// A compiler run that did not succeed.
#[derive(Clone, Debug, PartialEq, Eq)]
pub struct CompilationFailure {
    /// The name of the compiler.
    pub compiler: String,
    /// What the compiler wrote to standard error.
    pub message: String,
}

impl CompilationFailure {
    /// The message of this error.
    pub open spec fn spec_message(self) -> Seq<char> {
        "Compilation error for "@ + self.compiler@ + ":\n "@ + self.message@
    }

    /// The message of this error.
    pub fn to_message(&self) -> (text: String)
        ensures
            text@ == self.spec_message(),
    {
        let mut text = String::from_str("Compilation error for ");
        text.append(self.compiler.as_str());
        text.append(":\n ");
        text.append(self.message.as_str());
        text
    }
}

/// Judges one compiler run: a run that did not succeed is a failure that
/// carries the compiler's name and its standard error as text.
pub fn check_compilation(compiler: CompilerKind, success: bool, stderr: &Vec<u8>) -> (outcome:
    Result<(), CompilationFailure>)
    ensures
        success <==> outcome is Ok,
        !success ==> outcome->Err_0.compiler@ == compiler.spec_name() && outcome->Err_0.message@
            == decoded_text(stderr@),
{
    if success {
        Ok(())
    } else {
        Err(
            CompilationFailure {
                compiler: String::from_str(compiler.name()),
                message: decode_lossy(stderr),
            },
        )
    }
}

} // verus!
