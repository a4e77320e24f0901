//! The C++ toolchain adapter: holds the resolved compiler configuration
//! and the file bindings of one program role, and constructs the exact
//! command lines that the unverified shell spawns for the compile step,
//! the run step, and the is-the-compiler-installed probe.

use vstd::prelude::*;
use vstd::string::StringExecFns;

verus! {

/// A path under `root`, as every adapter builds one: root, a slash, the
/// file name.
pub open spec fn joined(root: Seq<char>, name: Seq<char>) -> Seq<char> {
    root + seq!['/'] + name
}

/// Join a root directory and a file name with a slash.
pub fn join_path(root: &str, name: &str) -> (r: String)
    ensures
        r@ == joined(root@, name@),
{
    proof {
        reveal_strlit("/");
        assert("/"@ =~= seq!['/']);
    }
    let mut s = root.to_owned();
    s.append("/");
    s.append(name);
    s
}

/// The C++ adapter: one program role (generator, target, reference or
/// checker) bound to its source file, compiled artifact, and redirected
/// standard streams.
#[derive(Debug, Clone)]
pub struct Cpp {
    /// The compiler binary, e.g. `g++`.
    pub program: String,
    /// The source file, e.g. `main.cpp`.
    file_name: String,
    /// The language standard flag, e.g. `-std=c++17`.
    standard: String,
    /// The compiled artifact, e.g. `main.bin`.
    binary_file: String,
    /// Further compiler flags, e.g. `-Wall`.
    flags: Vec<String>,
    /// File the process reads as its standard input, if redirected.
    stdin: Option<String>,
    /// File that captures the process's standard output, if redirected.
    stdout: Option<String>,
    /// File that captures the process's standard error, if redirected.
    stderr: Option<String>,
}

impl Cpp {
    pub closed spec fn program_spec(&self) -> Seq<char> {
        self.program@
    }

    pub closed spec fn file_name_spec(&self) -> Seq<char> {
        self.file_name@
    }

    pub closed spec fn standard_spec(&self) -> Seq<char> {
        self.standard@
    }

    pub closed spec fn binary_file_spec(&self) -> Seq<char> {
        self.binary_file@
    }

    pub closed spec fn flags_spec(&self) -> Seq<Seq<char>> {
        self.flags.deep_view()
    }

    pub closed spec fn stdin_spec(&self) -> Option<Seq<char>> {
        self.stdin.deep_view()
    }

    pub closed spec fn stdout_spec(&self) -> Option<Seq<char>> {
        self.stdout.deep_view()
    }

    pub closed spec fn stderr_spec(&self) -> Option<Seq<char>> {
        self.stderr.deep_view()
    }

    pub fn new(
        program: String,
        file_name: String,
        standard: String,
        binary_file: String,
        flags: Vec<String>,
        stdin: Option<String>,
        stdout: Option<String>,
        stderr: Option<String>,
    ) -> (r: Cpp)
        ensures
            r.program_spec() == program@,
            r.file_name_spec() == file_name@,
            r.standard_spec() == standard@,
            r.binary_file_spec() == binary_file@,
            r.flags_spec() == flags.deep_view(),
            r.stdin_spec() == stdin.deep_view(),
            r.stdout_spec() == stdout.deep_view(),
            r.stderr_spec() == stderr.deep_view(),
    {
        Cpp { program, file_name, standard, binary_file, flags, stdin, stdout, stderr }
    }

    /// The arguments of the compile step, in the order they are handed to
    /// the compiler binary: the standard, the extra flags, then `-o`, the
    /// artifact, and the source file.
    pub fn build_args(&self) -> (r: Vec<String>)
        ensures
            r.deep_view() =~= seq![self.standard_spec()] + self.flags_spec() + seq![
                "-o"@,
                self.binary_file_spec(),
                self.file_name_spec(),
            ],
    {
        let mut r: Vec<String> = Vec::new();
        r.push(self.standard.clone());
        let mut i: usize = 0;
        while i < self.flags.len()
            invariant
                0 <= i <= self.flags@.len(),
                r.deep_view() =~= seq![self.standard@] + self.flags.deep_view().take(i as int),
            decreases self.flags@.len() - i,
        {
            let ghost r0 = r.deep_view();
            r.push(self.flags[i].clone());
            proof {
                assert(r.deep_view() =~~= r0.push(self.flags@[i as int]@));
                assert(r.deep_view() =~~= seq![self.standard@] + self.flags.deep_view().take(
                    i + 1,
                ));
            }
            i = i + 1;
        }
        proof {
            assert(self.flags.deep_view().take(self.flags@.len() as int) =~= self.flags.deep_view());
        }
        let ghost r1 = r.deep_view();
        r.push("-o".to_owned());
        r.push(self.binary_file.clone());
        r.push(self.file_name.clone());
        proof {
            assert(r.deep_view() =~~= r1 + seq!["-o"@, self.binary_file@, self.file_name@]);
        }
        r
    }

    /// The command of the run step: the compiled artifact alone.
    pub fn run_args(&self) -> (r: Vec<String>)
        ensures
            r.deep_view() =~= seq![self.binary_file_spec()],
    {
        let mut r: Vec<String> = Vec::new();
        r.push(self.binary_file.clone());
        r
    }

    /// The arguments of the toolchain probe: asking the compiler binary
    /// for its version is the side-effect-free way to see it is runnable.
    pub fn install_probe_args(&self) -> (r: Vec<String>)
        ensures
            r.deep_view() =~= seq!["--version"@],
    {
        let mut r: Vec<String> = Vec::new();
        r.push("--version".to_owned());
        r
    }

    /// Repoint the adapter's standard input without rebuilding it, as the
    /// checker step does when it reads the target's output as its input.
    pub fn set_stdio(&mut self, stdin: &str)
        ensures
            final(self).stdin_spec() == Some(stdin@),
            final(self).program_spec() == old(self).program_spec(),
            final(self).file_name_spec() == old(self).file_name_spec(),
            final(self).standard_spec() == old(self).standard_spec(),
            final(self).binary_file_spec() == old(self).binary_file_spec(),
            final(self).flags_spec() == old(self).flags_spec(),
            final(self).stdout_spec() == old(self).stdout_spec(),
            final(self).stderr_spec() == old(self).stderr_spec(),
    {
        self.stdin = Some(stdin.to_owned());
    }

    /// The file bound to the process's standard input, if any.
    pub fn stdin_path(&self) -> (r: Option<String>)
        ensures
            r.deep_view() == self.stdin_spec(),
    {
        match &self.stdin {
            Some(s) => Some(s.clone()),
            None => None,
        }
    }

    /// The file that captures the process's standard output, if any.
    pub fn stdout_path(&self) -> (r: Option<String>)
        ensures
            r.deep_view() == self.stdout_spec(),
    {
        match &self.stdout {
            Some(s) => Some(s.clone()),
            None => None,
        }
    }

    /// The file that captures the process's standard error, if any.
    pub fn stderr_path(&self) -> (r: Option<String>)
        ensures
            r.deep_view() == self.stderr_spec(),
    {
        match &self.stderr {
            Some(s) => Some(s.clone()),
            None => None,
        }
    }

    /// The adapter's display name.
    pub fn get_name(&self) -> (r: String)
        ensures
            r@ == "C++ Language"@,
    {
        "C++ Language".to_owned()
    }
}

/// The resolved per-language configuration: which compiler to invoke,
/// with which standard and flags. Immutable once resolved.
#[derive(Debug)]
pub struct CppConfig {
    pub program: String,
    pub standard: String,
    pub flags: Vec<String>,
}

impl Default for CppConfig {
    /// The stock configuration: `g++` with C++17 and warnings on.
    fn default() -> (r: CppConfig)
        ensures
            r.program@ == "g++"@,
            r.standard@ == "-std=c++17"@,
            r.flags.deep_view() =~= seq!["-Wall"@, "-DONLINE_JUDGE=1"@],
    {
        let mut flags: Vec<String> = Vec::new();
        flags.push("-Wall".to_owned());
        flags.push("-DONLINE_JUDGE=1".to_owned());
        CppConfig { program: "g++".to_owned(), standard: "-std=c++17".to_owned(), flags }
    }
}

/// A C++ adapter under `root` with the stock configuration and all three
/// standard streams redirected: the shape used for the target, reference
/// and checker roles.
pub fn gnucpp17_default(
    root: &str,
    file_name: &str,
    binary_file: &str,
    input_file: &str,
    output_file: &str,
    error_file: &str,
) -> (r: Cpp)
    ensures
        r.program_spec() == "g++"@,
        r.standard_spec() == "-std=c++17"@,
        r.flags_spec() =~= seq!["-Wall"@, "-DONLINE_JUDGE=1"@],
        r.file_name_spec() == joined(root@, file_name@),
        r.binary_file_spec() == joined(root@, binary_file@),
        r.stdin_spec() == Some(joined(root@, input_file@)),
        r.stdout_spec() == Some(joined(root@, output_file@)),
        r.stderr_spec() == Some(joined(root@, error_file@)),
{
    let stdin = join_path(root, input_file);
    let stdout = join_path(root, output_file);
    let stderr = join_path(root, error_file);
    let cpp = CppConfig::default();
    Cpp::new(
        cpp.program,
        join_path(root, file_name),
        cpp.standard,
        join_path(root, binary_file),
        cpp.flags,
        Some(stdin),
        Some(stdout),
        Some(stderr),
    )
}

/// A C++ adapter under `root` with the stock configuration and only the
/// standard output redirected: the shape used for the generator role,
/// which reads nothing and writes the shared input file.
pub fn gnucpp17_set_output(root: &str, file_name: &str, binary_file: &str, output_file: &str) -> (r:
    Cpp)
    ensures
        r.program_spec() == "g++"@,
        r.standard_spec() == "-std=c++17"@,
        r.flags_spec() =~= seq!["-Wall"@, "-DONLINE_JUDGE=1"@],
        r.file_name_spec() == joined(root@, file_name@),
        r.binary_file_spec() == joined(root@, binary_file@),
        r.stdin_spec() is None,
        r.stdout_spec() == Some(joined(root@, output_file@)),
        r.stderr_spec() is None,
{
    let stdout = join_path(root, output_file);
    let cpp = CppConfig::default();
    Cpp::new(
        cpp.program,
        join_path(root, file_name),
        cpp.standard,
        join_path(root, binary_file),
        cpp.flags,
        None,
        Some(stdout),
        None,
    )
}

} // verus!
