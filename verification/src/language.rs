//! Resolving a program file to a runnable language adapter: the checks
//! that gate it (file present, extension supported, toolchain installed,
//! compile step succeeded) and the role-appropriate stream wiring.
//!
//! The unverified shell performs the probes themselves — looking for the
//! file on disk, spawning the version query and the compile step — and
//! hands their boolean outcomes in; the decision logic and the adapter
//! construction are verified here.

use vstd::prelude::*;
use vstd::string::{StringExecFns, StringSliceAdditionalSpecFns};

use crate::cpp::{gnucpp17_default, gnucpp17_set_output, joined, Cpp};

verus! {

/// The shared input file of the working directory: the generator writes
/// it, the target and the reference read it.
pub const QTEST_INPUT_FILE: &'static str = "quicktest_input.txt";

/// The target's captured standard output; a checker reads it back.
pub const QTEST_OUTPUT_FILE: &'static str = "quicktest_output.txt";

/// Captured standard error of the target, reference or checker.
pub const QTEST_ERROR_FILE: &'static str = "quicktest_error.txt";

/// The checker's own captured output: its free-form reason text.
pub const QTEST_CHECKER_FILE: &'static str = "quicktest_checker_output.txt";

/// The reference program's captured output: the expected answer the
/// target's output is compared against.
pub const QTEST_EXPECTED_FILE: &'static str = "quicktest_expected_output.txt";

/// Why a program file could not be turned into a runnable adapter. The
/// first failed gate is reported: a missing file before an unsupported
/// extension, an uninstalled toolchain before a failed compile.
#[derive(Clone, Copy, Debug, PartialEq, Eq, Structural)]
pub enum ExecutorError {
    /// The program file does not exist.
    FileNotFound,
    /// The file's extension names no supported language.
    UnsupportedExtension,
    /// The toolchain for the language is not runnable on this machine.
    ToolNotInstalled,
    /// The compile step failed; no trial can possibly succeed.
    CompileFailed,
}

/// The UTF-8 bytes of the one supported source extension, `.cpp`.
pub open spec fn cpp_suffix() -> Seq<u8> {
    seq![46u8, 99u8, 112u8, 112u8]
}

/// `suffix` closes `s`.
pub open spec fn has_suffix(s: Seq<u8>, suffix: Seq<u8>) -> bool {
    s.len() >= suffix.len() && s.subrange(s.len() - suffix.len(), s.len() as int) == suffix
}

/// The path names a source file of a supported language.
pub open spec fn supported_path(path: &str) -> bool {
    has_suffix(path.spec_bytes(), cpp_suffix())
}

/// Whether a harness of this build can run the file: its extension must
/// name a supported language, and the only language wired up is C++.
pub fn is_extension_supported(path: &str) -> (r: bool)
    ensures
        r == supported_path(path),
{
    let b = path.as_bytes();
    if b.len() < 4 {
        return false;
    }
    let n = b.len();
    let r = b[n - 4] == 46u8 && b[n - 3] == 99u8 && b[n - 2] == 112u8 && b[n - 1] == 112u8;
    proof {
        if r {
            assert(b@.subrange(n - 4, n as int) =~= cpp_suffix());
        } else {
            assert(b@.subrange(n - 4, n as int)[0] == b@[n - 4]);
            assert(b@.subrange(n - 4, n as int)[1] == b@[n - 3]);
            assert(b@.subrange(n - 4, n as int)[2] == b@[n - 2]);
            assert(b@.subrange(n - 4, n as int)[3] == b@[n - 1]);
        }
    }
    r
}

/// The compiled artifact's name for a source file: the source path with
/// `.bin` appended.
pub open spec fn binary_name_of(path: Seq<char>) -> Seq<char> {
    path + ".bin"@
}

/// The gates every role passes before its adapter is handed out, in the
/// order the errors are reported.
pub open spec fn executor_gates_pass(
    path: &str,
    file_exists: bool,
    installed: bool,
    compile_ok: bool,
) -> bool {
    file_exists && supported_path(path) && installed && compile_ok
}

/// The error the first failed gate earns.
pub open spec fn executor_gate_error(
    path: &str,
    file_exists: bool,
    installed: bool,
    compile_ok: bool,
) -> ExecutorError {
    if !file_exists {
        ExecutorError::FileNotFound
    } else if !supported_path(path) {
        ExecutorError::UnsupportedExtension
    } else if !installed {
        ExecutorError::ToolNotInstalled
    } else {
        ExecutorError::CompileFailed
    }
}

/// Resolve the generator program: its standard output feeds the shared
/// input file, and it reads nothing. `file_exists`, `installed` and
/// `compile_ok` are the shell's probe outcomes for this file, in the
/// order the gates check them.
pub fn get_executor_generator(
    gen_file: &str,
    file_exists: bool,
    installed: bool,
    compile_ok: bool,
) -> (r: Result<Cpp, ExecutorError>)
    ensures
        r is Ok <==> executor_gates_pass(gen_file, file_exists, installed, compile_ok),
        r matches Err(e) ==> e == executor_gate_error(gen_file, file_exists, installed, compile_ok),
        r matches Ok(h) ==> {
            &&& h.program_spec() == "g++"@
            &&& h.file_name_spec() == joined("."@, gen_file@)
            &&& h.binary_file_spec() == joined("."@, binary_name_of(gen_file@))
            &&& h.stdin_spec() is None
            &&& h.stdout_spec() == Some(joined("."@, QTEST_INPUT_FILE@))
            &&& h.stderr_spec() is None
        },
{
    if !file_exists {
        return Err(ExecutorError::FileNotFound);
    }
    if !is_extension_supported(gen_file) {
        return Err(ExecutorError::UnsupportedExtension);
    }
    if !installed {
        return Err(ExecutorError::ToolNotInstalled);
    }
    if !compile_ok {
        return Err(ExecutorError::CompileFailed);
    }
    let binary = gen_file.to_owned().concat(".bin");
    Ok(gnucpp17_set_output(".", gen_file, binary.as_str(), QTEST_INPUT_FILE))
}

/// Resolve the target (or reference) program: it reads the shared input
/// file and writes its own output and error files.
pub fn get_executor_target(
    target_file: &str,
    file_exists: bool,
    installed: bool,
    compile_ok: bool,
) -> (r: Result<Cpp, ExecutorError>)
    ensures
        r is Ok <==> executor_gates_pass(target_file, file_exists, installed, compile_ok),
        r matches Err(e) ==> e == executor_gate_error(
            target_file,
            file_exists,
            installed,
            compile_ok,
        ),
        r matches Ok(h) ==> {
            &&& h.program_spec() == "g++"@
            &&& h.file_name_spec() == joined("."@, target_file@)
            &&& h.binary_file_spec() == joined("."@, binary_name_of(target_file@))
            &&& h.stdin_spec() == Some(joined("."@, QTEST_INPUT_FILE@))
            &&& h.stdout_spec() == Some(joined("."@, QTEST_OUTPUT_FILE@))
            &&& h.stderr_spec() == Some(joined("."@, QTEST_ERROR_FILE@))
        },
{
    if !file_exists {
        return Err(ExecutorError::FileNotFound);
    }
    if !is_extension_supported(target_file) {
        return Err(ExecutorError::UnsupportedExtension);
    }
    if !installed {
        return Err(ExecutorError::ToolNotInstalled);
    }
    if !compile_ok {
        return Err(ExecutorError::CompileFailed);
    }
    let binary = target_file.to_owned().concat(".bin");
    Ok(
        gnucpp17_default(
            ".",
            target_file,
            binary.as_str(),
            QTEST_INPUT_FILE,
            QTEST_OUTPUT_FILE,
            QTEST_ERROR_FILE,
        ),
    )
}

/// Resolve the reference program: like the target it reads the shared
/// input file, but its output lands in the expected-answer file the
/// comparator reads.
pub fn get_executor_reference(
    reference_file: &str,
    file_exists: bool,
    installed: bool,
    compile_ok: bool,
) -> (r: Result<Cpp, ExecutorError>)
    ensures
        r is Ok <==> executor_gates_pass(reference_file, file_exists, installed, compile_ok),
        r matches Err(e) ==> e == executor_gate_error(
            reference_file,
            file_exists,
            installed,
            compile_ok,
        ),
        r matches Ok(h) ==> {
            &&& h.program_spec() == "g++"@
            &&& h.file_name_spec() == joined("."@, reference_file@)
            &&& h.binary_file_spec() == joined("."@, binary_name_of(reference_file@))
            &&& h.stdin_spec() == Some(joined("."@, QTEST_INPUT_FILE@))
            &&& h.stdout_spec() == Some(joined("."@, QTEST_EXPECTED_FILE@))
            &&& h.stderr_spec() == Some(joined("."@, QTEST_ERROR_FILE@))
        },
{
    if !file_exists {
        return Err(ExecutorError::FileNotFound);
    }
    if !is_extension_supported(reference_file) {
        return Err(ExecutorError::UnsupportedExtension);
    }
    if !installed {
        return Err(ExecutorError::ToolNotInstalled);
    }
    if !compile_ok {
        return Err(ExecutorError::CompileFailed);
    }
    let binary = reference_file.to_owned().concat(".bin");
    Ok(
        gnucpp17_default(
            ".",
            reference_file,
            binary.as_str(),
            QTEST_INPUT_FILE,
            QTEST_EXPECTED_FILE,
            QTEST_ERROR_FILE,
        ),
    )
}

/// Resolve the checker program: it reads the target's output as its
/// input and writes its own verdict text and error file.
pub fn get_executor_checker(
    checker_file: &str,
    file_exists: bool,
    installed: bool,
    compile_ok: bool,
) -> (r: Result<Cpp, ExecutorError>)
    ensures
        r is Ok <==> executor_gates_pass(checker_file, file_exists, installed, compile_ok),
        r matches Err(e) ==> e == executor_gate_error(
            checker_file,
            file_exists,
            installed,
            compile_ok,
        ),
        r matches Ok(h) ==> {
            &&& h.program_spec() == "g++"@
            &&& h.file_name_spec() == joined("."@, checker_file@)
            &&& h.binary_file_spec() == joined("."@, binary_name_of(checker_file@))
            &&& h.stdin_spec() == Some(joined("."@, QTEST_OUTPUT_FILE@))
            &&& h.stdout_spec() == Some(joined("."@, QTEST_CHECKER_FILE@))
            &&& h.stderr_spec() == Some(joined("."@, QTEST_ERROR_FILE@))
        },
{
    if !file_exists {
        return Err(ExecutorError::FileNotFound);
    }
    if !is_extension_supported(checker_file) {
        return Err(ExecutorError::UnsupportedExtension);
    }
    if !installed {
        return Err(ExecutorError::ToolNotInstalled);
    }
    if !compile_ok {
        return Err(ExecutorError::CompileFailed);
    }
    let binary = checker_file.to_owned().concat(".bin");
    Ok(
        gnucpp17_default(
            ".",
            checker_file,
            binary.as_str(),
            QTEST_OUTPUT_FILE,
            QTEST_CHECKER_FILE,
            QTEST_ERROR_FILE,
        ),
    )
}

} // verus!
