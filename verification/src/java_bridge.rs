//! The path through the external analysis helper, for dumps that are not in
//! the native format: finding the DTFJ jars, building and running the
//! helper, and turning its report into a result.
//!
//! Listing directories, unpacking archives and running processes is the
//! host's work. This module holds every decision in between.

use vstd::prelude::*;
use vstd::string::StringExecFns;
use vstd::utf8::{decode_utf8, valid_utf8};
use std::string::FromUtf8Error;
use crate::errors::{Failure, HprofSlurpError};
use crate::rendered_result::{ClassAllocationStats, ClassRow, RenderedResult, ResultView};
use crate::text::{
    ascii_lower, contains, decimal, ends_with, has_substring, lossy_text, occurs_at,
    push_decimal, same_text, starts_with, to_ascii_lowercase, utf8_lossy,
};

verus! {

/// The directory of the helper, below the directory of the program.
pub const HELPER_DIR: &'static str = "java-helper";

/// Where the helper's sources lie, below the helper's directory.
pub const HELPER_SOURCE_DIR: &'static str = "src";

/// The helper's source file, below its source directory.
pub const HELPER_SOURCE_FILE: &'static str = "com/maisi/heapdump/JavaHeapAnalyzer.java";

/// Where the helper is compiled to, below the helper's directory.
pub const HELPER_CLASS_DIR: &'static str = "target/classes";

/// The program that compiles the helper.
pub const COMPILER_PROGRAM: &'static str = "javac";

/// The program that runs the helper.
pub const RUNTIME_PROGRAM: &'static str = "java";

/// The jars that the helper is built and run against.
#[derive(Debug, PartialEq, Eq)]
pub struct DtfjClasspath {
    pub impl_jar: String,
    pub interface_jar: String,
    pub extra_jars: Vec<String>,
}

/// The texts of a list of strings.
pub open spec fn texts(items: Seq<String>) -> Seq<Seq<char>> {
    items.map_values(|item: String| item@)
}

/// The texts of a list of borrowed strings.
pub open spec fn str_texts(items: Seq<&str>) -> Seq<Seq<char>> {
    items.map_values(|item: &str| item@)
}

/// A classpath as plain values.
pub struct ClasspathView {
    pub impl_jar: Seq<char>,
    pub interface_jar: Seq<char>,
    pub extra_jars: Seq<Seq<char>>,
}

impl View for DtfjClasspath {
    type V = ClasspathView;

    open spec fn view(&self) -> ClasspathView {
        ClasspathView {
            impl_jar: self.impl_jar@,
            interface_jar: self.interface_jar@,
            extra_jars: texts(self.extra_jars@),
        }
    }
}

impl DtfjClasspath {
    /// Every jar of the classpath: the implementation, the interface,
    /// then the extra jars in their order.
    pub open spec fn entries(&self) -> Seq<Seq<char>> {
        seq![self.impl_jar@, self.interface_jar@] + texts(self.extra_jars@)
    }

    /// Every jar of the classpath, in the order of `entries`.
    pub fn all(&self) -> (jars: Vec<&str>)
        ensures
            str_texts(jars@) == self.entries(),
    {
        let mut jars: Vec<&str> = Vec::new();
        jars.push(self.impl_jar.as_str());
        jars.push(self.interface_jar.as_str());
        let mut i: usize = 0;
        while i < self.extra_jars.len()
            invariant
                i <= self.extra_jars.len(),
                jars@.len() == i + 2,
                jars@[0]@ == self.impl_jar@,
                jars@[1]@ == self.interface_jar@,
                forall|k: int| 0 <= k < i ==> (#[trigger] jars@[k + 2])@ == self.extra_jars@[k]@,
            decreases self.extra_jars.len() - i,
        {
            jars.push(self.extra_jars[i].as_str());
            i += 1;
        }
        assert(str_texts(jars@) =~= self.entries()) by {
            assert forall|k: int| 0 <= k < jars@.len() implies str_texts(jars@)[k]
                == self.entries()[k] by {
                if k >= 2 {
                    assert(jars@[(k - 2) + 2]@ == self.extra_jars@[k - 2]@);
                }
            }
        }
        jars
    }
}

/// `parts` one behind the other, with `separator` between each two.
pub open spec fn joined_with(parts: Seq<Seq<char>>, separator: char) -> Seq<char>
    decreases parts.len(),
{
    if parts.len() == 0 {
        Seq::empty()
    } else if parts.len() == 1 {
        parts[0]
    } else {
        joined_with(parts.drop_last(), separator).push(separator) + parts.last()
    }
}

/// The classpath argument for `parts`: the parts with `separator` between
/// each two.
pub fn join_classpath(parts: &[&str], separator: char) -> (classpath: String)
    ensures
        classpath@ == joined_with(str_texts(parts@), separator),
{
    let mut buffer = String::new();
    let mut index: usize = 0;
    while index < parts.len()
        invariant
            index <= parts.len(),
            buffer@ == joined_with(str_texts(parts@).take(index as int), separator),
        decreases parts.len() - index,
    {
        proof {
            let before = str_texts(parts@).take(index as int);
            let after = str_texts(parts@).take(index + 1);
            assert(after.drop_last() =~= before);
            assert(after.last() == parts@[index as int]@);
        }
        if index > 0 {
            buffer.push(separator);
        }
        buffer.append(parts[index]);
        index += 1;
    }
    assert(str_texts(parts@).take(parts.len() as int) =~= str_texts(parts@));
    buffer
}

/// Whether a file of this name is taken for a DTFJ implementation jar.
pub open spec fn is_impl_jar_name(name: Seq<char>) -> bool {
    name == "dtfj.jar"@ || (".jar"@.is_suffix_of(name) && ("com.ibm.dtfj.j9"@.is_prefix_of(
        ascii_lower(name),
    ) || "com.ibm.dtfj.vm"@.is_prefix_of(ascii_lower(name)) || has_substring(
        ascii_lower(name),
        "dtfj_impl"@,
    )))
}

/// Whether a file of this name is taken for a DTFJ interface jar.
pub open spec fn is_interface_jar_name(name: Seq<char>) -> bool {
    name == "dtfj-interface.jar"@ || (".jar"@.is_suffix_of(name) && (
    "com.ibm.dtfj.api"@.is_prefix_of(ascii_lower(name)) || has_substring(
        ascii_lower(name),
        "dtfj_interface"@,
    )))
}

/// Whether a file of this name is taken for a DTFJ implementation jar.
pub fn is_dtfj_impl_jar(filename: &str) -> (found: bool)
    ensures
        found == is_impl_jar_name(filename@),
{
    if same_text(filename, "dtfj.jar") {
        return true;
    }
    if !ends_with(filename, ".jar") {
        return false;
    }
    let lower = to_ascii_lowercase(filename);
    starts_with(lower.as_str(), "com.ibm.dtfj.j9") || starts_with(
        lower.as_str(),
        "com.ibm.dtfj.vm",
    ) || contains(lower.as_str(), "dtfj_impl")
}

/// Whether a file of this name is taken for a DTFJ interface jar.
pub fn is_dtfj_interface_jar(filename: &str) -> (found: bool)
    ensures
        found == is_interface_jar_name(filename@),
{
    if same_text(filename, "dtfj-interface.jar") {
        return true;
    }
    if !ends_with(filename, ".jar") {
        return false;
    }
    let lower = to_ascii_lowercase(filename);
    starts_with(lower.as_str(), "com.ibm.dtfj.api") || contains(lower.as_str(), "dtfj_interface")
}

/// How a jar is had from a candidate file.
#[derive(Debug, PartialEq, Eq)]
pub enum JarPlan {
    /// The file is the jar.
    Direct { jar: String },
    /// The file is a bundle. The jar is its entry `jar_entry`; the entries
    /// `extra_entries` are further jars that go on the classpath with it.
    Nested { container: String, jar_entry: String, extra_entries: Vec<String> },
}

/// A plan as plain values.
pub enum JarPlanView {
    Direct { jar: Seq<char> },
    Nested { container: Seq<char>, jar_entry: Seq<char>, extra_entries: Seq<Seq<char>> },
}

impl View for JarPlan {
    type V = JarPlanView;

    open spec fn view(&self) -> JarPlanView {
        match *self {
            JarPlan::Direct { jar } => JarPlanView::Direct { jar: jar@ },
            JarPlan::Nested { container, jar_entry, extra_entries } => JarPlanView::Nested {
                container: container@,
                jar_entry: jar_entry@,
                extra_entries: texts(extra_entries@),
            },
        }
    }
}

/// The plain values of an optional plan.
pub open spec fn plan_view(plan: Option<JarPlan>) -> Option<JarPlanView> {
    match plan {
        Some(p) => Some(p@),
        None => None,
    }
}

/// How the implementation jar is had from the file at `path` named
/// `filename`, if at all. A file named exactly `dtfj.jar`, or with
/// `dtfj_impl` in its name as written, is the jar. A bundle, by the lower
/// case of its name, holds the jar and the `j9ddr` jar that it needs.
pub open spec fn impl_plan(path: Seq<char>, filename: Seq<char>) -> Option<JarPlanView> {
    if !is_impl_jar_name(filename) {
        None
    } else if filename == "dtfj.jar"@ || has_substring(filename, "dtfj_impl"@) {
        Some(JarPlanView::Direct { jar: path })
    } else if "com.ibm.dtfj.j9"@.is_prefix_of(ascii_lower(filename))
        || "com.ibm.dtfj.vm"@.is_prefix_of(ascii_lower(filename)) {
        Some(
            JarPlanView::Nested {
                container: path,
                jar_entry: "lib/dtfj.jar"@,
                extra_entries: seq!["lib/j9ddr.jar"@],
            },
        )
    } else {
        None
    }
}

/// How the interface jar is had from the file at `path` named `filename`,
/// if at all.
pub open spec fn interface_plan(path: Seq<char>, filename: Seq<char>) -> Option<JarPlanView> {
    if !is_interface_jar_name(filename) {
        None
    } else if filename == "dtfj-interface.jar"@ || has_substring(filename, "dtfj_interface"@) {
        Some(JarPlanView::Direct { jar: path })
    } else if "com.ibm.dtfj.api"@.is_prefix_of(ascii_lower(filename)) {
        Some(
            JarPlanView::Nested {
                container: path,
                jar_entry: "lib/dtfj-interface.jar"@,
                extra_entries: Seq::empty(),
            },
        )
    } else {
        None
    }
}

/// Decides how the implementation jar is had from a file.
pub fn resolve_impl_candidate(path: &str, filename: &str) -> (plan: Option<JarPlan>)
    ensures
        plan_view(plan) == impl_plan(path@, filename@),
{
    if !is_dtfj_impl_jar(filename) {
        return None;
    }
    if same_text(filename, "dtfj.jar") || contains(filename, "dtfj_impl") {
        return Some(JarPlan::Direct { jar: path.to_string() });
    }
    let lower = to_ascii_lowercase(filename);
    if starts_with(lower.as_str(), "com.ibm.dtfj.j9") || starts_with(
        lower.as_str(),
        "com.ibm.dtfj.vm",
    ) {
        let mut extra_entries: Vec<String> = Vec::new();
        extra_entries.push("lib/j9ddr.jar".to_string());
        let plan = JarPlan::Nested {
            container: path.to_string(),
            jar_entry: "lib/dtfj.jar".to_string(),
            extra_entries,
        };
        assert(texts(extra_entries@) =~= seq!["lib/j9ddr.jar"@]);
        return Some(plan);
    }
    None
}

/// Decides how the interface jar is had from a file.
pub fn resolve_interface_candidate(path: &str, filename: &str) -> (plan: Option<JarPlan>)
    ensures
        plan_view(plan) == interface_plan(path@, filename@),
{
    if !is_dtfj_interface_jar(filename) {
        return None;
    }
    if same_text(filename, "dtfj-interface.jar") || contains(filename, "dtfj_interface") {
        return Some(JarPlan::Direct { jar: path.to_string() });
    }
    let lower = to_ascii_lowercase(filename);
    if starts_with(lower.as_str(), "com.ibm.dtfj.api") {
        let extra_entries: Vec<String> = Vec::new();
        let plan = JarPlan::Nested {
            container: path.to_string(),
            jar_entry: "lib/dtfj-interface.jar".to_string(),
            extra_entries,
        };
        assert(texts(extra_entries@) =~= Seq::<Seq<char>>::empty());
        return Some(plan);
    }
    None
}

/// Why bytes are not UTF-8.
#[verifier::external_type_specification]
#[verifier::external_body]
pub struct ExFromUtf8Error(FromUtf8Error);

/// `String::from_utf8` succeeds exactly on bytes that are UTF-8, with the
/// text that they encode.
pub assume_specification[ String::from_utf8 ](vec: Vec<u8>) -> (result: Result<
    String,
    FromUtf8Error,
>)
    ensures
        result is Ok <==> valid_utf8(vec@),
        result matches Ok(text) ==> text@ == decode_utf8(vec@),
;

/// The words in which a `FromUtf8Error` says where the bytes stop being
/// UTF-8. Nothing is promised of them.
#[verifier::external_body]
fn utf8_error_text(error: &FromUtf8Error) -> (text: String) {
    error.to_string()
}

/// How running a program ended.
#[derive(Debug, PartialEq, Eq)]
pub enum ProcessRun {
    /// The program could not be launched.
    LaunchFailed { reason: String },
    /// The program ran and exited. `status` is the exit status in words.
    Exited { success: bool, status: String, stdout: Vec<u8>, stderr: Vec<u8> },
}

/// The message for a program that did not run to success, if it did not:
/// `launch` and the reason where it could not be launched, `exit`, the
/// status and what it wrote to its error stream where it exited without
/// success.
pub open spec fn run_failure(run: ProcessRun, launch: Seq<char>, exit: Seq<char>) -> Option<
    Seq<char>,
> {
    match run {
        ProcessRun::LaunchFailed { reason } => Some(launch + reason@),
        ProcessRun::Exited { success, status, stdout, stderr } => if success {
            None
        } else {
            Some(exit + status@ + ": "@ + lossy_text(stderr@))
        },
    }
}

/// What a program that ran to success wrote to its output stream.
pub open spec fn run_output(run: ProcessRun) -> Seq<u8> {
    match run {
        ProcessRun::LaunchFailed { .. } => Seq::empty(),
        ProcessRun::Exited { stdout, .. } => stdout@,
    }
}

/// The output of a program that ran to success, else the failure with the
/// message that `run_failure` gives.
fn require_success(run: ProcessRun, launch: &str, exit: &str) -> (result: Result<
    Vec<u8>,
    HprofSlurpError,
>)
    ensures
        match run_failure(run, launch@, exit@) {
            Some(message) => result matches Err(error) && error@ == (Failure::JavaHelperError {
                message,
            }),
            None => result matches Ok(output) && output@ == run_output(run),
        },
{
    match run {
        ProcessRun::LaunchFailed { reason } => {
            let mut message = String::new();
            message.append(launch);
            message.append(reason.as_str());
            Err(HprofSlurpError::JavaHelperError { message })
        },
        ProcessRun::Exited { success, status, stdout, stderr } => {
            if success {
                Ok(stdout)
            } else {
                let mut message = String::new();
                message.append(exit);
                message.append(status.as_str());
                message.append(": ");
                let errors = utf8_lossy(stderr.as_slice());
                message.append(errors.as_str());
                assert(message@ =~= exit@ + status@ + ": "@ + lossy_text(stderr@));
                Err(HprofSlurpError::JavaHelperError { message })
            }
        },
    }
}

/// The steps before the compiler runs that can fail.
#[derive(Debug, Clone, Copy, PartialEq, Eq, Structural)]
pub enum CompileStep {
    /// Creating the directory that the classes are compiled into.
    CreateTargetDir,
    /// Finding the helper's source file.
    FindSource,
}

/// The message for a failed step before compiling. `detail` is the reason
/// for `CreateTargetDir` and the path looked at for `FindSource`.
pub open spec fn compile_setup_message(step: CompileStep, detail: Seq<char>) -> Seq<char> {
    match step {
        CompileStep::CreateTargetDir => "Unable to create Java helper target directory: "@
            + detail,
        CompileStep::FindSource => "Java helper source not found at "@ + detail,
    }
}

/// The failure for a failed step before compiling.
pub fn compile_setup_failure(step: CompileStep, detail: &str) -> (error: HprofSlurpError)
    ensures
        error@ == (Failure::JavaHelperError { message: compile_setup_message(step, detail@) }),
{
    let mut message = String::new();
    match step {
        CompileStep::CreateTargetDir => {
            message.append("Unable to create Java helper target directory: ");
        },
        CompileStep::FindSource => {
            message.append("Java helper source not found at ");
        },
    }
    message.append(detail);
    HprofSlurpError::JavaHelperError { message }
}

/// The arguments that the compiler is run with.
pub open spec fn javac_args(classpath: Seq<char>, class_dir: Seq<char>, source_file: Seq<char>) -> Seq<
    Seq<char>,
> {
    seq!["-cp"@, classpath, "-d"@, class_dir, source_file]
}

/// The arguments for compiling the helper's source into `class_dir`
/// against `classpath`.
pub fn javac_arguments(classpath: &str, class_dir: &str, source_file: &str) -> (args: Vec<String>)
    ensures
        texts(args@) == javac_args(classpath@, class_dir@, source_file@),
{
    let mut args: Vec<String> = Vec::new();
    args.push("-cp".to_string());
    args.push(classpath.to_string());
    args.push("-d".to_string());
    args.push(class_dir.to_string());
    args.push(source_file.to_string());
    assert(texts(args@) =~= javac_args(classpath@, class_dir@, source_file@));
    args
}

/// Whether the compiler ran to success; else the failure to return.
pub fn check_compile(run: ProcessRun) -> (result: Result<(), HprofSlurpError>)
    ensures
        match run_failure(run, "Failed to invoke javac: "@, "javac exited with status "@) {
            Some(message) => result matches Err(error) && error@ == (Failure::JavaHelperError {
                message,
            }),
            None => result is Ok,
        },
{
    match require_success(run, "Failed to invoke javac: ", "javac exited with status ") {
        Ok(_) => Ok(()),
        Err(error) => Err(error),
    }
}

/// The arguments that the helper is run with.
pub open spec fn java_args(classpath: Seq<char>, dump_path: Seq<char>, format_label: Seq<char>) -> Seq<
    Seq<char>,
> {
    seq![
        "--add-exports"@,
        "java.base/jdk.internal.org.objectweb.asm=ALL-UNNAMED"@,
        "--add-exports"@,
        "java.base/jdk.internal.org.objectweb.asm.tree=ALL-UNNAMED"@,
        "--add-exports"@,
        "java.base/jdk.internal.module=ALL-UNNAMED"@,
        "-cp"@,
        classpath,
        "com.maisi.heapdump.JavaHeapAnalyzer"@,
        "--input"@,
        dump_path,
        "--format"@,
        format_label,
    ]
}

/// The arguments for running the helper on the dump at `dump_path`.
pub fn java_arguments(classpath: &str, dump_path: &str, format_label: &str) -> (args: Vec<String>)
    ensures
        texts(args@) == java_args(classpath@, dump_path@, format_label@),
{
    let mut args: Vec<String> = Vec::new();
    args.push("--add-exports".to_string());
    args.push("java.base/jdk.internal.org.objectweb.asm=ALL-UNNAMED".to_string());
    args.push("--add-exports".to_string());
    args.push("java.base/jdk.internal.org.objectweb.asm.tree=ALL-UNNAMED".to_string());
    args.push("--add-exports".to_string());
    args.push("java.base/jdk.internal.module=ALL-UNNAMED".to_string());
    args.push("-cp".to_string());
    args.push(classpath.to_string());
    args.push("com.maisi.heapdump.JavaHeapAnalyzer".to_string());
    args.push("--input".to_string());
    args.push(dump_path.to_string());
    args.push("--format".to_string());
    args.push(format_label.to_string());
    assert(texts(args@) =~= java_args(classpath@, dump_path@, format_label@));
    args
}

/// What the helper printed, as text, if it ran to success and printed
/// UTF-8; else the failure to return.
pub fn helper_stdout(run: ProcessRun) -> (result: Result<String, HprofSlurpError>)
    ensures
        match run_failure(run, "Failed to launch Java helper: "@, "Java helper exited with status "@) {
            Some(message) => result matches Err(error) && error@ == (Failure::JavaHelperError {
                message,
            }),
            None => if valid_utf8(run_output(run)) {
                result matches Ok(text) && text@ == decode_utf8(run_output(run))
            } else {
                result matches Err(error) && error@ matches Failure::JavaHelperError { message }
                    && "Java helper produced invalid UTF-8 output: "@.is_prefix_of(message)
            },
        },
{
    let stdout = match require_success(
        run,
        "Failed to launch Java helper: ",
        "Java helper exited with status ",
    ) {
        Ok(stdout) => stdout,
        Err(error) => {
            return Err(error);
        },
    };
    match String::from_utf8(stdout) {
        Ok(text) => Ok(text),
        Err(error) => {
            let mut message = String::new();
            message.append("Java helper produced invalid UTF-8 output: ");
            let detail = utf8_error_text(&error);
            message.append(detail.as_str());
            Err(HprofSlurpError::JavaHelperError { message })
        },
    }
}

/// One class in the helper's report.
#[derive(Debug, PartialEq, Eq)]
pub struct HelperClassStats {
    pub class_name: String,
    pub instance_count: u64,
    pub largest_allocation_bytes: u64,
    pub allocation_size_bytes: u64,
}

impl View for HelperClassStats {
    type V = ClassRow;

    open spec fn view(&self) -> ClassRow {
        ClassRow {
            class_name: self.class_name@,
            instance_count: self.instance_count as nat,
            largest_allocation_bytes: self.largest_allocation_bytes as nat,
            allocation_size_bytes: self.allocation_size_bytes as nat,
        }
    }
}

/// The helper's report.
#[derive(Debug, PartialEq, Eq)]
pub struct HelperResponse {
    pub memory_usage: Vec<HelperClassStats>,
    pub total_objects: u64,
    pub class_count: usize,
    pub thread_count: usize,
    pub string_count: u64,
    pub total_heap_bytes: u64,
    pub format: String,
}

/// A report as plain values.
pub struct ResponseView {
    pub memory_usage: Seq<ClassRow>,
    pub total_objects: nat,
    pub class_count: nat,
    pub thread_count: nat,
    pub string_count: nat,
    pub total_heap_bytes: nat,
    pub format: Seq<char>,
}

impl View for HelperResponse {
    type V = ResponseView;

    open spec fn view(&self) -> ResponseView {
        ResponseView {
            memory_usage: self.memory_usage@.map_values(|entry: HelperClassStats| entry@),
            total_objects: self.total_objects as nat,
            class_count: self.class_count as nat,
            thread_count: self.thread_count as nat,
            string_count: self.string_count as nat,
            total_heap_bytes: self.total_heap_bytes as nat,
            format: self.format@,
        }
    }
}

/// The summary text for a report on an input of `file_len` bytes.
pub open spec fn helper_summary(file_len: nat, response: ResponseView) -> Seq<char> {
    "\nFile content summary (Java helper mode):\n  Input bytes: "@ + decimal(file_len)
        + "\n  Helper-reported format: "@ + response.format + "\n  Objects counted: "@ + decimal(
        response.total_objects,
    ) + "\n  Distinct classes: "@ + decimal(response.class_count) + "\n  Strings encountered: "@
        + decimal(response.string_count) + "\n  Helper-reported heap bytes: "@ + decimal(
        response.total_heap_bytes,
    )
}

/// The thread text for a report: the number of threads, and that stack
/// traces are not to be had on this path.
pub open spec fn helper_thread_info(thread_count: nat, format_label: Seq<char>) -> Seq<char> {
    "\nThread information:\n  Threads discovered: "@ + decimal(thread_count)
        + "\n  Detailed stack traces are not available for "@ + format_label
        + " dumps in helper mode."@
}

/// The result that a report is turned into. Rows keep their order. No
/// duplicated strings are reported; a listing of captured strings, where
/// asked for, says that there is none.
pub open spec fn rendered_report(
    response: ResponseView,
    format_label: Seq<char>,
    file_len: nat,
    list_strings: bool,
) -> ResultView {
    ResultView {
        summary: helper_summary(file_len, response),
        thread_info: helper_thread_info(response.thread_count, format_label),
        memory_usage: response.memory_usage,
        duplicated_strings: None,
        captured_strings: if list_strings {
            Some("Listing captured strings is not yet supported for this dump format.\n"@)
        } else {
            None
        },
    }
}

/// Turns the helper's report into a result.
pub fn render_helper_response(
    response: HelperResponse,
    format_label: &str,
    file_len: u64,
    list_strings: bool,
) -> (result: RenderedResult)
    ensures
        result@ == rendered_report(response@, format_label@, file_len as nat, list_strings),
{
    let mut memory_usage: Vec<ClassAllocationStats> = Vec::new();
    let mut i: usize = 0;
    while i < response.memory_usage.len()
        invariant
            i <= response.memory_usage.len(),
            memory_usage@.len() == i,
            forall|k: int| 0 <= k < i ==> (#[trigger] memory_usage@[k])@ == response.memory_usage@[k]@,
        decreases response.memory_usage.len() - i,
    {
        let entry = &response.memory_usage[i];
        memory_usage.push(
            ClassAllocationStats::new(
                entry.class_name.clone(),
                entry.instance_count,
                entry.largest_allocation_bytes,
                entry.allocation_size_bytes,
            ),
        );
        i += 1;
    }
    let mut summary = String::new();
    summary.append("\nFile content summary (Java helper mode):\n  Input bytes: ");
    push_decimal(&mut summary, file_len);
    summary.append("\n  Helper-reported format: ");
    summary.append(response.format.as_str());
    summary.append("\n  Objects counted: ");
    push_decimal(&mut summary, response.total_objects);
    summary.append("\n  Distinct classes: ");
    push_decimal(&mut summary, response.class_count as u64);
    summary.append("\n  Strings encountered: ");
    push_decimal(&mut summary, response.string_count);
    summary.append("\n  Helper-reported heap bytes: ");
    push_decimal(&mut summary, response.total_heap_bytes);
    let mut thread_info = String::new();
    thread_info.append("\nThread information:\n  Threads discovered: ");
    push_decimal(&mut thread_info, response.thread_count as u64);
    thread_info.append("\n  Detailed stack traces are not available for ");
    thread_info.append(format_label);
    thread_info.append(" dumps in helper mode.");
    let captured_strings = if list_strings {
        Some("Listing captured strings is not yet supported for this dump format.\n".to_string())
    } else {
        None
    };
    let result = RenderedResult {
        summary,
        thread_info,
        memory_usage,
        duplicated_strings: None,
        captured_strings,
    };
    assert(result@.memory_usage =~= response@.memory_usage);
    assert(result@.summary =~= helper_summary(file_len as nat, response@));
    assert(result@.thread_info =~= helper_thread_info(response@.thread_count, format_label@));
    result
}

/// The message for a report that could not be decoded: the reason, and
/// what the helper printed.
pub open spec fn undecodable_message(reason: Seq<char>, payload: Seq<char>) -> Seq<char> {
    "Failed to parse Java helper JSON output: "@ + reason + "\nPayload: "@ + payload
}

/// The result for a dump that the helper analyzed. `payload` is what the
/// helper printed and `decoded` what decoding it as a report gave: the
/// report, or the reason why it is none. A report is rendered; anything
/// else is a failure that names the reason and shows the payload.
pub fn analyze_with_java_helper(
    format_label: &str,
    file_len: u64,
    list_strings: bool,
    payload: &str,
    decoded: Result<HelperResponse, String>,
) -> (result: Result<RenderedResult, HprofSlurpError>)
    ensures
        match decoded {
            Ok(response) => result matches Ok(rendered) && rendered@ == rendered_report(
                response@,
                format_label@,
                file_len as nat,
                list_strings,
            ),
            Err(reason) => result matches Err(error) && error@ == (Failure::JavaHelperError {
                message: undecodable_message(reason@, payload@),
            }),
        },
{
    match decoded {
        Ok(response) => Ok(render_helper_response(response, format_label, file_len, list_strings)),
        Err(reason) => {
            let mut message = String::new();
            message.append("Failed to parse Java helper JSON output: ");
            message.append(reason.as_str());
            message.append("\nPayload: ");
            message.append(payload);
            Err(HprofSlurpError::JavaHelperError { message })
        },
    }
}

/// Every result that comes from the helper says in its thread text that
/// detailed stack traces are not to be had.
pub proof fn law_helper_result_disclaims_stack_traces(
    response: ResponseView,
    format_label: Seq<char>,
    file_len: nat,
    list_strings: bool,
)
    ensures
        has_substring(
            rendered_report(response, format_label, file_len, list_strings).thread_info,
            "Detailed stack traces are not available"@,
        ),
{
    let head = "\nThread information:\n  Threads discovered: "@ + decimal(response.thread_count);
    let middle = "\n  Detailed stack traces are not available for "@;
    let sentence = "Detailed stack traces are not available"@;
    let text = rendered_report(response, format_label, file_len, list_strings).thread_info;
    reveal_strlit("\n  Detailed stack traces are not available for ");
    reveal_strlit("Detailed stack traces are not available");
    let at: int = (head.len() + 3) as int;
    let len: int = sentence.len() as int;
    assert(text =~= head + middle + (format_label + " dumps in helper mode."@));
    assert(middle.subrange(3, 3 + len) =~= sentence);
    assert(text.subrange(at, at + len) =~= middle.subrange(3, 3 + len));
    assert(occurs_at(text, sentence, at));
}

} // verus!
