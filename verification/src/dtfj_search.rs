//! Finding the DTFJ jars on disk: where to look, how deep, and what to
//! make of each file that the host comes across.

use vstd::prelude::*;
use vstd::string::StringExecFns;
use crate::errors::{Failure, HprofSlurpError};
use crate::java_bridge::{
    impl_plan, interface_plan, plan_view, resolve_impl_candidate, resolve_interface_candidate,
    texts, ClasspathView, DtfjClasspath, JarPlan,
};
use crate::text::{replace_char, with_replaced};

verus! {

/// The environment variable that names the directory holding the jars.
pub const DTFJ_DIR_VARIABLE: &'static str = "HPROF_SLURP_DTFJ_DIR";

/// The environment variable that names the home of the memory analyzer.
pub const MAT_HOME_VARIABLE: &'static str = "MAT_HOME";

/// Where unpacked jars are kept, below the helper's directory.
pub const EXTRACTED_JARS_DIR: &'static str = "target/extracted-jars";

/// Directories below this depth are not listed. The directory that a
/// search starts at has depth 0.
pub const MAX_SEARCH_DEPTH: u8 = 6;

/// The places that are searched when the environment names none, or names
/// one without the jars.
pub open spec fn default_roots() -> Seq<Seq<char>> {
    seq![
        "/opt/mat"@,
        "/usr/lib/mat"@,
        "/Applications/MemoryAnalyzer.app/Contents/Eclipse"@,
    ]
}

/// The text of an optional string as a list of none or one.
pub open spec fn listed(item: Option<String>) -> Seq<Seq<char>> {
    match item {
        Some(text) => seq![text@],
        None => Seq::empty(),
    }
}

/// The directories to search, in order: the directory that the
/// environment names for the jars, the home of the memory analyzer that it
/// names, then the default places. The first that holds both jars wins.
pub fn dtfj_search_roots(dtfj_dir: Option<String>, mat_home: Option<String>) -> (roots: Vec<
    String,
>)
    ensures
        texts(roots@) == listed(dtfj_dir) + listed(mat_home) + default_roots(),
{
    let mut roots: Vec<String> = Vec::new();
    if let Some(dir) = dtfj_dir {
        roots.push(dir);
    }
    if let Some(dir) = mat_home {
        roots.push(dir);
    }
    roots.push("/opt/mat".to_string());
    roots.push("/usr/lib/mat".to_string());
    roots.push("/Applications/MemoryAnalyzer.app/Contents/Eclipse".to_string());
    assert(texts(roots@) =~= listed(dtfj_dir) + listed(mat_home) + default_roots());
    roots
}

/// The failure of a search that found the jars in none of its roots.
pub fn dtfj_not_found() -> (error: HprofSlurpError)
    ensures
        error@ == (Failure::JavaHelperError {
            message: "Unable to locate dtfj.jar and dtfj-interface.jar. Set HPROF_SLURP_DTFJ_DIR to the directory containing these jars."@,
        }),
{
    HprofSlurpError::JavaHelperError {
        message: "Unable to locate dtfj.jar and dtfj-interface.jar. Set HPROF_SLURP_DTFJ_DIR to the directory containing these jars.".to_string(),
    }
}

/// The place in `stack` of the directory that is listed next: the last one
/// that is not too deep. Below zero if there is none.
pub open spec fn listable_top(stack: Seq<(Seq<char>, nat)>) -> int
    decreases stack.len(),
{
    if stack.len() == 0 {
        -1
    } else if stack.last().1 <= MAX_SEARCH_DEPTH {
        stack.len() - 1
    } else {
        listable_top(stack.drop_last())
    }
}

/// A search below one root as plain values.
pub struct SearchView {
    /// Directories still to list, each with its depth. The last is next.
    pub stack: Seq<(Seq<char>, nat)>,
    /// Depth of the directory that is being listed.
    pub depth: nat,
    /// The implementation jar, once found.
    pub dtfj_impl: Option<Seq<char>>,
    /// The interface jar, once found.
    pub dtfj_interface: Option<Seq<char>>,
    /// Further jars that the jars found need.
    pub extra_jars: Seq<Seq<char>>,
}

impl SearchView {
    /// The classpath that the search has found, once it has both jars.
    pub open spec fn classpath(self) -> Option<ClasspathView> {
        if self.dtfj_impl is Some && self.dtfj_interface is Some {
            Some(
                ClasspathView {
                    impl_jar: self.dtfj_impl.unwrap(),
                    interface_jar: self.dtfj_interface.unwrap(),
                    extra_jars: self.extra_jars,
                },
            )
        } else {
            None
        }
    }
}

/// What to do with one file, for each of the two jars.
#[derive(Debug, PartialEq, Eq)]
pub struct FilePlan {
    /// How the file gives the implementation jar. `None` if it does not,
    /// or if that jar was found before.
    pub for_impl: Option<JarPlan>,
    /// The same for the interface jar.
    pub for_interface: Option<JarPlan>,
}

/// The depth-first search for the two jars below one root.
pub struct DtfjSearch {
    stack: Vec<(String, u8)>,
    depth: u8,
    dtfj_impl: Option<String>,
    dtfj_interface: Option<String>,
    extra_jars: Vec<String>,
}

/// The plain text of an optional string.
pub open spec fn text_of(item: Option<String>) -> Option<Seq<char>> {
    match item {
        Some(text) => Some(text@),
        None => None,
    }
}

impl View for DtfjSearch {
    type V = SearchView;

    closed spec fn view(&self) -> SearchView {
        SearchView {
            stack: self.stack@.map_values(|entry: (String, u8)| (entry.0@, entry.1 as nat)),
            depth: self.depth as nat,
            dtfj_impl: text_of(self.dtfj_impl),
            dtfj_interface: text_of(self.dtfj_interface),
            extra_jars: texts(self.extra_jars@),
        }
    }
}

impl DtfjSearch {
    /// The directory being listed is not too deep, so that no directory
    /// on the stack is deeper than one level below the limit.
    pub closed spec fn wf(&self) -> bool {
        self.depth <= MAX_SEARCH_DEPTH
    }

    /// A search that starts at `base`, which the host has found to exist.
    pub fn new(base: String) -> (search: Self)
        ensures
            search.wf(),
            search@ == (SearchView {
                stack: seq![(base@, 0nat)],
                depth: 0,
                dtfj_impl: None,
                dtfj_interface: None,
                extra_jars: Seq::empty(),
            }),
    {
        let mut stack: Vec<(String, u8)> = Vec::new();
        stack.push((base, 0u8));
        let search = DtfjSearch {
            stack,
            depth: 0,
            dtfj_impl: None,
            dtfj_interface: None,
            extra_jars: Vec::new(),
        };
        assert(search@.stack =~= seq![(base@, 0nat)]);
        assert(search@.extra_jars =~= Seq::<Seq<char>>::empty());
        search
    }

    /// The directory to list next: the last one on the stack that is not
    /// too deep. It leaves the stack together with everything above it.
    /// `None` when no such directory is left: the search below this root
    /// is over.
    pub fn next_dir(&mut self) -> (dir: Option<String>)
        requires
            old(self).wf(),
        ensures
            final(self).wf(),
            final(self)@.dtfj_impl == old(self)@.dtfj_impl,
            final(self)@.dtfj_interface == old(self)@.dtfj_interface,
            final(self)@.extra_jars == old(self)@.extra_jars,
            listable_top(old(self)@.stack) < 0 ==> dir is None && final(self)@.stack.len() == 0
                && final(self)@.depth == old(self)@.depth,
            listable_top(old(self)@.stack) >= 0 ==> {
                let top = listable_top(old(self)@.stack);
                &&& dir matches Some(path)
                &&& path@ == old(self)@.stack[top].0
                &&& final(self)@.depth == old(self)@.stack[top].1
                &&& final(self)@.stack == old(self)@.stack.take(top)
            },
    {
        loop
            invariant
                self.wf(),
                self@.depth == old(self)@.depth,
                self@.dtfj_impl == old(self)@.dtfj_impl,
                self@.dtfj_interface == old(self)@.dtfj_interface,
                self@.extra_jars == old(self)@.extra_jars,
                self@.stack.len() <= old(self)@.stack.len(),
                self@.stack == old(self)@.stack.take(self@.stack.len() as int),
                listable_top(self@.stack) == listable_top(old(self)@.stack),
            decreases self.stack.len(),
        {
            let ghost before = self@.stack;
            match self.stack.pop() {
                None => {
                    assert(self@.stack.len() == 0);
                    return None;
                },
                Some((path, depth)) => {
                    assert(before.last() == (path@, depth as nat));
                    assert(self@.stack =~= before.drop_last());
                    assert(self@.stack =~= old(self)@.stack.take(self@.stack.len() as int));
                    if depth <= MAX_SEARCH_DEPTH {
                        self.depth = depth;
                        return Some(path);
                    }
                },
            }
        }
    }

    /// Puts a directory found in the one being listed on the stack, one
    /// level deeper.
    pub fn push_subdir(&mut self, path: String)
        requires
            old(self).wf(),
        ensures
            final(self).wf(),
            final(self)@ == (SearchView {
                stack: old(self)@.stack.push((path@, old(self)@.depth + 1)),
                ..old(self)@
            }),
    {
        self.stack.push((path, self.depth + 1));
        assert(self@.stack =~= old(self)@.stack.push((path@, old(self)@.depth + 1)));
    }

    /// What to do with the file at `path` named `filename`: for each jar
    /// not yet found, how the file gives it, if it does.
    pub fn plan_file(&self, path: &str, filename: &str) -> (plan: FilePlan)
        ensures
            plan_view(plan.for_impl) == (if self@.dtfj_impl is None {
                impl_plan(path@, filename@)
            } else {
                None
            }),
            plan_view(plan.for_interface) == (if self@.dtfj_interface is None {
                interface_plan(path@, filename@)
            } else {
                None
            }),
    {
        let for_impl = if self.dtfj_impl.is_none() {
            resolve_impl_candidate(path, filename)
        } else {
            None
        };
        let for_interface = if self.dtfj_interface.is_none() {
            resolve_interface_candidate(path, filename)
        } else {
            None
        };
        FilePlan { for_impl, for_interface }
    }

    /// Notes the implementation jar and the jars that it needs, unless one
    /// was noted before: the first find stays.
    pub fn found_impl(&mut self, jar: String, extras: Vec<String>)
        requires
            old(self).wf(),
        ensures
            final(self).wf(),
            old(self)@.dtfj_impl is Some ==> final(self)@ == old(self)@,
            old(self)@.dtfj_impl is None ==> final(self)@ == (SearchView {
                dtfj_impl: Some(jar@),
                extra_jars: old(self)@.extra_jars + texts(extras@),
                ..old(self)@
            }),
    {
        if self.dtfj_impl.is_none() {
            let mut moved = extras;
            self.dtfj_impl = Some(jar);
            self.extra_jars.append(&mut moved);
            assert(self@.extra_jars =~= old(self)@.extra_jars + texts(extras@));
        }
    }

    /// Notes the interface jar and the jars that it needs, unless one was
    /// noted before: the first find stays.
    pub fn found_interface(&mut self, jar: String, extras: Vec<String>)
        requires
            old(self).wf(),
        ensures
            final(self).wf(),
            old(self)@.dtfj_interface is Some ==> final(self)@ == old(self)@,
            old(self)@.dtfj_interface is None ==> final(self)@ == (SearchView {
                dtfj_interface: Some(jar@),
                extra_jars: old(self)@.extra_jars + texts(extras@),
                ..old(self)@
            }),
    {
        if self.dtfj_interface.is_none() {
            let mut moved = extras;
            self.dtfj_interface = Some(jar);
            self.extra_jars.append(&mut moved);
            assert(self@.extra_jars =~= old(self)@.extra_jars + texts(extras@));
        }
    }

    /// Whether both jars are found: the search is over.
    pub fn is_complete(&self) -> (complete: bool)
        ensures
            complete == (self@.classpath() is Some),
    {
        self.dtfj_impl.is_some() && self.dtfj_interface.is_some()
    }

    /// The classpath found, if both jars are.
    pub fn into_classpath(self) -> (classpath: Option<DtfjClasspath>)
        ensures
            match classpath {
                Some(found) => self@.classpath() == Some(found@),
                None => self@.classpath() is None,
            },
    {
        match (self.dtfj_impl, self.dtfj_interface) {
            (Some(impl_jar), Some(interface_jar)) => Some(
                DtfjClasspath { impl_jar, interface_jar, extra_jars: self.extra_jars },
            ),
            _ => None,
        }
    }
}

/// What is known of a file's times.
#[derive(Debug, Clone, Copy, PartialEq, Eq)]
pub struct FileStamp {
    /// When the file was last modified, in nanoseconds since the Unix
    /// epoch, where the file system tells.
    pub modified: Option<i128>,
}

/// The time that a file counts as modified at: the Unix epoch where the
/// file system does not tell.
pub open spec fn stamp_time(stamp: FileStamp) -> int {
    match stamp.modified {
        Some(time) => time as int,
        None => 0,
    }
}

/// Whether a jar that was unpacked to `target` from `source` has to be
/// unpacked again: one of the two cannot be examined, or `source` was
/// modified after `target`.
pub fn needs_refresh(target: Option<FileStamp>, source: Option<FileStamp>) -> (refresh: bool)
    ensures
        refresh == match (target, source) {
            (Some(t), Some(s)) => stamp_time(s) > stamp_time(t),
            _ => true,
        },
{
    let target_meta = match target {
        Some(meta) => meta,
        None => {
            return true;
        },
    };
    let source_meta = match source {
        Some(meta) => meta,
        None => {
            return true;
        },
    };
    let target_time: i128 = match target_meta.modified {
        Some(time) => time,
        None => 0,
    };
    let source_time: i128 = match source_meta.modified {
        Some(time) => time,
        None => 0,
    };
    source_time > target_time
}

/// The name under which the entry `nested_entry` of a bundle is kept once
/// unpacked: the bundle's file name (`container` where it has none that is
/// text), an underscore, and the entry with `_` for every `/`.
pub open spec fn nested_jar_name(container_name: Option<Seq<char>>, nested_entry: Seq<char>) -> Seq<
    char,
> {
    (match container_name {
        Some(name) => name,
        None => "container"@,
    }).push('_') + with_replaced(nested_entry, '/', '_')
}

/// The name under which an entry of a bundle is kept once unpacked.
pub fn nested_jar_file_name(container_name: Option<&str>, nested_entry: &str) -> (name: String)
    ensures
        name@ == nested_jar_name(
            match container_name {
                Some(n) => Some(n@),
                None => None,
            },
            nested_entry@,
        ),
{
    let mut name = String::new();
    match container_name {
        Some(n) => name.append(n),
        None => name.append("container"),
    }
    name.push('_');
    let sanitized = replace_char(nested_entry, '/', '_');
    name.append(sanitized.as_str());
    name
}

/// The steps of unpacking a jar from a bundle that can fail.
#[derive(Debug, Clone, Copy, PartialEq, Eq, Structural)]
pub enum ExtractStep {
    /// Creating the directory that unpacked jars are kept in.
    CreateCache,
    /// Opening the bundle.
    OpenBundle,
    /// Reading the bundle as an archive.
    ReadBundle,
    /// Finding the entry in the archive.
    LocateEntry,
    /// Creating the file for the unpacked jar.
    WriteJar,
    /// Copying the entry into that file.
    CopyEntry,
}

/// The message for a failed step of unpacking `nested_entry` from
/// `container` to `target`, failed for `reason`. For `CreateCache`,
/// `target` is the directory.
pub open spec fn extraction_message(
    step: ExtractStep,
    nested_entry: Seq<char>,
    container: Seq<char>,
    target: Seq<char>,
    reason: Seq<char>,
) -> Seq<char> {
    match step {
        ExtractStep::CreateCache => "Unable to create extracted jar cache at "@ + target + ": "@
            + reason,
        ExtractStep::OpenBundle => "Failed to open DTFJ bundle "@ + container + ": "@ + reason,
        ExtractStep::ReadBundle => "Failed to read DTFJ bundle "@ + container + " as zip: "@
            + reason,
        ExtractStep::LocateEntry => "Failed to locate "@ + nested_entry + " inside "@ + container
            + ": "@ + reason,
        ExtractStep::WriteJar => "Failed to write extracted jar "@ + target + ": "@ + reason,
        ExtractStep::CopyEntry => "Failed to copy "@ + nested_entry + " to "@ + target + ": "@
            + reason,
    }
}

/// The failure for a failed step of unpacking a jar from a bundle.
pub fn extraction_failure(
    step: ExtractStep,
    nested_entry: &str,
    container: &str,
    target: &str,
    reason: &str,
) -> (error: HprofSlurpError)
    ensures
        error@ == (Failure::JavaHelperError {
            message: extraction_message(step, nested_entry@, container@, target@, reason@),
        }),
{
    let mut message = String::new();
    match step {
        ExtractStep::CreateCache => {
            message.append("Unable to create extracted jar cache at ");
            message.append(target);
        },
        ExtractStep::OpenBundle => {
            message.append("Failed to open DTFJ bundle ");
            message.append(container);
        },
        ExtractStep::ReadBundle => {
            message.append("Failed to read DTFJ bundle ");
            message.append(container);
            message.append(" as zip");
        },
        ExtractStep::LocateEntry => {
            message.append("Failed to locate ");
            message.append(nested_entry);
            message.append(" inside ");
            message.append(container);
        },
        ExtractStep::WriteJar => {
            message.append("Failed to write extracted jar ");
            message.append(target);
        },
        ExtractStep::CopyEntry => {
            message.append("Failed to copy ");
            message.append(nested_entry);
            message.append(" to ");
            message.append(target);
        },
    }
    message.append(": ");
    message.append(reason);
    proof {
        reveal_strlit(" as zip: ");
        reveal_strlit(" as zip");
        reveal_strlit(": ");
        assert(" as zip: "@ =~= " as zip"@ + ": "@);
        assert(message@ =~= extraction_message(step, nested_entry@, container@, target@, reason@));
    }
    HprofSlurpError::JavaHelperError { message }
}

} // verus!
