//! The build context: the set of source files a client submits for one build.

use vstd::prelude::*;
use crate::encoding::{base64_bytes, Base64Encoded};
use crate::paths::{destination, escapes, is_escaping, resolve};

verus! {

/// The files of a context as a sequence of (path, base64 text) pairs.
pub type Files = Seq<(Seq<char>, Seq<char>)>;

/// No path occurs twice.
pub open spec fn distinct_paths(files: Files) -> bool {
    forall|i: int, j: int| 0 <= i < j < files.len() ==> files[i].0 != files[j].0
}

/// The position of `path` among `files`, if it occurs.
pub open spec fn position_of(files: Files, path: Seq<char>) -> Option<int>
    decreases files.len(),
{
    if files.len() == 0 {
        None
    } else if files.last().0 == path {
        Some(files.len() - 1)
    } else {
        position_of(files.drop_last(), path)
    }
}

/// The files after `path` is set to `content`: an entry with that path is
/// replaced where it stands, a new path is added at the end.
pub open spec fn with_file(files: Files, path: Seq<char>, content: Seq<char>) -> Files {
    match position_of(files, path) {
        Some(i) => files.update(i, (path, content)),
        None => files.push((path, content)),
    }
}

/// The paths among `files` that are unsafe below `root`, in the order of the
/// files.
pub open spec fn offending_paths(root: Seq<char>, files: Files) -> Seq<Seq<char>>
    decreases files.len(),
{
    if files.len() == 0 {
        Seq::empty()
    } else if escapes(root, files.last().0) {
        offending_paths(root, files.drop_last()).push(files.last().0)
    } else {
        offending_paths(root, files.drop_last())
    }
}

/// `position_of` finds exactly the entries that carry the path.
pub proof fn lemma_position_of(files: Files, path: Seq<char>)
    ensures
        match position_of(files, path) {
            Some(i) => 0 <= i < files.len() && files[i].0 == path,
            None => forall|k: int| 0 <= k < files.len() ==> files[k].0 != path,
        },
    decreases files.len(),
{
    if files.len() > 0 && files.last().0 != path {
        let rest = files.drop_last();
        lemma_position_of(rest, path);
        if position_of(rest, path) is None {
            assert forall|k: int| 0 <= k < files.len() implies files[k].0 != path by {
                if k < rest.len() {
                    assert(rest[k].0 != path);
                }
            }
        }
    }
}

/// The sanitizer reports every unsafe path and nothing else: a path is among
/// the offenders exactly if it belongs to some file and is unsafe below the
/// root.
pub proof fn lemma_offenders_are_complete(root: Seq<char>, files: Files, path: Seq<char>)
    ensures
        offending_paths(root, files).contains(path) <==> (escapes(root, path) && exists|i: int|
            0 <= i < files.len() && #[trigger] files[i].0 == path),
    decreases files.len(),
{
    if files.len() > 0 {
        let rest = files.drop_last();
        let last = files.last().0;
        lemma_offenders_are_complete(root, rest, path);
        let out = offending_paths(root, files);
        let sub = offending_paths(root, rest);
        let in_rest = exists|i: int| 0 <= i < rest.len() && #[trigger] rest[i].0 == path;
        let in_files = exists|i: int| 0 <= i < files.len() && #[trigger] files[i].0 == path;
        assert(in_files <==> in_rest || last == path) by {
            if in_rest {
                let i = choose|i: int| 0 <= i < rest.len() && #[trigger] rest[i].0 == path;
                assert(files[i].0 == path);
            }
            if in_files {
                let i = choose|i: int| 0 <= i < files.len() && #[trigger] files[i].0 == path;
                if i < rest.len() {
                    assert(rest[i].0 == path);
                }
            }
            if last == path {
                assert(files[files.len() - 1].0 == path);
            }
        }
        assert(out.contains(path) <==> sub.contains(path) || (escapes(root, last) && last
            == path)) by {
            if escapes(root, last) {
                if sub.contains(path) {
                    let k = choose|k: int| 0 <= k < sub.len() && sub[k] == path;
                    assert(out[k] == path);
                }
                if last == path {
                    assert(out[out.len() - 1] == path);
                }
            }
        }
    }
}

/// Where the sanitizer finds no offender, every path is safe.
pub proof fn lemma_no_offender_means_all_safe(root: Seq<char>, files: Files)
    requires
        offending_paths(root, files).len() == 0,
    ensures
        forall|i: int| 0 <= i < files.len() ==> !escapes(root, #[trigger] files[i].0),
{
    assert forall|i: int| 0 <= i < files.len() implies !escapes(root, #[trigger] files[i].0) by {
        lemma_offenders_are_complete(root, files, files[i].0);
    }
}

/// One file to create during extraction.
#[derive(Debug)]
pub struct PlannedFile {
    /// Where the file goes: the cleaned path below the target directory.
    pub destination: String,
    /// What to write into it.
    pub bytes: Vec<u8>,
}

/// Why a context cannot be extracted.
#[derive(Debug)]
pub enum ExtractionError {
    /// This path is unsafe below the target directory.
    UnsafePath(String),
    /// The content stored under this path is not valid base64.
    InvalidContent(String),
}

/// The file can be written below `root`: its path is safe there and its
/// content decodes.
pub open spec fn extractable(root: Seq<char>, file: (Seq<char>, Seq<char>)) -> bool {
    !escapes(root, file.0) && base64_bytes(file.1) is Some
}

/// `plan` writes `file` below `root`.
pub open spec fn plans_file(root: Seq<char>, file: (Seq<char>, Seq<char>), plan: PlannedFile) -> bool {
    &&& plan.destination@ == destination(root, file.0)
    &&& base64_bytes(file.1) == Some(plan.bytes@)
}

/// `i` is the first position in `files` whose file cannot be written below
/// `root`.
pub open spec fn first_fault_at(root: Seq<char>, files: Files, i: int) -> bool {
    &&& 0 <= i < files.len()
    &&& !extractable(root, files[i])
    &&& forall|k: int| 0 <= k < i ==> extractable(root, #[trigger] files[k])
}

/// A build context: a mapping from relative file paths to file contents,
/// kept in the order in which the paths were first set.
#[derive(Debug)]
pub struct BuildContext {
    files: Vec<(String, Base64Encoded)>,
}

impl View for BuildContext {
    type V = Files;

    closed spec fn view(&self) -> Files {
        Seq::new(self.files@.len(), |i: int| (self.files@[i].0@, self.files@[i].1@))
    }
}

impl BuildContext {
    #[verifier::type_invariant]
    spec fn no_path_twice(&self) -> bool {
        distinct_paths(self@)
    }

    /// A context without files.
    pub fn new() -> (context: BuildContext)
        ensures
            context@ == Seq::<(Seq<char>, Seq<char>)>::empty(),
    {
        BuildContext { files: Vec::new() }
    }

    /// The number of files.
    pub fn len(&self) -> (n: usize)
        ensures
            n == self@.len(),
            distinct_paths(self@),
    {
        proof {
            use_type_invariant(self);
        }
        self.files.len()
    }

    /// The path of the file at position `i`.
    pub fn path(&self, i: usize) -> (path: &String)
        requires
            i < self@.len(),
        ensures
            path@ == self@[i as int].0,
    {
        &self.files[i].0
    }

    /// The content of the file at position `i`.
    pub fn content(&self, i: usize) -> (content: &Base64Encoded)
        requires
            i < self@.len(),
        ensures
            content@ == self@[i as int].1,
    {
        &self.files[i].1
    }

    /// Sets the content of `path`, replacing what the path held before.
    pub fn insert(&mut self, path: String, content: Base64Encoded)
        ensures
            final(self)@ == with_file(old(self)@, path@, content@),
            distinct_paths(final(self)@),
    {
        proof {
            use_type_invariant(&*self);
            lemma_position_of(self@, path@);
            lemma_with_file_keeps_paths_distinct(self@, path@, content@);
        }
        let n = self.files.len();
        let mut i: usize = 0;
        while i < n && !(self.files[i].0 == path)
            invariant
                n == self.files@.len(),
                n == self@.len(),
                i <= n,
                forall|k: int| 0 <= k < i ==> self@[k].0 != path@,
            decreases n - i,
        {
            i = i + 1;
        }
        let ghost before = self@;
        proof {
            if i < n {
                lemma_found_position(before, path@, i as int);
            }
        }
        let mut taken = BuildContext::new();
        core::mem::swap(self, &mut taken);
        let BuildContext { files } = taken;
        let mut files = files;
        if i < n {
            files.set(i, (path, content));
        } else {
            files.push((path, content));
        }
        let ghost after = Seq::new(files@.len(), |k: int| (files@[k].0@, files@[k].1@));
        assert(after =~= with_file(before, path@, content@));
        *self = BuildContext { files };
    }

    /// Plans the extraction below `target_path`: one file to create per entry,
    /// in the order of the entries. Fails on the first entry whose path is
    /// unsafe or whose content does not decode, before anything is written.
    pub fn extraction_plan(&self, target_path: &str) -> (out: Result<
        Vec<PlannedFile>,
        ExtractionError,
    >)
        ensures
            match out {
                Ok(plan) => {
                    &&& plan@.len() == self@.len()
                    &&& forall|i: int|
                        0 <= i < self@.len() ==> extractable(target_path@, #[trigger] self@[i])
                            && plans_file(target_path@, self@[i], plan@[i])
                },
                Err(ExtractionError::UnsafePath(path)) => exists|i: int|
                    first_fault_at(target_path@, self@, i) && escapes(target_path@, self@[i].0)
                        && path@ == self@[i].0,
                Err(ExtractionError::InvalidContent(path)) => exists|i: int|
                    first_fault_at(target_path@, self@, i) && !escapes(target_path@, self@[i].0)
                        && path@ == self@[i].0,
            },
    {
        let n = self.files.len();
        let mut plan: Vec<PlannedFile> = Vec::new();
        let mut i: usize = 0;
        while i < n
            invariant
                n == self@.len(),
                n == self.files@.len(),
                i <= n,
                plan@.len() == i,
                forall|k: int|
                    0 <= k < i ==> extractable(target_path@, #[trigger] self@[k]) && plans_file(
                        target_path@,
                        self@[k],
                        plan@[k],
                    ),
            decreases n - i,
        {
            let path = &self.files[i].0;
            if is_escaping(target_path, path.as_str()) {
                assert(first_fault_at(target_path@, self@, i as int));
                return Err(ExtractionError::UnsafePath(path.clone()));
            }
            match self.files[i].1.read_to_buffer() {
                Ok(bytes) => {
                    let destination = resolve(target_path, path.as_str());
                    plan.push(PlannedFile { destination, bytes });
                },
                Err(_) => {
                    assert(first_fault_at(target_path@, self@, i as int));
                    return Err(ExtractionError::InvalidContent(path.clone()));
                },
            }
            i = i + 1;
        }
        Ok(plan)
    }

    /// The paths that are unsafe to extract below `sandbox_root`, all of them,
    /// in the order of the files. A path is unsafe if one of its segments is
    /// `..` or if it resolves to a place outside the sandbox root.
    pub fn sanitize(&self, sandbox_root: &str) -> (offenders: Vec<String>)
        ensures
            offenders.deep_view() == offending_paths(sandbox_root@, self@),
    {
        let n = self.files.len();
        let mut offenders: Vec<String> = Vec::new();
        let mut i: usize = 0;
        while i < n
            invariant
                n == self@.len(),
                i <= n,
                offenders.deep_view() == offending_paths(sandbox_root@, self@.take(i as int)),
            decreases n - i,
        {
            let path = &self.files[i].0;
            assert(self@.take(i + 1).drop_last() == self@.take(i as int));
            if is_escaping(sandbox_root, path.as_str()) {
                offenders.push(path.clone());
            }
            i = i + 1;
        }
        assert(self@.take(n as int) == self@);
        offenders
    }
}

/// Setting a file keeps the paths distinct.
proof fn lemma_with_file_keeps_paths_distinct(files: Files, path: Seq<char>, content: Seq<char>)
    requires
        distinct_paths(files),
    ensures
        distinct_paths(with_file(files, path, content)),
{
    lemma_position_of(files, path);
}

/// In a context without repeated paths, the entry that carries a path is the
/// one `position_of` finds.
proof fn lemma_found_position(files: Files, path: Seq<char>, i: int)
    requires
        distinct_paths(files),
        0 <= i < files.len(),
        files[i].0 == path,
    ensures
        position_of(files, path) == Some(i),
{
    lemma_position_of(files, path);
}

} // verus!
