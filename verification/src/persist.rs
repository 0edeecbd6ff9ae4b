//! Planned side effects and the atomic commit protocol.
//!
//! The verified pipeline never touches the file system. Every write call
//! instead returns a plan: a sequence of [`FileOp`] values that an
//! unverified shell executes in order. A document commit is planned as a
//! write to a temporary sibling path followed by a rename over the final
//! path, so a reader never observes a partially written document.
use vstd::prelude::*;

use crate::text::{spec_with_extension, with_extension};

verus! {

/// One side effect of the writing pipeline, to be executed in plan order.
///
/// The `Store*` operations address an external keyed array store (one
/// dataset per `StoreWrite*`, under a group inside the store file named by
/// `path`). Floating-point datasets carry their values as rendered text
/// tokens; the shell that owns the raw values writes them under the given
/// key.
#[derive(Debug)]
pub enum FileOp {
    /// Create a directory and any missing ancestors; succeed if it exists.
    CreateDirAll { path: String },
    /// Create or truncate a text file with the given contents.
    WriteFile { path: String, contents: String },
    /// Atomically rename `from` over `to`.
    Rename { from: String, to: String },
    /// Create or truncate an array-store file.
    StoreCreate { path: String },
    /// Create a group inside an array-store file.
    StoreCreateGroup { path: String, group: String },
    /// Write a floating-point dataset, given by its rendered tokens.
    StoreWriteFloats {
        path: String,
        group: String,
        dataset: String,
        dims: Vec<usize>,
        tokens: Vec<String>,
    },
    /// Write an unsigned integer dataset.
    StoreWriteUInts {
        path: String,
        group: String,
        dataset: String,
        dims: Vec<usize>,
        values: Vec<u64>,
    },
    /// Flush an array-store file to disk.
    StoreFlush { path: String },
}

/// Whether executing the operation can change the text file at `p`.
pub open spec fn op_touches(op: FileOp, p: Seq<char>) -> bool {
    match op {
        FileOp::WriteFile { path, .. } => path@ == p,
        FileOp::Rename { from, to } => from@ == p || to@ == p,
        FileOp::StoreCreate { path } => path@ == p,
        FileOp::StoreWriteFloats { path, .. } => path@ == p,
        FileOp::StoreWriteUInts { path, .. } => path@ == p,
        _ => false,
    }
}

/// A model file system: a map from paths to text contents.
pub open spec fn apply_op(fs: Map<Seq<char>, Seq<char>>, op: FileOp) -> Map<Seq<char>, Seq<char>> {
    match op {
        FileOp::WriteFile { path, contents } => fs.insert(path@, contents@),
        FileOp::Rename { from, to } => if fs.dom().contains(from@) {
            fs.remove(from@).insert(to@, fs[from@])
        } else {
            fs
        },
        _ => fs,
    }
}

/// Execute a plan prefix of length `n` on the model file system.
pub open spec fn apply_ops(fs: Map<Seq<char>, Seq<char>>, ops: Seq<FileOp>, n: int) -> Map<
    Seq<char>,
    Seq<char>,
>
    decreases n,
{
    if n <= 0 {
        fs
    } else {
        apply_op(apply_ops(fs, ops, n - 1), ops[n - 1])
    }
}

/// The temporary sibling path used while committing a document.
pub open spec fn spec_temp_path(path: Seq<char>) -> Seq<char> {
    spec_with_extension(path, "xdmf.tmp"@)
}

/// The two-step atomic commit plan for a document: write the full text to
/// the temporary sibling path, then rename it over the final path.
pub open spec fn is_commit_plan(ops: Seq<FileOp>, path: Seq<char>, text: Seq<char>) -> bool {
    &&& ops.len() == 2
    &&& ops[0] matches FileOp::WriteFile { path: t, contents: c } && t@ == spec_temp_path(path)
        && c@ == text
    &&& ops[1] matches FileOp::Rename { from, to } && from@ == spec_temp_path(path) && to@ == path
}

/// Plan the atomic commit of document `text` to `path`.
pub fn plan_commit(path: &str, text: String) -> (ops: Vec<FileOp>)
    ensures
        is_commit_plan(ops@, path@, text@),
{
    let temp = with_extension(path, "xdmf.tmp");
    let temp2 = temp.as_str().to_owned();
    let mut ops: Vec<FileOp> = Vec::new();
    ops.push(FileOp::WriteFile { path: temp, contents: text });
    ops.push(FileOp::Rename { from: temp2, to: path.to_owned() });
    ops
}

/// Interrupting a commit before the final rename leaves the committed
/// document untouched: after only the temp-file write of a commit plan for
/// a path whose last character is not `p` (every document path ends in
/// `xdmf2`), the model file system is unchanged at the final path — the
/// previously committed text, or its absence, is still observed. Executing
/// the whole plan installs the new text at the final path.
pub proof fn lemma_commit_atomic(
    fs: Map<Seq<char>, Seq<char>>,
    ops: Seq<FileOp>,
    path: Seq<char>,
    text: Seq<char>,
)
    requires
        is_commit_plan(ops, path, text),
        path.len() > 0,
        path.last() != 'p',
    ensures
        forall|q: Seq<char>|
            q != spec_temp_path(path) ==> apply_ops(fs, ops, 1).dom().contains(q) == fs.dom().contains(
                q,
            ) && (fs.dom().contains(q) ==> apply_ops(fs, ops, 1)[q] == fs[q]),
        apply_ops(fs, ops, 1).dom().contains(path) == fs.dom().contains(path),
        fs.dom().contains(path) ==> apply_ops(fs, ops, 1)[path] == fs[path],
        apply_ops(fs, ops, 2).dom().contains(path),
        apply_ops(fs, ops, 2)[path] == text,
{
    let temp = spec_temp_path(path);
    assert(temp.last() == 'p') by {
        reveal_strlit("xdmf.tmp");
        assert("xdmf.tmp"@.len() == 8);
        assert("xdmf.tmp"@[7] == 'p');
    }
    assert(path != temp);
    assert(apply_ops(fs, ops, 0) == fs);
    let fs1 = apply_ops(fs, ops, 1);
    assert(fs1 == apply_op(fs, ops[0]));
    let fs2 = apply_ops(fs, ops, 2);
    assert(fs2 == apply_op(fs1, ops[1]));
    assert(fs1.dom().contains(temp));
    assert(fs1[temp] == text);
}


/// The atomicity guarantee at the pipeline's own document paths, which all
/// end in the `xdmf2` extension: interrupting a commit plan between the
/// temp-file write and the rename leaves the document path untouched, and
/// executing the whole plan installs the new text there.
pub proof fn lemma_pipeline_commit_atomic(
    fs: Map<Seq<char>, Seq<char>>,
    ops: Seq<FileOp>,
    file: Seq<char>,
    text: Seq<char>,
)
    requires
        is_commit_plan(ops, spec_with_extension(file, "xdmf2"@), text),
    ensures
        ({
            let path = spec_with_extension(file, "xdmf2"@);
            &&& apply_ops(fs, ops, 1).dom().contains(path) == fs.dom().contains(path)
            &&& fs.dom().contains(path) ==> apply_ops(fs, ops, 1)[path] == fs[path]
            &&& apply_ops(fs, ops, 2).dom().contains(path)
            &&& apply_ops(fs, ops, 2)[path] == text
        }),
{
    let path = spec_with_extension(file, "xdmf2"@);
    assert(path.last() == '2') by {
        reveal_strlit("xdmf2");
        assert("xdmf2"@.len() == 5);
        assert("xdmf2"@[4] == '2');
    }
    lemma_commit_atomic(fs, ops, path, text);
}

} // verus!
