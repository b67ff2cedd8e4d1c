//! The slice-generation plan: the ordered filesystem operations that
//! materialize one slice, with their exact paths and file contents.

use vstd::prelude::*;
use crate::layers::{Layers, ValidationError, has_valid_name, name_of, display_of, root_path_of, segment_names};

verus! {

/// One filesystem operation of a slice plan.
#[derive(Debug, Clone, PartialEq, Eq)]
pub enum FsOp {
    /// Create the directory and all missing ancestors; succeed if it exists.
    EnsureDir(String),
    /// Create or truncate the file and write the given content.
    WriteFile(String, String),
}

/// The mathematical model of one filesystem operation.
pub enum Op {
    Dir(Seq<char>),
    File(Seq<char>, Seq<char>),
}

impl View for FsOp {
    type V = Op;

    open spec fn view(&self) -> Op {
        match self {
            FsOp::EnsureDir(p) => Op::Dir(p@),
            FsOp::WriteFile(p, c) => Op::File(p@, c@),
        }
    }
}

/// The path an operation creates or writes.
pub open spec fn op_path(o: Op) -> Seq<char> {
    match o {
        Op::Dir(p) => p,
        Op::File(p, _) => p,
    }
}

/// The model of a sequence of operations.
pub open spec fn ops_view(s: Seq<FsOp>) -> Seq<Op> {
    s.map_values(|o: FsOp| o@)
}

/// The path of a segment directory inside a slice root.
pub open spec fn seg_path(root: Seq<char>, seg: Seq<char>) -> Seq<char> {
    root + "/"@ + seg
}

/// The path of the barrel file inside a directory.
pub open spec fn barrel_path(dir: Seq<char>) -> Seq<char> {
    dir + "/index.ts"@
}

/// One re-export line of a barrel file.
pub open spec fn export_line(seg: Seq<char>) -> Seq<char> {
    "export {} from './"@ + seg + "'\n"@
}

/// The content of a barrel file that re-exports each of `segs`, in order.
pub open spec fn barrel_content_spec(segs: Seq<Seq<char>>) -> Seq<char>
    decreases segs.len(),
{
    if segs.len() == 0 {
        Seq::empty()
    } else {
        barrel_content_spec(segs.drop_last()) + export_line(segs.last())
    }
}

/// The operations that generate one segment after another: for each segment,
/// its directory and then its empty barrel file.
pub open spec fn segment_ops(root: Seq<char>, segs: Seq<Seq<char>>) -> Seq<Op>
    decreases segs.len(),
{
    if segs.len() == 0 {
        Seq::empty()
    } else {
        segment_ops(root, segs.drop_last()) + seq![
            Op::Dir(seg_path(root, segs.last())),
            Op::File(barrel_path(seg_path(root, segs.last())), Seq::empty()),
        ]
    }
}

/// The full ordered plan for a well-formed layer value: the root directory,
/// each segment's directory and empty barrel, then the root barrel with one
/// export line per segment.
pub open spec fn plan_spec(l: Layers) -> Seq<Op>
    recommends
        has_valid_name(l),
{
    seq![Op::Dir(root_path_of(l))] + segment_ops(root_path_of(l), segment_names()) + seq![
        Op::File(barrel_path(root_path_of(l)), barrel_content_spec(segment_names())),
    ]
}

/// Law: the plan of a well-formed layer value consists of exactly these ten
/// operations, in order: the root directory; for each segment `ui`, `model`,
/// `lib`, `api`, in order, its directory and then its empty barrel file; and
/// last the root barrel file with one export line per segment.
pub proof fn lemma_plan_expanded(l: Layers)
    requires
        has_valid_name(l),
    ensures
        plan_spec(l) =~= seq![
            Op::Dir(root_path_of(l)),
            Op::Dir(seg_path(root_path_of(l), "ui"@)),
            Op::File(barrel_path(seg_path(root_path_of(l), "ui"@)), Seq::empty()),
            Op::Dir(seg_path(root_path_of(l), "model"@)),
            Op::File(barrel_path(seg_path(root_path_of(l), "model"@)), Seq::empty()),
            Op::Dir(seg_path(root_path_of(l), "lib"@)),
            Op::File(barrel_path(seg_path(root_path_of(l), "lib"@)), Seq::empty()),
            Op::Dir(seg_path(root_path_of(l), "api"@)),
            Op::File(barrel_path(seg_path(root_path_of(l), "api"@)), Seq::empty()),
            Op::File(barrel_path(root_path_of(l)), barrel_content_spec(segment_names())),
        ],
{
    let root = root_path_of(l);
    let s0 = Seq::<Seq<char>>::empty();
    let s1 = seq!["ui"@];
    let s2 = seq!["ui"@, "model"@];
    let s3 = seq!["ui"@, "model"@, "lib"@];
    let s4 = segment_names();
    assert(s1.drop_last() =~= s0);
    assert(s2.drop_last() =~= s1);
    assert(s3.drop_last() =~= s2);
    assert(s4.drop_last() =~= s3);
    assert(segment_ops(root, s0) =~= Seq::empty());
    assert(segment_ops(root, s1) =~= seq![
        Op::Dir(seg_path(root, "ui"@)),
        Op::File(barrel_path(seg_path(root, "ui"@)), Seq::empty()),
    ]);
    assert(segment_ops(root, s2) =~= segment_ops(root, s1) + seq![
        Op::Dir(seg_path(root, "model"@)),
        Op::File(barrel_path(seg_path(root, "model"@)), Seq::empty()),
    ]);
    assert(segment_ops(root, s3) =~= segment_ops(root, s2) + seq![
        Op::Dir(seg_path(root, "lib"@)),
        Op::File(barrel_path(seg_path(root, "lib"@)), Seq::empty()),
    ]);
    assert(segment_ops(root, s4) =~= segment_ops(root, s3) + seq![
        Op::Dir(seg_path(root, "api"@)),
        Op::File(barrel_path(seg_path(root, "api"@)), Seq::empty()),
    ]);
}

/// Law: every file of a slice plan other than the final operation, the root
/// barrel, is written with empty content.
pub proof fn lemma_segment_barrels_empty(l: Layers)
    requires
        has_valid_name(l),
    ensures
        forall|i: int|
            0 <= i < plan_spec(l).len() - 1 && plan_spec(l)[i] is File ==> plan_spec(l)[i]->File_1
                == Seq::<char>::empty(),
{
    lemma_plan_expanded(l);
}

/// Law: the root barrel content is exactly one export line per segment, in
/// the fixed order `ui`, `model`, `lib`, `api`.
pub proof fn lemma_root_barrel_content()
    ensures
        barrel_content_spec(segment_names()) =~= export_line("ui"@) + export_line("model"@)
            + export_line("lib"@) + export_line("api"@),
{
    let s0 = Seq::<Seq<char>>::empty();
    let s1 = seq!["ui"@];
    let s2 = seq!["ui"@, "model"@];
    let s3 = seq!["ui"@, "model"@, "lib"@];
    let s4 = segment_names();
    assert(s1.drop_last() =~= s0);
    assert(s2.drop_last() =~= s1);
    assert(s3.drop_last() =~= s2);
    assert(s4.drop_last() =~= s3);
    assert(barrel_content_spec(s0) =~= Seq::empty());
    assert(barrel_content_spec(s1) =~= export_line("ui"@));
    assert(barrel_content_spec(s2) =~= export_line("ui"@) + export_line("model"@));
    assert(barrel_content_spec(s3) =~= export_line("ui"@) + export_line("model"@) + export_line(
        "lib"@,
    ));
}

/// Law: the root barrel content, written out character for character.
pub proof fn lemma_root_barrel_literal()
    ensures
        barrel_content_spec(segment_names())
            == "export {} from './ui'\nexport {} from './model'\nexport {} from './lib'\nexport {} from './api'\n"@,
{
    lemma_root_barrel_content();
    reveal_strlit("export {} from './");
    reveal_strlit("'\n");
    reveal_strlit("ui");
    reveal_strlit("model");
    reveal_strlit("lib");
    reveal_strlit("api");
    reveal_strlit(
        "export {} from './ui'\nexport {} from './model'\nexport {} from './lib'\nexport {} from './api'\n",
    );
    assert(barrel_content_spec(segment_names())
        =~= "export {} from './ui'\nexport {} from './model'\nexport {} from './lib'\nexport {} from './api'\n"@);
}

/// Appends `/{seg}` to a directory path.
fn push_component(dir: &mut String, seg: &str)
    ensures
        final(dir)@ == old(dir)@ + "/"@ + seg@,
{
    dir.append("/");
    dir.append(seg);
    proof {
        assert(dir@ =~= old(dir)@ + "/"@ + seg@);
    }
}

/// The path of the barrel file inside `dir`: `{dir}/index.ts`.
pub fn barrel_file_path(dir: &str) -> (r: String)
    ensures
        r@ == barrel_path(dir@),
{
    let mut r = dir.to_owned();
    r.append("/index.ts");
    proof {
        assert(r@ =~= barrel_path(dir@));
    }
    r
}

/// One re-export line: `export {} from './{seg}'` and a newline.
fn export_line_str(seg: &str) -> (r: String)
    ensures
        r@ == export_line(seg@),
{
    let mut r = String::new();
    r.append("export {} from './");
    r.append(seg);
    r.append("'\n");
    proof {
        assert(r@ =~= export_line(seg@));
    }
    r
}

/// The content of a barrel file with one re-export line per element of
/// `segments`, in order. Elements are not deduplicated: a repeated segment
/// name yields the same line twice.
pub fn barrel_content(segments: &Vec<String>) -> (r: String)
    ensures
        r@ == barrel_content_spec(segments@.map_values(|s: String| s@)),
{
    let ghost seg_views = segments@.map_values(|s: String| s@);
    let mut r = String::new();
    proof {
        assert(seg_views.take(0) =~= Seq::<Seq<char>>::empty());
        assert(r@ =~= barrel_content_spec(seg_views.take(0)));
    }
    for i in 0..segments.len()
        invariant
            seg_views == segments@.map_values(|s: String| s@),
            seg_views.len() == segments@.len(),
            r@ == barrel_content_spec(seg_views.take(i as int)),
    {
        let line = export_line_str(segments[i].as_str());
        r.append(line.as_str());
        proof {
            assert(seg_views.take(i + 1).drop_last() =~= seg_views.take(i as int));
            assert(seg_views.take(i + 1).last() == segments@[i as int]@);
        }
    }
    proof {
        assert(seg_views.take(segments@.len() as int) =~= seg_views);
    }
    r
}

impl FsOp {
    /// The path this operation creates or writes.
    pub fn path(&self) -> (r: &String)
        ensures
            r@ == op_path(self@),
    {
        match self {
            FsOp::EnsureDir(p) => p,
            FsOp::WriteFile(p, _) => p,
        }
    }
}

/// Computes the plan that materializes the slice of `layer`: its root
/// directory, one directory and one empty barrel file per segment, and the
/// root barrel file re-exporting each segment, in that order. Fails with a
/// validation error exactly when the slice name is missing or empty, and then
/// plans no operation at all.
pub fn slice_plan(layer: &Layers) -> (r: Result<Vec<FsOp>, ValidationError>)
    ensures
        r is Ok <==> has_valid_name(*layer),
        r is Ok ==> ops_view(r->Ok_0@) == plan_spec(*layer),
{
    let root = match layer.get_path() {
        Ok(p) => p,
        Err(e) => {
            return Err(e);
        },
    };
    let segments = layer.get_segments();
    let mut ops: Vec<FsOp> = Vec::new();
    ops.push(FsOp::EnsureDir(root.clone()));
    proof {
        assert(segment_names().take(0) =~= Seq::<Seq<char>>::empty());
        assert(ops_view(ops@) =~= seq![Op::Dir(root_path_of(*layer))] + segment_ops(
            root_path_of(*layer),
            segment_names().take(0),
        ));
    }
    for i in 0..segments.len()
        invariant
            root@ == root_path_of(*layer),
            segments@.len() == segment_names().len(),
            forall|j: int| 0 <= j < segments@.len() ==> segments@[j]@ == segment_names()[j],
            ops_view(ops@) == seq![Op::Dir(root_path_of(*layer))] + segment_ops(
                root_path_of(*layer),
                segment_names().take(i as int),
            ),
    {
        let mut sp = root.clone();
        push_component(&mut sp, segments[i].as_str());
        let bp = barrel_file_path(sp.as_str());
        let ghost prev = ops@;
        ops.push(FsOp::EnsureDir(sp));
        ops.push(FsOp::WriteFile(bp, String::new()));
        proof {
            let segs = segment_names();
            assert(segs.take(i + 1).drop_last() =~= segs.take(i as int));
            assert(segs.take(i + 1).last() == segs[i as int]);
            assert(ops_view(ops@) =~= ops_view(prev) + seq![
                Op::Dir(seg_path(root_path_of(*layer), segs[i as int])),
                Op::File(barrel_path(seg_path(root_path_of(*layer), segs[i as int])), Seq::empty()),
            ]);
            assert(ops_view(ops@) =~= seq![Op::Dir(root_path_of(*layer))] + segment_ops(
                root_path_of(*layer),
                segs.take(i + 1),
            ));
        }
    }
    proof {
        assert(segment_names().take(segment_names().len() as int) =~= segment_names());
    }
    let content = barrel_content(&segments);
    proof {
        assert(segments@.map_values(|s: String| s@) =~= segment_names());
    }
    let ghost prev = ops@;
    ops.push(FsOp::WriteFile(barrel_file_path(root.as_str()), content));
    proof {
        assert(ops_view(ops@) =~= ops_view(prev) + seq![
            Op::File(barrel_path(root_path_of(*layer)), barrel_content_spec(segment_names())),
        ]);
        assert(ops_view(ops@) =~= plan_spec(*layer));
    }
    Ok(ops)
}

/// Error for a filesystem operation that failed: the offending path, the
/// underlying cause as reported by the caller, and the paths of the
/// operations that had already been performed.
#[derive(Debug, Clone, PartialEq, Eq)]
pub struct FilesystemError {
    pub path: String,
    pub cause: String,
    pub created: Vec<String>,
}

impl FilesystemError {
    /// A human-readable description of the failure.
    pub fn message(&self) -> (r: String)
        ensures
            r@ == "filesystem operation failed at "@ + self.path@ + ": "@ + self.cause@,
    {
        let mut r = String::new();
        r.append("filesystem operation failed at ");
        r.append(self.path.as_str());
        r.append(": ");
        r.append(self.cause.as_str());
        proof {
            assert(r@ =~= "filesystem operation failed at "@ + self.path@ + ": "@ + self.cause@);
        }
        r
    }
}

/// Describes the failure of operation number `failed` of a plan: names the
/// operation's path, keeps the caller-supplied cause, and lists the paths of
/// the operations that were already performed before the failure.
pub fn filesystem_failure(ops: &Vec<FsOp>, failed: usize, cause: String) -> (r: FilesystemError)
    requires
        failed < ops@.len(),
    ensures
        r.path@ == op_path(ops@[failed as int]@),
        r.cause == cause,
        r.created@.len() == failed,
        forall|i: int| 0 <= i < failed ==> r.created@[i]@ == op_path(ops@[i]@),
{
    let mut created: Vec<String> = Vec::new();
    for i in 0..failed
        invariant
            failed < ops@.len(),
            created@.len() == i,
            forall|j: int| 0 <= j < i ==> created@[j]@ == op_path(ops@[j]@),
    {
        created.push(ops[i].path().clone());
    }
    FilesystemError { path: ops[failed].path().clone(), cause, created }
}

/// The report for a successfully generated slice, naming the slice and its
/// layer kind. Fails with a validation error exactly when the slice name is
/// missing or empty.
pub fn success_message(layer: &Layers) -> (r: Result<String, ValidationError>)
    ensures
        r is Ok <==> has_valid_name(*layer),
        r is Ok ==> r->Ok_0@ == "Created new slice "@ + name_of(*layer) + " for layer "@
            + display_of(*layer),
{
    let name = match layer.name() {
        Ok(n) => n,
        Err(e) => {
            return Err(e);
        },
    };
    let kind = layer.value();
    let mut m = String::new();
    m.append("Created new slice ");
    m.append(name.as_str());
    m.append(" for layer ");
    m.append(kind.as_str());
    proof {
        assert(m@ =~= "Created new slice "@ + name_of(*layer) + " for layer "@ + display_of(
            *layer,
        ));
    }
    Ok(m)
}

} // verus!
