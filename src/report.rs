//! The report on one filesystem entry and its bordered, fixed-width rendering.
use vstd::prelude::*;

use crate::cli::{asks_for_hash, is_hash_flag, Invocation};
use crate::path::{file_name, final_name};
use crate::perms::{mode_text, permission_text};
use crate::text::{pad, padded};

verus! {

/// Width of the label column.
pub const PADDING: usize = 15;

/// Whether the entry is a directory or anything else.
#[derive(Clone, Copy, Debug, PartialEq, Eq, Structural)]
pub enum DirOrFile {
    Dir,
    File,
}

impl DirOrFile {
    /// How the kind reads in a report.
    pub open spec fn text(self) -> Seq<char> {
        match self {
            DirOrFile::Dir => "Directory"@,
            DirOrFile::File => "File"@,
        }
    }

    /// The kind as report text: `Directory` or `File`.
    pub fn to_text(&self) -> (r: String)
        ensures
            r@ == self.text(),
    {
        match self {
            DirOrFile::Dir => "Directory".to_owned(),
            DirOrFile::File => "File".to_owned(),
        }
    }
}

/// How a flag reads in a report.
pub open spec fn bool_text(b: bool) -> Seq<char> {
    if b {
        "true"@
    } else {
        "false"@
    }
}

/// The metadata of one entry, as plain values. Timestamps are held in the
/// text form in which they are shown; `None` where the filesystem does not
/// keep that attribute.
pub struct EntryMetadata {
    pub is_symlink: bool,
    pub mode: u32,
    pub created: Option<String>,
    pub last_modified: Option<String>,
    pub last_accessed: Option<String>,
}

/// Everything shown about one entry.
pub struct PrettyFile {
    pub filename: Option<String>,
    pub absolute_path: String,
    pub dir_or_file: DirOrFile,
    pub is_symlink: bool,
    pub last_modified: Option<String>,
    pub last_accessed: Option<String>,
    pub created: Option<String>,
    pub permissions: u32,
    pub sha256: Option<String>,
}

/// One labelled field, as label and value.
pub type Field = (Seq<char>, Seq<char>);

/// The field `(label, v)` where `v` is present, nothing otherwise.
pub open spec fn opt_field(label: Seq<char>, v: Option<String>) -> Seq<Field> {
    match v {
        Some(s) => seq![(label, s@)],
        None => Seq::empty(),
    }
}

/// The timestamp fields, each one only where the filesystem supplied it.
pub open spec fn timestamp_fields(
    created: Option<String>,
    last_modified: Option<String>,
    last_accessed: Option<String>,
) -> Seq<Field> {
    opt_field("Created"@, created) + opt_field("Last modified"@, last_modified) + opt_field(
        "Last accessed"@,
        last_accessed,
    )
}

/// Whether some field of `fs` carries the label `label`.
pub open spec fn has_label(fs: Seq<Field>, label: Seq<char>) -> bool {
    exists|k: int| 0 <= k < fs.len() && (#[trigger] fs[k]).0 == label
}

/// The line of text that shows one field: the label padded to the column,
/// `: `, the value, and an empty line after it.
pub open spec fn field_line(f: Field) -> Seq<char> {
    padded(f.0, PADDING as nat) + ": "@ + f.1 + "\n\n"@
}

/// The lines of the fields `fs`, in order.
#[verifier::opaque]
pub open spec fn field_lines(fs: Seq<Field>) -> Seq<char>
    decreases fs.len(),
{
    if fs.len() == 0 {
        Seq::empty()
    } else {
        field_lines(fs.drop_last()) + field_line(fs.last())
    }
}

/// The border line, without its line end.
pub open spec fn border() -> Seq<char> {
    "===================================================================="@
}

/// What the digest field shows: no digest is computed yet.
pub open spec fn hash_placeholder() -> Seq<char> {
    "[unimplemented]"@
}

impl PrettyFile {
    /// Whether this report is the one made for `inv` from the entry's
    /// metadata `meta`, its canonical path `absolute_path`, and whether it
    /// is a directory.
    pub open spec fn describes(
        &self,
        inv: Invocation,
        meta: EntryMetadata,
        absolute_path: String,
        is_dir: bool,
    ) -> bool {
        &&& match self.filename {
            Some(n) => final_name(inv.path@) == Some(n@),
            None => final_name(inv.path@) is None,
        }
        &&& self.absolute_path == absolute_path
        &&& self.dir_or_file == (if is_dir {
            DirOrFile::Dir
        } else {
            DirOrFile::File
        })
        &&& self.is_symlink == meta.is_symlink
        &&& self.created == meta.created
        &&& self.last_modified == meta.last_modified
        &&& self.last_accessed == meta.last_accessed
        &&& self.permissions == meta.mode
        &&& match self.sha256 {
            Some(h) => inv.wants_hash && h@ == hash_placeholder(),
            None => !inv.wants_hash,
        }
    }

    /// Assembles the report for `inv`: the name is the final name of the
    /// path, the digest field is there only when it was asked for.
    pub fn new(inv: &Invocation, meta: EntryMetadata, absolute_path: String, is_dir: bool) -> (r:
        PrettyFile)
        ensures
            r.describes(*inv, meta, absolute_path, is_dir),
    {
        let sha256 = if inv.wants_hash {
            Some("[unimplemented]".to_owned())
        } else {
            None
        };
        PrettyFile {
            filename: file_name(inv.path.as_str()),
            absolute_path,
            dir_or_file: if is_dir {
                DirOrFile::Dir
            } else {
                DirOrFile::File
            },
            is_symlink: meta.is_symlink,
            last_modified: meta.last_modified,
            last_accessed: meta.last_accessed,
            created: meta.created,
            permissions: meta.mode,
            sha256,
        }
    }

    /// The fields that the report shows, in order; each absent optional one
    /// is left out.
    pub open spec fn fields(&self) -> Seq<Field> {
        opt_field("Name"@, self.filename) + self.entry_fields() + opt_field("sha256"@, self.sha256) + timestamp_fields(
            self.created,
            self.last_modified,
            self.last_accessed,
        ) + seq![("Permissions"@, mode_text(self.permissions))]
    }

    /// The whole report: a border and an empty line, the field lines, and a
    /// closing border line.
    pub open spec fn rendered(&self) -> Seq<char> {
        border() + "\n\n"@ + field_lines(self.fields()) + border() + "\n"@
    }

    /// Renders the report as text.
    pub fn render(&self) -> (r: String)
        ensures
            r@ == self.rendered(),
    {
        let mut out = "====================================================================".to_owned();
        out.append("\n\n");
        let ghost head = out@;
        push_opt_field(&mut out, "Name", &self.filename);
        self.push_entry_fields(&mut out);
        push_opt_field(&mut out, "sha256", &self.sha256);
        self.push_timestamp_fields(&mut out);
        let perms = permission_text(self.permissions);
        push_field(&mut out, "Permissions", perms.as_str());
        proof {
            let a = opt_field("Name"@, self.filename);
            let b = self.entry_fields();
            let c = opt_field("sha256"@, self.sha256);
            let d = timestamp_fields(self.created, self.last_modified, self.last_accessed);
            let e = seq![("Permissions"@, mode_text(self.permissions))];
            lemma_field_lines_concat(a, b);
            lemma_field_lines_concat(a + b, c);
            lemma_field_lines_concat(a + b + c, d);
            lemma_field_lines_concat(a + b + c + d, e);
            assert(self.fields() =~= a + b + c + d + e);
            assert(out@ =~= head + field_lines(self.fields()));
        }
        out.append("====================================================================");
        out.append("\n");
        assert(out@ =~= self.rendered());
        out
    }

    /// The fields that every report shows between the name and the digest.
    pub open spec fn entry_fields(&self) -> Seq<Field> {
        seq![
            ("Absolute path"@, self.absolute_path@),
            ("Type"@, self.dir_or_file.text()),
            ("Symlink"@, bool_text(self.is_symlink)),
        ]
    }

    /// Appends the lines of the absolute path, the type and the symlink flag.
    fn push_entry_fields(&self, out: &mut String)
        ensures
            final(out)@ == old(out)@ + field_lines(self.entry_fields()),
    {
        push_field(out, "Absolute path", self.absolute_path.as_str());
        let kind = self.dir_or_file.to_text();
        push_field(out, "Type", kind.as_str());
        let link = if self.is_symlink {
            "true"
        } else {
            "false"
        };
        push_field(out, "Symlink", link);
        proof {
            let a = seq![("Absolute path"@, self.absolute_path@)];
            let b = seq![("Type"@, self.dir_or_file.text())];
            let c = seq![("Symlink"@, bool_text(self.is_symlink))];
            lemma_field_lines_concat(a, b);
            lemma_field_lines_concat(a + b, c);
            assert(self.entry_fields() =~= a + b + c);
            assert(final(out)@ =~= old(out)@ + field_lines(self.entry_fields()));
        }
    }

    /// Appends the lines of the timestamps that are there.
    fn push_timestamp_fields(&self, out: &mut String)
        ensures
            final(out)@ == old(out)@ + field_lines(
                timestamp_fields(self.created, self.last_modified, self.last_accessed),
            ),
    {
        push_opt_field(out, "Created", &self.created);
        push_opt_field(out, "Last modified", &self.last_modified);
        push_opt_field(out, "Last accessed", &self.last_accessed);
        proof {
            let a = opt_field("Created"@, self.created);
            let b = opt_field("Last modified"@, self.last_modified);
            let c = opt_field("Last accessed"@, self.last_accessed);
            lemma_field_lines_concat(a, b);
            lemma_field_lines_concat(a + b, c);
            assert(final(out)@ =~= old(out)@ + field_lines(
                timestamp_fields(self.created, self.last_modified, self.last_accessed),
            ));
        }
    }
}

/// The lines of two runs of fields are the lines of each, one after the other.
proof fn lemma_field_lines_concat(a: Seq<Field>, b: Seq<Field>)
    ensures
        field_lines(a + b) == field_lines(a) + field_lines(b),
    decreases b.len(),
{
    reveal(field_lines);
    if b.len() == 0 {
        assert(a + b =~= a);
        assert(field_lines(a) + field_lines(b) =~= field_lines(a));
    } else {
        assert((a + b).drop_last() =~= a + b.drop_last());
        lemma_field_lines_concat(a, b.drop_last());
        assert(field_lines(a + b) =~= field_lines(a) + field_lines(b));
    }
}

/// The lines of a single field are that field's line.
proof fn lemma_field_lines_one(f: Field)
    ensures
        field_lines(seq![f]) == field_line(f),
{
    reveal_with_fuel(field_lines, 2);
    assert(seq![f].drop_last() =~= Seq::<Field>::empty());
    assert(seq![f].last() == f);
    assert(field_lines(Seq::<Field>::empty()) =~= Seq::<char>::empty());
    assert(field_lines(seq![f]) =~= field_line(f));
}

/// Appends the line of the field `(label, value)` to `out`.
fn push_field(out: &mut String, label: &str, value: &str)
    ensures
        final(out)@ == old(out)@ + field_lines(seq![(label@, value@)]),
{
    let tag = pad(label, PADDING);
    out.append(tag.as_str());
    out.append(": ");
    out.append(value);
    out.append("\n\n");
    proof {
        lemma_field_lines_one((label@, value@));
    }
    assert(final(out)@ =~= old(out)@ + field_line((label@, value@)));
}

/// Appends the line of the field `(label, v)` to `out` where `v` is present.
fn push_opt_field(out: &mut String, label: &str, v: &Option<String>)
    ensures
        final(out)@ == old(out)@ + field_lines(opt_field(label@, *v)),
{
    match v {
        Some(s) => push_field(out, label, s.as_str()),
        None => {
            proof {
                reveal(field_lines);
            }
            assert(old(out)@ + field_lines(opt_field(label@, *v)) =~= old(out)@);
        },
    }
}

/// Two runs of fields together carry a label exactly when one of them does.
proof fn lemma_has_label_concat(a: Seq<Field>, b: Seq<Field>, label: Seq<char>)
    ensures
        has_label(a + b, label) <==> (has_label(a, label) || has_label(b, label)),
{
    if has_label(a + b, label) {
        let k = choose|k: int| 0 <= k < (a + b).len() && (#[trigger] (a + b)[k]).0 == label;
        if k < a.len() {
            assert(a[k] == (a + b)[k]);
        } else {
            assert(b[k - a.len()] == (a + b)[k]);
        }
    }
    if has_label(a, label) {
        let k = choose|k: int| 0 <= k < a.len() && (#[trigger] a[k]).0 == label;
        assert((a + b)[k] == a[k]);
    }
    if has_label(b, label) {
        let k = choose|k: int| 0 <= k < b.len() && (#[trigger] b[k]).0 == label;
        assert((a + b)[a.len() + k] == b[k]);
    }
}

/// An optional field carries `label` exactly when it is there and `label` is its label.
proof fn lemma_has_label_opt(l: Seq<char>, v: Option<String>, label: Seq<char>)
    ensures
        has_label(opt_field(l, v), label) <==> (v is Some && l == label),
{
    if v is Some {
        assert(opt_field(l, v)[0].0 == l);
    }
}

/// The labels of three fields are those three.
proof fn lemma_has_label_three(x: Field, y: Field, z: Field, label: Seq<char>)
    ensures
        has_label(seq![x, y, z], label) <==> (x.0 == label || y.0 == label || z.0 == label),
{
    let s = seq![x, y, z];
    assert(s[0] == x && s[1] == y && s[2] == z);
}

/// The label of a single field is its own.
proof fn lemma_has_label_one(x: Field, label: Seq<char>)
    ensures
        has_label(seq![x], label) <==> x.0 == label,
{
    assert(seq![x][0] == x);
}

/// The characters that tell the labels of a report apart.
proof fn lemma_labels_distinct()
    ensures
        "Name"@[0] == 'N',
        "Absolute path"@[0] == 'A',
        "Type"@[0] == 'T',
        "Symlink"@[0] == 'S',
        "sha256"@[0] == 's',
        "Created"@[0] == 'C',
        "Last modified"@[0] == 'L',
        "Last accessed"@[0] == 'L',
        "Last modified"@[5] == 'm',
        "Last accessed"@[5] == 'a',
        "Permissions"@[0] == 'P',
{
    reveal_strlit("Name");
    reveal_strlit("Absolute path");
    reveal_strlit("Type");
    reveal_strlit("Symlink");
    reveal_strlit("sha256");
    reveal_strlit("Created");
    reveal_strlit("Last modified");
    reveal_strlit("Last accessed");
    reveal_strlit("Permissions");
}

/// Whether the report carries a field labelled `label`, part by part.
proof fn lemma_report_has_label(r: PrettyFile, label: Seq<char>)
    ensures
        has_label(r.fields(), label) <==> (
        (r.filename is Some && label == "Name"@)
        || label == "Absolute path"@
        || label == "Type"@
        || label == "Symlink"@
        || (r.sha256 is Some && label == "sha256"@)
        || (r.created is Some && label == "Created"@)
        || (r.last_modified is Some && label == "Last modified"@)
        || (r.last_accessed is Some && label == "Last accessed"@)
        || label == "Permissions"@),
{
    let a = opt_field("Name"@, r.filename);
    let b = r.entry_fields();
    let c = opt_field("sha256"@, r.sha256);
    let d1 = opt_field("Created"@, r.created);
    let d2 = opt_field("Last modified"@, r.last_modified);
    let d3 = opt_field("Last accessed"@, r.last_accessed);
    let e = seq![("Permissions"@, mode_text(r.permissions))];
    lemma_has_label_concat(a, b, label);
    lemma_has_label_concat(a + b, c, label);
    lemma_has_label_concat(d1, d2, label);
    lemma_has_label_concat(d1 + d2, d3, label);
    lemma_has_label_concat(a + b + c, d1 + d2 + d3, label);
    lemma_has_label_concat(a + b + c + (d1 + d2 + d3), e, label);
    lemma_has_label_opt("Name"@, r.filename, label);
    lemma_has_label_opt("sha256"@, r.sha256, label);
    lemma_has_label_opt("Created"@, r.created, label);
    lemma_has_label_opt("Last modified"@, r.last_modified, label);
    lemma_has_label_opt("Last accessed"@, r.last_accessed, label);
    lemma_has_label_three(b[0], b[1], b[2], label);
    assert(b =~= seq![b[0], b[1], b[2]]);
    lemma_has_label_one(e[0], label);
    assert(r.fields() == a + b + c + (d1 + d2 + d3) + e);
}

/// For a path given with nothing after it, naming a plain file with a final
/// name, the report shows exactly: the name, the absolute path, the type
/// `File`, the symlink flag, the timestamps that the filesystem supplied,
/// and the permissions; no digest.
pub proof fn lemma_plain_file_report(
    args: Seq<String>,
    inv: Invocation,
    meta: EntryMetadata,
    absolute_path: String,
    r: PrettyFile,
)
    requires
        args.len() == 1,
        inv.path@ == args[0]@,
        inv.wants_hash == asks_for_hash(args),
        final_name(inv.path@) is Some,
        r.describes(inv, meta, absolute_path, false),
    ensures
        r.fields() == seq![
            ("Name"@, final_name(inv.path@)->Some_0),
            ("Absolute path"@, absolute_path@),
            ("Type"@, "File"@),
            ("Symlink"@, bool_text(meta.is_symlink)),
        ] + timestamp_fields(meta.created, meta.last_modified, meta.last_accessed) + seq![
            ("Permissions"@, mode_text(meta.mode)),
        ],
        !has_label(r.fields(), "sha256"@),
{
    assert(!inv.wants_hash);
    assert(r.fields() =~= seq![
        ("Name"@, final_name(inv.path@)->Some_0),
        ("Absolute path"@, absolute_path@),
        ("Type"@, "File"@),
        ("Symlink"@, bool_text(meta.is_symlink)),
    ] + timestamp_fields(meta.created, meta.last_modified, meta.last_accessed) + seq![
        ("Permissions"@, mode_text(meta.mode)),
    ]);
    lemma_labels_distinct();
    lemma_report_has_label(r, "sha256"@);
}

/// The report on a directory shows the type `Directory`.
pub proof fn lemma_directory_type(
    inv: Invocation,
    meta: EntryMetadata,
    absolute_path: String,
    r: PrettyFile,
)
    requires
        r.describes(inv, meta, absolute_path, true),
    ensures
        r.fields().contains(("Type"@, "Directory"@)),
{
    let k: int = if r.filename is Some {
        2
    } else {
        1
    };
    assert(r.fields()[k] == ("Type"@, "Directory"@));
}

/// Where any argument after the path is `--sha256` or `-h`, the report shows
/// the digest field with the placeholder text.
pub proof fn lemma_hash_flag_shows_placeholder(
    args: Seq<String>,
    i: int,
    inv: Invocation,
    meta: EntryMetadata,
    absolute_path: String,
    is_dir: bool,
    r: PrettyFile,
)
    requires
        1 <= i < args.len(),
        is_hash_flag(args[i]@),
        inv.path@ == args[0]@,
        inv.wants_hash == asks_for_hash(args),
        r.describes(inv, meta, absolute_path, is_dir),
    ensures
        r.fields().contains(("sha256"@, hash_placeholder())),
{
    assert(is_hash_flag(args[i]@));
    assert(inv.wants_hash);
    let k: int = if r.filename is Some {
        4
    } else {
        3
    };
    assert(r.fields()[k] == ("sha256"@, hash_placeholder()));
}

/// Where the path has no final name (a root, for one), the report has no
/// name field at all.
pub proof fn lemma_no_name_field(
    inv: Invocation,
    meta: EntryMetadata,
    absolute_path: String,
    is_dir: bool,
    r: PrettyFile,
)
    requires
        final_name(inv.path@) is None,
        r.describes(inv, meta, absolute_path, is_dir),
    ensures
        !has_label(r.fields(), "Name"@),
{
    lemma_labels_distinct();
    lemma_report_has_label(r, "Name"@);
}

/// The absolute path shown is the one the report was made with, unchanged.
pub proof fn lemma_absolute_path_shown(
    inv: Invocation,
    meta: EntryMetadata,
    absolute_path: String,
    is_dir: bool,
    r: PrettyFile,
)
    requires
        r.describes(inv, meta, absolute_path, is_dir),
    ensures
        r.fields().contains(("Absolute path"@, absolute_path@)),
{
    let k: int = if r.filename is Some {
        1
    } else {
        0
    };
    assert(r.fields()[k] == ("Absolute path"@, absolute_path@));
}

/// Each timestamp field is shown exactly when the filesystem supplied that
/// timestamp, whatever holds of the other two.
pub proof fn lemma_timestamps_independent(
    inv: Invocation,
    meta: EntryMetadata,
    absolute_path: String,
    is_dir: bool,
    r: PrettyFile,
)
    requires
        r.describes(inv, meta, absolute_path, is_dir),
    ensures
        has_label(r.fields(), "Created"@) <==> meta.created is Some,
        has_label(r.fields(), "Last modified"@) <==> meta.last_modified is Some,
        has_label(r.fields(), "Last accessed"@) <==> meta.last_accessed is Some,
{
    lemma_labels_distinct();
    lemma_report_has_label(r, "Created"@);
    lemma_report_has_label(r, "Last modified"@);
    lemma_report_has_label(r, "Last accessed"@);
}

} // verus!
