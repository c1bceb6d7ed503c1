use vstd::prelude::*;
use vstd::string::StringExecFns;
use crate::config::Config;

verus! {

/// Where the configuration lives: its directory, the file, and the two siblings that
/// saving and corruption recovery use.
#[derive(Debug)]
pub struct ConfigLocation {
    pub dir: String,
    pub file: String,
    pub temp: String,
    pub backup: String,
}

/// `dir` and `name` joined by a single `/`.
pub open spec fn joined(dir: Seq<char>, name: Seq<char>) -> Seq<char> {
    if dir.len() > 0 && dir.last() == '/' {
        dir + name
    } else {
        dir + "/"@ + name
    }
}

impl ConfigLocation {
    pub open spec fn is_at(&self, dir: Seq<char>) -> bool {
        &&& self.dir@ == dir
        &&& self.file@ == joined(dir, "config.json"@)
        &&& self.temp@ == self.file@ + ".tmp"@
        &&& self.backup@ == self.file@ + ".bak"@
    }

    /// The location of `config.json` inside the directory `dir`.
    pub fn in_dir(dir: &str) -> (r: ConfigLocation)
        ensures
            r.is_at(dir@),
    {
        let n = dir.unicode_len();
        let file = if n > 0 && dir.get_char(n - 1) == '/' {
            String::from_str(dir).concat("config.json")
        } else {
            String::from_str(dir).concat("/").concat("config.json")
        };
        let temp = file.clone().concat(".tmp");
        let backup = file.clone().concat(".bak");
        ConfigLocation { dir: String::from_str(dir), file, temp, backup }
    }
}

/// One change to the file system, carried out by the caller in order.
#[derive(Debug)]
pub enum FileOp {
    /// Create a directory and its missing parents.
    CreateDirAll { path: String },
    /// Write `contents` to `path`, replacing what was there.
    Write { path: String, contents: String },
    /// Copy the file at `from` to `to`; a failure is reported and otherwise ignored.
    Copy { from: String, to: String },
    /// Move the file at `from` onto `to` in one step.
    Rename { from: String, to: String },
}

pub enum FileOpView {
    CreateDirAll { path: Seq<char> },
    Write { path: Seq<char>, contents: Seq<char> },
    Copy { from: Seq<char>, to: Seq<char> },
    Rename { from: Seq<char>, to: Seq<char> },
}

impl View for FileOp {
    type V = FileOpView;

    open spec fn view(&self) -> FileOpView {
        match self {
            FileOp::CreateDirAll { path } => FileOpView::CreateDirAll { path: path@ },
            FileOp::Write { path, contents } => FileOpView::Write { path: path@, contents: contents@ },
            FileOp::Copy { from, to } => FileOpView::Copy { from: from@, to: to@ },
            FileOp::Rename { from, to } => FileOpView::Rename { from: from@, to: to@ },
        }
    }
}

pub open spec fn ops_view(ops: Seq<FileOp>) -> Seq<FileOpView> {
    ops.map_values(|op: FileOp| op@)
}

/// The files of a file system, by path: what each one holds.
pub type Files = Map<Seq<char>, Seq<char>>;

/// The files after one operation. Directories are not modelled.
pub open spec fn apply_op(files: Files, op: FileOpView) -> Files {
    match op {
        FileOpView::CreateDirAll { .. } => files,
        FileOpView::Write { path, contents } => files.insert(path, contents),
        FileOpView::Copy { from, to } => if files.contains_key(from) {
            files.insert(to, files[from])
        } else {
            files
        },
        FileOpView::Rename { from, to } => if files.contains_key(from) {
            files.remove(from).insert(to, files[from])
        } else {
            files
        },
    }
}

/// The files after a sequence of operations, in order.
pub open spec fn apply_ops(files: Files, ops: Seq<FileOpView>) -> Files
    decreases ops.len(),
{
    if ops.len() == 0 {
        files
    } else {
        apply_ops(apply_op(files, ops[0]), ops.drop_first())
    }
}

/// What was found at the configuration path.
#[derive(Debug)]
pub enum StoredConfig {
    /// No file is there.
    Absent,
    /// A file is there but could not be read.
    Unreadable { reason: String },
    /// The file was read but does not hold a configuration.
    Malformed { reason: String },
    /// The file holds this configuration.
    Parsed(Config),
}

/// What loading decides: the configuration (if any), the file operations to carry out,
/// and a warning to show.
#[derive(Debug)]
pub struct LoadOutcome {
    pub config: Option<Config>,
    pub ops: Vec<FileOp>,
    pub warning: Option<String>,
}

impl Config {
    /// Decides what loading yields from what was found at `loc`. Only a parsed file gives a
    /// configuration; a corrupted one is backed up to its `.bak` sibling; an unreadable one
    /// gives a warning; a missing one changes nothing.
    pub fn load(loc: &ConfigLocation, found: StoredConfig) -> (r: LoadOutcome)
        ensures
            found is Parsed <==> r.config is Some,
            found is Parsed ==> r.config->Some_0@ == found->Parsed_0@,
            found is Malformed ==> ops_view(r.ops@) == seq![
                FileOpView::Copy { from: loc.file@, to: loc.backup@ },
            ],
            !(found is Malformed) ==> r.ops@.len() == 0,
            found is Absent || found is Parsed <==> r.warning is None,
            found is Malformed ==> r.warning->Some_0@ == "Warning: Config file is corrupted: "@
                + found->Malformed_reason@,
            found is Unreadable ==> r.warning->Some_0@ == "Warning: Could not read config file: "@
                + found->Unreadable_reason@,
    {
        match found {
            StoredConfig::Absent => LoadOutcome { config: None, ops: Vec::new(), warning: None },
            StoredConfig::Unreadable { reason } => LoadOutcome {
                config: None,
                ops: Vec::new(),
                warning: Some(
                    String::from_str("Warning: Could not read config file: ").concat(reason.as_str()),
                ),
            },
            StoredConfig::Malformed { reason } => {
                let ops = vec![FileOp::Copy { from: loc.file.clone(), to: loc.backup.clone() }];
                proof {
                    assert(ops_view(ops@) =~= seq![
                        FileOpView::Copy { from: loc.file@, to: loc.backup@ },
                    ]);
                }
                LoadOutcome {
                    config: None,
                    ops,
                    warning: Some(
                        String::from_str("Warning: Config file is corrupted: ").concat(
                            reason.as_str(),
                        ),
                    ),
                }
            },
            StoredConfig::Parsed(c) => LoadOutcome { config: Some(c), ops: Vec::new(), warning: None },
        }
    }

    /// The steps of an atomic save of `text`, the serialized configuration, at `loc`: make
    /// the directory, write the temporary sibling, then rename it onto the file.
    pub fn save(loc: &ConfigLocation, text: String) -> (r: Vec<FileOp>)
        ensures
            ops_view(r@) == seq![
                FileOpView::CreateDirAll { path: loc.dir@ },
                FileOpView::Write { path: loc.temp@, contents: text@ },
                FileOpView::Rename { from: loc.temp@, to: loc.file@ },
            ],
    {
        let r = vec![
            FileOp::CreateDirAll { path: loc.dir.clone() },
            FileOp::Write { path: loc.temp.clone(), contents: text },
            FileOp::Rename { from: loc.temp.clone(), to: loc.file.clone() },
        ];
        proof {
            assert(ops_view(r@) =~= seq![
                FileOpView::CreateDirAll { path: loc.dir@ },
                FileOpView::Write { path: loc.temp@, contents: text@ },
                FileOpView::Rename { from: loc.temp@, to: loc.file@ },
            ]);
        }
        r
    }
}

/// After the save steps run, the file holds the saved text and no temporary sibling
/// remains; every other file is left as it was.
pub proof fn save_installs_text_and_leaves_no_temp(loc: &ConfigLocation, dir: Seq<char>, text: Seq<char>, files: Files)
    requires
        loc.is_at(dir),
    ensures
        ({
            let after = apply_ops(files, seq![
                FileOpView::CreateDirAll { path: loc.dir@ },
                FileOpView::Write { path: loc.temp@, contents: text },
                FileOpView::Rename { from: loc.temp@, to: loc.file@ },
            ]);
            &&& after.contains_key(loc.file@)
            &&& after[loc.file@] == text
            &&& !after.contains_key(loc.temp@)
            &&& forall|p: Seq<char>| p != loc.file@ && p != loc.temp@ ==> (after.contains_key(p) == files.contains_key(p)
                && (files.contains_key(p) ==> after[p] == files[p]))
        }),
{
    reveal_strlit(".tmp");
    assert(loc.temp@.len() == loc.file@.len() + 4);
    let ops = seq![
        FileOpView::CreateDirAll { path: loc.dir@ },
        FileOpView::Write { path: loc.temp@, contents: text },
        FileOpView::Rename { from: loc.temp@, to: loc.file@ },
    ];
    let f1 = apply_op(files, ops[0]);
    let f2 = apply_op(f1, ops[1]);
    let f3 = apply_op(f2, ops[2]);
    assert(ops.drop_first().drop_first().drop_first() =~= Seq::<FileOpView>::empty());
    assert(apply_ops(f3, ops.drop_first().drop_first().drop_first()) == f3);
    assert(apply_ops(f2, ops.drop_first().drop_first()) == f3);
    assert(apply_ops(f1, ops.drop_first()) == f3);
    assert(apply_ops(files, ops) == f3);
}

/// After the backup step that loading a corrupted file asks for, the `.bak` sibling holds
/// the corrupted contents and the file itself is untouched.
pub proof fn corrupted_file_is_backed_up(loc: &ConfigLocation, dir: Seq<char>, files: Files)
    requires
        loc.is_at(dir),
        files.contains_key(loc.file@),
    ensures
        ({
            let after = apply_ops(files, seq![FileOpView::Copy { from: loc.file@, to: loc.backup@ }]);
            &&& after.contains_key(loc.backup@)
            &&& after[loc.backup@] == files[loc.file@]
            &&& after.contains_key(loc.file@)
            &&& after[loc.file@] == files[loc.file@]
        }),
{
    reveal_strlit(".bak");
    assert(loc.backup@.len() == loc.file@.len() + 4);
    let ops = seq![FileOpView::Copy { from: loc.file@, to: loc.backup@ }];
    let f1 = apply_op(files, ops[0]);
    assert(ops.drop_first() =~= Seq::<FileOpView>::empty());
    assert(apply_ops(f1, ops.drop_first()) == f1);
}

/// Loading where no file is present asks for no file operation, so no file is created.
pub proof fn missing_file_creates_nothing(files: Files)
    ensures
        apply_ops(files, Seq::<FileOpView>::empty()) == files,
{
}

} // verus!
