//! The files of a job, and the names under which they go to the file server and come
//! back.
use vstd::prelude::*;

use crate::text::{occurs, opt_text};

verus! {

/// Where the last piece of `path` begins: behind its last slash.
pub open spec fn last_piece_start(path: Seq<char>) -> nat
    decreases path.len(),
{
    if path.len() == 0 || path.last() == '/' {
        path.len()
    } else {
        last_piece_start(path.drop_last())
    }
}

/// The final component of a path whose components are set apart by slashes: the
/// last piece that is neither empty nor a single dot. A path that ends in `..` has
/// none, nor has one without any such piece.
pub open spec fn file_name_of(path: Seq<char>) -> Option<Seq<char>>
    decreases path.len(),
{
    let start = last_piece_start(path);
    let piece = path.skip(start as int);
    if piece.len() == 0 || piece == seq!['.'] {
        if start == 0 {
            None
        } else {
            proof {
                lemma_last_piece_bounds(path);
            }
            file_name_of(path.take(start - 1))
        }
    } else if piece == seq!['.', '.'] {
        None
    } else {
        Some(piece)
    }
}

proof fn lemma_last_piece(path: Seq<char>, start: int)
    requires
        0 <= start <= path.len(),
        start == 0 || path[start - 1] == '/',
        forall|i: int| start <= i < path.len() ==> path[i] != '/',
    ensures
        last_piece_start(path) == start,
    decreases path.len(),
{
    if path.len() > 0 && path.last() != '/' {
        lemma_last_piece(path.drop_last(), start);
    }
}

/// The last piece of a path lies within it and holds no slash.
pub proof fn lemma_last_piece_bounds(path: Seq<char>)
    ensures
        last_piece_start(path) <= path.len(),
        forall|i: int| last_piece_start(path) <= i < path.len() ==> path[i] != '/',
    decreases path.len(),
{
    if path.len() > 0 && path.last() != '/' {
        let rest = path.drop_last();
        lemma_last_piece_bounds(rest);
        assert forall|i: int| last_piece_start(path) <= i < path.len() implies path[i] != '/' by {
            if i < rest.len() {
                assert(rest[i] == path[i]);
            }
        }
    }
}

/// A final component is one piece of the path: it holds no slash, no character that
/// the path does not hold, and it is its own final component.
pub proof fn file_name_is_final(path: Seq<char>)
    ensures
        file_name_of(path) matches Some(name) ==> {
            &&& forall|i: int| 0 <= i < name.len() ==> name[i] != '/'
            &&& forall|i: int| 0 <= i < name.len() ==> path.contains(#[trigger] name[i])
            &&& file_name_of(name) == Some(name)
        },
    decreases path.len(),
{
    let start = last_piece_start(path);
    let piece = path.skip(start as int);
    lemma_last_piece_bounds(path);
    if piece.len() == 0 || piece == seq!['.'] {
        if start != 0 {
            let head = path.take(start - 1);
            file_name_is_final(head);
            if let Some(name) = file_name_of(head) {
                assert forall|i: int| 0 <= i < name.len() implies path.contains(
                    #[trigger] name[i],
                ) by {
                    let k = choose|k: int| 0 <= k < head.len() && head[k] == name[i];
                    assert(path[k] == name[i]);
                }
            }
        }
    } else if piece != seq!['.', '.'] {
        assert forall|i: int| 0 <= i < piece.len() implies piece[i] != '/' && path.contains(
            #[trigger] piece[i],
        ) by {
            assert(piece[i] == path[start + i]);
        }
        lemma_last_piece(piece, 0);
        assert(piece.skip(0) =~= piece);
    }
}

/// Whether every machine reads `path` alike, with slashes and nothing else between its
/// components: it holds no backslash and no colon and does not begin with two slashes.
/// On some machines a backslash divides components too, and a drive or a share may
/// come first.
pub open spec fn is_portable(path: Seq<char>) -> bool {
    &&& forall|i: int| 0 <= i < path.len() ==> path[i] != '\\' && path[i] != ':'
    &&& !(path.len() >= 2 && path[0] == '/' && path[1] == '/')
}

/// Whether `name` is a part of `path` that can name a file: it is neither empty nor
/// one or two dots.
pub open spec fn is_part_of(name: Seq<char>, path: Seq<char>) -> bool {
    &&& name.len() > 0
    &&& name != seq!['.']
    &&& name != seq!['.', '.']
    &&& occurs(path, name)
}

/// `std::path::Path::file_name`: the final component of a path, if that is a normal
/// one. The result is a part of the path and no reference to a directory. Of a path
/// that every machine reads alike it is what `file_name_of` says. Of another path it
/// depends on the machine, and no more is said.
#[verifier::external_body]
fn file_name(path: &str) -> (r: Option<String>)
    ensures
        is_portable(path@) ==> opt_text(r) == file_name_of(path@),
        r matches Some(name) ==> is_part_of(name@, path@),
{
    std::path::Path::new(path).file_name()?.to_str().map(str::to_string)
}

/// A file of a job.
#[derive(Debug)]
pub struct NamedFile {
    /// The final component of the path that the settings list.
    pub name: String,
    /// The final component of that name, under which the file is uploaded.
    pub remote: Option<String>,
}

impl NamedFile {
    /// Whether this is the file at `path`.
    pub open spec fn stands_for(self, path: Seq<char>) -> bool {
        &&& is_part_of(self.name@, path)
        &&& is_portable(path) ==> file_name_of(path) == Some(self.name@)
        &&& opt_text(self.remote) matches Some(remote) ==> is_part_of(remote, self.name@)
        &&& is_portable(self.name@) ==> opt_text(self.remote) == file_name_of(self.name@)
    }
}

/// The names of `files`.
pub open spec fn names_of(files: Seq<NamedFile>) -> Seq<Seq<char>> {
    Seq::new(files.len(), |i: int| files[i].name@)
}

/// The names under which `files` are uploaded.
pub open spec fn remotes_of(files: Seq<NamedFile>) -> Seq<Option<Seq<char>>> {
    Seq::new(files.len(), |i: int| opt_text(files[i].remote))
}

/// Whether `files` are those at `paths`, in the same order.
pub open spec fn stand_for(files: Seq<NamedFile>, paths: Seq<String>) -> bool {
    &&& files.len() == paths.len()
    &&& forall|i: int| 0 <= i < files.len() ==> (#[trigger] files[i]).stands_for(paths[i]@)
}

/// Whether each of `paths` has a final component on every machine.
pub open spec fn all_named(paths: Seq<String>) -> bool {
    forall|i: int|
        0 <= i < paths.len() ==> is_portable(#[trigger] paths[i]@) && file_name_of(
            paths[i]@,
        ) is Some
}

/// The files of a job, as its settings list them.
#[derive(Debug)]
pub struct JobFiles {
    pub inputs: Vec<String>,
    pub outputs: Vec<String>,
    pub scripts: Vec<String>,
}

/// The files of a job under their names.
#[derive(Debug)]
pub struct NamedFiles {
    /// The files that the job starts from: the inputs, then the scripts.
    pub staged: Vec<NamedFile>,
    /// The files that the job brings forth.
    pub outputs: Vec<NamedFile>,
}

/// Names the file at `path`, if the path has a final component.
pub fn name_file(path: &str) -> (r: Option<NamedFile>)
    ensures
        match r {
            Some(file) => file.stands_for(path@),
            None => is_portable(path@) ==> file_name_of(path@) is None,
        },
{
    match file_name(path) {
        Some(name) => {
            let remote = file_name(name.as_str());
            Some(NamedFile { name, remote })
        },
        None => None,
    }
}

/// Names the files at `paths`, if each path has a final component.
fn name_all(paths: &Vec<String>) -> (r: Option<Vec<NamedFile>>)
    ensures
        match r {
            Some(files) => stand_for(files@, paths@),
            None => !all_named(paths@),
        },
{
    let mut files: Vec<NamedFile> = Vec::new();
    let mut i: usize = 0;
    while i < paths.len()
        invariant
            i <= paths.len(),
            stand_for(files@, paths@.take(i as int)),
        decreases paths.len() - i,
    {
        match name_file(paths[i].as_str()) {
            Some(file) => files.push(file),
            None => {
                assert(!(is_portable(paths@[i as int]@) && file_name_of(paths@[i as int]@) is Some));
                return None;
            },
        }
        i = i + 1;
    }
    assert(paths@.take(i as int) =~= paths@);
    Some(files)
}

impl JobFiles {
    /// Names the files of the job, if each listed path has a final component.
    pub fn named(&self) -> (r: Option<NamedFiles>)
        ensures
            match r {
                Some(files) => {
                    &&& stand_for(files.staged@, self.inputs@ + self.scripts@)
                    &&& stand_for(files.outputs@, self.outputs@)
                },
                None => !(all_named(self.inputs@) && all_named(self.outputs@) && all_named(
                    self.scripts@,
                )),
            },
    {
        match (name_all(&self.inputs), name_all(&self.outputs), name_all(&self.scripts)) {
            (Some(mut staged), Some(outputs), Some(mut scripts)) => {
                staged.append(&mut scripts);
                Some(NamedFiles { staged, outputs })
            },
            _ => None,
        }
    }
}

/// Whether `names` are the final components of `paths`, in the same order, each of them
/// one piece without a slash.
pub open spec fn are_final(names: Seq<Seq<char>>, paths: Seq<String>) -> bool {
    &&& names.len() == paths.len()
    &&& forall|i: int|
        0 <= i < names.len() ==> file_name_of(paths[i]@) == Some(#[trigger] names[i])
    &&& forall|i: int, k: int|
        0 <= i < names.len() && 0 <= k < names[i].len() ==> #[trigger] names[i][k] != '/'
}

/// Whether each of `files` is uploaded under its name.
pub open spec fn keep_names(files: Seq<NamedFile>) -> bool {
    forall|i: int|
        0 <= i < files.len() ==> opt_text((#[trigger] files[i]).remote) == Some(files[i].name@)
}

proof fn lemma_portable_file(file: NamedFile, path: Seq<char>)
    requires
        file.stands_for(path),
        is_portable(path),
    ensures
        file_name_of(path) == Some(file.name@),
        opt_text(file.remote) == Some(file.name@),
        forall|i: int| 0 <= i < file.name@.len() ==> file.name@[i] != '/',
{
    file_name_is_final(path);
    let name = file.name@;
    assert forall|i: int| 0 <= i < name.len() implies name[i] != '\\' && name[i] != ':' by {
        assert(path.contains(name[i]));
    }
    assert(is_portable(name));
}

/// Files whose paths every machine reads alike are named by the final components of
/// those paths and keep these names on the file server.
pub proof fn portable_files_keep_their_names(files: Seq<NamedFile>, paths: Seq<String>)
    requires
        stand_for(files, paths),
        all_named(paths),
    ensures
        keep_names(files),
        are_final(names_of(files), paths),
{
    assert forall|i: int| 0 <= i < files.len() implies opt_text((#[trigger] files[i]).remote)
        == Some(files[i].name@) by {
        assert(is_portable(paths[i]@));
        lemma_portable_file(files[i], paths[i]@);
    }
    let names = names_of(files);
    assert forall|i: int| 0 <= i < names.len() implies file_name_of(paths[i]@) == Some(
        #[trigger] names[i],
    ) by {
        lemma_portable_file(files[i], paths[i]@);
    }
    assert forall|i: int, k: int|
        0 <= i < names.len() && 0 <= k < names[i].len() implies #[trigger] names[i][k] != '/' by {
        lemma_portable_file(files[i], paths[i]@);
    }
}

proof fn lemma_behind_a_slash(dir: Seq<char>, piece: Seq<char>)
    requires
        forall|i: int| 0 <= i < piece.len() ==> piece[i] != '/',
    ensures
        ({
            let path = dir + seq!['/'] + piece;
            &&& last_piece_start(path) == dir.len() + 1
            &&& path.skip(dir.len() as int + 1) == piece
            &&& path.take(dir.len() as int) == dir
        }),
{
    let path = dir + seq!['/'] + piece;
    lemma_last_piece(path, dir.len() as int + 1);
    assert(path.skip(dir.len() as int + 1) =~= piece);
    assert(path.take(dir.len() as int) =~= dir);
}

/// The final component of a path is what stands behind its last slash, or, where no slash
/// is, the path itself. Nothing, or a single dot, behind a slash does not count; two dots
/// leave no final component.
pub proof fn final_component_stands_behind_the_last_slash(dir: Seq<char>, name: Seq<char>)
    requires
        name.len() > 0,
        name != seq!['.'],
        name != seq!['.', '.'],
        forall|i: int| 0 <= i < name.len() ==> name[i] != '/',
    ensures
        file_name_of(name) == Some(name),
        file_name_of(dir + seq!['/'] + name) == Some(name),
        file_name_of(dir + seq!['/']) == file_name_of(dir),
        file_name_of(dir + seq!['/', '.']) == file_name_of(dir),
        file_name_of(dir + seq!['/', '.', '.']) is None,
        file_name_of(Seq::empty()) is None,
        file_name_of(seq!['.']) is None,
        file_name_of(seq!['.', '.']) is None,
{
    lemma_last_piece(name, 0);
    assert(name.skip(0) =~= name);
    lemma_behind_a_slash(dir, name);
    lemma_behind_a_slash(dir, Seq::empty());
    assert(dir + seq!['/'] + Seq::empty() =~= dir + seq!['/']);
    lemma_behind_a_slash(dir, seq!['.']);
    assert(dir + seq!['/'] + seq!['.'] =~= dir + seq!['/', '.']);
    lemma_behind_a_slash(dir, seq!['.', '.']);
    assert(dir + seq!['/'] + seq!['.', '.'] =~= dir + seq!['/', '.', '.']);
    let one = seq!['.'];
    let two = seq!['.', '.'];
    assert(two.len() != one.len());
    lemma_last_piece(Seq::empty(), 0);
    lemma_last_piece(one, 0);
    lemma_last_piece(two, 0);
    assert(one.skip(0) =~= one);
    assert(two.skip(0) =~= two);
}

/// The files of a job are named one for one: first those of the inputs, then those of the
/// scripts, and apart from them those of the outputs. Where every machine reads a path
/// alike, it names its file, and where that path has no final component, no files are
/// named at all.
pub proof fn files_are_named_one_for_one(
    listed: &JobFiles,
    r: Option<NamedFiles>,
    path: &str,
    one: Option<NamedFile>,
)
    requires
        call_ensures(JobFiles::named, (listed,), r),
        call_ensures(name_file, (path,), one),
    ensures
        is_portable(path@) ==> match one {
            Some(file) => {
                &&& file_name_of(path@) == Some(file.name@)
                &&& file.remote is Some
                &&& file.remote->0@ == file.name@
            },
            None => file_name_of(path@) is None,
        },
        all_named(listed.inputs@) && all_named(listed.outputs@) && all_named(listed.scripts@)
            ==> r is Some,
        r matches Some(files) ==> {
            let n = listed.inputs@.len();
            &&& files.staged@.len() == n + listed.scripts@.len()
            &&& files.outputs@.len() == listed.outputs@.len()
            &&& forall|i: int|
                0 <= i < n && is_portable(listed.inputs@[i]@) ==> file_name_of(
                    listed.inputs@[i]@,
                ) == Some((#[trigger] files.staged@[i]).name@)
            &&& forall|i: int|
                0 <= i < listed.scripts@.len() && is_portable(listed.scripts@[i]@) ==> file_name_of(
                    (#[trigger] listed.scripts@[i])@,
                ) == Some(files.staged@[n + i].name@)
            &&& forall|i: int|
                0 <= i < listed.outputs@.len() && is_portable(listed.outputs@[i]@) ==> file_name_of(
                    listed.outputs@[i]@,
                ) == Some((#[trigger] files.outputs@[i]).name@)
        },
{
    if is_portable(path@) {
        if let Some(file) = one {
            lemma_portable_file(file, path@);
        }
    }
    if let Some(files) = r {
        let paths = listed.inputs@ + listed.scripts@;
        let n = listed.inputs@.len();
        assert forall|i: int| 0 <= i < n && is_portable(listed.inputs@[i]@) implies file_name_of(
            listed.inputs@[i]@,
        ) == Some((#[trigger] files.staged@[i]).name@) by {
            assert(paths[i] == listed.inputs@[i]);
            assert(files.staged@[i].stands_for(paths[i]@));
        }
        assert forall|i: int|
            0 <= i < listed.scripts@.len() && is_portable(listed.scripts@[i]@) implies file_name_of(
            (#[trigger] listed.scripts@[i])@,
        ) == Some(files.staged@[n + i].name@) by {
            assert(paths[n + i] == listed.scripts@[i]);
            assert(files.staged@[n + i].stands_for(paths[n + i]@));
        }
        assert forall|i: int|
            0 <= i < listed.outputs@.len() && is_portable(listed.outputs@[i]@) implies file_name_of(
            listed.outputs@[i]@,
        ) == Some((#[trigger] files.outputs@[i]).name@) by {
            assert(files.outputs@[i].stands_for(listed.outputs@[i]@));
        }
    }
}

} // verus!
