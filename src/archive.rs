use vstd::prelude::*;

use crate::error::PluginError;

verus! {

/// Where an archive entry lies, as path components, and whether it is a
/// directory.
#[derive(Debug)]
pub struct ProjectPath {
    pub path_components: Vec<String>,
    pub is_dir: bool,
}

/// An archive entry with its content (empty for a directory).
#[derive(Debug)]
pub struct ProjectFile {
    pub path: ProjectPath,
    pub content: Vec<u8>,
}

/// An archive entry as plain values.
pub ghost struct FileView {
    pub components: Seq<Seq<char>>,
    pub is_dir: bool,
    pub content: Seq<u8>,
}

impl View for ProjectFile {
    type V = FileView;

    open spec fn view(&self) -> FileView {
        FileView {
            components: self.path.path_components@.map_values(|s: String| s@),
            is_dir: self.path.is_dir,
            content: self.content@,
        }
    }
}

pub open spec fn file_views(v: Seq<ProjectFile>) -> Seq<FileView> {
    v.map_values(|f: ProjectFile| f@)
}

/// The entry with its first path component dropped.
pub open spec fn strip_root(f: FileView) -> FileView {
    FileView { components: f.components.drop_first(), ..f }
}

/// The entries of a snapshot with the synthetic root component dropped from
/// each path, in archive order; entries left with no path (the root
/// itself) are discarded.
pub open spec fn normalized(entries: Seq<FileView>) -> Seq<FileView>
    decreases entries.len(),
{
    if entries.len() == 0 {
        seq![]
    } else {
        let before = normalized(entries.drop_last());
        let e = entries.last();
        if e.components.len() > 1 {
            before.push(strip_root(e))
        } else {
            before
        }
    }
}

/// Of a single entry exactly the first path component is dropped: an
/// entry with two or more components keeps the others, an entry with one
/// (the synthetic root) is discarded.
pub proof fn lemma_strips_root_once(e: FileView)
    ensures
        e.components.len() > 1 ==> normalized(seq![e]) == seq![
            FileView { components: e.components.drop_first(), ..e },
        ],
        e.components.len() <= 1 ==> normalized(seq![e]) == Seq::<FileView>::empty(),
{
    let one = seq![e];
    assert(one.drop_last() =~= Seq::<FileView>::empty());
    assert(one.last() == e);
    assert(normalized(Seq::<FileView>::empty()) == Seq::<FileView>::empty());
    assert(Seq::<FileView>::empty().push(strip_root(e)) =~= seq![strip_root(e)]);
}

/// Normalisation treats entries one by one and keeps their order: the
/// entries of two archives in sequence normalise to the two results in
/// sequence.
pub proof fn lemma_normalized_concat(a: Seq<FileView>, b: Seq<FileView>)
    ensures
        normalized(a + b) == normalized(a) + normalized(b),
    decreases b.len(),
{
    if b.len() == 0 {
        assert(a + b =~= a);
        assert(normalized(a) + normalized(b) =~= normalized(a));
    } else {
        lemma_normalized_concat(a, b.drop_last());
        assert((a + b).drop_last() =~= a + b.drop_last());
        assert((a + b).last() == b.last());
        let e = b.last();
        if e.components.len() > 1 {
            assert((normalized(a) + normalized(b.drop_last())).push(strip_root(e)) =~= normalized(a)
                + normalized(b.drop_last()).push(strip_root(e)));
        }
    }
}

/// The entries (path components, directory flag, content) that bytes hold
/// in order, read as a gzip-compressed tar archive; `None` where they are
/// not one or an entry cannot be read.
pub uninterp spec fn tar_gz_entries(bytes: Seq<u8>) -> Option<Seq<FileView>>;

/// Relies on flate2::read::GzDecoder and tar::Archive::entries (with
/// Entry::path, Header::entry_type and reading each entry to its end) to
/// read a tar+gzip stream into its entries, each with its full path; what
/// they yield depends on the bytes alone.
#[verifier::external_body]
fn read_tar_gz(bytes: &[u8]) -> (r: Option<Vec<ProjectFile>>)
    ensures
        match r {
            Some(v) => tar_gz_entries(bytes@) == Some(file_views(v@)),
            None => tar_gz_entries(bytes@) is None,
        },
{
    let mut archive = tar::Archive::new(flate2::read::GzDecoder::new(bytes));
    let mut files = Vec::new();
    for entry in archive.entries().ok()? {
        let mut entry = entry.ok()?;
        let is_dir = entry.header().entry_type().is_dir();
        let path = entry.path().ok()?;
        let path_components = path.iter().map(|c| c.to_string_lossy().into_owned()).collect();
        let mut content = Vec::new();
        std::io::Read::read_to_end(&mut entry, &mut content).ok()?;
        files.push(ProjectFile { path: ProjectPath { path_components, is_dir }, content });
    }
    Some(files)
}

/// Drops the synthetic root component from each entry's path, discarding
/// the entries that are left with no path.
pub fn normalize_entries(raw: Vec<ProjectFile>) -> (r: Vec<ProjectFile>)
    ensures
        file_views(r@) == normalized(file_views(raw@)),
{
    let ghost all = file_views(raw@);
    let mut out: Vec<ProjectFile> = Vec::new();
    assert(all.take(0) =~= seq![]);
    for entry in it: raw
        invariant
            it.seq() == raw@,
            all == file_views(raw@),
            file_views(out@) == normalized(all.take(it.index() as int)),
    {
        let ghost k = it.index() as int;
        assert(all.take(k + 1).drop_last() =~= all.take(k));
        assert(all.take(k + 1).last() == entry@);
        let ProjectFile { path: ProjectPath { mut path_components, is_dir }, content } = entry;
        if path_components.len() > 1 {
            let ghost whole = path_components@;
            path_components.remove(0);
            let stripped = ProjectFile { path: ProjectPath { path_components, is_dir }, content };
            assert(stripped@.components =~= entry@.components.drop_first());
            let ghost before = out@;
            out.push(stripped);
            assert(file_views(out@) =~= file_views(before).push(stripped@));
        }
    }
    assert(all.take(all.len() as int) =~= all);
    out
}

/// The normalised entries of a tar+gzip snapshot; `ArchiveReadFailure`
/// where the stream is not valid gzip or tar or an entry cannot be read.
pub fn get_files_from_gzip(buf: &Vec<u8>) -> (r: Result<Vec<ProjectFile>, PluginError>)
    ensures
        match tar_gz_entries(buf@) {
            Some(entries) => r matches Ok(files) && file_views(files@) == normalized(entries),
            None => r matches Err(e) && e is ArchiveReadFailure,
        },
{
    match read_tar_gz(buf.as_slice()) {
        Some(raw) => Ok(normalize_entries(raw)),
        None => Err(PluginError::ArchiveReadFailure),
    }
}

} // verus!
