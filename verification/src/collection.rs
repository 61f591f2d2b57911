//! Collecting files across a directory walk: a name-keyed collection of
//! file records plus the errors met on the way. The walk itself (reading
//! directories, metadata) happens outside; its observations arrive here as
//! plain [`WalkEvent`] values and are folded into the collection.

use vstd::prelude::*;
use vstd::pervasive::VecAdditionalExecFns;

verus! {

/// Why a path could not be processed during a walk.
#[derive(Debug, Clone, PartialEq, Eq)]
pub enum FileCollectionError {
    /// An I/O error, with its message, at a path.
    IoError(String, String),
    PermissionDenied(String),
    InvalidFileName(String),
    Other(String),
}

/// Mathematical model of a [`FileCollectionError`].
pub ghost enum FileErrorView {
    IoError(Seq<char>, Seq<char>),
    PermissionDenied(Seq<char>),
    InvalidFileName(Seq<char>),
    Other(Seq<char>),
}

impl View for FileCollectionError {
    type V = FileErrorView;

    open spec fn view(&self) -> FileErrorView {
        match self {
            FileCollectionError::IoError(m, p) => FileErrorView::IoError(m@, p@),
            FileCollectionError::PermissionDenied(p) => FileErrorView::PermissionDenied(p@),
            FileCollectionError::InvalidFileName(p) => FileErrorView::InvalidFileName(p@),
            FileCollectionError::Other(m) => FileErrorView::Other(m@),
        }
    }
}

/// The human-readable message of an error.
pub open spec fn message_spec(e: FileErrorView) -> Seq<char> {
    match e {
        FileErrorView::IoError(m, p) => "IO error for path "@ + p + ": "@ + m,
        FileErrorView::PermissionDenied(p) => "Permission denied for path "@ + p,
        FileErrorView::InvalidFileName(p) => "Invalid file name at path "@ + p,
        FileErrorView::Other(m) => m,
    }
}

impl FileCollectionError {
    /// The human-readable message of this error.
    pub fn message(&self) -> (r: String)
        ensures
            r@ == message_spec(self@),
    {
        match self {
            FileCollectionError::IoError(m, p) => {
                let mut s = String::from_str("IO error for path ");
                s.append(p.as_str());
                s.append(": ");
                s.append(m.as_str());
                s
            },
            FileCollectionError::PermissionDenied(p) => {
                let mut s = String::from_str("Permission denied for path ");
                s.append(p.as_str());
                s
            },
            FileCollectionError::InvalidFileName(p) => {
                let mut s = String::from_str("Invalid file name at path ");
                s.append(p.as_str());
                s
            },
            FileCollectionError::Other(m) => m.clone(),
        }
    }
}

/// What is recorded about one file: its size and where it was found.
#[derive(Debug, Clone, PartialEq, Eq)]
pub struct FileInfo {
    pub size: u64,
    pub path: String,
}

/// Mathematical model of a [`FileInfo`].
pub ghost struct FileInfoView {
    pub size: u64,
    pub path: Seq<char>,
}

impl View for FileInfo {
    type V = FileInfoView;

    open spec fn view(&self) -> FileInfoView {
        FileInfoView { size: self.size, path: self.path@ }
    }
}

/// One observation of a directory walk, as plain values: a directory that
/// could not be read, an entry that could not be enumerated, or a file that
/// was seen (with its name, if it had a representable one, and its size, if
/// its metadata could be read).
#[derive(Debug, PartialEq, Eq)]
pub enum WalkEvent {
    DirError { path: String, permission_denied: bool, message: String },
    EntryError { path: String, message: String },
    FileSeen { path: String, name: Option<String>, size: Result<u64, String> },
}

/// Mathematical model of a [`WalkEvent`].
pub ghost enum WalkEventView {
    DirError { path: Seq<char>, permission_denied: bool, message: Seq<char> },
    EntryError { path: Seq<char>, message: Seq<char> },
    FileSeen { path: Seq<char>, name: Option<Seq<char>>, size: Result<u64, Seq<char>> },
}

impl View for WalkEvent {
    type V = WalkEventView;

    open spec fn view(&self) -> WalkEventView {
        match self {
            WalkEvent::DirError { path, permission_denied, message } => WalkEventView::DirError {
                path: path@,
                permission_denied: *permission_denied,
                message: message@,
            },
            WalkEvent::EntryError { path, message } => WalkEventView::EntryError {
                path: path@,
                message: message@,
            },
            WalkEvent::FileSeen { path, name, size } => WalkEventView::FileSeen {
                path: path@,
                name: match name {
                    Some(n) => Some(n@),
                    None => None,
                },
                size: match size {
                    Ok(s) => Ok(*s),
                    Err(m) => Err(m@),
                },
            },
        }
    }
}

/// Mathematical model of a [`FileCollection`]: a map from file name to
/// record, and the errors in the order they were met.
#[verifier::ext_equal]
pub ghost struct CollectionView {
    pub files: Map<Seq<char>, FileInfoView>,
    pub errors: Seq<FileErrorView>,
}

/// The stored names of an association list are pairwise distinct.
pub open spec fn unique_keys(s: Seq<(String, FileInfo)>) -> bool {
    forall|a: int, b: int| 0 <= a < b < s.len() ==> s[a].0@ != s[b].0@
}

/// The map a name-keyed association list denotes; a later entry for the
/// same key would win, though the collection keeps keys unique.
pub open spec fn assoc_map(s: Seq<(String, FileInfo)>) -> Map<Seq<char>, FileInfoView>
    decreases s.len(),
{
    if s.len() == 0 {
        Map::empty()
    } else {
        assoc_map(s.drop_last()).insert(s.last().0@, s.last().1@)
    }
}

/// How one walk observation changes the collection: an unreadable directory
/// becomes a permission or I/O error; a failed entry becomes an I/O error;
/// a seen file is recorded under its name — unless it has no representable
/// name (an invalid-name error) or its metadata failed (an I/O error).
pub open spec fn apply_event(c: CollectionView, e: WalkEventView) -> CollectionView {
    match e {
        WalkEventView::DirError { path, permission_denied, message } => CollectionView {
            errors: c.errors.push(
                if permission_denied {
                    FileErrorView::PermissionDenied(path)
                } else {
                    FileErrorView::IoError(message, path)
                },
            ),
            ..c
        },
        WalkEventView::EntryError { path, message } => CollectionView {
            errors: c.errors.push(FileErrorView::IoError(message, path)),
            ..c
        },
        WalkEventView::FileSeen { path, name, size } => match name {
            None => CollectionView {
                errors: c.errors.push(FileErrorView::InvalidFileName(path)),
                ..c
            },
            Some(n) => match size {
                Ok(sz) => CollectionView {
                    files: c.files.insert(n, FileInfoView { size: sz, path }),
                    ..c
                },
                Err(m) => CollectionView {
                    errors: c.errors.push(FileErrorView::IoError(m, path)),
                    ..c
                },
            },
        },
    }
}

/// Folding a whole walk into the collection, first observation first.
pub open spec fn apply_events(c: CollectionView, es: Seq<WalkEventView>) -> CollectionView
    decreases es.len(),
{
    if es.len() == 0 {
        c
    } else {
        apply_events(apply_event(c, es[0]), es.subrange(1, es.len() as int))
    }
}

/// The file collection: file records keyed by name, keys unique, plus the
/// errors met while walking.
pub struct FileCollection {
    files: Vec<(String, FileInfo)>,
    errors: Vec<FileCollectionError>,
}

impl View for FileCollection {
    type V = CollectionView;

    closed spec fn view(&self) -> CollectionView {
        CollectionView {
            files: assoc_map(self.files@),
            errors: self.errors@.map_values(|e: FileCollectionError| e@),
        }
    }
}

impl FileCollection {
    /// The stored names are pairwise distinct.
    pub closed spec fn wf(&self) -> bool {
        unique_keys(self.files@)
    }

    /// An empty collection.
    pub fn new() -> (s: FileCollection)
        ensures
            s@.files == Map::<Seq<char>, FileInfoView>::empty(),
            s@.errors == Seq::<FileErrorView>::empty(),
            s.wf(),
    {
        let s = FileCollection { files: Vec::new(), errors: Vec::new() };
        proof {
            assert(s@.errors =~= Seq::<FileErrorView>::empty());
        }
        s
    }

    /// Record an error.
    pub fn add_error(&mut self, error: FileCollectionError)
        ensures
            final(self)@.errors == old(self)@.errors.push(error@),
            final(self)@.files == old(self)@.files,
            old(self).wf() ==> final(self).wf(),
    {
        let ghost e = error@;
        self.errors.push(error);
        proof {
            assert(self@.errors =~= old(self)@.errors.push(e));
        }
    }

    /// Record a file under `name`, replacing any record that name had.
    fn insert_file(&mut self, name: String, info: FileInfo)
        requires
            old(self).wf(),
        ensures
            final(self)@.files == old(self)@.files.insert(name@, info@),
            final(self)@.errors == old(self)@.errors,
            final(self).wf(),
    {
        let ghost key_v = name@;
        let ghost info_v = info@;
        let n = self.files.len();
        let mut i: usize = 0;
        while i < n
            invariant
                i <= n,
                n == self.files@.len(),
                self.files@ == old(self).files@,
                self.errors@ == old(self).errors@,
                unique_keys(self.files@),
                name@ == key_v,
                info@ == info_v,
                forall|j: int| 0 <= j < i ==> self.files@[j].0@ != name@,
            decreases n - i,
        {
            if self.files[i].0 == name {
                self.files.set(i, (name, info));
                proof {
                    let entry = self.files@[i as int];
                    lemma_assoc_map_update(old(self).files@, i as int, entry);
                    assert(entry.0@ == key_v);
                    assert(entry.1@ == info_v);
                    assert(forall|a: int|
                        0 <= a < self.files@.len() ==> self.files@[a].0@ == old(
                            self,
                        ).files@[a].0@);
                }
                return ;
            }
            i = i + 1;
        }
        self.files.push((name, info));
        proof {
            assert(self.files@.drop_last() =~= old(self).files@);
            assert(self@.files =~= old(self)@.files.insert(key_v, info_v));
        }
    }

    /// Fold a file observation into the collection: a missing name becomes
    /// an invalid-name error, failed metadata an I/O error, and otherwise
    /// the file is recorded under its name.
    pub fn process_file(&mut self, path: String, name: Option<String>, size: Result<u64, String>)
        requires
            old(self).wf(),
        ensures
            final(self)@ == apply_event(
                old(self)@,
                WalkEventView::FileSeen {
                    path: path@,
                    name: match name {
                        Some(n) => Some(n@),
                        None => None,
                    },
                    size: match size {
                        Ok(s) => Ok(s),
                        Err(m) => Err(m@),
                    },
                },
            ),
            final(self).wf(),
    {
        match name {
            None => {
                let ghost path_v = path@;
                let ghost size_v: Result<u64, Seq<char>> = match size {
                    Ok(s) => Ok(s),
                    Err(m) => Err(m@),
                };
                self.add_error(FileCollectionError::InvalidFileName(path));
                proof {
                    assert(self@ =~= apply_event(
                        old(self)@,
                        WalkEventView::FileSeen { path: path_v, name: None, size: size_v },
                    ));
                }
            },
            Some(file_name) => {
                match size {
                    Ok(sz) => {
                        let ghost n_v = file_name@;
                        let ghost path_v = path@;
                        self.insert_file(file_name, FileInfo { size: sz, path });
                        proof {
                            assert(self@ =~= apply_event(
                                old(self)@,
                                WalkEventView::FileSeen {
                                    path: path_v,
                                    name: Some(n_v),
                                    size: Ok(sz),
                                },
                            ));
                        }
                    },
                    Err(message) => {
                        self.add_error(FileCollectionError::IoError(message, path));
                    },
                }
            },
        }
    }

    /// Fold a whole walk into the collection, first observation first.
    pub fn collect_files(&mut self, events: Vec<WalkEvent>)
        requires
            old(self).wf(),
        ensures
            final(self)@ == apply_events(
                old(self)@,
                events@.map_values(|e: WalkEvent| e@),
            ),
            final(self).wf(),
    {
        let ghost all = events@.map_values(|e: WalkEvent| e@);
        let mut remaining = events;
        while remaining.len() > 0
            invariant
                self.wf(),
                apply_events(self@, remaining@.map_values(|e: WalkEvent| e@)) == apply_events(
                    old(self)@,
                    all,
                ),
            decreases remaining@.len(),
        {
            let ghost before = self@;
            let ghost rem_views = remaining@.map_values(|e: WalkEvent| e@);
            let event = remaining.remove(0);
            self.apply_walk_event(event);
            proof {
                assert(remaining@.map_values(|e: WalkEvent| e@) =~= rem_views.subrange(
                    1,
                    rem_views.len() as int,
                ));
                assert(apply_events(before, rem_views) == apply_events(
                    apply_event(before, rem_views[0]),
                    rem_views.subrange(1, rem_views.len() as int),
                ));
            }
        }
        proof {
            assert(remaining@.map_values(|e: WalkEvent| e@) =~= Seq::<WalkEventView>::empty());
        }
    }

    /// Fold one observation into the collection.
    fn apply_walk_event(&mut self, event: WalkEvent)
        requires
            old(self).wf(),
        ensures
            final(self)@ == apply_event(old(self)@, event@),
            final(self).wf(),
    {
        let ghost e = event@;
        match event {
            WalkEvent::DirError { path, permission_denied, message } => {
                if permission_denied {
                    self.add_error(FileCollectionError::PermissionDenied(path));
                } else {
                    self.add_error(FileCollectionError::IoError(message, path));
                }
                proof {
                    assert(self@ =~= apply_event(old(self)@, e));
                }
            },
            WalkEvent::EntryError { path, message } => {
                self.add_error(FileCollectionError::IoError(message, path));
                proof {
                    assert(self@ =~= apply_event(old(self)@, e));
                }
            },
            WalkEvent::FileSeen { path, name, size } => {
                self.process_file(path, name, size);
                proof {
                    assert(self@ =~= apply_event(old(self)@, e));
                }
            },
        }
    }

    /// The record a name maps to, if any.
    pub fn lookup(&self, name: &String) -> (r: Option<&FileInfo>)
        requires
            self.wf(),
        ensures
            match r {
                Some(info) => self@.files.contains_key(name@) && info@ == self@.files[name@],
                None => !self@.files.contains_key(name@),
            },
    {
        proof {
            lemma_assoc_map_props(self.files@);
        }
        let n = self.files.len();
        let mut i: usize = 0;
        while i < n
            invariant
                i <= n,
                n == self.files@.len(),
                self.wf(),
                forall|j: int| 0 <= j < i ==> self.files@[j].0@ != name@,
            decreases n - i,
        {
            if self.files[i].0 == *name {
                proof {
                    lemma_assoc_map_props(self.files@);
                }
                return Some(&self.files[i].1);
            }
            i = i + 1;
        }
        None
    }

    /// How many files are recorded.
    pub fn file_count(&self) -> (r: usize)
        requires
            self.wf(),
        ensures
            r == self@.files.dom().len(),
    {
        proof {
            lemma_assoc_map_props(self.files@);
        }
        self.files.len()
    }

    /// The recorded files, each pair present in the model map.
    pub fn files(&self) -> (r: &Vec<(String, FileInfo)>)
        requires
            self.wf(),
        ensures
            r@.len() == self@.files.dom().len(),
            forall|i: int|
                0 <= i < r@.len() ==> self@.files.contains_pair(#[trigger] r@[i].0@, r@[i].1@),
    {
        proof {
            lemma_assoc_map_props(self.files@);
        }
        &self.files
    }

    /// The recorded errors, in the order they were met.
    pub fn errors(&self) -> (r: &Vec<FileCollectionError>)
        ensures
            r@.len() == self@.errors.len(),
            forall|i: int| 0 <= i < r@.len() ==> r@[i]@ == self@.errors[i],
    {
        &self.errors
    }
}

/// Updating the one entry that holds a key denotes inserting into the map.
proof fn lemma_assoc_map_update(s: Seq<(String, FileInfo)>, i: int, entry: (String, FileInfo))
    requires
        0 <= i < s.len(),
        unique_keys(s),
        entry.0@ == s[i].0@,
    ensures
        assoc_map(s.update(i, entry)) == assoc_map(s).insert(entry.0@, entry.1@),
    decreases s.len(),
{
    let updated = s.update(i, entry);
    if i == s.len() - 1 {
        assert(updated.drop_last() =~= s.drop_last());
        assert(assoc_map(updated) =~= assoc_map(s).insert(entry.0@, entry.1@));
    } else {
        assert(updated.drop_last() =~= s.drop_last().update(i, entry));
        lemma_assoc_map_update(s.drop_last(), i, entry);
        assert(s.last().0@ != entry.0@);
        assert(assoc_map(updated) =~= assoc_map(s).insert(entry.0@, entry.1@));
    }
}

/// What a unique-key association list's map holds: exactly the listed pairs,
/// one per entry.
proof fn lemma_assoc_map_props(s: Seq<(String, FileInfo)>)
    requires
        unique_keys(s),
    ensures
        forall|k: Seq<char>|
            assoc_map(s).contains_key(k) <==> exists|i: int| 0 <= i < s.len() && s[i].0@ == k,
        forall|i: int|
            0 <= i < s.len() ==> assoc_map(s).contains_pair(#[trigger] s[i].0@, s[i].1@),
        assoc_map(s).dom().len() == s.len(),
        assoc_map(s).dom().finite(),
    decreases s.len(),
{
    if s.len() > 0 {
        lemma_assoc_map_props(s.drop_last());
        let last = s.last();
        let m0 = assoc_map(s.drop_last());
        assert(!m0.contains_key(last.0@));
        assert forall|k: Seq<char>|
            assoc_map(s).contains_key(k) implies exists|i: int|
            0 <= i < s.len() && s[i].0@ == k by {
            if k == last.0@ {
                assert(s[s.len() - 1].0@ == k);
            } else {
                let i = choose|i: int| 0 <= i < s.drop_last().len() && s.drop_last()[i].0@ == k;
                assert(s[i].0@ == k);
            }
        }
        assert forall|i: int|
            0 <= i < s.len() implies assoc_map(s).contains_pair(#[trigger] s[i].0@, s[i].1@) by {
            if i < s.len() - 1 {
                assert(s.drop_last()[i] == s[i]);
                assert(s[i].0@ != last.0@);
            }
        }
    }
}

} // verus!
