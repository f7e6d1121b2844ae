//! The directory lister: what is kept of the entries of one directory, and
//! how the listing of its subdirectories is put together.

use vstd::prelude::*;
use vstd::string::*;
use crate::name_order::{is_stable_sort_of, sort_by_name};
use crate::table::{option_view, result_view};
use crate::text::{chars_of, decimal_digits, digit, digit_char, natural_string};

verus! {

// ---------------------------------------------------------------------------
// Data
// ---------------------------------------------------------------------------
/// What is listed of one file.
#[derive(Clone, Debug)]
pub struct FileInfo {
    pub name: String,
    pub path: String,
    pub is_dir: bool,
    pub size: u64,
    pub last_modified: String,
    pub is_editable: bool,
    pub permissions: String,
    pub file_type: String,
    pub owner: String,
    pub group: String,
    pub creation_date: String,
}

/// The model of a `FileInfo`.
pub struct FileInfoView {
    pub name: Seq<char>,
    pub path: Seq<char>,
    pub is_dir: bool,
    pub size: u64,
    pub last_modified: Seq<char>,
    pub is_editable: bool,
    pub permissions: Seq<char>,
    pub file_type: Seq<char>,
    pub owner: Seq<char>,
    pub group: Seq<char>,
    pub creation_date: Seq<char>,
}

impl View for FileInfo {
    type V = FileInfoView;

    open spec fn view(&self) -> FileInfoView {
        FileInfoView {
            name: self.name@,
            path: self.path@,
            is_dir: self.is_dir,
            size: self.size,
            last_modified: self.last_modified@,
            is_editable: self.is_editable,
            permissions: self.permissions@,
            file_type: self.file_type@,
            owner: self.owner@,
            group: self.group@,
            creation_date: self.creation_date@,
        }
    }
}

/// The files of `files`, each by its view.
pub open spec fn files_view(files: Seq<FileInfo>) -> Seq<FileInfoView> {
    Seq::new(files.len(), |i: int| files[i]@)
}

/// The listing of a directory: its path, the path above it, and its
/// subdirectories in the order of their names.
#[derive(Debug)]
pub struct DirectoryListing {
    pub current_path: String,
    pub previous_path: String,
    pub files: Vec<FileInfo>,
}

/// The model of a `DirectoryListing`.
pub struct DirectoryListingView {
    pub current_path: Seq<char>,
    pub previous_path: Seq<char>,
    pub files: Seq<FileInfoView>,
}

impl View for DirectoryListing {
    type V = DirectoryListingView;

    open spec fn view(&self) -> DirectoryListingView {
        DirectoryListingView {
            current_path: self.current_path@,
            previous_path: self.previous_path@,
            files: files_view(self.files@),
        }
    }
}

/// Why a listing could not be made or written; the text describes the
/// failure.
#[derive(Debug)]
pub enum ListingError {
    Io(String),
    Serialization(String),
}

/// The model of a `ListingError`.
pub enum ListingErrorView {
    Io(Seq<char>),
    Serialization(Seq<char>),
}

impl ListingErrorView {
    /// The error in words.
    pub open spec fn message(self) -> Seq<char> {
        match self {
            ListingErrorView::Io(why) => "IO error: "@ + why,
            ListingErrorView::Serialization(why) => "Serialization error: "@ + why,
        }
    }
}

impl View for ListingError {
    type V = ListingErrorView;

    open spec fn view(&self) -> ListingErrorView {
        match self {
            ListingError::Io(why) => ListingErrorView::Io(why@),
            ListingError::Serialization(why) => ListingErrorView::Serialization(why@),
        }
    }
}

impl ListingError {
    /// The error in words: `IO error: ...` or `Serialization error: ...`.
    pub fn message(&self) -> (text: String)
        ensures
            text@ == self@.message(),
    {
        match self {
            ListingError::Io(why) => {
                let mut text = "IO error: ".to_owned();
                text.append(why.as_str());
                text
            },
            ListingError::Serialization(why) => {
                let mut text = "Serialization error: ".to_owned();
                text.append(why.as_str());
                text
            },
        }
    }
}

/// What to list.
#[derive(Debug)]
pub struct ListOptions {
    storage_dir: String,
    show_hidden: bool,
}

/// The model of a `ListOptions`.
pub struct ListOptionsView {
    pub storage_dir: Seq<char>,
    pub show_hidden: bool,
}

impl View for ListOptions {
    type V = ListOptionsView;

    closed spec fn view(&self) -> ListOptionsView {
        ListOptionsView { storage_dir: self.storage_dir@, show_hidden: self.show_hidden }
    }
}

impl ListOptions {
    /// Options for the directory `storage_dir`; hidden entries are left out.
    pub fn new(storage_dir: String) -> (options: Self)
        ensures
            options@ == (ListOptionsView { storage_dir: storage_dir@, show_hidden: false }),
    {
        ListOptions { storage_dir, show_hidden: false }
    }

    /// The same options, with hidden entries shown or left out as `show`
    /// says.
    pub fn show_hidden(self, show: bool) -> (options: Self)
        ensures
            options@ == (ListOptionsView { storage_dir: self@.storage_dir, show_hidden: show }),
    {
        ListOptions { storage_dir: self.storage_dir, show_hidden: show }
    }

    /// The directory to list.
    pub fn storage_dir(&self) -> (dir: &String)
        ensures
            dir@ == self@.storage_dir,
    {
        &self.storage_dir
    }

    /// Whether hidden entries are shown.
    pub fn shows_hidden(&self) -> (show: bool)
        ensures
            show == self@.show_hidden,
    {
        self.show_hidden
    }
}

/// Finds out about the file at a path. The lister asks it about every entry
/// that it keeps, and takes whatever it answers.
pub trait FileInfoProvider {
    fn get_file_info(&self, path: &str) -> Result<FileInfo, ListingError>;
}

// ---------------------------------------------------------------------------
// One file
// ---------------------------------------------------------------------------
/// What the file system says of one file, as plain values.
#[derive(Debug)]
pub struct RawMetadata {
    pub file_name: String,
    pub path: String,
    pub is_dir: bool,
    pub is_file: bool,
    pub is_symlink: bool,
    /// The length of the file in bytes.
    pub len: u64,
    /// The mode bits.
    pub mode: u32,
    /// The time of the last change, already as text.
    pub modified: String,
    /// The time of creation, already as text.
    pub created: String,
    pub uid: u32,
    pub gid: u32,
    /// The name of the user `uid`, where the system knows one.
    pub user_name: Option<String>,
    /// The name of the group `gid`, where the system knows one.
    pub group_name: Option<String>,
}

/// The model of a `RawMetadata`.
pub struct RawMetadataView {
    pub file_name: Seq<char>,
    pub path: Seq<char>,
    pub is_dir: bool,
    pub is_file: bool,
    pub is_symlink: bool,
    pub len: u64,
    pub mode: u32,
    pub modified: Seq<char>,
    pub created: Seq<char>,
    pub uid: u32,
    pub gid: u32,
    pub user_name: Option<Seq<char>>,
    pub group_name: Option<Seq<char>>,
}

impl View for RawMetadata {
    type V = RawMetadataView;

    open spec fn view(&self) -> RawMetadataView {
        RawMetadataView {
            file_name: self.file_name@,
            path: self.path@,
            is_dir: self.is_dir,
            is_file: self.is_file,
            is_symlink: self.is_symlink,
            len: self.len,
            mode: self.mode,
            modified: self.modified@,
            created: self.created@,
            uid: self.uid,
            gid: self.gid,
            user_name: match self.user_name {
                Some(name) => Some(name@),
                None => None,
            },
            group_name: match self.group_name {
                Some(name) => Some(name@),
                None => None,
            },
        }
    }
}

/// The name of a kind of file: `directory`, `file`, `symlink` or `unknown`,
/// the first that applies.
pub open spec fn file_type_name(is_dir: bool, is_file: bool, is_symlink: bool) -> Seq<char> {
    if is_dir {
        "directory"@
    } else if is_file {
        "file"@
    } else if is_symlink {
        "symlink"@
    } else {
        "unknown"@
    }
}

/// The name of a kind of file.
pub fn get_file_type(is_dir: bool, is_file: bool, is_symlink: bool) -> (name: String)
    ensures
        name@ == file_type_name(is_dir, is_file, is_symlink),
{
    if is_dir {
        "directory".to_owned()
    } else if is_file {
        "file".to_owned()
    } else if is_symlink {
        "symlink".to_owned()
    } else {
        "unknown".to_owned()
    }
}

/// The permission bits of `mode` as four octal digits: a zero, then owner,
/// group and others.
pub open spec fn permissions_text(mode: u32) -> Seq<char> {
    let bits = mode & 0o777;
    seq!['0', digit(bits as int / 64), digit((bits as int / 8) % 8), digit(bits as int % 8)]
}

/// The permission bits of `mode` as four octal digits.
pub fn permissions_string(mode: u32) -> (text: String)
    ensures
        text@ == permissions_text(mode),
{
    let bits: u32 = mode & 0o777;
    assert(bits < 512) by (bit_vector)
        requires
            bits == mode & 0o777,
    ;
    let mut text = String::new();
    text.push('0');
    text.push(digit_char((bits / 64) as u128));
    text.push(digit_char(((bits / 8) % 8) as u128));
    text.push(digit_char((bits % 8) as u128));
    assert(text@ =~= permissions_text(mode));
    text
}

/// The name of an owner: the name that the system knows, else the number.
pub open spec fn owner_text(name: Option<Seq<char>>, id: u32) -> Seq<char> {
    match name {
        Some(name) => name,
        None => decimal_digits(id as nat),
    }
}

/// The name of an owner.
pub fn owner_string(name: &Option<String>, id: u32) -> (text: String)
    ensures
        text@ == owner_text(
            match name {
                Some(name) => Some(name@),
                None => None,
            },
            id,
        ),
{
    match name {
        Some(name) => name.clone(),
        None => natural_string(id as u128),
    }
}

/// What is listed of a file with the metadata `raw`. A directory counts
/// with 4096 bytes; a file can be edited if its owner may write it.
pub open spec fn file_info_of(raw: RawMetadataView) -> FileInfoView {
    FileInfoView {
        name: raw.file_name,
        path: raw.path,
        is_dir: raw.is_dir,
        size: if raw.is_dir {
            4096
        } else {
            raw.len
        },
        last_modified: raw.modified,
        is_editable: raw.mode & 0o200 != 0,
        permissions: permissions_text(raw.mode),
        file_type: file_type_name(raw.is_dir, raw.is_file, raw.is_symlink),
        owner: owner_text(raw.user_name, raw.uid),
        group: owner_text(raw.group_name, raw.gid),
        creation_date: raw.created,
    }
}

/// What is listed of a file with the metadata `raw`.
pub fn file_info(raw: RawMetadata) -> (info: FileInfo)
    ensures
        info@ == file_info_of(raw@),
{
    let owner = owner_string(&raw.user_name, raw.uid);
    let group = owner_string(&raw.group_name, raw.gid);
    FileInfo {
        name: raw.file_name,
        path: raw.path,
        is_dir: raw.is_dir,
        size: if raw.is_dir {
            4096
        } else {
            raw.len
        },
        last_modified: raw.modified,
        is_editable: raw.mode & 0o200 != 0,
        permissions: permissions_string(raw.mode),
        file_type: get_file_type(raw.is_dir, raw.is_file, raw.is_symlink),
        owner,
        group,
        creation_date: raw.created,
    }
}

// ---------------------------------------------------------------------------
// The entries of a directory
// ---------------------------------------------------------------------------
/// One entry of a directory that could be read.
#[derive(Debug)]
pub struct DirEntry {
    /// The name of the entry within the directory.
    pub file_name: String,
    /// The path of the entry.
    pub path: String,
}

/// The model of a `DirEntry`.
pub struct DirEntryView {
    pub file_name: Seq<char>,
    pub path: Seq<char>,
}

impl View for DirEntry {
    type V = DirEntryView;

    open spec fn view(&self) -> DirEntryView {
        DirEntryView { file_name: self.file_name@, path: self.path@ }
    }
}

/// The entries of `entries`, each by its view; `None` is an entry that could
/// not be read.
pub open spec fn entries_view(entries: Seq<Option<DirEntry>>) -> Seq<Option<DirEntryView>> {
    Seq::new(
        entries.len(),
        |i: int|
            match entries[i] {
                Some(entry) => Some(entry@),
                None => None,
            },
    )
}

/// A name is hidden if it starts with a dot.
pub open spec fn is_hidden(file_name: Seq<char>) -> bool {
    file_name.len() > 0 && file_name[0] == '.'
}

/// Whether the name `file_name` is hidden.
pub fn is_hidden_name(file_name: &str) -> (hidden: bool)
    ensures
        hidden == is_hidden(file_name@),
{
    let chars = chars_of(file_name);
    chars.len() > 0 && chars[0] == '.'
}

/// The paths to ask about: those of the entries that could be read and are
/// not hidden, or of all that could be read where hidden ones are shown, in
/// the order of the entries.
pub open spec fn visible_paths(show_hidden: bool, entries: Seq<Option<DirEntryView>>) -> Seq<
    Seq<char>,
>
    decreases entries.len(),
{
    if entries.len() == 0 {
        Seq::empty()
    } else {
        let front = visible_paths(show_hidden, entries.drop_last());
        match entries.last() {
            Some(entry) => if show_hidden || !is_hidden(entry.file_name) {
                front.push(entry.path)
            } else {
                front
            },
            None => front,
        }
    }
}

/// The strings of `paths`, each by its view.
pub open spec fn paths_view(paths: Seq<String>) -> Seq<Seq<char>> {
    Seq::new(paths.len(), |i: int| paths[i]@)
}

/// The paths to ask about.
pub fn paths_to_list(options: &ListOptions, entries: &Vec<Option<DirEntry>>) -> (paths: Vec<
    String,
>)
    ensures
        paths_view(paths@) == visible_paths(options@.show_hidden, entries_view(entries@)),
{
    let mut paths: Vec<String> = Vec::new();
    let ghost all = entries_view(entries@);
    let mut i: usize = 0;
    assert(all.take(0) =~= Seq::<Option<DirEntryView>>::empty());
    assert(paths_view(paths@) =~= Seq::<Seq<char>>::empty());
    while i < entries.len()
        invariant
            i <= entries.len(),
            all == entries_view(entries@),
            paths_view(paths@) == visible_paths(options@.show_hidden, all.take(i as int)),
        decreases entries.len() - i,
    {
        let ghost before = paths_view(paths@);
        proof {
            let upto = all.take(i + 1);
            assert(upto.drop_last() =~= all.take(i as int));
            assert(upto.last() == all[i as int]);
        }
        match &entries[i] {
            Some(entry) => {
                if options.show_hidden || !is_hidden_name(entry.file_name.as_str()) {
                    paths.push(entry.path.clone());
                    assert(paths_view(paths@) =~= before.push(entry.path@));
                }
            },
            None => {},
        }
        i += 1;
    }
    assert(all.take(i as int) =~= all);
    paths
}

// ---------------------------------------------------------------------------
// The listing
// ---------------------------------------------------------------------------
/// The answers of `answers`, each by its view.
pub open spec fn answers_view(answers: Seq<Result<FileInfo, ListingError>>) -> Seq<
    Result<FileInfoView, ListingErrorView>,
> {
    Seq::new(answers.len(), |i: int| result_view(answers[i]))
}

/// The directories among the answers: every answer that is a file's
/// information and says that the file is a directory, in the order of the
/// answers.
pub open spec fn directories(answers: Seq<Result<FileInfoView, ListingErrorView>>) -> Seq<
    FileInfoView,
>
    decreases answers.len(),
{
    if answers.len() == 0 {
        Seq::empty()
    } else {
        let front = directories(answers.drop_last());
        match answers.last() {
            Ok(info) => if info.is_dir {
                front.push(info)
            } else {
                front
            },
            Err(_) => front,
        }
    }
}

/// The path above a directory: its parent, or `/` where it has none.
pub open spec fn previous_path_of(parent: Option<Seq<char>>) -> Seq<char> {
    match parent {
        Some(path) => path,
        None => "/"@,
    }
}

/// `listing` is the listing of the directory `storage_dir` with the parent
/// `parent`, for which the asking gave `answers`: its files are the
/// directories among the answers, in the order of their names, those of one
/// name in the order of the answers.
pub open spec fn is_listing_of(
    listing: DirectoryListingView,
    storage_dir: Seq<char>,
    parent: Option<Seq<char>>,
    answers: Seq<Result<FileInfoView, ListingErrorView>>,
) -> bool {
    &&& listing.current_path == storage_dir
    &&& listing.previous_path == previous_path_of(parent)
    &&& is_stable_sort_of(listing.files, directories(answers))
}

/// `parent` is `path` without its end: a shorter text with which `path`
/// begins.
pub open spec fn is_shorter_prefix(parent: Seq<char>, path: Seq<char>) -> bool {
    parent.len() < path.len() && parent == path.take(parent.len() as int)
}

/// `std::path::Path::parent`, on a path given as text. Which part of a path
/// is its last component depends on the platform's path syntax, so the
/// result has no name; the parent is the path without that component, and
/// so a shorter text with which the path begins.
#[verifier::external_body]
fn parent_of(path: &str) -> (parent: Option<String>)
    ensures
        parent matches Some(above) ==> is_shorter_prefix(above@, path@),
{
    std::path::Path::new(path).parent().map(|p| p.to_string_lossy().into_owned())
}

/// The directories among `answers`, in the order of the answers.
pub fn keep_directories(answers: Vec<Result<FileInfo, ListingError>>) -> (files: Vec<FileInfo>)
    ensures
        files_view(files@) == directories(answers_view(answers@)),
{
    let mut files: Vec<FileInfo> = Vec::new();
    let ghost all = answers_view(answers@);
    assert(files_view(files@) =~= Seq::<FileInfoView>::empty());
    for answer in it: answers
        invariant
            all == answers_view(it.seq()),
            it.seq() == answers@,
            files_view(files@) == directories(all.take(it.index() as int)),
    {
        let ghost before = files_view(files@);
        proof {
            let upto = all.take(it.index() + 1);
            assert(upto.drop_last() =~= all.take(it.index() as int));
            assert(upto.last() == result_view(answer));
        }
        match answer {
            Ok(info) => {
                if info.is_dir {
                    files.push(info);
                    assert(files_view(files@) =~= before.push(info@));
                }
            },
            Err(_) => {},
        }
    }
    assert(all.take(all.len() as int) =~= all);
    files
}

/// The listing of the directory of `options`, whose parent is `parent`, from
/// the answers that the asking gave.
pub fn assemble_listing(
    options: &ListOptions,
    parent: Option<String>,
    answers: Vec<Result<FileInfo, ListingError>>,
) -> (listing: DirectoryListing)
    ensures
        is_listing_of(
            listing@,
            options@.storage_dir,
            match parent {
                Some(path) => Some(path@),
                None => None,
            },
            answers_view(answers@),
        ),
{
    let mut files = keep_directories(answers);
    sort_by_name(&mut files);
    DirectoryListing {
        current_path: options.storage_dir.clone(),
        previous_path: match parent {
            Some(path) => path,
            None => "/".to_owned(),
        },
        files,
    }
}

/// `answer` is what the provider gave when it was asked about `path`.
pub open spec fn answer_for<P: FileInfoProvider>(
    provider: &P,
    path: Seq<char>,
    answer: Result<FileInfo, ListingError>,
) -> bool {
    exists|asked: &str|
        asked@ == path && #[trigger] call_ensures(P::get_file_info, (provider, asked), answer)
}

/// `answers` are what the provider gave when it was asked about the paths of
/// `paths`, one after the other.
pub open spec fn answered_by<P: FileInfoProvider>(
    provider: &P,
    paths: Seq<Seq<char>>,
    answers: Seq<Result<FileInfo, ListingError>>,
) -> bool {
    &&& answers.len() == paths.len()
    &&& forall|i: int|
        0 <= i < answers.len() ==> answer_for(provider, paths[i], #[trigger] answers[i])
}

/// `listing` is the listing of the directory of `options` with the entries
/// `entries`, as `provider` sees it: the provider was asked about every path
/// that is kept, in order, and the listing is made of what it answered. The
/// path above the directory is `/` or a shorter text with which the
/// directory's path begins.
pub open spec fn is_listing_for<P: FileInfoProvider>(
    listing: DirectoryListingView,
    options: ListOptionsView,
    entries: Seq<Option<DirEntryView>>,
    provider: &P,
) -> bool {
    exists|parent: Option<Seq<char>>, answers: Seq<Result<FileInfo, ListingError>>|
        #![trigger is_listing_of(listing, options.storage_dir, parent, answers_view(answers))]
        {
            &&& parent matches Some(above) ==> is_shorter_prefix(above, options.storage_dir)
            &&& answered_by(provider, visible_paths(options.show_hidden, entries), answers)
            &&& is_listing_of(listing, options.storage_dir, parent, answers_view(answers))
        }
}

/// Lists the subdirectories of the directory of `options`. `entries` is what
/// reading the directory gave: the error, or the entries, with `None` for
/// each that could not be read. The provider is asked about every entry that
/// is kept, in order; the listing is made of whatever it answers.
pub fn list_directory<P: FileInfoProvider>(
    options: &ListOptions,
    entries: Result<Vec<Option<DirEntry>>, ListingError>,
    provider: &P,
) -> (r: Result<DirectoryListing, ListingError>)
    ensures
        match entries {
            Err(error) => r matches Err(e) && e@ == error@,
            Ok(read) => r matches Ok(listing) && is_listing_for(
                listing@,
                options@,
                entries_view(read@),
                provider,
            ),
        },
{
    let read = match entries {
        Ok(read) => read,
        Err(error) => {
            return Err(error);
        },
    };
    let paths = paths_to_list(options, &read);
    let mut answers: Vec<Result<FileInfo, ListingError>> = Vec::new();
    let mut i: usize = 0;
    while i < paths.len()
        invariant
            i <= paths.len(),
            answers.len() == i,
            forall|j: int|
                0 <= j < i ==> answer_for(provider, paths_view(paths@)[j], #[trigger] answers@[j]),
        decreases paths.len() - i,
    {
        let asked = paths[i].as_str();
        let answer = provider.get_file_info(asked);
        assert(call_ensures(P::get_file_info, (provider, asked), answer));
        assert(answer_for(provider, paths_view(paths@)[i as int], answer));
        answers.push(answer);
        i += 1;
    }
    let parent = parent_of(options.storage_dir.as_str());
    let ghost parent_view = option_view(parent);
    let ghost given = answers@;
    let listing = assemble_listing(options, parent, answers);
    proof {
        assert(answered_by(
            provider,
            visible_paths(options@.show_hidden, entries_view(read@)),
            given,
        ));
        assert(is_listing_of(listing@, options@.storage_dir, parent_view, answers_view(given)));
        assert(is_listing_for(listing@, options@, entries_view(read@), provider));
    }
    Ok(listing)
}

} // verus!
