//! The directory-listing command. The host process enumerates a directory and
//! reports what it saw as plain values (`DirProbe`); this module holds the
//! verified policy: which probe outcome becomes which error, the all-or-nothing
//! rule that one bad entry name aborts the whole listing, and the exact text of
//! every failure message.

use vstd::prelude::*;

verus! {

/// What one directory entry yielded when the host enumerated the directory.
pub enum EntryRecord {
    /// The entry's name, decoded as valid text.
    Named(String),
    /// Reading this entry failed; the text of the underlying error.
    Failed(String),
    /// The entry's name is not valid decodable text; a lossy rendering of it.
    Undecoded(String),
}

/// The mathematical model of an `EntryRecord`: the same three shapes over
/// character sequences.
pub enum EntryRecordView {
    Named(Seq<char>),
    Failed(Seq<char>),
    Undecoded(Seq<char>),
}

impl View for EntryRecord {
    type V = EntryRecordView;

    open spec fn view(&self) -> EntryRecordView {
        match self {
            EntryRecord::Named(name) => EntryRecordView::Named(name@),
            EntryRecord::Failed(cause) => EntryRecordView::Failed(cause@),
            EntryRecord::Undecoded(name) => EntryRecordView::Undecoded(name@),
        }
    }
}

impl DeepView for EntryRecord {
    type V = EntryRecordView;

    open spec fn deep_view(&self) -> EntryRecordView {
        self.view()
    }
}

/// What the host found at the requested path, as plain values.
pub enum DirProbe {
    /// The path does not exist.
    Missing,
    /// The path exists but is not a directory.
    NotDirectory,
    /// Opening the directory for enumeration failed; the error text.
    OpenFailed(String),
    /// The directory was enumerated: its entries, in enumeration order.
    Listing(Vec<EntryRecord>),
}

/// The mathematical model of a `DirProbe`.
pub enum DirProbeView {
    Missing,
    NotDirectory,
    OpenFailed(Seq<char>),
    Listing(Seq<EntryRecordView>),
}

impl View for DirProbe {
    type V = DirProbeView;

    open spec fn view(&self) -> DirProbeView {
        match self {
            DirProbe::Missing => DirProbeView::Missing,
            DirProbe::NotDirectory => DirProbeView::NotDirectory,
            DirProbe::OpenFailed(cause) => DirProbeView::OpenFailed(cause@),
            DirProbe::Listing(entries) => DirProbeView::Listing(entries.deep_view()),
        }
    }
}

/// A listing failure. Every variant carries what its message needs; none is
/// retried or silently swallowed.
pub enum ListError {
    /// The path does not exist.
    PathNotFound { path: String },
    /// The path exists but is not a directory.
    NotADirectory { path: String },
    /// Enumeration itself failed; the full message, underlying cause included.
    DirectoryReadError { detail: String },
    /// An entry's name is not valid decodable text; a lossy rendering of it.
    InvalidEntryName { name: String },
}

/// The mathematical model of a `ListError`.
pub enum ListErrorView {
    PathNotFound { path: Seq<char> },
    NotADirectory { path: Seq<char> },
    DirectoryReadError { detail: Seq<char> },
    InvalidEntryName { name: Seq<char> },
}

impl View for ListError {
    type V = ListErrorView;

    open spec fn view(&self) -> ListErrorView {
        match self {
            ListError::PathNotFound { path } => ListErrorView::PathNotFound { path: path@ },
            ListError::NotADirectory { path } => ListErrorView::NotADirectory { path: path@ },
            ListError::DirectoryReadError { detail } => ListErrorView::DirectoryReadError {
                detail: detail@,
            },
            ListError::InvalidEntryName { name } => ListErrorView::InvalidEntryName { name: name@ },
        }
    }
}

/// Message for a path that does not exist.
pub open spec fn path_not_found_message(path: Seq<char>) -> Seq<char> {
    "Path does not exist: "@ + path
}

/// Message for a path that is not a directory.
pub open spec fn not_a_directory_message(path: Seq<char>) -> Seq<char> {
    "Path is not a directory: "@ + path
}

/// Message for a directory that could not be opened for enumeration.
pub open spec fn read_dir_message(path: Seq<char>, cause: Seq<char>) -> Seq<char> {
    "Failed to read directory '"@ + path + "': "@ + cause
}

/// Message for an entry that could not be read during enumeration.
pub open spec fn read_entry_message(cause: Seq<char>) -> Seq<char> {
    "Failed to read entry: "@ + cause
}

/// Message for an entry name that is not valid decodable text.
pub open spec fn bad_name_message(name: Seq<char>) -> Seq<char> {
    "Non-UTF-8 filename: "@ + name
}

/// The human-readable message of each failure, as the boundary reports it.
pub open spec fn error_message(e: ListErrorView) -> Seq<char> {
    match e {
        ListErrorView::PathNotFound { path } => path_not_found_message(path),
        ListErrorView::NotADirectory { path } => not_a_directory_message(path),
        ListErrorView::DirectoryReadError { detail } => detail,
        ListErrorView::InvalidEntryName { name } => bad_name_message(name),
    }
}

impl ListError {
    /// Renders this failure as the plain message string that crosses the
    /// boundary to the host.
    pub fn message(&self) -> (r: String)
        ensures
            r@ == error_message(self@),
    {
        match self {
            ListError::PathNotFound { path } => {
                let mut m: String = "Path does not exist: ".to_owned();
                m.append(path.as_str());
                m
            },
            ListError::NotADirectory { path } => {
                let mut m: String = "Path is not a directory: ".to_owned();
                m.append(path.as_str());
                m
            },
            ListError::DirectoryReadError { detail } => detail.clone(),
            ListError::InvalidEntryName { name } => {
                let mut m: String = "Non-UTF-8 filename: ".to_owned();
                m.append(name.as_str());
                m
            },
        }
    }
}

/// The names of a run of decoded entries, in order.
pub open spec fn named_names(es: Seq<EntryRecordView>) -> Seq<Seq<char>> {
    es.map_values(|e: EntryRecordView| e->Named_0)
}

/// What decoding a listing yields: the decoded names in enumeration order if
/// every entry decoded, else the failure of the first entry that did not.
/// One bad entry aborts the whole listing; no partial list survives.
pub open spec fn entries_outcome(es: Seq<EntryRecordView>) -> Result<
    Seq<Seq<char>>,
    ListErrorView,
>
    decreases es.len(),
{
    if es.len() == 0 {
        Ok(Seq::empty())
    } else {
        match es[0] {
            EntryRecordView::Named(name) => match entries_outcome(es.drop_first()) {
                Ok(rest) => Ok(seq![name] + rest),
                Err(e) => Err(e),
            },
            EntryRecordView::Failed(cause) => Err(
                ListErrorView::DirectoryReadError { detail: read_entry_message(cause) },
            ),
            EntryRecordView::Undecoded(name) => Err(ListErrorView::InvalidEntryName { name }),
        }
    }
}

/// The whole command's outcome for a path and what the host found there:
/// a missing path and a non-directory are rejected up front, a failed
/// enumeration reports its cause, and an enumerated listing is decoded
/// all-or-nothing.
pub open spec fn listing_outcome(path: Seq<char>, probe: DirProbeView) -> Result<
    Seq<Seq<char>>,
    ListErrorView,
> {
    match probe {
        DirProbeView::Missing => Err(ListErrorView::PathNotFound { path }),
        DirProbeView::NotDirectory => Err(ListErrorView::NotADirectory { path }),
        DirProbeView::OpenFailed(cause) => Err(
            ListErrorView::DirectoryReadError { detail: read_dir_message(path, cause) },
        ),
        DirProbeView::Listing(es) => entries_outcome(es),
    }
}

/// A listing in which every entry decoded succeeds, and returns exactly the
/// decoded names in enumeration order.
pub proof fn lemma_all_entries_named_ok(es: Seq<EntryRecordView>)
    requires
        forall|j: int| 0 <= j < es.len() ==> es[j] is Named,
    ensures
        entries_outcome(es) == Ok::<Seq<Seq<char>>, ListErrorView>(named_names(es)),
    decreases es.len(),
{
    if es.len() == 0 {
        assert(named_names(es) =~= Seq::<Seq<char>>::empty());
    } else {
        lemma_all_entries_named_ok(es.drop_first());
        assert(named_names(es) =~= seq![es[0]->Named_0] + named_names(es.drop_first()));
    }
}

/// The first entry that did not decode decides the whole outcome: everything
/// before it is forgotten, everything after it is never looked at.
pub proof fn lemma_first_defect_decides(es: Seq<EntryRecordView>, i: int)
    requires
        0 <= i < es.len(),
        forall|j: int| 0 <= j < i ==> es[j] is Named,
        !(es[i] is Named),
    ensures
        es[i] matches EntryRecordView::Failed(cause) ==> entries_outcome(es) == Err::<
            Seq<Seq<char>>,
            ListErrorView,
        >(ListErrorView::DirectoryReadError { detail: read_entry_message(cause) }),
        es[i] matches EntryRecordView::Undecoded(name) ==> entries_outcome(es) == Err::<
            Seq<Seq<char>>,
            ListErrorView,
        >(ListErrorView::InvalidEntryName { name }),
    decreases i,
{
    if i > 0 {
        lemma_first_defect_decides(es.drop_first(), i - 1);
        assert(es.drop_first()[i - 1] == es[i]);
    }
}

/// Decodes an enumerated listing all-or-nothing: the decoded names in order,
/// or the failure of the first entry that did not decode.
fn decode_entries(entries: &Vec<EntryRecord>) -> (r: Result<Vec<String>, ListError>)
    ensures
        r is Ok <==> entries_outcome(entries.deep_view()) is Ok,
        r matches Ok(names) ==> Ok::<Seq<Seq<char>>, ListErrorView>(names.deep_view())
            == entries_outcome(entries.deep_view()),
        r matches Err(e) ==> Err::<Seq<Seq<char>>, ListErrorView>(e@) == entries_outcome(
            entries.deep_view(),
        ),
{
    let ghost full = entries.deep_view();
    let mut names: Vec<String> = Vec::new();
    let mut i: usize = 0;
    while i < entries.len()
        invariant
            0 <= i <= entries.len(),
            full == entries.deep_view(),
            full.len() == entries@.len(),
            forall|j: int| 0 <= j < full.len() ==> full[j] == entries@[j]@,
            forall|j: int| 0 <= j < i ==> full[j] is Named,
            names.deep_view().len() == i,
            forall|j: int| 0 <= j < i ==> names.deep_view()[j] == full[j]->Named_0,
        decreases entries.len() - i,
    {
        match &entries[i] {
            EntryRecord::Named(name) => {
                let ghost prev = names@;
                let ghost prev_deep = names.deep_view();
                names.push(name.clone());
                proof {
                    assert(full[i as int] == EntryRecordView::Named(name@));
                    assert forall|j: int| 0 <= j <= i as int implies names.deep_view()[j]
                        == full[j]->Named_0 by {
                        assert(names.deep_view()[j] == names@[j].deep_view());
                        if j < i as int {
                            assert(names@[j] == prev[j]);
                            assert(prev_deep[j] == prev[j].deep_view());
                        } else {
                            assert(names@[j]@ == name@);
                        }
                    }
                }
                i = i + 1;
            },
            EntryRecord::Failed(cause) => {
                proof {
                    lemma_first_defect_decides(full, i as int);
                }
                let mut detail: String = "Failed to read entry: ".to_owned();
                detail.append(cause.as_str());
                return Err(ListError::DirectoryReadError { detail });
            },
            EntryRecord::Undecoded(name) => {
                proof {
                    lemma_first_defect_decides(full, i as int);
                }
                return Err(ListError::InvalidEntryName { name: name.clone() });
            },
        }
    }
    proof {
        lemma_all_entries_named_ok(full);
        assert(names.deep_view() =~= named_names(full));
    }
    Ok(names)
}

/// The directory-listing command, after the host has probed `path`: the entry
/// names in enumeration order, or the failure that `listing_outcome` assigns
/// to what the host found.
pub fn list_files(path: &str, probe: DirProbe) -> (r: Result<Vec<String>, ListError>)
    ensures
        r is Ok <==> listing_outcome(path@, probe@) is Ok,
        r matches Ok(names) ==> Ok::<Seq<Seq<char>>, ListErrorView>(names.deep_view())
            == listing_outcome(path@, probe@),
        r matches Err(e) ==> Err::<Seq<Seq<char>>, ListErrorView>(e@) == listing_outcome(
            path@,
            probe@,
        ),
{
    match probe {
        DirProbe::Missing => Err(ListError::PathNotFound { path: path.to_owned() }),
        DirProbe::NotDirectory => Err(ListError::NotADirectory { path: path.to_owned() }),
        DirProbe::OpenFailed(cause) => {
            let mut detail: String = "Failed to read directory '".to_owned();
            detail.append(path);
            detail.append("': ");
            detail.append(cause.as_str());
            Err(ListError::DirectoryReadError { detail })
        },
        DirProbe::Listing(entries) => decode_entries(&entries),
    }
}

/// The boundary form of the command: a failure crosses to the host as its
/// plain message string, never as a structured value.
pub fn list_files_command(path: &str, probe: DirProbe) -> (r: Result<Vec<String>, String>)
    ensures
        r is Ok <==> listing_outcome(path@, probe@) is Ok,
        r matches Ok(names) ==> Ok::<Seq<Seq<char>>, ListErrorView>(names.deep_view())
            == listing_outcome(path@, probe@),
        r matches Err(m) ==> m@ == error_message(listing_outcome(path@, probe@)->Err_0),
{
    match list_files(path, probe) {
        Ok(names) => Ok(names),
        Err(e) => Err(e.message()),
    }
}

/// `needle` occurs somewhere inside `hay` as a contiguous run.
pub open spec fn contains_seq(hay: Seq<char>, needle: Seq<char>) -> bool {
    exists|k: int|
        0 <= k && k + needle.len() <= hay.len() && #[trigger] hay.subrange(
            k,
            k + needle.len() as int,
        ) == needle
}

/// A path that does not exist fails with `PathNotFound`, and the failure's
/// message contains the path itself.
pub proof fn lemma_missing_path_reported(path: Seq<char>)
    ensures
        listing_outcome(path, DirProbeView::Missing) == Err::<Seq<Seq<char>>, ListErrorView>(
            ListErrorView::PathNotFound { path },
        ),
        contains_seq(error_message(ListErrorView::PathNotFound { path }), path),
{
    reveal_strlit("Path does not exist: ");
    let m = error_message(ListErrorView::PathNotFound { path });
    let k = "Path does not exist: "@.len() as int;
    assert(m.subrange(k, k + path.len() as int) =~= path);
}

/// A path that exists but is not a directory fails with `NotADirectory`.
pub proof fn lemma_non_directory_reported(path: Seq<char>)
    ensures
        listing_outcome(path, DirProbeView::NotDirectory) == Err::<Seq<Seq<char>>, ListErrorView>(
            ListErrorView::NotADirectory { path },
        ),
{
}

/// An empty, readable directory lists successfully as the empty sequence.
pub proof fn lemma_empty_directory_lists_nothing(path: Seq<char>)
    ensures
        listing_outcome(path, DirProbeView::Listing(Seq::empty())) == Ok::<
            Seq<Seq<char>>,
            ListErrorView,
        >(Seq::empty()),
{
}

/// A readable directory in which every entry decoded lists successfully, and
/// the result holds exactly the decoded names, in enumeration order.
pub proof fn lemma_full_listing_succeeds(path: Seq<char>, es: Seq<EntryRecordView>)
    requires
        forall|j: int| 0 <= j < es.len() ==> es[j] is Named,
    ensures
        listing_outcome(path, DirProbeView::Listing(es)) == Ok::<Seq<Seq<char>>, ListErrorView>(
            named_names(es),
        ),
{
    lemma_all_entries_named_ok(es);
}

/// An entry whose name did not decode, with every entry before it decoded,
/// fails the whole listing with `InvalidEntryName`: no partial list survives.
pub proof fn lemma_undecodable_entry_aborts(path: Seq<char>, es: Seq<EntryRecordView>, k: int)
    requires
        0 <= k < es.len(),
        es[k] is Undecoded,
        forall|j: int| 0 <= j < k ==> es[j] is Named,
    ensures
        listing_outcome(path, DirProbeView::Listing(es)) == Err::<Seq<Seq<char>>, ListErrorView>(
            ListErrorView::InvalidEntryName { name: es[k]->Undecoded_0 },
        ),
{
    lemma_first_defect_decides(es, k);
}

} // verus!
