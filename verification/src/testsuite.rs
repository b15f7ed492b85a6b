//! Test cases: a name and the source file for each compiler.

use crate::paths::PathKind;
use crate::text::texts;
use vstd::prelude::*;
use vstd::string::*;

verus! {

/// One test case.
#[derive(Clone, Debug, PartialEq, Eq)]
pub struct TestCase {
    /// The name of the test case.
    pub name: String,
    /// The source file for rustc.
    pub rustc: String,
    /// The source file for gccrs.
    pub gccrs: String,
}

impl TestCase {
    /// A test case of the given name and source files.
    pub fn new(name: String, rustc: String, gccrs: String) -> (case: Self)
        ensures
            case.name == name,
            case.rustc == rustc,
            case.gccrs == gccrs,
    {
        TestCase { name, rustc, gccrs }
    }
}

/// The test cases of one session.
#[derive(Clone, Debug, PartialEq, Eq)]
pub struct TestSuite {
    /// The test cases.
    pub cases: Vec<TestCase>,
    /// How many there are.
    pub size: usize,
}

/// Why no test suite could be made.
#[derive(Clone, Debug, PartialEq, Eq)]
pub enum TestSuiteError {
    /// The two directories hold different numbers of test cases: that of
    /// rustc, then that of gccrs.
    UnequalFileCount(usize, usize),
    /// A directory could not be read; the text says why.
    FileReadError(String),
    /// A path is not what it has to be; the text says how.
    InvalidPath(String),
}

impl TestSuiteError {
    /// The text of an `InvalidPath` or `FileReadError`.
    pub open spec fn detail(self) -> Seq<char> {
        match self {
            TestSuiteError::UnequalFileCount(_, _) => Seq::empty(),
            TestSuiteError::FileReadError(text) => text@,
            TestSuiteError::InvalidPath(text) => text@,
        }
    }
}

/// The stem of a path's file name, where the path has a file name and the
/// stem is UTF-8: what `Path::file_stem` makes of the path.
pub uninterp spec fn path_stem(path: Seq<char>) -> Option<Seq<char>>;

/// The text of an optional string.
pub open spec fn optional_text(text: Option<String>) -> Option<Seq<char>> {
    match text {
        Some(t) => Some(t@),
        None => None,
    }
}

/// Calls `Path::file_stem` on the path and reads the stem as UTF-8. Trusted:
/// the stem is taken from the text of the path and depends on nothing else.
#[verifier::external_body]
pub(crate) fn extract_test_name(file_path: &str) -> (name: Option<String>)
    ensures
        match name {
            Some(n) => path_stem(file_path@) == Some(n@),
            None => path_stem(file_path@) is None,
        },
{
    std::path::Path::new(file_path).file_stem().and_then(|stem| stem.to_str()).map(
        |name| name.to_string(),
    )
}

/// What is said of a source file that is not there.
pub open spec fn missing_file_text(rustc_src: Seq<char>) -> Seq<char> {
    "File '"@ + rustc_src + "' does not exist"@
}

/// What is said of a source file whose path yields no name.
pub open spec fn invalid_name_text() -> Seq<char> {
    "Invalid file name"@
}

/// The suite of one test case named `name`, or why there is none: both source
/// files must be there, and the path of the first must yield a name.
pub open spec fn single_case_outcome(
    name: Option<Seq<char>>,
    rustc_src: Seq<char>,
    rustc_found: PathKind,
    gccrs_src: Seq<char>,
    gccrs_found: PathKind,
    outcome: Result<TestSuite, TestSuiteError>,
) -> bool {
    if rustc_found == PathKind::Missing || gccrs_found == PathKind::Missing {
        outcome is Err && outcome->Err_0 is InvalidPath && outcome->Err_0.detail()
            == missing_file_text(rustc_src)
    } else {
        match name {
            None => outcome is Err && outcome->Err_0 is InvalidPath && outcome->Err_0.detail()
                == invalid_name_text(),
            Some(test_name) => {
                &&& outcome is Ok
                &&& outcome->Ok_0.size == 1
                &&& outcome->Ok_0.cases@.len() == 1
                &&& outcome->Ok_0.cases@[0].name@ == test_name
                &&& outcome->Ok_0.cases@[0].rustc@ == rustc_src
                &&& outcome->Ok_0.cases@[0].gccrs@ == gccrs_src
            },
        }
    }
}

/// A source file with the test name drawn from its path, if it yields one.
#[derive(Clone, Debug, PartialEq, Eq)]
pub struct NamedFile {
    /// The name of the test case; `None` if the path yields none.
    pub name: Option<String>,
    /// The path of the file.
    pub path: String,
}

/// What was found of one of the two subdirectories.
#[derive(Debug, PartialEq, Eq)]
pub struct DirectoryListing {
    /// What is at the subdirectory's path.
    pub found: PathKind,
    /// The regular files in it, or why it could not be read.
    pub files: Result<Vec<String>, String>,
}

/// The files of a listing by test name: a file without a name is left out,
/// and of two files with one name the later one stays.
pub open spec fn file_map(files: Seq<NamedFile>) -> Map<Seq<char>, Seq<char>>
    decreases files.len(),
{
    if files.len() == 0 {
        Map::empty()
    } else {
        let rest = file_map(files.drop_last());
        match files.last().name {
            Some(name) => rest.insert(name@, files.last().path@),
            None => rest,
        }
    }
}

/// Whether a list of names and paths holds exactly the pairs of `files`, each
/// name once.
spec fn represents(
    entries: Seq<(String, String)>,
    files: Map<Seq<char>, Seq<char>>,
) -> bool {
    &&& forall|i: int, j: int|
        0 <= i < j < entries.len() ==> (#[trigger] entries[i]).0@ != (#[trigger] entries[j]).0@
    &&& forall|i: int|
        0 <= i < entries.len() ==> files.contains_pair(
            (#[trigger] entries[i]).0@,
            entries[i].1@,
        )
    &&& forall|name: Seq<char>| #[trigger]
        files.dom().contains(name) ==> exists|i: int|
            0 <= i < entries.len() && (#[trigger] entries[i]).0@ == name
}

/// A list that holds the pairs of a map, each name once, is as long as the
/// map is large.
proof fn lemma_represents_len(
    entries: Seq<(String, String)>,
    files: Map<Seq<char>, Seq<char>>,
)
    requires
        represents(entries, files),
    ensures
        files.dom().finite(),
        files.dom().len() == entries.len(),
    decreases entries.len(),
{
    if entries.len() == 0 {
        assert(files.dom() =~= Set::empty());
    } else {
        let last = entries.last();
        let rest = entries.drop_last();
        let fewer = files.remove(last.0@);
        assert(represents(rest, fewer)) by {
            assert forall|i: int| 0 <= i < rest.len() implies fewer.contains_pair(
                (#[trigger] rest[i]).0@,
                rest[i].1@,
            ) by {
                assert(rest[i] == entries[i]);
                assert(entries[i].0@ != entries[entries.len() - 1].0@);
            }
            assert forall|name: Seq<char>| #[trigger] fewer.dom().contains(name) implies exists|i: int|
                0 <= i < rest.len() && (#[trigger] rest[i]).0@ == name by {
                assert(files.dom().contains(name));
                let i = choose|i: int| 0 <= i < entries.len() && (#[trigger] entries[i]).0@ == name;
                assert(rest[i] == entries[i]);
            }
            assert forall|i: int, j: int| 0 <= i < j < rest.len() implies (#[trigger] rest[i]).0@
                != (#[trigger] rest[j]).0@ by {
                assert(rest[i] == entries[i]);
                assert(rest[j] == entries[j]);
            }
        }
        lemma_represents_len(rest, fewer);
        assert(files.contains_pair(entries[entries.len() - 1].0@, entries[entries.len() - 1].1@));
        assert(files.dom() =~= fewer.dom().insert(last.0@));
    }
}

/// What is said of a directory that is not there.
pub open spec fn missing_directory_text(path: Seq<char>) -> Seq<char> {
    "Directory '"@ + path + "' does not exist"@
}

/// What is said of a directory without its two subdirectories.
pub open spec fn missing_subdirectories_text(path: Seq<char>) -> Seq<char> {
    "Required subdirectories 'rustc' and 'gccrs' not found in '"@ + path + "'"@
}

/// What is said of a test case that gccrs has no file for.
pub open spec fn unmatched_text(name: Seq<char>) -> Seq<char> {
    "No matching file for '"@ + name + "' in gccrs directory"@
}

/// Whether `suite` pairs the files of the two maps: one case for each name,
/// with the file of that name from either side.
pub open spec fn pairs_all(
    suite: TestSuite,
    rustc: Map<Seq<char>, Seq<char>>,
    gccrs: Map<Seq<char>, Seq<char>>,
) -> bool {
    &&& suite.wf()
    &&& suite.cases@.len() == rustc.dom().len()
    &&& forall|i: int, j: int|
        0 <= i < j < suite.cases@.len() ==> (#[trigger] suite.cases@[i]).name@
            != (#[trigger] suite.cases@[j]).name@
    &&& forall|i: int|
        0 <= i < suite.cases@.len() ==> {
            let case = #[trigger] suite.cases@[i];
            &&& rustc.contains_pair(case.name@, case.rustc@)
            &&& gccrs.contains_pair(case.name@, case.gccrs@)
        }
    &&& forall|name: Seq<char>| #[trigger]
        rustc.dom().contains(name) ==> exists|i: int|
            0 <= i < suite.cases@.len() && (#[trigger] suite.cases@[i]).name@ == name
}

/// What pairing the files of the two sides comes to: the two sides must hold
/// equally many names, and gccrs must have a file for each name that rustc
/// has one for.
pub open spec fn pairing_outcome(
    rustc: Map<Seq<char>, Seq<char>>,
    gccrs: Map<Seq<char>, Seq<char>>,
    outcome: Result<TestSuite, TestSuiteError>,
) -> bool {
    if rustc.dom().len() != gccrs.dom().len() {
        outcome == Err::<TestSuite, TestSuiteError>(
            TestSuiteError::UnequalFileCount(
                rustc.dom().len() as usize,
                gccrs.dom().len() as usize,
            ),
        )
    } else if !rustc.dom().subset_of(gccrs.dom()) {
        &&& outcome is Err
        &&& outcome->Err_0 is InvalidPath
        &&& exists|name: Seq<char>|
            #![trigger rustc.dom().contains(name)]
            rustc.dom().contains(name) && !gccrs.dom().contains(name) && outcome->Err_0.detail()
                == unmatched_text(name)
    } else {
        outcome is Ok && pairs_all(outcome->Ok_0, rustc, gccrs)
    }
}

/// The files at `paths` by the stem of their file names: a path without a
/// stem is left out, and of two paths with one stem the later one stays.
pub open spec fn stem_map(paths: Seq<Seq<char>>) -> Map<Seq<char>, Seq<char>>
    decreases paths.len(),
{
    if paths.len() == 0 {
        Map::empty()
    } else {
        let rest = stem_map(paths.drop_last());
        match path_stem(paths.last()) {
            Some(name) => rest.insert(name, paths.last()),
            None => rest,
        }
    }
}

/// Whether `named` holds the files of `paths`, in order, each named by the
/// stem of its file name.
pub open spec fn names_files(named: Seq<NamedFile>, paths: Seq<String>) -> bool {
    &&& named.len() == paths.len()
    &&& forall|i: int|
        0 <= i < named.len() ==> {
            &&& (#[trigger] named[i]).path@ == paths[i]@
            &&& optional_text(named[i].name) == path_stem(paths[i]@)
        }
}

/// Files named by their stems make the map of their paths by stem.
pub proof fn lemma_file_map_by_stem(named: Seq<NamedFile>, paths: Seq<String>)
    requires
        names_files(named, paths),
    ensures
        file_map(named) == stem_map(texts(paths)),
    decreases named.len(),
{
    if named.len() > 0 {
        let fewer = named.drop_last();
        assert forall|i: int| 0 <= i < fewer.len() implies {
            &&& (#[trigger] fewer[i]).path@ == paths.drop_last()[i]@
            &&& optional_text(fewer[i].name) == path_stem(paths.drop_last()[i]@)
        } by {
            assert(fewer[i] == named[i]);
        }
        lemma_file_map_by_stem(fewer, paths.drop_last());
        assert(texts(paths).drop_last() =~= texts(paths.drop_last()));
        assert(texts(paths).last() == paths.last()@);
        assert(named.last() == named[named.len() - 1]);
        assert(optional_text(named.last().name) == path_stem(paths.last()@));
    }
}

/// What a suite of a directory comes to: the directory and its two
/// subdirectories must be there and readable; then the files of the two sides
/// are paired by the stems of their file names.
pub open spec fn directory_outcome(
    path: Seq<char>,
    found: PathKind,
    rustc: DirectoryListing,
    gccrs: DirectoryListing,
    outcome: Result<TestSuite, TestSuiteError>,
) -> bool {
    if found != PathKind::Directory {
        outcome is Err && outcome->Err_0 is InvalidPath && outcome->Err_0.detail()
            == missing_directory_text(path)
    } else if rustc.found == PathKind::Missing || gccrs.found == PathKind::Missing {
        outcome is Err && outcome->Err_0 is InvalidPath && outcome->Err_0.detail()
            == missing_subdirectories_text(path)
    } else if rustc.files is Err {
        outcome == Err::<TestSuite, TestSuiteError>(
            TestSuiteError::FileReadError(rustc.files->Err_0),
        )
    } else if gccrs.files is Err {
        outcome == Err::<TestSuite, TestSuiteError>(
            TestSuiteError::FileReadError(gccrs.files->Err_0),
        )
    } else {
        pairing_outcome(
            stem_map(texts(rustc.files->Ok_0@)),
            stem_map(texts(gccrs.files->Ok_0@)),
            outcome,
        )
    }
}

fn find_entry(entries: &Vec<(String, String)>, name: &String) -> (at: Option<usize>)
    ensures
        match at {
            Some(i) => i < entries@.len() && entries@[i as int].0@ == name@,
            None => forall|i: int| 0 <= i < entries@.len() ==> (#[trigger] entries@[i]).0@ != name@,
        },
{
    let mut i: usize = 0;
    while i < entries.len()
        invariant
            i <= entries@.len(),
            forall|k: int| 0 <= k < i ==> (#[trigger] entries@[k]).0@ != name@,
        decreases entries@.len() - i,
    {
        if entries[i].0 == *name {
            return Some(i);
        }
        i += 1;
    }
    None
}

fn index_files(files: &Vec<NamedFile>) -> (entries: Vec<(String, String)>)
    ensures
        represents(entries@, file_map(files@)),
{
    let mut entries: Vec<(String, String)> = Vec::new();
    let mut i: usize = 0;
    assert(files@.take(0) =~= Seq::empty());
    while i < files.len()
        invariant
            i <= files@.len(),
            represents(entries@, file_map(files@.take(i as int))),
        decreases files@.len() - i,
    {
        let ghost before = entries@;
        let ghost known = file_map(files@.take(i as int));
        let ghost upto = files@.take(i as int + 1);
        assert(upto.drop_last() =~= files@.take(i as int));
        assert(upto.last() == files@[i as int]);
        let file = &files[i];
        match &file.name {
            None => {},
            Some(name) => {
                let entry = (name.clone(), file.path.clone());
                match find_entry(&entries, name) {
                    Some(at) => {
                        entries.set(at, entry);
                        proof {
                            let next = known.insert(name@, file.path@);
                            assert forall|k: int| 0 <= k < entries@.len() implies #[trigger] entries@[k].0@
                                == before[k].0@ by {}
                            assert forall|k: int|
                                0 <= k < entries@.len() implies next.contains_pair(
                                (#[trigger] entries@[k]).0@,
                                entries@[k].1@,
                            ) by {
                                if k != at {
                                    assert(entries@[k] == before[k]);
                                    assert(before[k].0@ != before[at as int].0@);
                                }
                            }
                            assert forall|key: Seq<char>| #[trigger]
                                next.dom().contains(key) implies exists|k: int|
                                0 <= k < entries@.len() && (#[trigger] entries@[k]).0@ == key by {
                                if key == name@ {
                                    assert(entries@[at as int].0@ == key);
                                } else {
                                    assert(known.dom().contains(key));
                                    let k = choose|k: int|
                                        0 <= k < before.len() && (#[trigger] before[k]).0@ == key;
                                    assert(entries@[k].0@ == key);
                                }
                            }
                            assert forall|a: int, b: int|
                                0 <= a < b < entries@.len() implies (#[trigger] entries@[a]).0@
                                != (#[trigger] entries@[b]).0@ by {
                                assert(before[a].0@ != before[b].0@);
                            }
                        }
                    },
                    None => {
                        entries.push(entry);
                        proof {
                            let next = known.insert(name@, file.path@);
                            assert forall|k: int|
                                0 <= k < entries@.len() implies next.contains_pair(
                                (#[trigger] entries@[k]).0@,
                                entries@[k].1@,
                            ) by {
                                if k < before.len() {
                                    assert(entries@[k] == before[k]);
                                }
                            }
                            assert forall|key: Seq<char>| #[trigger]
                                next.dom().contains(key) implies exists|k: int|
                                0 <= k < entries@.len() && (#[trigger] entries@[k]).0@ == key by {
                                if key == name@ {
                                    assert(entries@[before.len() as int].0@ == key);
                                } else {
                                    assert(known.dom().contains(key));
                                    let k = choose|k: int|
                                        0 <= k < before.len() && (#[trigger] before[k]).0@ == key;
                                    assert(entries@[k] == before[k]);
                                }
                            }
                            assert forall|a: int, b: int|
                                0 <= a < b < entries@.len() implies (#[trigger] entries@[a]).0@
                                != (#[trigger] entries@[b]).0@ by {
                                assert(entries@[a] == before[a]);
                                if b < before.len() {
                                    assert(entries@[b] == before[b]);
                                }
                            }
                        }
                    },
                }
            },
        }
        i += 1;
    }
    assert(files@.take(files@.len() as int) =~= files@);
    entries
}

fn name_files(paths: &Vec<String>) -> (named: Vec<NamedFile>)
    ensures
        names_files(named@, paths@),
{
    let mut named: Vec<NamedFile> = Vec::new();
    let mut i: usize = 0;
    while i < paths.len()
        invariant
            i <= paths@.len(),
            named@.len() == i,
            forall|k: int|
                0 <= k < i ==> {
                    &&& (#[trigger] named@[k]).path@ == paths@[k]@
                    &&& optional_text(named@[k].name) == path_stem(paths@[k]@)
                },
        decreases paths@.len() - i,
    {
        let name = extract_test_name(paths[i].as_str());
        named.push(NamedFile { name, path: paths[i].clone() });
        i += 1;
    }
    named
}

impl TestSuite {
    /// The number of test cases is the recorded size.
    pub open spec fn wf(&self) -> bool {
        self.size == self.cases@.len()
    }

    /// The suite of the one test case whose name was drawn from the path of
    /// its first source file.
    pub fn from_named_file(
        name: Option<String>,
        rustc_src: &str,
        rustc_found: PathKind,
        gccrs_src: &str,
        gccrs_found: PathKind,
    ) -> (outcome: Result<TestSuite, TestSuiteError>)
        ensures
            single_case_outcome(
                optional_text(name),
                rustc_src@,
                rustc_found,
                gccrs_src@,
                gccrs_found,
                outcome,
            ),
            outcome is Ok ==> outcome->Ok_0.wf(),
    {
        if !rustc_found.is_present() || !gccrs_found.is_present() {
            let mut text = String::from_str("File '");
            text.append(rustc_src);
            text.append("' does not exist");
            return Err(TestSuiteError::InvalidPath(text));
        }
        match name {
            None => Err(TestSuiteError::InvalidPath(String::from_str("Invalid file name"))),
            Some(test_name) => {
                let case = TestCase::new(
                    test_name,
                    String::from_str(rustc_src),
                    String::from_str(gccrs_src),
                );
                let mut cases: Vec<TestCase> = Vec::new();
                cases.push(case);
                Ok(TestSuite { cases, size: 1 })
            },
        }
    }

    /// Pairs the named files of the two sides into test cases.
    pub fn pair_files(rustc_files: &Vec<NamedFile>, gccrs_files: &Vec<NamedFile>) -> (outcome:
        Result<TestSuite, TestSuiteError>)
        ensures
            pairing_outcome(file_map(rustc_files@), file_map(gccrs_files@), outcome),
    {
        let ghost rustc = file_map(rustc_files@);
        let ghost gccrs = file_map(gccrs_files@);
        let rustc_entries = index_files(rustc_files);
        let gccrs_entries = index_files(gccrs_files);
        proof {
            lemma_represents_len(rustc_entries@, rustc);
            lemma_represents_len(gccrs_entries@, gccrs);
        }
        if rustc_entries.len() != gccrs_entries.len() {
            return Err(
                TestSuiteError::UnequalFileCount(rustc_entries.len(), gccrs_entries.len()),
            );
        }
        let mut cases: Vec<TestCase> = Vec::new();
        let mut i: usize = 0;
        while i < rustc_entries.len()
            invariant
                i <= rustc_entries@.len(),
                represents(rustc_entries@, rustc),
                represents(gccrs_entries@, gccrs),
                rustc == file_map(rustc_files@),
                gccrs == file_map(gccrs_files@),
                rustc.dom().len() == rustc_entries@.len(),
                gccrs.dom().len() == gccrs_entries@.len(),
                rustc_entries@.len() == gccrs_entries@.len(),
                cases@.len() == i,
                forall|k: int|
                    0 <= k < i ==> {
                        let case = #[trigger] cases@[k];
                        &&& case.name@ == rustc_entries@[k].0@
                        &&& case.rustc@ == rustc_entries@[k].1@
                        &&& gccrs.contains_pair(case.name@, case.gccrs@)
                    },
            decreases rustc_entries@.len() - i,
        {
            let name = &rustc_entries[i].0;
            match find_entry(&gccrs_entries, name) {
                Some(at) => {
                    cases.push(
                        TestCase::new(
                            name.clone(),
                            rustc_entries[i].1.clone(),
                            gccrs_entries[at].1.clone(),
                        ),
                    );
                },
                None => {
                    let mut text = String::from_str("No matching file for '");
                    text.append(name.as_str());
                    text.append("' in gccrs directory");
                    proof {
                        assert(rustc.contains_pair(
                            rustc_entries@[i as int].0@,
                            rustc_entries@[i as int].1@,
                        ));
                        assert(rustc.dom().contains(name@));
                        if gccrs.dom().contains(name@) {
                            let k = choose|k: int|
                                0 <= k < gccrs_entries@.len() && (#[trigger] gccrs_entries@[k]).0@
                                    == name@;
                            assert(false);
                        }
                        assert(!rustc.dom().subset_of(gccrs.dom()));
                        assert(text@ == unmatched_text(name@));
                    }
                    return Err(TestSuiteError::InvalidPath(text));
                },
            }
            i += 1;
        }
        let size = cases.len();
        let suite = TestSuite { cases, size };
        proof {
            assert forall|name: Seq<char>| #[trigger] rustc.dom().contains(name) implies exists|k: int|
                0 <= k < suite.cases@.len() && (#[trigger] suite.cases@[k]).name@ == name by {
                let k = choose|k: int|
                    0 <= k < rustc_entries@.len() && (#[trigger] rustc_entries@[k]).0@ == name;
                assert(suite.cases@[k].name@ == name);
            }
            assert forall|k: int| 0 <= k < suite.cases@.len() implies rustc.contains_pair(
                (#[trigger] suite.cases@[k]).name@,
                suite.cases@[k].rustc@,
            ) by {
                assert(rustc.contains_pair(rustc_entries@[k].0@, rustc_entries@[k].1@));
            }
            assert forall|a: int, b: int|
                0 <= a < b < suite.cases@.len() implies (#[trigger] suite.cases@[a]).name@
                != (#[trigger] suite.cases@[b]).name@ by {
                assert(rustc_entries@[a].0@ != rustc_entries@[b].0@);
            }
            assert(rustc.dom().subset_of(gccrs.dom())) by {
                assert forall|name: Seq<char>| rustc.dom().contains(name) implies gccrs.dom().contains(
                    name,
                ) by {
                    let k = choose|k: int|
                        0 <= k < suite.cases@.len() && (#[trigger] suite.cases@[k]).name@ == name;
                    assert(gccrs.contains_pair(suite.cases@[k].name@, suite.cases@[k].gccrs@));
                }
            }
        }
        Ok(suite)
    }

    /// The suite of a directory, given what was found at its path and of its
    /// `rustc` and `gccrs` subdirectories. Each file is named by the stem of
    /// its file name, and the files of the two sides are paired by name.
    pub fn from_dir(
        path: &str,
        found: PathKind,
        rustc: DirectoryListing,
        gccrs: DirectoryListing,
    ) -> (outcome: Result<TestSuite, TestSuiteError>)
        ensures
            directory_outcome(path@, found, rustc, gccrs, outcome),
    {
        if !found.is_dir() {
            let mut text = String::from_str("Directory '");
            text.append(path);
            text.append("' does not exist");
            return Err(TestSuiteError::InvalidPath(text));
        }
        if !rustc.found.is_present() || !gccrs.found.is_present() {
            let mut text = String::from_str(
                "Required subdirectories 'rustc' and 'gccrs' not found in '",
            );
            text.append(path);
            text.append("'");
            return Err(TestSuiteError::InvalidPath(text));
        }
        let rustc_files = match &rustc.files {
            Ok(files) => files,
            Err(reason) => {
                return Err(TestSuiteError::FileReadError(reason.clone()));
            },
        };
        let gccrs_files = match &gccrs.files {
            Ok(files) => files,
            Err(reason) => {
                return Err(TestSuiteError::FileReadError(reason.clone()));
            },
        };
        let rustc_named = name_files(rustc_files);
        let gccrs_named = name_files(gccrs_files);
        proof {
            lemma_file_map_by_stem(rustc_named@, rustc_files@);
            lemma_file_map_by_stem(gccrs_named@, gccrs_files@);
        }
        TestSuite::pair_files(&rustc_named, &gccrs_named)
    }

    /// The suite of one test case, given by its two source files and what was
    /// found at their paths. The name of the case is the stem of the first
    /// file's name.
    pub fn from_file(
        rustc_src: &str,
        rustc_found: PathKind,
        gccrs_src: &str,
        gccrs_found: PathKind,
    ) -> (outcome: Result<TestSuite, TestSuiteError>)
        ensures
            single_case_outcome(
                path_stem(rustc_src@),
                rustc_src@,
                rustc_found,
                gccrs_src@,
                gccrs_found,
                outcome,
            ),
            outcome is Ok ==> outcome->Ok_0.wf(),
    {
        let name = extract_test_name(rustc_src);
        TestSuite::from_named_file(name, rustc_src, rustc_found, gccrs_src, gccrs_found)
    }
}

} // verus!
