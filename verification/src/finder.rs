//! Finding the programs that the runtime ships with.
//!
//! A finder holds directories in the order of their priority. A program is
//! looked for in each in turn; the first directory that holds it wins.

use vstd::prelude::*;

use crate::error::BoxliteError;
use crate::error::ErrorKind;
use crate::error::ErrorView;
use crate::layout::join;
use crate::layout::join_path;
use crate::probe::path_exists;
use crate::text::chars_of;
use crate::text::parts_view;
use crate::text::push_str;
use crate::text::split;
use crate::text::split_on;
use crate::text::string_of;

verus! {

/// Builds a finder from directories, highest priority first.
#[derive(Clone, Debug)]
pub struct BinaryFinderBuilder {
    search_paths: Vec<String>,
}

impl DeepView for BinaryFinderBuilder {
    type V = Seq<Seq<char>>;

    closed spec fn deep_view(&self) -> Seq<Seq<char>> {
        self.search_paths.deep_view()
    }
}

impl BinaryFinderBuilder {
    /// Adds a directory after those already there.
    pub fn with_path(self, path: &str) -> (r: BinaryFinderBuilder)
        ensures
            r.deep_view() == self.deep_view().push(path@),
    {
        let mut search_paths = self.search_paths;
        let ghost before = search_paths.deep_view();
        search_paths.push(path.to_string());
        assert(search_paths.deep_view() =~= before.push(path@));
        BinaryFinderBuilder { search_paths }
    }

    /// Adds each non-empty directory of a colon-separated list, in order.
    pub fn with_path_list(self, list: &str) -> (r: BinaryFinderBuilder)
        ensures
            r.deep_view() == self.deep_view() + non_empty(split_on(list@, ':')),
    {
        let parts = split(&chars_of(list), ':');
        let mut search_paths = self.search_paths;
        let ghost before = search_paths.deep_view();
        let ghost all = split_on(list@, ':');
        let mut i: usize = 0;
        assert(search_paths.deep_view() =~= before + non_empty(all.take(0)));
        while i < parts.len()
            invariant
                i <= parts.len(),
                parts_view(parts@) == all,
                search_paths.deep_view() == before + non_empty(all.take(i as int)),
            decreases parts.len() - i,
        {
            let ghost sofar = search_paths.deep_view();
            proof {
                assert(all.take(i + 1).drop_last() == all.take(i as int));
                assert(all.take(i + 1).last() == parts@[i as int]@);
            }
            if parts[i].len() > 0 {
                search_paths.push(string_of(&parts[i]));
                assert(search_paths.deep_view() =~= sofar.push(parts@[i as int]@));
            }
            i += 1;
        }
        assert(all.take(parts.len() as int) == all);
        BinaryFinderBuilder { search_paths }
    }

    pub fn build(self) -> (r: RuntimeBinaryFinder)
        ensures
            r.deep_view() == self.deep_view(),
    {
        RuntimeBinaryFinder { search_paths: self.search_paths }
    }
}

impl Default for BinaryFinderBuilder {
    fn default() -> (r: BinaryFinderBuilder)
        ensures
            r.deep_view() == Seq::<Seq<char>>::empty(),
    {
        let r = BinaryFinderBuilder { search_paths: Vec::new() };
        assert(r.search_paths.deep_view() =~= Seq::empty());
        r
    }
}

/// The texts of a list that are not empty, in order.
pub open spec fn non_empty(parts: Seq<Seq<char>>) -> Seq<Seq<char>>
    decreases parts.len(),
{
    if parts.len() == 0 {
        Seq::empty()
    } else if parts.last().len() > 0 {
        non_empty(parts.drop_last()).push(parts.last())
    } else {
        non_empty(parts.drop_last())
    }
}

/// The directories searched, given what the environment holds: first the
/// directories of the runtime directory variable, then those of the
/// library path, then the directory of the loaded library and its
/// `runtime` subdirectory.
pub open spec fn search_paths_from(
    runtime_dir: Option<Seq<char>>,
    library_path: Option<Seq<char>>,
    library_dir: Option<Seq<char>>,
) -> Seq<Seq<char>> {
    (match runtime_dir {
        Some(l) => non_empty(split_on(l, ':')),
        None => Seq::empty(),
    }) + (match library_path {
        Some(l) => non_empty(split_on(l, ':')),
        None => Seq::empty(),
    }) + (match library_dir {
        Some(d) => seq![d, join_path(d, "runtime"@)],
        None => Seq::empty(),
    })
}

/// The candidate looked at in each directory: the directory joined with
/// the program's name.
pub open spec fn candidates(search_paths: Seq<Seq<char>>, name: Seq<char>) -> Seq<Seq<char>> {
    Seq::new(search_paths.len(), |i: int| join_path(search_paths[i], name))
}

/// The lines that list the places searched.
pub open spec fn searched_lines(places: Seq<Seq<char>>) -> Seq<char>
    decreases places.len(),
{
    if places.len() == 0 {
        Seq::empty()
    } else if places.len() == 1 {
        "  - "@ + places[0]
    } else {
        searched_lines(places.drop_last()) + "\n"@ + "  - "@ + places.last()
    }
}

/// The failure reported when no directory holds the program.
pub open spec fn binary_not_found_failure(search_paths: Seq<Seq<char>>, name: Seq<char>) -> ErrorView {
    ErrorView {
        kind: ErrorKind::Storage,
        message: "Binary '"@ + name + "' not found.\nSearched locations:\n"@ + searched_lines(
            candidates(search_paths, name),
        ),
    }
}

/// Finds programs in directories, the first directory first.
#[derive(Clone, Debug)]
pub struct RuntimeBinaryFinder {
    search_paths: Vec<String>,
}

impl DeepView for RuntimeBinaryFinder {
    type V = Seq<Seq<char>>;

    /// The directories, highest priority first.
    closed spec fn deep_view(&self) -> Seq<Seq<char>> {
        self.search_paths.deep_view()
    }
}

impl RuntimeBinaryFinder {
    /// A builder without directories.
    pub fn builder() -> (r: BinaryFinderBuilder)
        ensures
            r.deep_view() == Seq::<Seq<char>>::empty(),
    {
        BinaryFinderBuilder::default()
    }

    /// The finder for what the environment holds: the value of the
    /// runtime directory variable, the value of the library path variable,
    /// and the directory of the loaded library.
    pub fn from_env_values(
        runtime_dir: &Option<String>,
        library_path: &Option<String>,
        library_dir: &Option<String>,
    ) -> (r: RuntimeBinaryFinder)
        ensures
            r.deep_view() == search_paths_from(
                runtime_dir.deep_view(),
                library_path.deep_view(),
                library_dir.deep_view(),
            ),
    {
        let mut builder = RuntimeBinaryFinder::builder();
        match runtime_dir {
            Some(l) => {
                builder = builder.with_path_list(l.as_str());
            },
            None => {},
        }
        match library_path {
            Some(l) => {
                builder = builder.with_path_list(l.as_str());
            },
            None => {},
        }
        match library_dir {
            Some(d) => {
                builder = builder.with_path(d.as_str());
                builder = builder.with_path(join(d.as_str(), "runtime").as_str());
            },
            None => {},
        }
        let r = builder.build();
        assert(r.deep_view() =~= search_paths_from(
            runtime_dir.deep_view(),
            library_path.deep_view(),
            library_dir.deep_view(),
        ));
        r
    }

    /// The directories, highest priority first.
    pub fn search_paths(&self) -> (r: &Vec<String>)
        ensures
            r.deep_view() == self.deep_view(),
    {
        &self.search_paths
    }

    /// The candidate in the first directory that holds the program, given
    /// for each directory whether its candidate exists.
    pub fn find_among(&self, binary_name: &str, present: &Vec<bool>) -> (r: Result<
        String,
        BoxliteError,
    >)
        requires
            present.len() == self.deep_view().len(),
        ensures
            match r {
                Ok(p) => exists|i: int|
                    {
                        &&& 0 <= i < present.len()
                        &&& present[i]
                        &&& forall|j: int| 0 <= j < i ==> !present[j]
                        &&& p@ == #[trigger] candidates(self.deep_view(), binary_name@)[i]
                    },
                Err(e) => {
                    &&& forall|j: int| 0 <= j < present.len() ==> !present[j]
                    &&& e.deep_view() == binary_not_found_failure(self.deep_view(), binary_name@)
                },
            },
    {
        let mut i: usize = 0;
        while i < self.search_paths.len()
            invariant
                i <= self.search_paths.len(),
                present.len() == self.search_paths.len(),
                present.len() == self.deep_view().len(),
                forall|j: int| 0 <= j < i ==> !present[j],
            decreases self.search_paths.len() - i,
        {
            if present[i] {
                let p = join(self.search_paths[i].as_str(), binary_name);
                assert(p@ == candidates(self.deep_view(), binary_name@)[i as int]);
                return Ok(p);
            }
            i += 1;
        }
        Err(self.not_found(binary_name))
    }

    fn not_found(&self, binary_name: &str) -> (e: BoxliteError)
        ensures
            e.deep_view() == binary_not_found_failure(self.deep_view(), binary_name@),
    {
        let mut lines: Vec<char> = Vec::new();
        let ghost places = candidates(self.deep_view(), binary_name@);
        let mut i: usize = 0;
        assert(places.take(0) =~= Seq::empty());
        while i < self.search_paths.len()
            invariant
                i <= self.search_paths.len(),
                places == candidates(self.deep_view(), binary_name@),
                places.len() == self.search_paths.len(),
                lines@ == searched_lines(places.take(i as int)),
            decreases self.search_paths.len() - i,
        {
            proof {
                assert(places.take(i + 1).drop_last() == places.take(i as int));
                assert(places.take(i + 1).last() == places[i as int]);
                assert(places.take(i + 1).len() == i + 1);
                if i == 0 {
                    assert(places.take(1)[0] == places[0]);
                    assert(lines@ =~= Seq::empty());
                }
            }
            if i > 0 {
                push_str(&mut lines, "\n");
            }
            push_str(&mut lines, "  - ");
            push_str(&mut lines, join(self.search_paths[i].as_str(), binary_name).as_str());
            assert(lines@ =~= searched_lines(places.take(i + 1)));
            i += 1;
        }
        assert(places.take(self.search_paths.len() as int) == places);
        let mut m = chars_of("Binary '");
        push_str(&mut m, binary_name);
        push_str(&mut m, "' not found.\nSearched locations:\n");
        let l = string_of(&lines);
        push_str(&mut m, l.as_str());
        BoxliteError::Storage(string_of(&m))
    }

    /// The program of the given name in the first directory that holds
    /// it. What is returned is the candidate of one of the directories;
    /// the failure lists every candidate.
    pub fn find(&self, binary_name: &str) -> (r: Result<String, BoxliteError>)
        ensures
            match r {
                Ok(p) => exists|i: int|
                    0 <= i < self.deep_view().len() && p@ == #[trigger] candidates(
                        self.deep_view(),
                        binary_name@,
                    )[i],
                Err(e) => e.deep_view() == binary_not_found_failure(self.deep_view(), binary_name@),
            },
    {
        let mut present: Vec<bool> = Vec::new();
        let mut i: usize = 0;
        while i < self.search_paths.len()
            invariant
                i <= self.search_paths.len(),
                present.len() == i,
            decreases self.search_paths.len() - i,
        {
            let candidate = join(self.search_paths[i].as_str(), binary_name);
            present.push(path_exists(candidate.as_str()));
            i += 1;
        }
        assert(self.deep_view().len() == self.search_paths.len());
        self.find_among(binary_name, &present)
    }
}

/// The program of the given name, looked for where the environment says.
pub fn find_binary(
    binary_name: &str,
    runtime_dir: &Option<String>,
    library_path: &Option<String>,
    library_dir: &Option<String>,
) -> (r: Result<String, BoxliteError>)
    ensures
        ({
            let paths = search_paths_from(
                runtime_dir.deep_view(),
                library_path.deep_view(),
                library_dir.deep_view(),
            );
            match r {
                Ok(p) => exists|i: int|
                    0 <= i < paths.len() && p@ == #[trigger] candidates(paths, binary_name@)[i],
                Err(e) => e.deep_view() == binary_not_found_failure(paths, binary_name@),
            }
        }),
{
    RuntimeBinaryFinder::from_env_values(runtime_dir, library_path, library_dir).find(binary_name)
}

} // verus!
