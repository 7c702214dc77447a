//! The build: which sources go to the compiler, in which order, with which
//! flags, and where the binary goes.
//!
//! A build starts from `main.c`, or from a source that is named. In the
//! second case other sources may define an entrypoint of their own. The
//! linker is told to bear with that, and the named source is handed over
//! first, so that its entrypoint is the one that the linker keeps.

use vstd::prelude::*;
use vstd::string::StringExecFns;
use crate::compiler::{CompileRequest, CompileRequestView, Compiler};
use crate::error::Error;
use crate::host::is_present;
use crate::paths::{
    ends_with_dot_component, file_stem, is_absolute, join, last_component, lemma_trimmed_same,
    names_file, path_join, stem_of,
};
use crate::project::{Project, SRC};
use crate::sources::{c_sources_of, listed_below};
use crate::text::{
    find_first, first_index, is_first_at, last_index_of, lemma_first_index,
    lemma_first_index_none, lemma_last_index_of, lemma_last_index_of_concat,
    lemma_last_index_of_none, maybe_view, views,
};

verus! {

/// The flag that makes the linker bear with more than one definition of a
/// symbol and keep the first.
pub open spec fn tolerate_duplicates() -> Seq<char> {
    "-zmuldefs"@
}

/// `files` with the file at `i` and the first file in each other's place.
pub open spec fn swapped_to_front(files: Seq<Seq<char>>, i: int) -> Seq<Seq<char>> {
    files.update(0, files[i]).update(i, files[0])
}

impl<'a> Project<'a> {
    /// The source file of the entrypoint called `name`: the file below the
    /// source directory that is called as the entrypoint is, with `.c`
    /// behind the name.
    pub open spec fn entry_path(&self, name: Seq<char>) -> Seq<char> {
        path_join(self.src_dir(), name) + ".c"@
    }

    /// The directories that a build searches for headers.
    pub open spec fn build_include_dirs(&self) -> Seq<Seq<char>> {
        seq![self.vendor_dir(), self.src_dir()]
    }

    /// The place of the entrypoint's source among `c_files`, where it is
    /// one of them.
    pub open spec fn entry_place(&self, c_files: Seq<Seq<char>>, name: Seq<char>) -> Option<int> {
        first_index(c_files, self.entry_path(name))
    }

    /// What the compiler is asked to do in a build of the sources `c_files`
    /// from `entrypoint`, where `main_exists` says whether there is a
    /// `main.c`; nothing where the build has nothing to start from.
    pub open spec fn build_plan(
        &self,
        c_files: Seq<Seq<char>>,
        main_exists: bool,
        entrypoint: Option<Seq<char>>,
    ) -> Option<CompileRequestView> {
        match entrypoint {
            Some(name) => match self.entry_place(c_files, name) {
                Some(i) => Some(
                    CompileRequestView {
                        files: swapped_to_front(c_files, i),
                        include_dirs: self.build_include_dirs(),
                        output: self.output_path(Some(self.entry_path(name))),
                        flags: self.settings().flags().push(tolerate_duplicates()),
                    },
                ),
                None => None,
            },
            None => if main_exists {
                Some(
                    CompileRequestView {
                        files: c_files,
                        include_dirs: self.build_include_dirs(),
                        output: self.output_path(None),
                        flags: self.settings().flags(),
                    },
                )
            } else {
                None
            },
        }
    }

    /// `r` is what the decision on a build of the sources `c_files` comes
    /// to: the plan where there is one, and else the failure that says what
    /// the build lacks to start from.
    pub open spec fn build_decided(
        &self,
        c_files: Seq<Seq<char>>,
        main_exists: bool,
        entrypoint: Option<Seq<char>>,
        r: Result<CompileRequest, Error>,
    ) -> bool {
        match self.build_plan(c_files, main_exists, entrypoint) {
            Some(plan) => r matches Ok(request) && request@ == plan,
            None => match entrypoint {
                Some(name) => r matches Err(Error::EntrypointNotFound { path }) && path@
                    == self.entry_path(name),
                None => r == Err::<CompileRequest, Error>(Error::NoEntrypoint),
            },
        }
    }

    /// The directories that must be there before a build: the target
    /// directory.
    pub fn build_dirs(&self) -> (r: Vec<String>)
        ensures
            views(r@) == seq![self.target_dir()],
    {
        let mut r: Vec<String> = Vec::new();
        r.push(self.target());
        assert(views(r@) =~= seq![self.target_dir()]);
        r
    }

    /// The source file of the entrypoint called `name`.
    pub fn entry_file(&self, name: &str) -> (r: String)
        ensures
            r@ == self.entry_path(name@),
    {
        let src = self.src();
        let mut r = join(src.as_str(), name);
        r.append(".c");
        r
    }

    /// Decides what the compiler is asked to do in a build of the sources
    /// `c_files`. With an entrypoint, its source must be one of them; it
    /// goes first, and the linker is told to bear with the entrypoints of
    /// the others. Without one there must be a `main.c`, and the sources go
    /// as they stand, with the configured flags alone.
    pub fn plan_build<C: Compiler>(
        &self,
        backend: &C,
        c_files: Vec<String>,
        main_exists: bool,
        entrypoint: &Option<String>,
    ) -> (r: Result<CompileRequest, Error>)
        ensures
            self.build_decided(views(c_files@), main_exists, maybe_view(*entrypoint), r),
    {
        let mut include_dirs: Vec<String> = Vec::new();
        include_dirs.push(self.vendor());
        include_dirs.push(self.src());
        assert(views(include_dirs@) =~= self.build_include_dirs());
        let mut flags = self.build_flags(backend);
        match entrypoint {
            Some(name) => {
                let entry = self.entry_file(name.as_str());
                proof {
                    lemma_entry_names_file(*self, name@);
                }
                let mut files = c_files;
                let ghost before = views(files@);
                match find_first(&files, entry.as_str()) {
                    Some(pos) => {
                        let output = self.build_out(Some(entry.as_str()));
                        let first = files[0].clone();
                        let chosen = files[pos].clone();
                        files.set(0, chosen);
                        files.set(pos, first);
                        assert(views(files@) =~= swapped_to_front(before, pos as int));
                        let ghost configured = views(flags@);
                        flags.push(String::from_str("-zmuldefs"));
                        assert(views(flags@) =~= configured.push(tolerate_duplicates()));
                        Ok(CompileRequest { files, include_dirs, output, flags })
                    },
                    None => Err(Error::EntrypointNotFound { path: entry }),
                }
            },
            None => {
                if main_exists {
                    let output = self.build_out(None);
                    Ok(CompileRequest { files: c_files, include_dirs, output, flags })
                } else {
                    Err(Error::NoEntrypoint)
                }
            },
        }
    }

    /// Decides what the compiler is asked to do in a build of the project
    /// as it stands on disk: `plan_build` on the sources among the files
    /// that are listed below `src`.
    pub fn build<C: Compiler>(&self, backend: &C, entrypoint: &Option<String>) -> (r: Result<
        CompileRequest,
        Error,
    >)
        ensures
            exists|files: Seq<Seq<char>>, main_exists: bool|
                listed_below(self.src_dir(), files) && #[trigger] self.build_decided(
                    c_sources_of(files),
                    main_exists,
                    maybe_view(*entrypoint),
                    r,
                ),
    {
        let src = self.src();
        let main = join(src.as_str(), "main.c");
        let main_exists = match entrypoint {
            Some(_) => false,
            None => is_present(main.as_str()),
        };
        let c_files = self.c_files();
        let ghost found = views(c_files@);
        let r = self.plan_build(backend, c_files, main_exists, entrypoint);
        proof {
            let files = choose|files: Seq<Seq<char>>|
                listed_below(self.src_dir(), files) && #[trigger] c_sources_of(files) == found;
            assert(self.build_decided(
                c_sources_of(files),
                main_exists,
                maybe_view(*entrypoint),
                r,
            ));
        }
        r
    }
}

/// The source directory is not empty and does not end with a `/`.
pub proof fn lemma_src_dir(proj: Project)
    ensures
        proj.src_dir().len() > 0,
        proj.src_dir().last() == 'c',
{
    reveal_strlit("src");
    let root = proj.root();
    assert(SRC@.len() == 3 && SRC@[0] == 's' && SRC@[2] == 'c');
    if root.len() > 0 && root.last() != '/' {
        assert(proj.src_dir() == root + seq!['/'] + SRC@);
    } else {
        assert(proj.src_dir() == root + SRC@);
    }
}

/// The source file of an entrypoint names a file, whatever the entrypoint
/// is called: its path ends with `.c`.
pub proof fn lemma_entry_names_file(proj: Project, name: Seq<char>)
    ensures
        file_stem(proj.entry_path(name)) is Some,
{
    reveal_strlit(".c");
    let entry = proj.entry_path(name);
    let ext = ".c"@;
    assert(ext.len() == 2 && ext[1] == 'c');
    assert(entry.last() == ext[1]);
    lemma_trimmed_same(entry);
    lemma_last_index_of(entry, '/');
    let last = last_component(entry);
    assert(last.len() > 0);
    assert(last.last() == 'c');
    assert(names_file(last)) by {
        assert(seq!['.'].last() == '.');
        assert(seq!['.', '.'].last() == '.');
    }
}

/// The source file of an entrypoint stands below the source directory and
/// is called as the entrypoint is, with `.c` behind the name; without its
/// extension its name is the last component of the entrypoint's name, dots
/// and all.
pub proof fn lemma_entry_path(proj: Project, name: Seq<char>)
    requires
        name.len() > 0,
        name.last() != '/',
        !ends_with_dot_component(name),
        !is_absolute(name),
    ensures
        proj.entry_path(name) == proj.src_dir() + seq!['/'] + name + seq!['.', 'c'],
        file_stem(proj.entry_path(name)) == Some(last_component(name)),
        last_index_of(name, '/') == -1 ==> last_component(name) == name,
{
    reveal_strlit(".c");
    let src = proj.src_dir();
    let sep = seq!['/'];
    let ext = seq!['.', 'c'];
    assert(".c"@ =~= ext);
    lemma_src_dir(proj);
    let plain = src + sep + name;
    assert(path_join(src, name) == plain);
    let entry = proj.entry_path(name);
    assert(entry == plain + ext);
    assert(entry.last() == 'c');
    lemma_trimmed_same(entry);
    lemma_trimmed_same(name);
    // The last separator of the path is that of the name, or else the one
    // before the name.
    let k = last_index_of(name, '/');
    lemma_last_index_of(name, '/');
    assert(last_index_of(sep, '/') == 0) by {
        assert(sep.last() == '/');
    }
    lemma_last_index_of_none(ext, '/');
    lemma_last_index_of_concat(src, sep, '/');
    lemma_last_index_of_concat(src + sep, name, '/');
    lemma_last_index_of_concat(plain, ext, '/');
    assert(last_index_of(entry, '/') == src.len() + 1 + k);
    let last = last_component(name);
    assert(last.len() > 0);
    let file = last + ext;
    assert(last_component(entry) =~= file);
    assert(file.last() == 'c');
    assert(names_file(file)) by {
        assert(seq!['.'].last() == '.');
        assert(seq!['.', '.'].last() == '.');
    }
    // The last dot of the file's name is the one before the `c`.
    assert(last_index_of(ext, '.') == 0) by {
        assert(ext.last() == 'c');
        assert(ext.drop_last() =~= seq!['.']);
        assert(seq!['.'].last() == '.');
        assert(last_index_of(seq!['.'], '.') == 0);
    }
    lemma_last_index_of_concat(last, ext, '.');
    assert(last_index_of(file, '.') == last.len());
    assert(stem_of(file) =~= last);
    if k == -1 {
        assert(last =~= name);
    }
}

/// Where the binary of a build goes. Where the configuration names a
/// place, that is the place, whatever the build starts from. Else a build
/// from `main.c` writes to the package's name below the target directory,
/// and one from the entrypoint `name` to the last component of that name
/// below the target directory, whatever the package is called: to the
/// name itself where it holds no `/`.
pub proof fn lemma_output_naming(proj: Project, name: Seq<char>)
    requires
        name.len() > 0,
        name.last() != '/',
        !ends_with_dot_component(name),
        !is_absolute(name),
    ensures
        proj.settings().package.bin matches Some(bin) ==> proj.output_path(None) == bin@
            && proj.output_path(Some(proj.entry_path(name))) == bin@,
        proj.settings().package.bin is None ==> proj.output_path(None) == path_join(
            proj.target_dir(),
            proj.settings().package.name@,
        ),
        proj.settings().package.bin is None ==> proj.output_path(Some(proj.entry_path(name)))
            == path_join(proj.target_dir(), last_component(name)),
        proj.settings().package.bin is None && last_index_of(name, '/') == -1 ==> proj.output_path(
            Some(proj.entry_path(name)),
        ) == path_join(proj.target_dir(), name),
{
    lemma_entry_path(proj, name);
}

/// The flags of a build from a named entrypoint are the configured ones
/// with the linker's flag behind them; those of a build from `main.c` are
/// the configured ones and no more.
pub proof fn lemma_flags_of_a_build(
    proj: Project,
    c_files: Seq<Seq<char>>,
    main_exists: bool,
    entrypoint: Option<Seq<char>>,
)
    requires
        proj.build_plan(c_files, main_exists, entrypoint) is Some,
    ensures
        entrypoint is Some ==> proj.build_plan(c_files, main_exists, entrypoint)->0.flags
            == proj.settings().flags().push(tolerate_duplicates()),
        entrypoint is Some ==> proj.build_plan(c_files, main_exists, entrypoint)->0.flags.last()
            == tolerate_duplicates(),
        entrypoint is None ==> proj.build_plan(c_files, main_exists, entrypoint)->0.flags
            == proj.settings().flags(),
{
}

/// In a build from a named entrypoint the entrypoint's source is the first
/// file that the compiler gets, wherever it stood among the sources, and
/// the compiler gets the same sources as often as they were found.
pub proof fn lemma_entrypoint_goes_first(
    proj: Project,
    c_files: Seq<Seq<char>>,
    main_exists: bool,
    name: Seq<char>,
)
    requires
        proj.build_plan(c_files, main_exists, Some(name)) is Some,
    ensures
        proj.build_plan(c_files, main_exists, Some(name))->0.files[0] == proj.entry_path(name),
        proj.build_plan(c_files, main_exists, Some(name))->0.files.len() == c_files.len(),
        proj.build_plan(c_files, main_exists, Some(name))->0.files.to_multiset()
            == c_files.to_multiset(),
{
    let entry = proj.entry_path(name);
    lemma_first_index_none(c_files, entry);
    let i = first_index(c_files, entry)->0;
    let files = swapped_to_front(c_files, i);
    assert(files[0] == entry);
    lemma_swap_keeps_items(c_files, i);
}

/// Where the entrypoint's source stands first among the sources already,
/// the compiler gets the sources as they stand.
pub proof fn lemma_entrypoint_in_front_stays(
    proj: Project,
    c_files: Seq<Seq<char>>,
    main_exists: bool,
    name: Seq<char>,
)
    requires
        proj.build_plan(c_files, main_exists, Some(name)) is Some,
        c_files.len() > 0,
        c_files[0] == proj.entry_path(name),
    ensures
        proj.build_plan(c_files, main_exists, Some(name))->0.files == c_files,
{
    assert(is_first_at(c_files, proj.entry_path(name), 0));
    lemma_first_index(c_files, proj.entry_path(name), 0);
    assert(swapped_to_front(c_files, 0) =~= c_files);
}

/// Two files in each other's place are the same files.
pub proof fn lemma_swap_keeps_items(files: Seq<Seq<char>>, i: int)
    requires
        0 <= i < files.len(),
    ensures
        swapped_to_front(files, i).to_multiset() == files.to_multiset(),
{
    broadcast use vstd::multiset::group_multiset_axioms;

    let once = files.update(0, files[i]);
    vstd::seq_lib::to_multiset_update(files, 0, files[i]);
    vstd::seq_lib::to_multiset_update(once, i, files[0]);
    assert(once[i] == files[i]);
    assert(files.to_multiset().count(files[0]) > 0) by {
        vstd::seq_lib::to_multiset_contains(files, files[0]);
        assert(files.contains(files[0]));
    }
    assert(files.to_multiset().count(files[i]) > 0) by {
        vstd::seq_lib::to_multiset_contains(files, files[i]);
        assert(files.contains(files[i]));
    }
    assert(swapped_to_front(files, i).to_multiset() =~= files.to_multiset());
}

} // verus!
