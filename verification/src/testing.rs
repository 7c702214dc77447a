//! The tests of a project: how each is compiled, where its binary goes,
//! what the end of its run means, and how a run of all of them goes.
//!
//! Every test is compiled on its own, together with all sources but
//! `main.c`. Its binary is named by a hash of the test's path, so that the
//! same test gets the same binary in every run.
//!
//! In a run all tests are compiled first and then run, each in the order
//! in which it was found. A test that fails is recorded as failed and the
//! run goes on; a test that does not compile ends the run.

use std::collections::hash_map::DefaultHasher;
use std::hash::Hasher;
use vstd::prelude::*;
use vstd::std_specs::hash::DefaultHasherAdditionalSpecFns;
use vstd::string::StringSliceAdditionalSpecFns;
use vstd::utf8::{decode_utf8, encode_utf8, valid_utf8};
use crate::compiler::{
    compile_ended, compile_ended_as, CompileRequest, CompileRequestView, Compiler,
};
use crate::error::Error;
use crate::host::{text_of, Exit};
use crate::paths::{is_absolute, join, path_join};
use crate::project::Project;
use crate::sources::{
    c_sources_of, is_c_file, listed_below, shared_sources, shared_sources_of, tests_of,
};
use crate::text::{decimal, lemma_decimal_injective, lemma_decimal_len, to_decimal, views};

verus! {

/// A test to compile: its source and what the compiler is asked to do.
#[derive(Debug, Clone, PartialEq, Eq)]
pub struct TestBuild {
    pub source: String,
    pub request: CompileRequest,
}

/// How a test ended: its source, whether it passed and, where it did not,
/// what it wrote to its error stream.
#[derive(Debug, Clone, PartialEq, Eq)]
pub struct TestRecord {
    pub source: String,
    pub passed: bool,
    pub stderr: Option<String>,
}

/// The hash of a path: that of the standard hasher over the path's bytes.
pub open spec fn path_hash(path: Seq<char>) -> u64 {
    DefaultHasher::spec_finish(seq![encode_utf8(path)])
}

impl<'a> Project<'a> {
    /// The directory of the tests' binaries.
    pub open spec fn test_dir(&self) -> Seq<char> {
        path_join(self.target_dir(), "test"@)
    }

    /// The binary of the test at `test`.
    pub open spec fn test_binary(&self, test: Seq<char>) -> Seq<char> {
        path_join(self.test_dir(), decimal(path_hash(test) as nat))
    }

    /// The directories that the compiler searches for headers when it
    /// compiles a test.
    pub open spec fn test_include_dirs(&self) -> Seq<Seq<char>> {
        seq![self.tests_dir(), self.src_dir()]
    }

    /// What the compiler is asked to do for the test at `test`, where
    /// `c_files` are the sources.
    pub open spec fn test_plan(&self, c_files: Seq<Seq<char>>, test: Seq<char>) -> CompileRequestView {
        CompileRequestView {
            files: shared_sources_of(c_files).push(test),
            include_dirs: self.test_include_dirs(),
            output: self.test_binary(test),
            flags: self.settings().flags(),
        }
    }

    /// `builds` holds one build for each of `tests`, in their order, each
    /// as `test_plan` says.
    pub open spec fn tests_planned(
        &self,
        c_files: Seq<Seq<char>>,
        tests: Seq<Seq<char>>,
        builds: Seq<TestBuild>,
    ) -> bool {
        &&& builds.len() == tests.len()
        &&& forall|i: int|
            0 <= i < builds.len() ==> (#[trigger] builds[i]).source@ == tests[i]
                && builds[i].request@ == self.test_plan(c_files, tests[i])
    }

    /// The directories that must be there before the tests are compiled:
    /// the target directory, and in it that of the tests' binaries.
    pub fn test_dirs(&self) -> (r: Vec<String>)
        ensures
            views(r@) == seq![self.target_dir(), self.test_dir()],
    {
        let target = self.target();
        let tests = join(target.as_str(), "test");
        let mut r: Vec<String> = Vec::new();
        r.push(target);
        r.push(tests);
        assert(views(r@) =~= seq![self.target_dir(), self.test_dir()]);
        r
    }

    /// Where the binary of the test at `test` goes.
    pub fn test_out(&self, test: &str) -> (r: String)
        ensures
            r@ == self.test_binary(test@),
    {
        let target = self.target();
        let dir = join(target.as_str(), "test");
        let mut hasher = DefaultHasher::new();
        hasher.write(test.as_bytes());
        let name = to_decimal(hasher.finish());
        join(dir.as_str(), name.as_str())
    }

    /// Decides how each of `tests` is compiled: with all of `c_files` but
    /// `main.c` before it, into a binary named by the hash of its path.
    pub fn plan_tests<C: Compiler>(
        &self,
        backend: &C,
        c_files: &Vec<String>,
        tests: &Vec<String>,
    ) -> (r: Vec<TestBuild>)
        ensures
            self.tests_planned(views(c_files@), views(tests@), r@),
    {
        let shared = shared_sources(c_files);
        let mut include_dirs: Vec<String> = Vec::new();
        include_dirs.push(self.tests());
        include_dirs.push(self.src());
        assert(views(include_dirs@) =~= self.test_include_dirs());
        let flags = self.build_flags(backend);
        let mut r: Vec<TestBuild> = Vec::new();
        let mut i: usize = 0;
        while i < tests.len()
            invariant
                i <= tests.len(),
                r.len() == i,
                views(shared@) == shared_sources_of(views(c_files@)),
                views(include_dirs@) == self.test_include_dirs(),
                views(flags@) == self.settings().flags(),
                forall|k: int|
                    0 <= k < i ==> (#[trigger] r[k]).source@ == tests[k]@ && r[k].request@
                        == self.test_plan(views(c_files@), tests[k]@),
            decreases tests.len() - i,
        {
            let test = tests[i].clone();
            let mut files = shared.clone();
            files.push(test.clone());
            proof {
                assert(files@.len() == shared@.len() + 1);
                assert(views(files@) =~= views(shared@).push(test@)) by {
                    assert forall|k: int| 0 <= k < shared@.len() implies files@[k]@
                        == shared@[k]@ by {
                        assert(files@.drop_last()[k] == files@[k]);
                    }
                }
            }
            let request = CompileRequest {
                files,
                include_dirs: include_dirs.clone(),
                output: self.test_out(test.as_str()),
                flags: flags.clone(),
            };
            proof {
                assert(views(request.include_dirs@) =~= views(include_dirs@));
                assert(views(request.flags@) =~= views(flags@));
            }
            r.push(TestBuild { source: test, request });
            i += 1;
        }
        assert forall|k: int| 0 <= k < r.len() implies (#[trigger] r@[k]).source@ == views(
            tests@,
        )[k] && r@[k].request@ == self.test_plan(views(c_files@), views(tests@)[k]) by {
            assert(r[k].source@ == tests[k]@);
        }
        r
    }

    /// Decides how each test of the project is compiled, as it stands on
    /// disk: `plan_tests` on the sources among the files that are listed
    /// below `src`, and on the tests among the files that are listed below
    /// `src` and below `tests`. Each test is a C file.
    pub fn compile_tests<C: Compiler>(&self, backend: &C) -> (r: Vec<TestBuild>)
        ensures
            exists|beside: Seq<Seq<char>>, apart: Seq<Seq<char>>, again: Seq<Seq<char>>|
                listed_below(self.src_dir(), beside) && listed_below(self.src_dir(), again)
                    && listed_below(self.tests_dir(), apart) && #[trigger] self.tests_planned(
                    c_sources_of(again),
                    tests_of(beside, apart),
                    r@,
                ),
            forall|i: int| 0 <= i < r.len() ==> is_c_file((#[trigger] r[i]).source@),
    {
        let c_files = self.c_files();
        let tests = self.test_files();
        let r = self.plan_tests(backend, &c_files, &tests);
        proof {
            let again = choose|files: Seq<Seq<char>>|
                listed_below(self.src_dir(), files) && #[trigger] c_sources_of(files) == views(
                    c_files@,
                );
            let (beside, apart) = choose|beside: Seq<Seq<char>>, apart: Seq<Seq<char>>|
                listed_below(self.src_dir(), beside) && listed_below(self.tests_dir(), apart)
                    && #[trigger] tests_of(beside, apart) == views(tests@);
            assert(self.tests_planned(c_sources_of(again), tests_of(beside, apart), r@));
            assert forall|i: int| 0 <= i < r.len() implies is_c_file(
                (#[trigger] r[i]).source@,
            ) by {
                assert(r@[i].source@ == views(tests@)[i]);
            }
        }
        r
    }
}

/// `r` is what the end of the run of the test at `source` means: a record
/// of a test that passed where the run ended well; else a record of a test
/// that failed, with the text that it wrote to its error stream; and a
/// failure where what it wrote is no text.
pub open spec fn recorded_as(
    source: String,
    success: bool,
    stderr: Seq<u8>,
    r: Result<TestRecord, Error>,
) -> bool {
    if success {
        r == Ok::<TestRecord, Error>(TestRecord { source, passed: true, stderr: None })
    } else if valid_utf8(stderr) {
        r matches Ok(rec) && rec.source == source && !rec.passed && (rec.stderr matches Some(text)
            && text@ == decode_utf8(stderr))
    } else {
        r == Err::<TestRecord, Error>(Error::Utf8DecodeError)
    }
}

/// What the end of a test's run means. A test that ended well has passed.
/// One that did not has failed, with what it wrote to its error stream as
/// text; where that is no text, the run of the tests as a whole fails.
pub fn test_record(source: String, success: bool, stderr: Vec<u8>) -> (r: Result<TestRecord, Error>)
    ensures
        recorded_as(source, success, stderr@, r),
{
    if success {
        Ok(TestRecord { source, passed: true, stderr: None })
    } else {
        match text_of(stderr) {
            Some(text) => Ok(TestRecord { source, passed: false, stderr: Some(text) }),
            None => Err(Error::Utf8DecodeError),
        }
    }
}

/// Where a run of the tests stands: at the compiling of the test at a
/// place, at the running of the test at a place, or at its end.
pub enum Phase {
    Compiling(int),
    Running(int),
    Over,
}

/// What is to be done next in a run of the tests.
#[derive(Debug, PartialEq, Eq)]
pub enum TestStep<'r> {
    /// Have the compiler carry out `request` and tell how it ended.
    Compile { request: &'r CompileRequest },
    /// Run `program` without arguments and tell how it ended.
    Run { program: &'r String },
    /// Nothing: the run is over.
    Done,
}

/// A run of the tests. Every test is compiled before any is run, in the
/// order in which they were found, and then they are run in that order. A
/// test that does not compile ends the run with that failure, and so does
/// a test that fails and writes what is no text. Else the run ends with a
/// record of every test, in their order.
pub struct TestRun {
    builds: Vec<TestBuild>,
    compiled: usize,
    records: Vec<TestRecord>,
    failure: Option<Error>,
}

impl TestRun {
    /// The tests of the run, in their order.
    pub closed spec fn builds(&self) -> Seq<TestBuild> {
        self.builds@
    }

    /// The number of tests that were compiled.
    pub closed spec fn compiled(&self) -> nat {
        self.compiled as nat
    }

    /// The records of the tests that were run.
    pub closed spec fn records(&self) -> Seq<TestRecord> {
        self.records@
    }

    /// The failure that ended the run, where one did.
    pub closed spec fn failure(&self) -> Option<Error> {
        self.failure
    }

    /// No more tests are compiled or run than there are, none is run
    /// before all are compiled, and the record at each place is that of
    /// the test at that place.
    pub open spec fn wf(&self) -> bool {
        &&& self.compiled() <= self.builds().len()
        &&& self.records().len() <= self.builds().len()
        &&& self.records().len() > 0 ==> self.compiled() == self.builds().len()
        &&& forall|i: int|
            0 <= i < self.records().len() ==> (#[trigger] self.records()[i]).source
                == self.builds()[i].source
    }

    #[verifier::type_invariant]
    spec fn sound(&self) -> bool {
        self.wf()
    }

    /// Where the run stands.
    pub open spec fn phase(&self) -> Phase {
        if self.failure() is Some {
            Phase::Over
        } else if self.compiled() < self.builds().len() {
            Phase::Compiling(self.compiled() as int)
        } else if self.records().len() < self.builds().len() {
            Phase::Running(self.records().len() as int)
        } else {
            Phase::Over
        }
    }

    /// A run of the tests `builds`, of which none is compiled yet.
    pub fn new(builds: Vec<TestBuild>) -> (run: Self)
        ensures
            run.builds() == builds@,
            run.compiled() == 0,
            run.records() == Seq::<TestRecord>::empty(),
            run.failure() is None,
            run.wf(),
    {
        TestRun { builds, compiled: 0, records: Vec::new(), failure: None }
    }

    /// What is to be done next: the next test is compiled while there is
    /// one that is not, then the next test is run while there is one that
    /// was not, unless the run has failed.
    pub fn next(&self) -> (step: TestStep<'_>)
        ensures
            self.wf(),
            match self.phase() {
                Phase::Compiling(i) => step == (TestStep::Compile {
                    request: &self.builds()[i].request,
                }),
                Phase::Running(i) => step == (TestStep::Run {
                    program: &self.builds()[i].request.output,
                }),
                Phase::Over => step is Done,
            },
    {
        proof {
            use_type_invariant(self);
        }
        if self.failure.is_some() {
            TestStep::Done
        } else if self.compiled < self.builds.len() {
            TestStep::Compile { request: &self.builds[self.compiled].request }
        } else if self.records.len() < self.builds.len() {
            TestStep::Run { program: &self.builds[self.records.len()].request.output }
        } else {
            TestStep::Done
        }
    }

    /// Takes in how what was to be done next has ended. A compiler that
    /// ended well lets the run go on, and one that did not ends it. A test
    /// that was run leaves its record, unless it failed and wrote what is
    /// no text, which ends the run. A run that is over stays as it is.
    pub fn advance(&mut self, exit: Exit)
        ensures
            final(self).wf(),
            final(self).builds() == old(self).builds(),
            match old(self).phase() {
                Phase::Compiling(i) => {
                    &&& final(self).records() == old(self).records()
                    &&& final(self).compiled() == if exit.success {
                        i + 1
                    } else {
                        i
                    }
                    &&& compile_ended_as(
                        exit,
                        match final(self).failure() {
                            Some(e) => Err(e),
                            None => Ok(()),
                        },
                    )
                },
                Phase::Running(i) => {
                    &&& final(self).compiled() == old(self).compiled()
                    &&& recorded_as(
                        old(self).builds()[i].source,
                        exit.success,
                        exit.stderr@,
                        match final(self).failure() {
                            Some(e) => Err(e),
                            None => Ok(final(self).records().last()),
                        },
                    )
                    &&& final(self).records() == if final(self).failure() is None {
                        old(self).records().push(final(self).records().last())
                    } else {
                        old(self).records()
                    }
                },
                Phase::Over => {
                    &&& final(self).compiled() == old(self).compiled()
                    &&& final(self).records() == old(self).records()
                    &&& final(self).failure() == old(self).failure()
                },
            },
    {
        proof {
            use_type_invariant(&*self);
        }
        if self.failure.is_some() {
            return ;
        }
        if self.compiled < self.builds.len() {
            match compile_ended(&exit) {
                Ok(_) => {
                    self.compiled = self.compiled + 1;
                },
                Err(e) => {
                    self.failure = Some(e);
                },
            }
        } else if self.records.len() < self.builds.len() {
            let source = self.builds[self.records.len()].source.clone();
            match test_record(source, exit.success, exit.stderr) {
                Ok(record) => {
                    let ghost before = self.records@;
                    let mut records: Vec<TestRecord> = Vec::new();
                    std::mem::swap(&mut records, &mut self.records);
                    records.push(record);
                    self.records = records;
                    assert(self.records@ =~= before.push(record));
                },
                Err(e) => {
                    self.failure = Some(e);
                },
            }
        }
    }

    /// What the run has come to: the failure that ended it, or else the
    /// records of the tests that were run. Once the run is over without a
    /// failure, these are the records of all tests, in their order.
    pub fn finish(self) -> (r: Result<Vec<TestRecord>, Error>)
        ensures
            self.wf(),
            match self.failure() {
                Some(e) => r == Err::<Vec<TestRecord>, Error>(e),
                None => r matches Ok(records) && records@ == self.records(),
            },
    {
        proof {
            use_type_invariant(&self);
        }
        match self.failure {
            Some(e) => Err(e),
            None => Ok(self.records),
        }
    }
}

/// A run that is over without a failure has a record of every test, in
/// their order: as many records as tests, the record at each place that of
/// the test at that place.
pub proof fn lemma_a_finished_run_is_complete(run: TestRun)
    requires
        run.wf(),
        run.phase() is Over,
        run.failure() is None,
    ensures
        run.records().len() == run.builds().len(),
        run.compiled() == run.builds().len(),
        forall|i: int|
            0 <= i < run.builds().len() ==> (#[trigger] run.records()[i]).source
                == run.builds()[i].source,
{
}

/// No test is run before every test is compiled.
pub proof fn lemma_tests_run_after_all_compiled(run: TestRun)
    requires
        run.wf(),
        run.phase() is Running,
    ensures
        run.compiled() == run.builds().len(),
{
}

/// The decimal rendering of a number is no absolute path.
pub proof fn lemma_decimal_is_relative(n: nat)
    ensures
        !is_absolute(decimal(n)),
    decreases n,
{
    lemma_decimal_len(n);
    if n >= 10 {
        lemma_decimal_is_relative(n / 10);
        assert(decimal(n)[0] == decimal(n / 10)[0]);
    }
}

/// The same test gets the same binary, whenever it is asked for; and two
/// tests get the same binary only if the hashes of their paths are the
/// same.
pub proof fn lemma_test_binaries(proj: Project, a: Seq<char>, b: Seq<char>)
    ensures
        a == b ==> proj.test_binary(a) == proj.test_binary(b),
        path_hash(a) != path_hash(b) ==> proj.test_binary(a) != proj.test_binary(b),
{
    let dir = proj.test_dir();
    let x = decimal(path_hash(a) as nat);
    let y = decimal(path_hash(b) as nat);
    lemma_decimal_is_relative(path_hash(a) as nat);
    lemma_decimal_is_relative(path_hash(b) as nat);
    if proj.test_binary(a) == proj.test_binary(b) {
        let head = if dir.len() > 0 && dir.last() != '/' {
            dir + seq!['/']
        } else {
            dir
        };
        assert(path_join(dir, x) =~= head + x);
        assert(path_join(dir, y) =~= head + y);
        assert(x =~= (head + x).subrange(head.len() as int, (head + x).len() as int));
        assert(y =~= (head + y).subrange(head.len() as int, (head + y).len() as int));
        lemma_decimal_injective(path_hash(a) as nat, path_hash(b) as nat);
    }
}

} // verus!
