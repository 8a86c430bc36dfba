//! The file contents cache: loaded sources keyed by path.
//!
//! Reading from storage is the caller's business; the cache itself only
//! holds and serves what was stored into it, so a lookup of a path that
//! was never stored is a miss, reported as an error.

use vstd::prelude::*;

use crate::error::ErlError;
use crate::source_loc::SourceLoc;

verus! {

/// One cached file: its path and its current text.
#[derive(Debug)]
pub struct CachedFile {
    /// The file's path, used as the cache key.
    pub path: String,
    /// The file's current text.
    pub text: String,
}

/// Ghost model of one cached file.
#[verifier::ext_equal]
pub struct CachedFileModel {
    /// The cache key.
    pub path: Seq<char>,
    /// The text.
    pub text: Seq<char>,
}

impl View for CachedFile {
    type V = CachedFileModel;

    open spec fn view(&self) -> CachedFileModel {
        CachedFileModel { path: self.path@, text: self.text@ }
    }
}

/// The file contents cache.
#[derive(Debug)]
pub struct FileCacheImpl {
    /// The stored files, in insertion order; later entries shadow
    /// earlier ones with the same path.
    pub all_files: Vec<CachedFile>,
}

/// Models of the stored files, in order.
pub open spec fn files_view(fs: Seq<CachedFile>) -> Seq<CachedFileModel>
    decreases fs,
{
    if fs.len() == 0 {
        Seq::empty()
    } else {
        seq![fs[0]@] + files_view(fs.drop_first())
    }
}

/// `files_view` maps the sequence pointwise.
pub proof fn lemma_files_view(fs: Seq<CachedFile>)
    ensures
        files_view(fs).len() == fs.len(),
        forall|i: int| 0 <= i < fs.len() ==> files_view(fs)[i] == fs[i]@,
    decreases fs.len(),
{
    if fs.len() > 0 {
        lemma_files_view(fs.drop_first());
        assert forall|i: int| 0 <= i < fs.len() implies files_view(fs)[i] == fs[i]@ by {
            if i > 0 {
                assert(files_view(fs)[i] == files_view(fs.drop_first())[i - 1]);
                assert(fs.drop_first()[i - 1] == fs[i]);
            }
        }
    }
}

impl View for FileCacheImpl {
    type V = Seq<CachedFileModel>;

    open spec fn view(&self) -> Seq<CachedFileModel> {
        files_view(self.all_files@)
    }
}

/// The text stored under a path, taking the latest entry; nothing when
/// the path was never stored.
pub open spec fn cache_lookup(fs: Seq<CachedFileModel>, path: Seq<char>) -> Option<Seq<char>>
    decreases fs,
{
    if fs.len() == 0 {
        Option::None
    } else if fs.last().path == path {
        Option::Some(fs.last().text)
    } else {
        cache_lookup(fs.drop_last(), path)
    }
}

impl FileCacheImpl {
    /// An empty cache.
    pub fn new() -> (r: FileCacheImpl)
        ensures
            r@ == Seq::<CachedFileModel>::empty(),
    {
        FileCacheImpl { all_files: Vec::new() }
    }

    /// The cached text under a path: the latest stored text, or a
    /// missing-file error when the path was never stored.
    pub fn get_or_load(&self, file_name: &str) -> (r: Result<String, ErlError>)
        ensures
            match r {
                Result::Ok(t) => cache_lookup(self@, file_name@) == Option::Some(t@),
                Result::Err(e) => cache_lookup(self@, file_name@) is None && e@ is Preprocessor,
            },
    {
        proof {
            lemma_files_view(self.all_files@);
            assert(self@.take(self.all_files@.len() as int) =~= self@);
        }
        let n = self.all_files.len();
        let mut i: usize = n;
        while i > 0
            invariant
                0 <= i <= n,
                n == self.all_files.len(),
                files_view(self.all_files@).len() == self.all_files@.len(),
                forall|j: int|
                    0 <= j < self.all_files@.len() ==> files_view(self.all_files@)[j]
                        == self.all_files@[j]@,
                cache_lookup(self@, file_name@) == cache_lookup(self@.take(i as int), file_name@),
            decreases i,
        {
            let candidate = self.all_files[i - 1].path.as_str();
            let matches_path = crate::erl_type_new::str_eq(candidate, file_name);
            proof {
                assert(self@.take(i as int).last() == self.all_files@[i - 1]@);
                assert(self@.take(i as int).drop_last() =~= self@.take(i as int - 1));
            }
            if matches_path {
                return Result::Ok(self.all_files[i - 1].text.clone());
            }
            i = i - 1;
        }
        proof {
            assert(self@.take(0) =~= Seq::<CachedFileModel>::empty());
        }
        Result::Err(
            ErlError::preprocessor(
                SourceLoc::Unknown,
                String::from_str("file is not in the cache"),
            ),
        )
    }

    /// Store (or replace) the text under a path; later lookups of the
    /// path see the new text and other paths are unaffected.
    pub fn update_source_text(&mut self, file_name: &str, new_text: String)
        ensures
            cache_lookup(final(self)@, file_name@) == Option::Some(new_text@),
            forall|p: Seq<char>|
                p != file_name@ ==> cache_lookup(final(self)@, p) == cache_lookup(old(self)@, p),
    {
        proof {
            lemma_files_view(self.all_files@);
        }
        let ghost before = self@;
        let entry = CachedFile { path: file_name.to_owned(), text: new_text };
        self.all_files.push(entry);
        proof {
            lemma_files_view(self.all_files@);
            assert(files_view(self.all_files@) =~= before.push(
                CachedFileModel { path: file_name@, text: new_text@ },
            ));
            assert forall|p: Seq<char>|
                p != file_name@ implies cache_lookup(self@, p) == cache_lookup(before, p) by {
                assert(self@.drop_last() =~= before);
            }
        }
    }
}

} // verus!
