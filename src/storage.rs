use vstd::prelude::*;
use vstd::string::StringExecFns;

use crate::error::Error;
use crate::point::{is_point_text, point_of_text, PointArg};

verus! {

/// Configuration of the file backend: the file that holds the cursor.
pub struct FileConfig {
    pub path: String,
}

/// Configuration of the remote key-value backend.
pub struct RedisConfig {
    pub url: String,
    pub key: String,
}

/// A backend that keeps the cursor in a file. Writes go to a temporary
/// sibling file first, which is then renamed over the target.
pub struct FileStorage(pub FileConfig);

/// An ephemeral backend: reads give the value it was built with, writes
/// keep nothing.
pub struct MemoryStorage(pub PointArg);

/// A backend that keeps the cursor as JSON under one key of a remote store.
pub struct RedisStorage(pub RedisConfig);

/// The one backend that a provider uses.
pub enum Storage {
    File(FileStorage),
    Memory(MemoryStorage),
    Redis(RedisStorage),
}

pub open spec fn tmp_suffix() -> Seq<char> {
    seq!['.', 't', 'm', 'p']
}

/// The path of the temporary file that a write goes through.
pub open spec fn tmp_path_of(path: Seq<char>) -> Seq<char> {
    path + tmp_suffix()
}

/// The temporary file of a write is never the cursor file itself, so a write
/// cut short leaves the cursor file as it was.
pub proof fn lemma_tmp_path_differs(path: Seq<char>)
    ensures
        tmp_path_of(path) != path,
{
    assert(tmp_path_of(path).len() != path.len());
}

impl FileStorage {
    /// The sibling file `<path>.tmp` that a write fills before the rename.
    pub fn tmp_path(&self) -> (r: String)
        ensures
            r@ == tmp_path_of(self.0.path@),
    {
        proof {
            reveal_strlit(".tmp");
        }
        let mut r = self.0.path.clone();
        r.append(".tmp");
        assert(r@ =~= tmp_path_of(self.0.path@));
        r
    }

    /// What the cursor file holds for `point`: its canonical text.
    pub fn contents(point: &PointArg) -> (r: String)
        ensures
            r@ == crate::point::point_text(point@),
    {
        point.to_string()
    }

    /// The cursor read from the file, given what reading the file gave:
    /// its text, or the error of the read.
    pub fn read_cursor(&self, file: Result<String, Error>) -> (r: Result<PointArg, Error>)
        ensures
            file matches Err(e) ==> r == Err::<PointArg, Error>(e),
            file matches Ok(text) ==> (r is Ok <==> is_point_text(text@)),
            file matches Ok(text) ==> (r matches Ok(p) ==> p@ == point_of_text(text@)),
            file matches Ok(text) ==> (r matches Err(e) ==> e is ParseError),
    {
        match file {
            Ok(text) => PointArg::parse(text.as_str()),
            Err(e) => Err(e),
        }
    }
}

impl MemoryStorage {
    /// Always the value the backend was built with.
    pub fn read_cursor(&self) -> (r: Result<PointArg, Error>)
        ensures
            r == Ok::<PointArg, Error>(self.0),
    {
        Ok(self.0.clone())
    }

    /// Keeps nothing and always succeeds; later reads are unchanged.
    pub fn write_cursor(&self, point: PointArg) -> (r: Result<(), Error>)
        ensures
            r is Ok,
    {
        Ok(())
    }
}

} // verus!
