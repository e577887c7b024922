//! Store paths.

use vstd::prelude::*;

use crate::command::{ExeModel, InvocationModel, NixCommand};
use crate::error::{ColmenaError, ColmenaResult, ErrorModel};
use crate::flags::NixFlags;
use crate::list;
use crate::path;
use crate::text;

verus! {

/// Where the store paths are.
pub const STORE_DIR: &'static str = "/nix/store/";

/// Whether a text is a store path.
pub open spec fn is_store_path(s: Seq<char>) -> bool {
    text::begins_with(s, STORE_DIR@)
}

/// A Nix store path.
#[derive(Debug)]
pub struct StorePath(String);

impl View for StorePath {
    type V = Seq<char>;

    closed spec fn view(&self) -> Seq<char> {
        self.0@
    }
}

impl StorePath {
    #[verifier::type_invariant]
    spec fn well_formed(self) -> bool {
        is_store_path(self.0@)
    }

    /// Returns the raw store path.
    pub fn as_path(&self) -> (r: &str)
        ensures
            r@ == self@,
            is_store_path(r@),
    {
        proof {
            use_type_invariant(self);
        }
        self.0.as_str()
    }

    /// Returns whether the path is a derivation.
    pub fn is_derivation(&self) -> (r: bool)
        ensures
            r == path::is_drv(self@),
    {
        path::has_drv_extension(self.0.as_str())
    }

    /// Returns the command that realises the path.
    pub fn realise_command(&self, flags: &NixFlags) -> (r: NixCommand)
        ensures
            r@ == InvocationModel::new(ExeModel::NixStore, flags@).with_args(
                seq!["--no-gc-warning"@, "--realise"@, self@],
            ),
    {
        let r = NixCommand::nix_store(flags.clone()).args(&["--no-gc-warning", "--realise"]).arg(
            self.as_path(),
        );
        assert(r@.args =~= seq!["--no-gc-warning"@, "--realise"@, self@]);
        r
    }
}

impl Clone for StorePath {
    fn clone(&self) -> (r: Self)
        ensures
            r == *self,
    {
        proof {
            use_type_invariant(self);
        }
        StorePath(self.0.clone())
    }
}

impl PartialEq for StorePath {
    fn eq(&self, other: &Self) -> (r: bool) {
        path::same(self.0.as_str(), other.0.as_str())
    }
}

impl vstd::std_specs::cmp::PartialEqSpecImpl for StorePath {
    open spec fn obeys_eq_spec() -> bool {
        true
    }

    open spec fn eq_spec(&self, other: &Self) -> bool {
        path::components(self@) == path::components(other@)
    }
}

impl Eq for StorePath {

}

impl TryFrom<String> for StorePath {
    type Error = ColmenaError;

    fn try_from(path: String) -> (r: Result<Self, ColmenaError>)
        ensures
            match r {
                Ok(p) => is_store_path(path@) && p@ == path@,
                Err(e) => !is_store_path(path@) && e is InvalidStorePath,
            },
    {
        if text::starts_with(path.as_str(), STORE_DIR) {
            Ok(StorePath(path))
        } else {
            Err(ColmenaError::InvalidStorePath)
        }
    }
}

impl vstd::std_specs::convert::TryFromSpecImpl<String> for StorePath {
    open spec fn obeys_try_from_spec() -> bool {
        true
    }

    closed spec fn try_from_spec(path: String) -> Result<Self, ColmenaError> {
        if is_store_path(path@) {
            Ok(StorePath(path))
        } else {
            Err(ColmenaError::InvalidStorePath)
        }
    }
}

/// The store paths of a list.
pub open spec fn paths(list: Seq<StorePath>) -> Seq<Seq<char>> {
    list.map_values(|p: StorePath| p@)
}

/// Reads the store paths in the output of a command, one per line.
pub fn parse_paths(output: &str) -> (r: ColmenaResult<Vec<StorePath>>)
    ensures
        match r {
            Ok(list) => paths(list@) == text::lines_of(output@) && forall|i: int|
                0 <= i < list@.len() ==> is_store_path(#[trigger] paths(list@)[i]),
            Err(e) => e@ == ErrorModel::InvalidStorePath && exists|i: int|
                0 <= i < text::lines_of(output@).len() && !is_store_path(
                    #[trigger] text::lines_of(output@)[i],
                ),
        },
{
    let lines: Vec<String> = text::lines(output);
    let ghost all = text::lines_of(output@);
    let mut out: Vec<StorePath> = Vec::new();
    let mut i: usize = 0;
    while i < lines.len()
        invariant
            i <= lines.len(),
            list::texts(lines@) == all,
            all == text::lines_of(output@),
            paths(out@) =~= all.take(i as int),
            forall|j: int| 0 <= j < i ==> is_store_path(#[trigger] all[j]),
        decreases lines.len() - i,
    {
        assert(all[i as int] == lines@[i as int]@);
        match StorePath::try_from(lines[i].clone()) {
            Ok(path) => {
                let ghost before = out@;
                out.push(path);
                assert(paths(out@) =~= paths(before).push(path@));
            },
            Err(e) => {
                return Err(e);
            },
        }
        i = i + 1;
    }
    assert(all.take(i as int) =~= all);
    Ok(out)
}

/// The store paths that a build resulted in.
#[derive(Debug)]
pub struct BuildResult {
    paths: Vec<StorePath>,
}

impl View for BuildResult {
    type V = Seq<Seq<char>>;

    closed spec fn view(&self) -> Seq<Seq<char>> {
        paths(self.paths@)
    }
}

impl BuildResult {
    /// Creates a result from store paths.
    pub fn new(list: Vec<StorePath>) -> (r: Self)
        ensures
            r@ == paths(list@),
    {
        BuildResult { paths: list }
    }

    /// Returns the store paths.
    pub fn paths(&self) -> (r: &Vec<StorePath>)
        ensures
            paths(r@) == self@,
    {
        &self.paths
    }
}

/// Everything below `/nix/store/` is a store path, and nothing else is.
pub proof fn law_store_paths_are_below_the_store(s: Seq<char>)
    ensures
        is_store_path(s) <==> exists|rest: Seq<char>| s == "/nix/store/"@ + rest,
{
    let dir = "/nix/store/"@;
    if is_store_path(s) {
        assert(s =~= dir + s.skip(dir.len() as int));
    }
    if exists|rest: Seq<char>| s == dir + rest {
        let rest = choose|rest: Seq<char>| s == dir + rest;
        assert((dir + rest).take(dir.len() as int) =~= dir);
    }
}

} // verus!
