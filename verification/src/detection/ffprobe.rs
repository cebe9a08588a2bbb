//! Locating the ffprobe binary and judging how a probe ended.
use vstd::prelude::*;
use super::error::DetectionError;
use crate::link::path::{join, path_join};
use crate::text::chars_of;

verus! {

/// The entries of a `PATH`-style list: the text split at every `:`, empty
/// entries kept.
pub open spec fn path_entries(s: Seq<char>) -> Seq<Seq<char>>
    decreases s.len(),
{
    if s.len() == 0 {
        seq![Seq::<char>::empty()]
    } else {
        let prev = path_entries(s.drop_last());
        if s.last() == ':' {
            prev.push(Seq::<char>::empty())
        } else {
            prev.update(prev.len() - 1, prev.last().push(s.last()))
        }
    }
}

proof fn lemma_path_entries_nonempty(s: Seq<char>)
    ensures
        path_entries(s).len() >= 1,
    decreases s.len(),
{
    if s.len() > 0 {
        lemma_path_entries_nonempty(s.drop_last());
    }
}

/// Where `binary` is looked for, given the `PATH` list `path_var`: each
/// entry joined with the binary's name, in order.
pub open spec fn candidate_paths(path_var: Seq<char>, binary: Seq<char>) -> Seq<Seq<char>> {
    path_entries(path_var).map_values(|dir: Seq<char>| join(dir, binary))
}

/// The places `binary` is looked for along `path_var`, in order.
pub fn binary_candidates(path_var: &str, binary: &str) -> (r: Vec<String>)
    ensures
        r@.len() == candidate_paths(path_var@, binary@).len(),
        forall|i: int| 0 <= i < r@.len() ==> #[trigger] r@[i]@ == candidate_paths(path_var@, binary@)[i],
{
    let cs = chars_of(path_var);
    let mut dirs: Vec<Vec<char>> = Vec::new();
    dirs.push(Vec::new());
    let mut i: usize = 0;
    proof {
        assert(cs@.take(0) =~= Seq::<char>::empty());
    }
    while i < cs.len()
        invariant
            cs@ == path_var@,
            i <= cs@.len(),
            dirs@.len() == path_entries(cs@.take(i as int)).len(),
            forall|j: int| 0 <= j < dirs@.len() ==> #[trigger] dirs@[j]@ == path_entries(cs@.take(i as int))[j],
        decreases cs@.len() - i,
    {
        let c = cs[i];
        let ghost prev = path_entries(cs@.take(i as int));
        proof {
            lemma_path_entries_nonempty(cs@.take(i as int));
            assert(cs@.take(i + 1).drop_last() =~= cs@.take(i as int));
            assert(cs@.take(i + 1).last() == c);
        }
        if c == ':' {
            dirs.push(Vec::new());
            proof {
                assert forall|j: int| 0 <= j < dirs@.len() implies #[trigger] dirs@[j]@ == path_entries(cs@.take(i + 1))[j] by {
                    if j == dirs@.len() - 1 {
                        assert(dirs@[j]@ =~= Seq::<char>::empty());
                    }
                }
            }
        } else {
            let last = dirs.len() - 1;
            let mut cur = dirs.pop().unwrap();
            cur.push(c);
            dirs.push(cur);
            proof {
                assert forall|j: int| 0 <= j < dirs@.len() implies #[trigger] dirs@[j]@ == path_entries(cs@.take(i + 1))[j] by {
                    if j == last as int {
                        assert(dirs@[j]@ =~= prev.last().push(c));
                    }
                }
            }
        }
        i = i + 1;
    }
    proof {
        assert(cs@.take(cs@.len() as int) =~= cs@);
    }
    let mut out: Vec<String> = Vec::new();
    let mut k: usize = 0;
    while k < dirs.len()
        invariant
            cs@ == path_var@,
            dirs@.len() == path_entries(path_var@).len(),
            forall|j: int| 0 <= j < dirs@.len() ==> #[trigger] dirs@[j]@ == path_entries(path_var@)[j],
            k <= dirs@.len(),
            out@.len() == k,
            forall|j: int| 0 <= j < k ==> #[trigger] out@[j]@ == candidate_paths(path_var@, binary@)[j],
        decreases dirs@.len() - k,
    {
        let dir = crate::text::string_from_chars(dirs[k].as_slice());
        let p = path_join(dir.as_str(), binary);
        out.push(p);
        proof {
            assert(out@[k as int]@ == candidate_paths(path_var@, binary@)[k as int]);
        }
        k = k + 1;
    }
    out
}

/// The ffprobe binary used to probe files.
#[derive(Debug, Clone)]
pub struct SystemFfprobe {
    path: String,
}

impl SystemFfprobe {
    /// Path of the binary.
    pub closed spec fn path(&self) -> Seq<char> {
        self.path@
    }

    /// Use the binary at `path`.
    pub fn with_path(path: String) -> (r: Self)
        ensures
            r.path() == path@,
    {
        SystemFfprobe { path }
    }

    /// Path of the binary.
    pub fn binary_path(&self) -> (r: &str)
        ensures
            r@ == self.path(),
    {
        self.path.as_str()
    }

    /// The first of `candidates` that is an executable file
    /// (`executable[i]` tells it of `candidates[i]`); `None` when there is
    /// none.
    pub fn locate(candidates: &Vec<String>, executable: &Vec<bool>) -> (r: Option<Self>)
        requires
            executable@.len() == candidates@.len(),
        ensures
            match r {
                Some(f) => exists|i: int| 0 <= i < candidates@.len() && executable@[i]
                    && f.path() == candidates@[i]@
                    && forall|j: int| 0 <= j < i ==> !executable@[j],
                None => forall|j: int| 0 <= j < candidates@.len() ==> !executable@[j],
            },
    {
        let mut i: usize = 0;
        while i < candidates.len()
            invariant
                executable@.len() == candidates@.len(),
                i <= candidates@.len(),
                forall|j: int| 0 <= j < i ==> !executable@[j],
            decreases candidates@.len() - i,
        {
            if executable[i] {
                let f = SystemFfprobe { path: candidates[i].clone() };
                assert(f.path() == candidates@[i as int]@);
                return Some(f);
            }
            i = i + 1;
        }
        None
    }
}

/// Owner, group or other may execute a file with permission bits `mode`.
pub open spec fn mode_allows_exec(mode: u32) -> bool {
    mode & 0o111u32 != 0
}

/// A path is usable as ffprobe when it is a regular file that someone may
/// execute.
pub fn is_executable(is_file: bool, mode: u32) -> (r: bool)
    ensures
        r == (is_file && mode_allows_exec(mode)),
{
    is_file && mode & 0o111u32 != 0
}

/// How a finished ffprobe run is judged: a failed exit is an error carrying
/// the exit code (-1 when killed by a signal) and its stderr.
pub fn judge_exit(path: String, success: bool, code: Option<i32>, stderr: String) -> (r: Result<(), DetectionError>)
    ensures
        success <==> r is Ok,
        r matches Err(e) ==> e == (DetectionError::FfprobeExit {
            path,
            status: match code {
                Some(c) => c,
                None => -1i32,
            },
            stderr,
        }),
{
    if success {
        Ok(())
    } else {
        let status: i32 = match code {
            Some(c) => c,
            None => -1,
        };
        Err(DetectionError::FfprobeExit { path, status, stderr })
    }
}

} // verus!
