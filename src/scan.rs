//! Picking the update archives out of what the staging directory holds.
use vstd::prelude::*;

verus! {

/// A file name whose extension is exactly `zip`: it ends with `.zip` and
/// something stands before that dot.
pub open spec fn is_archive_name_spec(name: Seq<char>) -> bool {
    name.len() > 4 && name.subrange(name.len() - 4, name.len() as int) == ".zip"@
}

/// Whether a file name has the archive extension, case-sensitively.
pub fn is_archive_name(name: &str) -> (r: bool)
    ensures
        r == is_archive_name_spec(name@),
{
    proof {
        reveal_strlit(".zip");
    }
    let n: usize = name.unicode_len();
    if n <= 4 {
        return false;
    }
    let r = name.get_char(n - 4) == '.' && name.get_char(n - 3) == 'z' && name.get_char(n - 2)
        == 'i' && name.get_char(n - 1) == 'p';
    proof {
        let tail = name@.subrange(n - 4, n as int);
        if r {
            assert(tail =~= ".zip"@);
        } else {
            assert(tail != ".zip"@) by {
                if tail == ".zip"@ {
                    assert(tail[0] == '.' && tail[1] == 'z' && tail[2] == 'i' && tail[3] == 'p');
                }
            }
        }
    }
    r
}

/// A file found under the staging directory: its full path and its name.
#[derive(Debug)]
pub struct FoundFile {
    pub path: String,
    pub name: String,
}

impl View for FoundFile {
    type V = (Seq<char>, Seq<char>);

    open spec fn view(&self) -> (Seq<char>, Seq<char>) {
        (self.path@, self.name@)
    }
}

/// The files of `found` whose names have the archive extension, in order.
pub open spec fn archives_spec(found: Seq<(Seq<char>, Seq<char>)>) -> Seq<(Seq<char>, Seq<char>)>
    decreases found.len(),
{
    if found.len() == 0 {
        Seq::empty()
    } else {
        let rest = archives_spec(found.drop_last());
        if is_archive_name_spec(found.last().1) {
            rest.push(found.last())
        } else {
            rest
        }
    }
}

/// The update archives among the files found in one pass over the staging
/// directory, in the order they were found.
pub fn select_archives(found: &Vec<FoundFile>) -> (r: Vec<FoundFile>)
    ensures
        r@.map_values(|f: FoundFile| f@) == archives_spec(found@.map_values(|f: FoundFile| f@)),
{
    let ghost all = found@.map_values(|f: FoundFile| f@);
    let mut out: Vec<FoundFile> = Vec::new();
    let mut i: usize = 0;
    while i < found.len()
        invariant
            all == found@.map_values(|f: FoundFile| f@),
            i <= found@.len(),
            out@.map_values(|f: FoundFile| f@) == archives_spec(all.subrange(0, i as int)),
        decreases found@.len() - i,
    {
        let f = &found[i];
        let keep = is_archive_name(f.name.as_str());
        proof {
            assert(all.subrange(0, i + 1).drop_last() =~= all.subrange(0, i as int));
            assert(all.subrange(0, i + 1).last() == f@);
        }
        if keep {
            out.push(FoundFile { path: f.path.clone(), name: f.name.clone() });
            proof {
                assert(out@.map_values(|f: FoundFile| f@) =~= archives_spec(
                    all.subrange(0, i as int),
                ).push(f@));
            }
        }
        i = i + 1;
    }
    proof {
        assert(all.subrange(0, i as int) =~= all);
    }
    out
}

} // verus!
