use vstd::prelude::*;

verus! {

/// The last component of a path, as `std::path::Path::file_name` gives it.
pub uninterp spec fn file_name_of(path: Seq<char>) -> Option<Seq<char>>;

/// Relies on `std::path::Path::file_name`: the final component of the path, or
/// none where the path ends in `..` or is a root or empty.
#[verifier::external_body]
fn file_name(path: &str) -> (r: Option<String>)
    ensures
        match r {
            Some(n) => file_name_of(path@) == Some(n@),
            None => file_name_of(path@) is None,
        },
{
    match std::path::Path::new(path).file_name() {
        Some(n) => Some(n.to_string_lossy().into_owned()),
        None => None,
    }
}

/// One local file to copy to every host: its path, the name it gets in the
/// host's transfer directory, and its size in bytes.
pub struct CopyTarget {
    pub local_path: String,
    pub remote_name: String,
    pub size: u64,
}

impl View for CopyTarget {
    type V = (Seq<char>, Seq<char>, u64);

    open spec fn view(&self) -> (Seq<char>, Seq<char>, u64) {
        (self.local_path@, self.remote_name@, self.size)
    }
}

/// The files to copy, and the paths that were turned away.
pub struct CopyPlan {
    pub targets: Vec<CopyTarget>,
    pub rejected: Vec<String>,
}

/// Why nothing is copied.
pub enum CopyError {
    /// None of the paths names a regular file; all of them, as given.
    NoFilesToCopy(Vec<String>),
}

/// The transfer planned for `path`, where `size` is the size of the regular
/// file found there, or none when there is no such file.
pub open spec fn target_of(path: Seq<char>, size: Option<u64>) -> Option<(Seq<char>, Seq<char>, u64)> {
    match (size, file_name_of(path)) {
        (Some(n), Some(f)) => Some((path, f, n)),
        _ => None,
    }
}

/// The transfers planned for `paths`, in their order.
pub open spec fn planned(paths: Seq<Seq<char>>, sizes: Seq<Option<u64>>) -> Seq<(Seq<char>, Seq<char>, u64)>
    decreases paths.len(),
{
    if paths.len() == 0 || sizes.len() == 0 {
        Seq::empty()
    } else {
        let rest = planned(paths.subrange(1, paths.len() as int), sizes.subrange(1, sizes.len() as int));
        match target_of(paths[0], sizes[0]) {
            Some(t) => seq![t] + rest,
            None => rest,
        }
    }
}

/// The paths of `paths` for which no transfer is planned, in their order.
pub open spec fn turned_away(paths: Seq<Seq<char>>, sizes: Seq<Option<u64>>) -> Seq<Seq<char>>
    decreases paths.len(),
{
    if paths.len() == 0 || sizes.len() == 0 {
        Seq::empty()
    } else {
        let rest = turned_away(paths.subrange(1, paths.len() as int), sizes.subrange(1, sizes.len() as int));
        match target_of(paths[0], sizes[0]) {
            Some(_) => rest,
            None => seq![paths[0]] + rest,
        }
    }
}

/// When no path names a regular file, no transfer is planned and every path
/// is turned away.
pub proof fn lemma_nothing_to_copy(paths: Seq<Seq<char>>, sizes: Seq<Option<u64>>)
    requires
        paths.len() == sizes.len(),
        forall|i: int| 0 <= i < sizes.len() ==> #[trigger] sizes[i] is None,
    ensures
        planned(paths, sizes).len() == 0,
        turned_away(paths, sizes) == paths,
    decreases paths.len(),
{
    if paths.len() > 0 {
        let p = paths.subrange(1, paths.len() as int);
        let s = sizes.subrange(1, sizes.len() as int);
        assert forall|i: int| 0 <= i < s.len() implies #[trigger] s[i] is None by {
            assert(s[i] == sizes[i + 1]);
        }
        lemma_nothing_to_copy(p, s);
        assert(sizes[0] is None);
        assert(turned_away(paths, sizes) =~= seq![paths[0]] + p);
        assert(seq![paths[0]] + p =~= paths);
    }
}

/// The text of each string, in order.
pub open spec fn views(s: Seq<String>) -> Seq<Seq<char>> {
    s.map_values(|p: String| p@)
}

/// Sorts the requested paths into files to copy and paths to report, before any
/// transfer begins. `sizes[i]` is the size of the regular file at `paths[i]`,
/// or none where there is no regular file there. When no file is left, nothing
/// is to be copied and every path is reported.
pub fn plan_copy(paths: Vec<String>, sizes: Vec<Option<u64>>) -> (r: Result<CopyPlan, CopyError>)
    requires
        paths@.len() == sizes@.len(),
    ensures
        planned(views(paths@), sizes@).len() == 0 <==> r is Err,
        r matches Ok(plan) ==> plan.targets@.map_values(|t: CopyTarget| t@) == planned(views(paths@), sizes@)
            && views(plan.rejected@) == turned_away(views(paths@), sizes@),
        r matches Err(CopyError::NoFilesToCopy(all)) ==> views(all@) == views(paths@),
{
    let ghost ps = views(paths@);
    let mut targets: Vec<CopyTarget> = Vec::new();
    let mut rejected: Vec<String> = Vec::new();
    let mut i: usize = 0;
    proof {
        assert(ps.subrange(0, ps.len() as int) =~= ps);
        assert(sizes@.subrange(0, sizes@.len() as int) =~= sizes@);
        assert(targets@.map_values(|t: CopyTarget| t@) =~= Seq::<(Seq<char>, Seq<char>, u64)>::empty());
        assert(views(rejected@) =~= Seq::<Seq<char>>::empty());
    }
    while i < paths.len()
        invariant
            i <= paths@.len() == sizes@.len(),
            ps == views(paths@),
            planned(ps, sizes@) == targets@.map_values(|t: CopyTarget| t@)
                + planned(ps.subrange(i as int, ps.len() as int), sizes@.subrange(i as int, sizes@.len() as int)),
            turned_away(ps, sizes@) == views(rejected@)
                + turned_away(ps.subrange(i as int, ps.len() as int), sizes@.subrange(i as int, sizes@.len() as int)),
        decreases paths@.len() - i,
    {
        let ghost p_rest = ps.subrange(i as int, ps.len() as int);
        let ghost s_rest = sizes@.subrange(i as int, sizes@.len() as int);
        let ghost old_targets = targets@.map_values(|t: CopyTarget| t@);
        let ghost old_rejected = views(rejected@);
        proof {
            assert(p_rest.subrange(1, p_rest.len() as int) =~= ps.subrange(i + 1, ps.len() as int));
            assert(s_rest.subrange(1, s_rest.len() as int) =~= sizes@.subrange(i + 1, sizes@.len() as int));
            assert(p_rest[0] == paths@[i as int]@);
        }
        let name = file_name(paths[i].as_str());
        match (sizes[i], name) {
            (Some(n), Some(f)) => {
                targets.push(CopyTarget { local_path: paths[i].clone(), remote_name: f, size: n });
                assert(targets@.map_values(|t: CopyTarget| t@) =~= old_targets.push(targets@[targets@.len() - 1]@));
                assert(old_targets.push(targets@[targets@.len() - 1]@) + planned(ps.subrange(i + 1, ps.len() as int), sizes@.subrange(i + 1, sizes@.len() as int))
                    =~= old_targets + planned(p_rest, s_rest));
            },
            _ => {
                rejected.push(paths[i].clone());
                assert(views(rejected@) =~= old_rejected.push(paths@[i as int]@));
                assert(old_rejected.push(paths@[i as int]@) + turned_away(ps.subrange(i + 1, ps.len() as int), sizes@.subrange(i + 1, sizes@.len() as int))
                    =~= old_rejected + turned_away(p_rest, s_rest));
            },
        }
        i = i + 1;
    }
    proof {
        assert(ps.subrange(i as int, ps.len() as int) =~= Seq::<Seq<char>>::empty());
        assert(targets@.map_values(|t: CopyTarget| t@) =~= planned(ps, sizes@));
        assert(views(rejected@) =~= turned_away(ps, sizes@));
    }
    if targets.len() == 0 {
        Err(CopyError::NoFilesToCopy(paths))
    } else {
        Ok(CopyPlan { targets, rejected })
    }
}

} // verus!
