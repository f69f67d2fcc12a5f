use vstd::prelude::*;
use crate::model::BITS_ONE;
use crate::layers::views;

verus! {

/// How many recently opened projects are remembered.
pub const MAX_RECENT_PROJECTS: usize = 10;

/// Interface scale used when the configuration gives none (1.0, as a single-precision bit
/// pattern).
pub fn default_ui_scale() -> (r: u32)
    ensures
        r == BITS_ONE,
{
    BITS_ONE
}

/// The application's configuration as kept on disk.
#[derive(Debug)]
pub struct AppConfig {
    /// Paths of recently opened projects, most recent first.
    pub recent_projects: Vec<String>,
    /// Interface scale factor, as a single-precision bit pattern.
    pub ui_scale_bits: u32,
}

impl Default for AppConfig {
    /// No recent projects, scale 1.0.
    fn default() -> (r: Self)
        ensures
            r.recent_projects@.len() == 0,
            r.ui_scale_bits == BITS_ONE,
    {
        AppConfig { recent_projects: Vec::new(), ui_scale_bits: BITS_ONE }
    }
}

/// `paths` without the entries equal to `path`, order kept.
pub open spec fn without_path(paths: Seq<Seq<char>>, path: Seq<char>) -> Seq<Seq<char>>
    decreases paths.len(),
{
    if paths.len() == 0 {
        Seq::empty()
    } else if paths.last() == path {
        without_path(paths.drop_last(), path)
    } else {
        without_path(paths.drop_last(), path).push(paths.last())
    }
}

/// At most the first `MAX_RECENT_PROJECTS` entries of `paths`.
pub open spec fn capped(paths: Seq<Seq<char>>) -> Seq<Seq<char>> {
    if paths.len() > MAX_RECENT_PROJECTS { paths.take(MAX_RECENT_PROJECTS as int) } else { paths }
}

/// The recent list after opening `path`: `path` first, then the others in their order, capped.
pub open spec fn recent_after_open(paths: Seq<Seq<char>>, path: Seq<char>) -> Seq<Seq<char>> {
    capped(seq![path] + without_path(paths, path))
}

/// `without_path` keeps exactly the entries other than `path`, in order, and no more.
pub proof fn lemma_without_path(paths: Seq<Seq<char>>, path: Seq<char>)
    ensures
        without_path(paths, path).len() <= paths.len(),
        forall|x: Seq<char>| #[trigger] without_path(paths, path).contains(x) <==> (paths.contains(x) && x != path),
    decreases paths.len(),
{
    if paths.len() > 0 {
        lemma_without_path(paths.drop_last(), path);
        let init = paths.drop_last();
        let rest = without_path(init, path);
        assert forall|x: Seq<char>| without_path(paths, path).contains(x) <==> (paths.contains(x) && x != path) by {
            if paths.contains(x) && x != path {
                let i = choose|i: int| 0 <= i < paths.len() && paths[i] == x;
                if i < paths.len() - 1 {
                    assert(init[i] == x);
                    assert(init.contains(x));
                    assert(rest.contains(x));
                    if paths.last() != path {
                        let j = choose|j: int| 0 <= j < rest.len() && rest[j] == x;
                        assert(rest.push(paths.last())[j] == x);
                    }
                } else {
                    assert(paths.last() == x);
                    assert(rest.push(paths.last())[rest.len() as int] == x);
                }
            }
            if without_path(paths, path).contains(x) {
                if paths.last() != path && x == paths.last() {
                    assert(paths[paths.len() - 1] == x);
                } else {
                    assert(rest.contains(x)) by {
                        if paths.last() != path {
                            let j = choose|j: int| 0 <= j < rest.len() + 1 && rest.push(paths.last())[j] == x;
                            assert(rest[j] == x);
                        }
                    }
                    assert(init.contains(x));
                    let i = choose|i: int| 0 <= i < init.len() && init[i] == x;
                    assert(paths[i] == x);
                }
            }
        }
    }
}

/// `without_path` keeps a list that holds no entry twice free of repeats.
pub proof fn lemma_without_path_distinct(paths: Seq<Seq<char>>, path: Seq<char>)
    requires
        paths.no_duplicates(),
    ensures
        without_path(paths, path).no_duplicates(),
    decreases paths.len(),
{
    if paths.len() > 0 {
        let init = paths.drop_last();
        assert(init.no_duplicates()) by {
            assert forall|i: int, j: int| 0 <= i < init.len() && 0 <= j < init.len() && i != j
                implies init[i] != init[j] by {
                assert(init[i] == paths[i] && init[j] == paths[j]);
            }
        }
        lemma_without_path_distinct(init, path);
        lemma_without_path(init, path);
        let rest = without_path(init, path);
        if paths.last() != path {
            assert(!init.contains(paths.last())) by {
                if init.contains(paths.last()) {
                    let i = choose|i: int| 0 <= i < init.len() && init[i] == paths.last();
                    assert(paths[i] == paths[paths.len() - 1]);
                }
            }
            assert(!rest.contains(paths.last()));
            let s = rest.push(paths.last());
            assert forall|i: int, j: int| 0 <= i < s.len() && 0 <= j < s.len() && i != j implies s[i] != s[j] by {
                if i == rest.len() && j < rest.len() {
                    assert(rest.contains(rest[j]));
                } else if j == rest.len() && i < rest.len() {
                    assert(rest.contains(rest[i]));
                }
            }
        }
    }
}

impl AppConfig {
    /// Puts `path` first among the recent projects, dropping its earlier entries and keeping
    /// at most `MAX_RECENT_PROJECTS`.
    pub fn add_recent(&mut self, path: &str)
        ensures
            views(final(self).recent_projects@) == recent_after_open(views(old(self).recent_projects@), path@),
            final(self).ui_scale_bits == old(self).ui_scale_bits,
    {
        self.remove_recent(path);
        self.recent_projects.insert(0, path.to_owned());
        assert(views(self.recent_projects@) =~= seq![path@] + without_path(views(old(self).recent_projects@), path@)) by {
            assert(views(self.recent_projects@)[0] == path@);
        }
        if self.recent_projects.len() > MAX_RECENT_PROJECTS {
            self.recent_projects.truncate(MAX_RECENT_PROJECTS);
        }
        assert(views(self.recent_projects@) =~= recent_after_open(views(old(self).recent_projects@), path@));
    }

    /// Forgets `path` among the recent projects.
    pub fn remove_recent(&mut self, path: &str)
        ensures
            views(final(self).recent_projects@) == without_path(views(old(self).recent_projects@), path@),
            final(self).ui_scale_bits == old(self).ui_scale_bits,
    {
        let key = path.to_owned();
        let mut kept: Vec<String> = Vec::new();
        let mut i: usize = 0;
        while i < self.recent_projects.len()
            invariant
                i <= self.recent_projects.len(),
                key@ == path@,
                views(kept@) == without_path(views(self.recent_projects@).take(i as int), path@),
            decreases self.recent_projects.len() - i,
        {
            let ghost prev = kept@;
            assert(views(self.recent_projects@).take(i as int + 1).drop_last() =~= views(self.recent_projects@).take(i as int));
            if self.recent_projects[i] != key {
                let entry = self.recent_projects[i].clone();
                kept.push(entry);
                assert(views(kept@) =~= views(prev).push(entry@));
            }
            i = i + 1;
        }
        assert(views(self.recent_projects@).take(i as int) =~= views(self.recent_projects@));
        self.recent_projects = kept;
    }
}

} // verus!
