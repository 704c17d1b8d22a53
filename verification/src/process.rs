//! Choosing the game process among the running processes: the executable
//! names of each release, and the case-insensitive search through a process
//! list.

use vstd::prelude::*;

verus! {

/// What `str::to_lowercase` returns for a text (full Unicode lower-casing).
pub uninterp spec fn unicode_lowercase(s: Seq<char>) -> Seq<char>;

/// Calls `str::to_lowercase`; the contract names its result
/// `unicode_lowercase` of the text.
#[verifier::external_body]
fn to_lowercase(s: &str) -> (r: String)
    ensures
        r@ == unicode_lowercase(s@),
{
    s.to_lowercase()
}

/// A release of the game.
pub enum Server {
    Jp,
    Global,
}

/// One entry of the process list: executable name and process id.
pub struct ProcessEntry {
    pub exe_name: String,
    pub pid: u32,
}

impl View for ProcessEntry {
    type V = (Seq<char>, u32);

    open spec fn view(&self) -> (Seq<char>, u32) {
        (self.exe_name@, self.pid)
    }
}

pub open spec fn entries_view(v: Seq<ProcessEntry>) -> Seq<(Seq<char>, u32)> {
    v.map_values(|e: ProcessEntry| e@)
}

pub open spec fn texts_view(v: Seq<String>) -> Seq<Seq<char>> {
    v.map_values(|s: String| s@)
}

/// The executable names of a release's game process.
pub open spec fn server_names(server: Server) -> Seq<Seq<char>> {
    match server {
        Server::Jp => seq!["umamusume.exe"@, "umamusumeprettyderby_jpn.exe"@],
        Server::Global => seq!["umamusumeprettyderby.exe"@],
    }
}

/// The process id of the first entry whose name satisfies `wanted`.
pub open spec fn first_pid_where(
    entries: Seq<(Seq<char>, u32)>,
    wanted: spec_fn(Seq<char>) -> bool,
) -> Option<u32>
    decreases entries.len(),
{
    if entries.len() == 0 {
        None
    } else if wanted(entries[0].0) {
        Some(entries[0].1)
    } else {
        first_pid_where(entries.drop_first(), wanted)
    }
}

/// Whether a process name equals one of `names` once both are lower-cased.
pub open spec fn matches_any_name(exe: Seq<char>, names: Seq<Seq<char>>) -> bool {
    exists|j: int| 0 <= j < names.len() && unicode_lowercase(exe) == unicode_lowercase(names[j])
}

proof fn lemma_first_pid_skip(
    entries: Seq<(Seq<char>, u32)>,
    wanted: spec_fn(Seq<char>) -> bool,
    i: int,
)
    requires
        0 <= i < entries.len(),
        !wanted(entries[i].0),
    ensures
        first_pid_where(entries.skip(i), wanted) == first_pid_where(entries.skip(i + 1), wanted),
{
    assert(entries.skip(i).drop_first() =~= entries.skip(i + 1));
}

/// The executable names of a release's game process.
pub fn process_names(server: Server) -> (r: Vec<String>)
    ensures
        texts_view(r@) == server_names(server),
{
    let mut r: Vec<String> = Vec::new();
    match server {
        Server::Jp => {
            r.push(String::from_str("umamusume.exe"));
            r.push(String::from_str("umamusumeprettyderby_jpn.exe"));
        },
        Server::Global => {
            r.push(String::from_str("umamusumeprettyderby.exe"));
        },
    }
    assert(texts_view(r@) =~= server_names(server));
    r
}

/// Whether `name` is one of `names`.
fn contains_text(names: &Vec<String>, name: &String) -> (r: bool)
    ensures
        r == texts_view(names@).contains(name@),
{
    let mut j: usize = 0;
    while j < names.len()
        invariant
            j <= names.len(),
            forall|k: int| 0 <= k < j ==> names@[k]@ != name@,
        decreases names.len() - j,
    {
        if names[j] == *name {
            assert(texts_view(names@)[j as int] == name@);
            return true;
        }
        j = j + 1;
    }
    assert forall|k: int| 0 <= k < texts_view(names@).len() implies texts_view(names@)[k]
        != name@ by {
        assert(texts_view(names@)[k] == names@[k]@);
    }
    false
}

/// The process id of the first entry whose name is one of `names`, compared
/// exactly (callers lower-case both sides first).
pub fn first_pid_among(entries: &Vec<ProcessEntry>, names: &Vec<String>) -> (r: Option<u32>)
    ensures
        r == first_pid_where(
            entries_view(entries@),
            |n: Seq<char>| texts_view(names@).contains(n),
        ),
{
    let ghost all = entries_view(entries@);
    let ghost wanted = |n: Seq<char>| texts_view(names@).contains(n);
    let mut i: usize = 0;
    assert(all.skip(0) =~= all);
    while i < entries.len()
        invariant
            i <= entries.len(),
            all == entries_view(entries@),
            wanted == (|n: Seq<char>| texts_view(names@).contains(n)),
            first_pid_where(all, wanted) == first_pid_where(all.skip(i as int), wanted),
        decreases entries.len() - i,
    {
        assert(all.skip(i as int)[0] == entries@[i as int]@);
        if contains_text(names, &entries[i].exe_name) {
            return Some(entries[i].pid);
        }
        proof {
            lemma_first_pid_skip(all, wanted, i as int);
        }
        i = i + 1;
    }
    assert(all.skip(i as int).len() == 0);
    None
}

/// The process id of the first entry of the process list whose executable
/// name equals one of `names`, ignoring case (both sides are lower-cased
/// with `str::to_lowercase`); `None` when no entry matches.
pub fn find_pid_by_names(entries: &Vec<ProcessEntry>, names: &Vec<String>) -> (r: Option<u32>)
    ensures
        r == first_pid_where(
            entries_view(entries@),
            |n: Seq<char>| matches_any_name(n, texts_view(names@)),
        ),
{
    let mut lowered_names: Vec<String> = Vec::new();
    let mut j: usize = 0;
    while j < names.len()
        invariant
            j <= names.len(),
            lowered_names@.len() == j,
            forall|k: int| 0 <= k < j ==> #[trigger] lowered_names@[k]@ == unicode_lowercase(names@[k]@),
        decreases names.len() - j,
    {
        lowered_names.push(to_lowercase(names[j].as_str()));
        j = j + 1;
    }
    let mut lowered: Vec<ProcessEntry> = Vec::new();
    let mut i: usize = 0;
    while i < entries.len()
        invariant
            i <= entries.len(),
            lowered@.len() == i,
            forall|k: int| 0 <= k < i ==> #[trigger] lowered@[k]@ == (unicode_lowercase(entries@[k].exe_name@), entries@[k].pid),
        decreases entries.len() - i,
    {
        let e = &entries[i];
        lowered.push(ProcessEntry { exe_name: to_lowercase(e.exe_name.as_str()), pid: e.pid });
        i = i + 1;
    }
    let r = first_pid_among(&lowered, &lowered_names);
    proof {
        let names_v = texts_view(names@);
        let lnames = texts_view(lowered_names@);
        let w1 = |n: Seq<char>| lnames.contains(n);
        let w2 = |n: Seq<char>| matches_any_name(n, names_v);
        lemma_lowered_search(entries_view(entries@), entries_view(lowered@), names_v, lnames, w1, w2);
    }
    r
}

/// The search depends only on the lower-cased names: two name lists in
/// which every name of each equals some name of the other once both are
/// lower-cased (a permutation, with repetitions or other letter case) find the
/// same process in the same process list.
pub proof fn law_search_depends_on_lowered_names(
    entries: Seq<(Seq<char>, u32)>,
    names: Seq<Seq<char>>,
    names2: Seq<Seq<char>>,
)
    requires
        forall|i: int|
            0 <= i < names.len() ==> exists|j: int|
                0 <= j < names2.len() && #[trigger] unicode_lowercase(names[i])
                    == unicode_lowercase(names2[j]),
        forall|j: int|
            0 <= j < names2.len() ==> exists|i: int|
                0 <= i < names.len() && unicode_lowercase(names[i]) == #[trigger] unicode_lowercase(
                    names2[j],
                ),
    ensures
        first_pid_where(entries, |n: Seq<char>| matches_any_name(n, names)) == first_pid_where(
            entries,
            |n: Seq<char>| matches_any_name(n, names2),
        ),
{
    let w1 = |n: Seq<char>| matches_any_name(n, names);
    let w2 = |n: Seq<char>| matches_any_name(n, names2);
    assert forall|n: Seq<char>| #[trigger] w1(n) == w2(n) by {
        if w1(n) {
            let i = choose|i: int| 0 <= i < names.len() && unicode_lowercase(n) == unicode_lowercase(names[i]);
            let j = choose|j: int| 0 <= j < names2.len() && unicode_lowercase(names[i]) == unicode_lowercase(names2[j]);
            assert(0 <= j < names2.len() && unicode_lowercase(n) == unicode_lowercase(names2[j]));
        }
        if w2(n) {
            let j = choose|j: int| 0 <= j < names2.len() && unicode_lowercase(n) == unicode_lowercase(names2[j]);
            let i = choose|i: int| 0 <= i < names.len() && unicode_lowercase(names[i]) == unicode_lowercase(names2[j]);
            assert(0 <= i < names.len() && unicode_lowercase(n) == unicode_lowercase(names[i]));
        }
    }
    assert(w1 =~= w2);
}

proof fn lemma_lowered_search(
    orig: Seq<(Seq<char>, u32)>,
    low: Seq<(Seq<char>, u32)>,
    names: Seq<Seq<char>>,
    lnames: Seq<Seq<char>>,
    w1: spec_fn(Seq<char>) -> bool,
    w2: spec_fn(Seq<char>) -> bool,
)
    requires
        orig.len() == low.len(),
        forall|k: int| 0 <= k < orig.len() ==> #[trigger] low[k] == (unicode_lowercase(orig[k].0), orig[k].1),
        names.len() == lnames.len(),
        forall|k: int| 0 <= k < names.len() ==> #[trigger] lnames[k] == unicode_lowercase(names[k]),
        forall|n: Seq<char>| #[trigger] w1(n) == lnames.contains(n),
        forall|n: Seq<char>| #[trigger] w2(n) == matches_any_name(n, names),
    ensures
        first_pid_where(low, w1) == first_pid_where(orig, w2),
    decreases orig.len(),
{
    if orig.len() > 0 {
        let n = orig[0].0;
        assert(low[0] == (unicode_lowercase(n), orig[0].1));
        if w2(n) {
            let j = choose|j: int| 0 <= j < names.len() && unicode_lowercase(n) == unicode_lowercase(names[j]);
            assert(lnames[j] == unicode_lowercase(n));
            assert(w1(low[0].0));
        } else {
            if w1(low[0].0) {
                let j = choose|j: int| 0 <= j < lnames.len() && lnames[j] == low[0].0;
                assert(unicode_lowercase(n) == unicode_lowercase(names[j]));
                assert(false);
            }
        }
        let o2 = orig.drop_first();
        let l2 = low.drop_first();
        assert forall|k: int| 0 <= k < o2.len() implies #[trigger] l2[k] == (unicode_lowercase(o2[k].0), o2[k].1) by {
            assert(l2[k] == low[k + 1]);
            assert(o2[k] == orig[k + 1]);
        }
        lemma_lowered_search(o2, l2, names, lnames, w1, w2);
    }
}

} // verus!
