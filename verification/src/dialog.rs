//! File chooser dialogs: how they are opened, and what their answer becomes.
use vstd::prelude::*;
use crate::settings::Platform;

verus! {

/// Kind of file chooser.
#[derive(Clone, Copy, Debug, PartialEq, Eq, Structural)]
pub enum ChooserKind {
    /// Pick a directory.
    Directory,
    /// Pick a file, which may not exist yet.
    Create,
    /// Pick several files.
    Multi,
}

/// How to open a file chooser. It starts in the directory that the
/// environment variable `home_var` names and lists what the caller's filter
/// lets through.
#[derive(Clone, Copy, Debug)]
pub struct DialogRequest {
    pub home_var: &'static str,
    pub kind: ChooserKind,
    pub title: &'static str,
}

/// Title of the single-path chooser.
pub const CHOOSE_ONE_TITLE: &'static str = "Choce ...";

/// Title of the several-files chooser.
pub const CHOOSE_MANY_TITLE: &'static str = "Choose File...";

/// Name of the environment variable that holds the user's home directory.
pub open spec fn spec_home_var(platform: Platform) -> &'static str {
    match platform {
        Platform::Windows => "HOMEPATH",
        Platform::Other => "HOME",
    }
}

/// Name of the environment variable that holds the user's home directory.
pub fn home_var(platform: Platform) -> (r: &'static str)
    ensures
        r == spec_home_var(platform),
{
    match platform {
        Platform::Windows => "HOMEPATH",
        Platform::Other => "HOME",
    }
}

/// The chooser of `choice_file`: with an empty filter it picks a
/// directory, otherwise a file, new or not.
pub fn choice_file_request(filter: &str, platform: Platform) -> (r: DialogRequest)
    ensures
        r.home_var == spec_home_var(platform),
        r.kind == (if filter@.len() == 0 {
            ChooserKind::Directory
        } else {
            ChooserKind::Create
        }),
        r.title == CHOOSE_ONE_TITLE,
{
    let kind = if filter.is_empty() {
        ChooserKind::Directory
    } else {
        ChooserKind::Create
    };
    DialogRequest { home_var: home_var(platform), kind, title: CHOOSE_ONE_TITLE }
}

/// The chooser of `choice_files`, which picks several files.
pub fn choice_files_request(platform: Platform) -> (r: DialogRequest)
    ensures
        r.home_var == spec_home_var(platform),
        r.kind == ChooserKind::Multi,
        r.title == CHOOSE_MANY_TITLE,
{
    DialogRequest { home_var: home_var(platform), kind: ChooserKind::Multi, title: CHOOSE_MANY_TITLE }
}

/// The path that a closed single-path chooser hands back: none when the
/// user chose nothing (`count` is 0), otherwise its first value `first`.
pub fn chosen_file(count: i32, first: Option<String>) -> (r: Option<String>)
    ensures
        r == (if count == 0 {
            None::<String>
        } else {
            first
        }),
{
    if count == 0 {
        None
    } else {
        first
    }
}

/// Positions of the chosen files in a chooser that reports `count`
/// choices: 1 up to `count`.
pub fn selection_indices(count: i32) -> (r: Vec<i32>)
    ensures
        r@.len() == (if count > 0 {
            count as int
        } else {
            0
        }),
        forall|k: int| 0 <= k < r@.len() ==> #[trigger] r@[k] == k + 1,
{
    let n: i32 = if count > 0 {
        count
    } else {
        0
    };
    let mut r: Vec<i32> = Vec::new();
    let mut k: i32 = 0;
    while k < n
        invariant
            0 <= k <= n,
            n == (if count > 0 {
                count as int
            } else {
                0
            }),
            r@.len() == k,
            forall|j: int| 0 <= j < r@.len() ==> #[trigger] r@[j] == j + 1,
        decreases n - k,
    {
        r.push(k + 1);
        k = k + 1;
    }
    r
}

/// The values that are present, in their order.
pub open spec fn present(values: Seq<Option<String>>) -> Seq<String>
    decreases values.len(),
{
    if values.len() == 0 {
        Seq::empty()
    } else {
        present(values.drop_last()) + match values.last() {
            Some(s) => seq![s],
            None => Seq::empty(),
        }
    }
}

/// Number of values that are present.
pub open spec fn count_present(values: Seq<Option<String>>) -> nat
    decreases values.len(),
{
    if values.len() == 0 {
        0
    } else {
        count_present(values.drop_last()) + if values.last() is Some {
            1nat
        } else {
            0nat
        }
    }
}

/// Collecting the present values keeps every one of them, in order, and
/// nothing else: none from no values, one more at the end for a further
/// present value, none more for an absent one.
pub proof fn present_step(values: Seq<Option<String>>, v: Option<String>)
    ensures
        present(Seq::empty()) == Seq::<String>::empty(),
        v matches Some(s) ==> present(values.push(v)) == present(values).push(s),
        v is None ==> present(values.push(v)) == present(values),
{
    assert(values.push(v).drop_last() =~= values);
    match v {
        Some(s) => {
            assert(present(values) + seq![s] =~= present(values).push(s));
        },
        None => {
            assert(present(values) + Seq::<String>::empty() =~= present(values));
        },
    }
}

/// As many paths come back as values are present.
pub proof fn present_len(values: Seq<Option<String>>)
    ensures
        present(values).len() == count_present(values),
    decreases values.len(),
{
    if values.len() > 0 {
        present_len(values.drop_last());
    }
}

/// The paths that a closed several-files chooser hands back: none when the
/// user chose nothing (`count` is 0), otherwise every value present among
/// `values`, the chooser's values at `selection_indices(count)`.
pub fn chosen_files(count: i32, values: Vec<Option<String>>) -> (r: Option<Vec<String>>)
    ensures
        count == 0 ==> r is None,
        count != 0 ==> (r matches Some(v) && v@ == present(values@)),
{
    if count == 0 {
        return None;
    }
    let mut out: Vec<String> = Vec::new();
    for i in 0..values.len()
        invariant
            out@ == present(values@.take(i as int)),
    {
        assert(values@.take((i + 1) as int).drop_last() == values@.take(i as int));
        match &values[i] {
            Some(s) => out.push(s.clone()),
            None => {},
        }
    }
    assert(values@.take(values@.len() as int) == values@);
    Some(out)
}

} // verus!
