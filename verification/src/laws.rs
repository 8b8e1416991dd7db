use vstd::prelude::*;
use crate::errors::{ErrorKind, SetStep};
use crate::lister::{
    chars_ieq, char_ieq, lower_code, last_dot, lemma_last_dot_bounds, is_image_name, image_paths,
    DirEntryInfo,
};
use crate::setter::{init_decision, img_decision, SpawnOutcome};

verus! {

/// A directory that holds no image-named entry lists to the empty sequence,
/// never to an error.
pub proof fn no_images_list_empty(entries: Seq<DirEntryInfo>)
    requires
        forall|i: int| 0 <= i < entries.len() ==> !is_image_name(#[trigger] entries[i].name@),
    ensures
        image_paths(entries) == Seq::<Seq<char>>::empty(),
    decreases entries.len(),
{
    if entries.len() > 0 {
        let pre = entries.drop_last();
        assert forall|i: int| 0 <= i < pre.len() implies !is_image_name(
            #[trigger] pre[i].name@,
        ) by {
            assert(pre[i] == entries[i]);
        }
        no_images_list_empty(pre);
        assert(!is_image_name(entries[entries.len() - 1].name@));
    }
}

proof fn lemma_char_ieq_dot(x: char, y: char)
    requires
        char_ieq(x, y),
    ensures
        (x == '.') == (y == '.'),
{
    assert('.' as int == 46);
    if x == '.' {
        assert(lower_code(y) == 46);
        assert(y as int == 46);
        assert(y == '.');
    }
    if y == '.' {
        assert(lower_code(x) == 46);
        assert(x as int == 46);
        assert(x == '.');
    }
}

proof fn lemma_last_dot_ieq(a: Seq<char>, b: Seq<char>)
    requires
        chars_ieq(a, b),
    ensures
        last_dot(a) == last_dot(b),
    decreases a.len(),
{
    if a.len() > 0 {
        let n = a.len() - 1;
        lemma_char_ieq_dot(a[n], b[n]);
        if a[n] != '.' {
            assert forall|i: int| 0 <= i < a.drop_last().len() implies char_ieq(
                a.drop_last()[i],
                b.drop_last()[i],
            ) by {
                assert(a.drop_last()[i] == a[i]);
                assert(b.drop_last()[i] == b[i]);
            }
            lemma_last_dot_ieq(a.drop_last(), b.drop_last());
        }
    }
}

proof fn lemma_ieq_same_allowed(a: Seq<char>, b: Seq<char>, c: Seq<char>)
    requires
        chars_ieq(a, b),
    ensures
        chars_ieq(a, c) == chars_ieq(b, c),
{
    if chars_ieq(a, c) {
        assert forall|i: int| 0 <= i < b.len() implies char_ieq(b[i], c[i]) by {
            assert(char_ieq(a[i], b[i]));
            assert(char_ieq(a[i], c[i]));
        }
    }
    if chars_ieq(b, c) {
        assert forall|i: int| 0 <= i < a.len() implies char_ieq(a[i], c[i]) by {
            assert(char_ieq(a[i], b[i]));
            assert(char_ieq(b[i], c[i]));
        }
    }
}

/// Whether a name denotes a wallpaper image does not depend on the ASCII
/// casing of the name: two names equal up to ASCII case are either both
/// included or both excluded.
pub proof fn image_name_ignores_ascii_case(a: Seq<char>, b: Seq<char>)
    requires
        chars_ieq(a, b),
    ensures
        is_image_name(a) == is_image_name(b),
{
    lemma_last_dot_ieq(a, b);
    lemma_last_dot_bounds(a);
    let j = last_dot(a);
    if j > 0 {
        let ea = a.subrange(j + 1, a.len() as int);
        let eb = b.subrange(j + 1, b.len() as int);
        assert forall|i: int| 0 <= i < ea.len() implies char_ieq(ea[i], eb[i]) by {
            assert(ea[i] == a[j + 1 + i]);
            assert(eb[i] == b[j + 1 + i]);
        }
        lemma_ieq_same_allowed(ea, eb, seq!['j', 'p', 'g']);
        lemma_ieq_same_allowed(ea, eb, seq!['j', 'p', 'e', 'g']);
        lemma_ieq_same_allowed(ea, eb, seq!['p', 'n', 'g']);
        lemma_ieq_same_allowed(ea, eb, seq!['w', 'e', 'b', 'p']);
    }
}

proof fn lemma_push_contains<A>(s: Seq<A>, x: A, y: A)
    ensures
        s.push(x).contains(y) <==> (s.contains(y) || x == y),
{
    if s.push(x).contains(y) {
        let k = choose|k: int| 0 <= k < s.push(x).len() && s.push(x)[k] == y;
        if k < s.len() {
            assert(s[k] == y);
        }
    }
    if s.contains(y) {
        let k = choose|k: int| 0 <= k < s.len() && s[k] == y;
        assert(s.push(x)[k] == y);
    }
    if x == y {
        assert(s.push(x)[s.len() as int] == y);
    }
}

/// A path stands in the listing exactly when some directly contained entry
/// carries it and that entry's name denotes an image. In particular the
/// listing never invents a path and never reaches outside the entries it was
/// given: nothing nested in a subdirectory can appear.
pub proof fn listed_paths_come_from_entries(entries: Seq<DirEntryInfo>, p: Seq<char>)
    ensures
        image_paths(entries).contains(p) <==> (exists|i: int|
            0 <= i < entries.len() && is_image_name(#[trigger] entries[i].name@)
                && entries[i].path@ == p),
    decreases entries.len(),
{
    if entries.len() > 0 {
        let pre = entries.drop_last();
        let n = entries.len() - 1;
        listed_paths_come_from_entries(pre, p);
        if is_image_name(entries[n].name@) {
            lemma_push_contains(image_paths(pre), entries[n].path@, p);
        }
        if exists|i: int|
            0 <= i < pre.len() && is_image_name(#[trigger] pre[i].name@) && pre[i].path@ == p {
            let i = choose|i: int|
                0 <= i < pre.len() && is_image_name(#[trigger] pre[i].name@) && pre[i].path@ == p;
            assert(entries[i] == pre[i]);
        }
        if exists|i: int|
            0 <= i < entries.len() && is_image_name(#[trigger] entries[i].name@)
                && entries[i].path@ == p {
            let i = choose|i: int|
                0 <= i < entries.len() && is_image_name(#[trigger] entries[i].name@)
                    && entries[i].path@ == p;
            if i < n {
                assert(pre[i] == entries[i]);
            }
        }
    }
}

/// A file whose name lacks an allow-listed extension is excluded: a path
/// carried only by such entries never stands in the listing.
pub proof fn non_image_path_excluded(entries: Seq<DirEntryInfo>, p: Seq<char>)
    requires
        forall|i: int|
            0 <= i < entries.len() && (#[trigger] entries[i].path@) == p ==> !is_image_name(
                entries[i].name@,
            ),
    ensures
        !image_paths(entries).contains(p),
{
    listed_paths_come_from_entries(entries, p);
}

/// An entry whose name denotes an image is included: its path stands in the
/// listing.
pub proof fn image_entry_included(entries: Seq<DirEntryInfo>, i: int)
    requires
        0 <= i < entries.len(),
        is_image_name(entries[i].name@),
    ensures
        image_paths(entries).contains(entries[i].path@),
{
    listed_paths_come_from_entries(entries, entries[i].path@);
}

/// When the entries carry pairwise distinct paths, as the entries of one
/// directory do, each included file stands in the listing exactly once: the
/// listing holds no duplicate.
pub proof fn distinct_paths_listed_once(entries: Seq<DirEntryInfo>)
    requires
        forall|i: int, j: int|
            0 <= i < j < entries.len() ==> (#[trigger] entries[i].path@) != (
            #[trigger] entries[j].path@),
    ensures
        image_paths(entries).no_duplicates(),
    decreases entries.len(),
{
    if entries.len() == 0 {
        assert(image_paths(entries) =~= Seq::<Seq<char>>::empty());
    } else {
        let pre = entries.drop_last();
        let n = entries.len() - 1;
        assert forall|i: int, j: int| 0 <= i < j < pre.len() implies (#[trigger] pre[i].path@) != (
        #[trigger] pre[j].path@) by {
            assert(pre[i] == entries[i]);
            assert(pre[j] == entries[j]);
        }
        distinct_paths_listed_once(pre);
        if is_image_name(entries[n].name@) {
            let s = image_paths(pre);
            let x = entries[n].path@;
            assert(!s.contains(x)) by {
                listed_paths_come_from_entries(pre, x);
                if exists|i: int|
                    0 <= i < pre.len() && is_image_name(#[trigger] pre[i].name@) && pre[i].path@
                        == x {
                    let i = choose|i: int|
                        0 <= i < pre.len() && is_image_name(#[trigger] pre[i].name@)
                            && pre[i].path@ == x;
                    assert(pre[i] == entries[i]);
                    assert(entries[i].path@ != entries[n].path@);
                }
            }
            let t = s.push(x);
            assert forall|i: int, j: int|
                0 <= i < t.len() && 0 <= j < t.len() && i != j implies t[i] != t[j] by {
                if i < s.len() && j < s.len() {
                } else if i < s.len() {
                    if t[i] == x {
                        assert(s[i] == x);
                        assert(s.contains(x));
                    }
                } else if j < s.len() {
                    if t[j] == x {
                        assert(s[j] == x);
                        assert(s.contains(x));
                    }
                }
            }
        }
    }
}

/// The init invocation's exit status never fails the operation: whatever the
/// daemon's init step exited with, the step decides to continue, and a
/// successful image step then completes the operation.
pub proof fn init_exit_ignored(exit_ok: bool)
    ensures
        init_decision(SpawnOutcome::Exited(exit_ok)) == Ok::<(), ErrorKind>(()),
        img_decision(SpawnOutcome::Exited(true)) == Ok::<(), ErrorKind>(()),
{
}

/// A non-zero exit of the image invocation fails the operation with the
/// tool-reported failure, whose boundary message is non-empty.
pub proof fn img_failure_reported()
    ensures
        img_decision(SpawnOutcome::Exited(false)) == Err::<(), ErrorKind>(
            ErrorKind::ToolReportedFailure,
        ),
        ErrorKind::ToolReportedFailure.message_spec().len() > 0,
{
    reveal_strlit("swww failed to set wallpaper");
}

/// A process that cannot be started at all fails the operation with a launch
/// failure naming the step it came from, whichever step attempted the spawn.
pub proof fn launch_failure_reported(m: String)
    ensures
        init_decision(SpawnOutcome::LaunchFailed(m)) == Err::<(), ErrorKind>(
            ErrorKind::ProcessLaunchFailed(SetStep::Init, m),
        ),
        img_decision(SpawnOutcome::LaunchFailed(m)) == Err::<(), ErrorKind>(
            ErrorKind::ProcessLaunchFailed(SetStep::Img, m),
        ),
{
}

} // verus!
