//! Slash-separated paths and the directories above them.

use vstd::prelude::*;
use vstd::string::*;

verus! {

/// The pieces of a slash-separated path: its maximal runs of characters other
/// than `/`, in order. Slashes at either end and repeated slashes delimit
/// nothing.
pub open spec fn pieces(path: Seq<char>) -> Seq<Seq<char>>
    decreases path.len(),
{
    if path.len() == 0 {
        Seq::empty()
    } else {
        let before = pieces(path.drop_last());
        if path.last() == '/' {
            before
        } else if path.len() >= 2 && path[path.len() - 2] != '/' {
            before.drop_last().push(before.last().push(path.last()))
        } else {
            before.push(seq![path.last()])
        }
    }
}

/// The piece `.`, which stands for the directory it is in.
pub open spec fn dot() -> Seq<char> {
    seq!['.']
}

/// The piece `..`, which stands for the directory above.
pub open spec fn dot_dot() -> Seq<char> {
    seq!['.', '.']
}

/// A list of pieces without those that are `.`.
pub open spec fn without_dots(list: Seq<Seq<char>>) -> Seq<Seq<char>>
    decreases list.len(),
{
    if list.len() == 0 {
        Seq::empty()
    } else if list.last() == dot() {
        without_dots(list.drop_last())
    } else {
        without_dots(list.drop_last()).push(list.last())
    }
}

/// The segments of a slash-separated path: its pieces but for `.`, which
/// names no directory of its own. So `a/./b`, `a//b` and `a/b/` all have the
/// segments `a` and `b`.
pub open spec fn segments(path: Seq<char>) -> Seq<Seq<char>> {
    without_dots(pieces(path))
}

/// What each string of a list holds.
pub open spec fn texts(list: Seq<String>) -> Seq<Seq<char>> {
    Seq::new(list.len(), |i: int| list[i]@)
}

fn split_pieces(path: &str) -> (parts: Vec<String>)
    ensures
        texts(parts@) == pieces(path@),
{
    let mut parts: Vec<String> = Vec::new();
    let mut current: String = String::new();
    let mut open: bool = false;
    for c in it: path.chars()
        invariant
            it.seq() == path@,
            open ==> pieces(path@.take(it.index())) == texts(parts@).push(current@),
            !open ==> pieces(path@.take(it.index())) == texts(parts@),
            !open ==> current@.len() == 0,
            open <==> it.index() > 0 && path@[it.index() - 1] != '/',
    {
        proof {
            let done = path@.take(it.index() + 1);
            assert(done.drop_last() == path@.take(it.index()));
            assert(done.last() == c);
        }
        if c == '/' {
            if open {
                parts.push(current);
                current = String::new();
                open = false;
            }
        } else {
            proof {
                let before = pieces(path@.take(it.index()));
                if open {
                    assert(before.drop_last() == texts(parts@));
                    assert(before.last() == current@);
                } else {
                    assert(current@.push(c) == seq![c]);
                }
            }
            current.push(c);
            open = true;
        }
    }
    if open {
        parts.push(current);
    }
    proof {
        assert(path@.take(path@.len() as int) == path@);
    }
    parts
}

/// Splits a path into its segments.
pub fn split(path: &str) -> (parts: Vec<String>)
    ensures
        texts(parts@) == segments(path@),
{
    let all = split_pieces(path);
    let here = String::from_str(".");
    let mut parts: Vec<String> = Vec::new();
    let mut i: usize = 0;
    proof {
        reveal_strlit(".");
        assert(here@ == dot());
    }
    while i < all.len()
        invariant
            i <= all.len(),
            here@ == dot(),
            texts(all@) == pieces(path@),
            texts(parts@) == without_dots(texts(all@).take(i as int)),
        decreases all.len() - i,
    {
        proof {
            let done = texts(all@).take(i + 1);
            assert(done.drop_last() == texts(all@).take(i as int));
            assert(done.last() == all@[i as int]@);
        }
        if all[i] != here {
            parts.push(all[i].clone());
            proof {
                assert(texts(parts@) == without_dots(texts(all@).take(i as int)).push(
                    all@[i as int]@,
                ));
            }
        }
        i += 1;
    }
    proof {
        assert(texts(all@).take(i as int) == texts(all@));
    }
    parts
}

/// The first `count` segments written as a directory: each is followed by a
/// slash.
pub open spec fn dir_path(segs: Seq<Seq<char>>, count: nat) -> Seq<char>
    decreases count,
{
    if count == 0 {
        Seq::empty()
    } else {
        dir_path(segs, (count - 1) as nat) + segs[count - 1].push('/')
    }
}

/// How many leading segments the stop ancestor accounts for: all of its own if
/// they are the first segments of the path, none if it is no ancestor.
pub open spec fn skipped(segs: Seq<Seq<char>>, stop: Option<Seq<char>>) -> nat {
    match stop {
        Some(s) => if segments(s).is_prefix_of(segs) {
            segments(s).len()
        } else {
            0
        },
        None => 0,
    }
}

/// The directories that lead to `path`, the path itself included, root-most
/// first and each with a trailing slash; those down to and including `stop`
/// are left out. Path and stop are taken by their segments, so a `.` in
/// either, a repeated slash and a slash at either end make no difference.
pub open spec fn ancestors(path: Seq<char>, stop: Option<Seq<char>>) -> Seq<Seq<char>> {
    let segs = segments(path);
    let from = skipped(segs, stop);
    Seq::new((segs.len() - from) as nat, |i: int| dir_path(segs, (from + i + 1) as nat))
}

/// What an optional stop ancestor holds.
pub open spec fn stop_text(stop: Option<&str>) -> Option<Seq<char>> {
    match stop {
        Some(s) => Some(s@),
        None => None,
    }
}

fn leads(head: &Vec<String>, segs: &Vec<String>) -> (b: bool)
    ensures
        b == texts(head@).is_prefix_of(texts(segs@)),
{
    if head.len() > segs.len() {
        return false;
    }
    let mut i: usize = 0;
    while i < head.len()
        invariant
            i <= head.len() <= segs.len(),
            forall|j: int| 0 <= j < i ==> head@[j]@ == segs@[j]@,
        decreases head.len() - i,
    {
        if head[i] != segs[i] {
            proof {
                let cut = texts(segs@).subrange(0, head.len() as int);
                assert(cut[i as int] == segs@[i as int]@);
                assert(texts(head@)[i as int] == head@[i as int]@);
            }
            return false;
        }
        i += 1;
    }
    proof {
        assert(texts(head@) =~= texts(segs@).subrange(0, head.len() as int));
    }
    true
}

/// Lists the directories that lead to `path`, root-most first, leaving out
/// those down to and including the stop ancestor.
pub fn ancestor_dirs(path: &str, stop: Option<&str>) -> (dirs: Vec<String>)
    ensures
        texts(dirs@) == ancestors(path@, stop_text(stop)),
        dirs@.len() == segments(path@).len() - skipped(segments(path@), stop_text(stop)),
{
    let segs = split(path);
    let from: usize = match stop {
        Some(s) => {
            let head = split(s);
            if leads(&head, &segs) {
                head.len()
            } else {
                0
            }
        },
        None => 0,
    };
    let mut dirs: Vec<String> = Vec::new();
    let mut running: String = String::new();
    let mut k: usize = 0;
    while k < segs.len()
        invariant
            k <= segs.len(),
            from <= segs.len(),
            from == skipped(segments(path@), stop_text(stop)),
            texts(segs@) == segments(path@),
            running@ == dir_path(segments(path@), k as nat),
            dirs@.len() == if k <= from { 0 } else { k - from },
            forall|i: int| 0 <= i < dirs@.len() ==> #[trigger] dirs@[i]@ == dir_path(
                segments(path@),
                (from + i + 1) as nat,
            ),
        decreases segs.len() - k,
    {
        proof {
            assert(texts(segs@)[k as int] == segs@[k as int]@);
        }
        running.append(segs[k].as_str());
        running.push('/');
        if k >= from {
            dirs.push(running.clone());
        }
        k += 1;
    }
    proof {
        assert(texts(dirs@) =~= ancestors(path@, stop_text(stop)));
    }
    dirs
}

/// A path that does not end in a slash has a last piece.
pub proof fn pieces_of_open_end(path: Seq<char>)
    requires
        path.len() > 0,
        path.last() != '/',
    ensures
        pieces(path).len() > 0,
        pieces(path).last().len() > 0,
{
}

/// A word without a slash is its own single piece.
pub proof fn pieces_of_word(word: Seq<char>)
    requires
        word.len() > 0,
        forall|i: int| 0 <= i < word.len() ==> word[i] != '/',
    ensures
        pieces(word) == seq![word],
    decreases word.len(),
{
    if word.len() == 1 {
        assert(pieces(word.drop_last()) == Seq::<Seq<char>>::empty());
        assert(seq![word.last()] == word);
    } else {
        pieces_of_word(word.drop_last());
        assert(word[word.len() - 2] != '/');
        assert(word.drop_last().push(word.last()) == word);
    }
}

/// The pieces of two paths joined by a slash are those of the first, then
/// those of the second.
pub proof fn pieces_of_joined(head: Seq<char>, tail: Seq<char>)
    ensures
        pieces(head.push('/') + tail) == pieces(head) + pieces(tail),
    decreases tail.len(),
{
    let whole = head.push('/') + tail;
    if tail.len() == 0 {
        assert(whole == head.push('/'));
        assert(whole.drop_last() == head);
        assert(pieces(head) + pieces(tail) == pieces(head));
    } else {
        let shorter = tail.drop_last();
        pieces_of_joined(head, shorter);
        assert(whole.drop_last() == head.push('/') + shorter);
        assert(whole.last() == tail.last());
        if tail.last() != '/' {
            if shorter.len() == 0 {
                assert(whole[whole.len() - 2] == '/');
                assert(pieces(head) + Seq::<Seq<char>>::empty().push(seq![tail.last()]) == (
                pieces(head) + Seq::<Seq<char>>::empty()).push(seq![tail.last()]));
            } else {
                assert(whole[whole.len() - 2] == tail[tail.len() - 2]);
                if tail[tail.len() - 2] != '/' {
                    pieces_of_open_end(shorter);
                    let before = pieces(shorter);
                    assert((pieces(head) + before).drop_last() == pieces(head)
                        + before.drop_last());
                    assert((pieces(head) + before).last() == before.last());
                    assert((pieces(head) + before.drop_last()).push(
                        before.last().push(tail.last()),
                    ) == pieces(head) + before.drop_last().push(before.last().push(tail.last())));
                } else {
                    assert((pieces(head) + pieces(shorter)).push(seq![tail.last()]) == pieces(head)
                        + pieces(shorter).push(seq![tail.last()]));
                }
            }
        }
    }
}

/// Two lists in a row lose their dots each for itself.
pub proof fn without_dots_of_both(a: Seq<Seq<char>>, b: Seq<Seq<char>>)
    ensures
        without_dots(a + b) == without_dots(a) + without_dots(b),
    decreases b.len(),
{
    if b.len() == 0 {
        assert(a + b == a);
        assert(without_dots(a) + without_dots(b) == without_dots(a));
    } else {
        without_dots_of_both(a, b.drop_last());
        assert((a + b).drop_last() == a + b.drop_last());
        assert((a + b).last() == b.last());
        if b.last() != dot() {
            assert((without_dots(a) + without_dots(b.drop_last())).push(b.last()) == without_dots(
                a,
            ) + without_dots(b.drop_last()).push(b.last()));
        }
    }
}

/// A word without a slash, other than `.`, is its own single segment.
pub proof fn segments_of_word(word: Seq<char>)
    requires
        word.len() > 0,
        word != dot(),
        forall|i: int| 0 <= i < word.len() ==> word[i] != '/',
    ensures
        segments(word) == seq![word],
{
    pieces_of_word(word);
    assert(seq![word].drop_last() == Seq::<Seq<char>>::empty());
    assert(without_dots(seq![word].drop_last()) == Seq::<Seq<char>>::empty());
    assert(Seq::<Seq<char>>::empty().push(word) == seq![word]);
}

/// The segments of two paths joined by a slash are those of the first, then
/// those of the second.
pub proof fn segments_of_joined(head: Seq<char>, tail: Seq<char>)
    ensures
        segments(head.push('/') + tail) == segments(head) + segments(tail),
{
    pieces_of_joined(head, tail);
    without_dots_of_both(pieces(head), pieces(tail));
}

/// A longer run of leading segments gives a longer directory that starts with
/// the shorter one.
pub proof fn dir_path_grows(segs: Seq<Seq<char>>, a: nat, b: nat)
    requires
        a <= b,
    ensures
        dir_path(segs, a).is_prefix_of(dir_path(segs, b)),
        dir_path(segs, a).len() + (b - a) <= dir_path(segs, b).len(),
    decreases b,
{
    if a < b {
        dir_path_grows(segs, a, (b - 1) as nat);
        let shorter = dir_path(segs, (b - 1) as nat);
        assert(shorter.is_prefix_of(dir_path(segs, b)));
    }
}

/// A directory is made of its own leading segments alone.
pub proof fn dir_path_of_start(a: Seq<Seq<char>>, b: Seq<Seq<char>>, count: nat)
    requires
        count <= a.len(),
        count <= b.len(),
        forall|i: int| 0 <= i < count ==> a[i] == b[i],
    ensures
        dir_path(a, count) == dir_path(b, count),
    decreases count,
{
    if count > 0 {
        dir_path_of_start(a, b, (count - 1) as nat);
    }
}

/// Below a stop that has the path's own segments, and for a path without
/// segments, there is no directory to make.
pub proof fn ancestors_of_the_stop(path: Seq<char>, stop: Option<Seq<char>>)
    requires
        segments(path).len() == 0 || (stop matches Some(s) && segments(s) == segments(path)),
    ensures
        ancestors(path, stop).len() == 0,
{
    if stop matches Some(s) {
        assert(segments(path).subrange(0, segments(path).len() as int) == segments(path));
    }
}

/// As many directories are made as the path has segments below the stop: all
/// of them without a stop or with one that is no ancestor.
pub proof fn ancestors_count(path: Seq<char>, stop: Option<Seq<char>>)
    ensures
        ancestors(path, stop).len() == segments(path).len() - skipped(segments(path), stop),
        skipped(segments(path), stop) <= segments(path).len(),
        stop is None ==> skipped(segments(path), stop) == 0,
        stop matches Some(s) ==> skipped(segments(path), stop) == if segments(s).is_prefix_of(
            segments(path),
        ) {
            segments(s).len()
        } else {
            0
        },
{
}

/// The directories down to an ancestor and those below it join to the
/// directories of the path: the two runs neither overlap nor leave a gap.
pub proof fn ancestors_join(stop: Seq<char>, path: Seq<char>)
    requires
        segments(stop).is_prefix_of(segments(path)),
    ensures
        ancestors(stop, None) + ancestors(path, Some(stop)) == ancestors(path, None),
{
    let head = segments(stop);
    let segs = segments(path);
    let joined = ancestors(stop, None) + ancestors(path, Some(stop));
    assert(joined.len() == segs.len());
    assert forall|i: int| 0 <= i < joined.len() implies joined[i] == ancestors(path, None)[i] by {
        if i < head.len() {
            assert forall|j: int| 0 <= j < i + 1 implies head[j] == segs[j] by {
                assert(segs.subrange(0, head.len() as int)[j] == segs[j]);
            }
            dir_path_of_start(head, segs, (i + 1) as nat);
        } else {
            assert(joined[i] == ancestors(path, Some(stop))[i - head.len()]);
        }
    }
    assert(joined =~= ancestors(path, None));
}

/// The directories that lead to a path come top-down: each is a proper start
/// of every later one, so none occurs twice.
pub proof fn ancestors_top_down(path: Seq<char>, stop: Option<Seq<char>>)
    ensures
        forall|i: int, j: int|
            0 <= i < j < ancestors(path, stop).len() ==> {
                &&& (#[trigger] ancestors(path, stop)[i]).is_prefix_of(
                    #[trigger] ancestors(path, stop)[j],
                )
                &&& ancestors(path, stop)[i].len() < ancestors(path, stop)[j].len()
            },
        ancestors(path, stop).no_duplicates(),
{
    let segs = segments(path);
    let from = skipped(segs, stop);
    assert forall|i: int, j: int| 0 <= i < j < ancestors(path, stop).len() implies {
        &&& (#[trigger] ancestors(path, stop)[i]).is_prefix_of(#[trigger] ancestors(path, stop)[j])
        &&& ancestors(path, stop)[i].len() < ancestors(path, stop)[j].len()
    } by {
        dir_path_grows(segs, (from + i + 1) as nat, (from + j + 1) as nat);
    }
}

} // verus!
