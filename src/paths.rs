use vstd::prelude::*;

verus! {

/// The `/`-separated segments of a path, empty ones included.
pub open spec fn segments(p: Seq<char>) -> Seq<Seq<char>>
    decreases p.len(),
{
    if p.len() == 0 {
        seq![Seq::<char>::empty()]
    } else {
        let rest = segments(p.drop_last());
        if p.last() == '/' {
            rest.push(Seq::<char>::empty())
        } else {
            rest.update(rest.len() - 1, rest.last().push(p.last()))
        }
    }
}

/// Segment `i` is a component of the path: it is not empty, and it is not a
/// `.` standing after the first segment (such a `.` names the same directory
/// and is dropped).
pub open spec fn is_component(segs: Seq<Seq<char>>, i: int) -> bool {
    &&& segs[i].len() > 0
    &&& !(i > 0 && segs[i] == seq!['.'])
}

/// A name that stands for a hidden entry: it starts with a dot.
pub open spec fn is_hidden(c: Seq<char>) -> bool {
    c.len() > 0 && c[0] == '.'
}

/// A directory name that holds system or build noise.
pub open spec fn is_noise(c: Seq<char>) -> bool {
    ||| c == seq!['L', 'i', 'b', 'r', 'a', 'r', 'y']
    ||| c == seq!['n', 'o', 'd', 'e', '_', 'm', 'o', 'd', 'u', 'l', 'e', 's']
    ||| c == seq!['t', 'a', 'r', 'g', 'e', 't']
    ||| c == seq!['A', 'p', 'p', 'D', 'a', 't', 'a']
}

/// Some component of the path is hidden or noise.
pub open spec fn has_excluded_component(p: Seq<char>) -> bool {
    let segs = segments(p);
    exists|i: int|
        0 <= i < segs.len() && is_component(segs, i) && (is_hidden(#[trigger] segs[i]) || is_noise(
            segs[i],
        ))
}

/// The last segment of `segs[..n]` that names an entry (neither empty nor `.`).
pub open spec fn last_name_in(segs: Seq<Seq<char>>, n: int) -> Option<Seq<char>>
    decreases n,
{
    if n <= 0 {
        None
    } else if segs[n - 1].len() > 0 && segs[n - 1] != seq!['.'] {
        Some(segs[n - 1])
    } else {
        last_name_in(segs, n - 1)
    }
}

/// The final name of a path: its last component, trailing slashes and `.`
/// ignored; `None` for a path with no such component (`/`, the empty path).
pub open spec fn file_name(p: Seq<char>) -> Option<Seq<char>> {
    let segs = segments(p);
    last_name_in(segs, segs.len() as int)
}

/// The part of a name after its last dot, where that dot is not the first
/// character.
pub open spec fn name_extension(name: Seq<char>) -> Option<Seq<char>> {
    if exists|k: int| 0 < k < name.len() && name[k] == '.' {
        let k = choose|k: int|
            0 < k < name.len() && name[k] == '.' && forall|j: int|
                k < j < name.len() ==> name[j] != '.';
        Some(name.subrange(k + 1, name.len() as int))
    } else {
        None
    }
}

/// The extension of the path's final name.
pub open spec fn extension(p: Seq<char>) -> Option<Seq<char>> {
    match file_name(p) {
        Some(n) => name_extension(n),
        None => None,
    }
}

/// Splits a path into its `/`-separated segments.
pub fn split_segments(p: &Vec<char>) -> (r: Vec<Vec<char>>)
    ensures
        r.len() == segments(p@).len(),
        forall|i: int| 0 <= i < r.len() ==> (#[trigger] r[i])@ == segments(p@)[i],
{
    let mut done: Vec<Vec<char>> = Vec::new();
    let mut cur: Vec<char> = Vec::new();
    let mut i: usize = 0;
    while i < p.len()
        invariant
            i <= p.len(),
            done.len() + 1 == segments(p@.take(i as int)).len(),
            forall|j: int| 0 <= j < done.len() ==> (#[trigger] done[j])@ == segments(p@.take(i as int))[j],
            cur@ == segments(p@.take(i as int)).last(),
        decreases p.len() - i,
    {
        assert(p@.take(i as int + 1).drop_last() == p@.take(i as int));
        if p[i] == '/' {
            done.push(cur);
            cur = Vec::new();
        } else {
            cur.push(p[i]);
        }
        i = i + 1;
    }
    assert(p@.take(p.len() as int) == p@);
    done.push(cur);
    done
}

} // verus!
