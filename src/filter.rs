use vstd::prelude::*;

use crate::paths::{
    extension, file_name, has_excluded_component, is_component, is_hidden, is_noise,
    last_name_in, name_extension, segments, split_segments,
};
use crate::text::{chars_of, lower_of, lowercase, string_of};

verus! {

/// The characters of each string.
pub open spec fn views(v: Seq<String>) -> Seq<Seq<char>> {
    v.map_values(|s: String| s@)
}

/// Some ignored extension folds to the same text as `ext`.
pub open spec fn extension_is_ignored(ext: Seq<char>, ignored: Seq<Seq<char>>) -> bool {
    exists|j: int| 0 <= j < ignored.len() && lower_of(#[trigger] ignored[j]) == lower_of(ext)
}

/// The filter policy: a path is skipped when one of its components is hidden
/// or noise, or when its extension is ignored, letter case aside.
pub open spec fn skip_path(p: Seq<char>, ignored: Seq<Seq<char>>) -> bool {
    ||| has_excluded_component(p)
    ||| match extension(p) {
        Some(e) => extension_is_ignored(e, ignored),
        None => false,
    }
}

fn same_chars(a: &Vec<char>, b: &Vec<char>) -> (r: bool)
    ensures
        r == (a@ == b@),
{
    if a.len() != b.len() {
        return false;
    }
    let mut i: usize = 0;
    while i < a.len()
        invariant
            i <= a.len(),
            a.len() == b.len(),
            forall|j: int| 0 <= j < i ==> a@[j] == b@[j],
        decreases a.len() - i,
    {
        if a[i] != b[i] {
            return false;
        }
        i = i + 1;
    }
    assert(a@ == b@);
    true
}

/// Whether a directory name is one of the noise names.
pub fn is_noise_name(c: &Vec<char>) -> (r: bool)
    ensures
        r == is_noise(c@),
{
    let library = vec!['L', 'i', 'b', 'r', 'a', 'r', 'y'];
    let node_modules = vec!['n', 'o', 'd', 'e', '_', 'm', 'o', 'd', 'u', 'l', 'e', 's'];
    let target = vec!['t', 'a', 'r', 'g', 'e', 't'];
    let app_data = vec!['A', 'p', 'p', 'D', 'a', 't', 'a'];
    same_chars(c, &library) || same_chars(c, &node_modules) || same_chars(c, &target)
        || same_chars(c, &app_data)
}

/// Whether a path has a hidden or noise component.
pub fn has_excluded(path: &str) -> (r: bool)
    ensures
        r == has_excluded_component(path@),
{
    let p = chars_of(path);
    let segs = split_segments(&p);
    let ghost s = segments(path@);
    let mut i: usize = 0;
    while i < segs.len()
        invariant
            i <= segs.len(),
            p@ == path@,
            s == segments(path@),
            segs.len() == s.len(),
            forall|j: int| 0 <= j < segs.len() ==> (#[trigger] segs[j])@ == s[j],
            forall|j: int|
                0 <= j < i ==> !(is_component(s, j) && (is_hidden(#[trigger] s[j]) || is_noise(
                    s[j],
                ))),
        decreases segs.len() - i,
    {
        let seg = &segs[i];
        let component = seg.len() > 0 && !(i > 0 && seg.len() == 1 && seg[0] == '.');
        assert(component == is_component(s, i as int)) by {
            if seg.len() == 1 && seg[0] == '.' {
                assert(s[i as int] =~= seq!['.']);
            }
        }
        if component && ((seg.len() > 0 && seg[0] == '.') || is_noise_name(seg)) {
            assert(is_hidden(s[i as int]) || is_noise(s[i as int]));
            return true;
        }
        i = i + 1;
    }
    false
}

/// The final name of a path, as [`file_name`] gives it.
pub fn final_name(path: &str) -> (r: Option<Vec<char>>)
    ensures
        match r {
            Some(n) => file_name(path@) == Some(n@),
            None => file_name(path@) is None,
        },
{
    let p = chars_of(path);
    let segs = split_segments(&p);
    let ghost s = segments(path@);
    let mut n: usize = segs.len();
    while n > 0
        invariant
            n <= segs.len(),
            s == segments(path@),
            segs.len() == s.len(),
            forall|j: int| 0 <= j < segs.len() ==> (#[trigger] segs[j])@ == s[j],
            last_name_in(s, n as int) == last_name_in(s, s.len() as int),
        decreases n,
    {
        let seg = &segs[n - 1];
        let dot = seg.len() == 1 && seg[0] == '.';
        assert(dot == (s[n - 1] == seq!['.'])) by {
            if dot {
                assert(s[n - 1] =~= seq!['.']);
            }
        }
        if seg.len() > 0 && !dot {
            return Some(seg.clone());
        }
        n = n - 1;
    }
    None
}

/// The extension of a name, as [`name_extension`] gives it.
pub fn extension_of_name(name: &Vec<char>) -> (r: Option<Vec<char>>)
    ensures
        match r {
            Some(e) => name_extension(name@) == Some(e@),
            None => name_extension(name@) is None,
        },
{
    let mut last: Option<usize> = None;
    let mut i: usize = 0;
    while i < name.len()
        invariant
            i <= name.len(),
            match last {
                Some(k) => k < i && name@[k as int] == '.' && forall|j: int|
                    k < j < i ==> name@[j] != '.',
                None => forall|j: int| 0 <= j < i ==> name@[j] != '.',
            },
        decreases name.len() - i,
    {
        if name[i] == '.' {
            last = Some(i);
        }
        i = i + 1;
    }
    match last {
        Some(k) if k > 0 => {
            let ghost kk = k as int;
            assert(0 < kk < name.len() && name@[kk] == '.');
            let ghost c = choose|c: int|
                0 < c < name.len() && name@[c] == '.' && forall|j: int|
                    c < j < name.len() ==> name@[j] != '.';
            assert(c == kk) by {
                if c < kk {
                    assert(name@[kk] != '.');
                } else if c > kk {
                    assert(name@[c] != '.');
                }
            }
            let mut e: Vec<char> = Vec::new();
            let mut j: usize = k + 1;
            while j < name.len()
                invariant
                    k + 1 <= j <= name.len(),
                    e@ == name@.subrange(k + 1, j as int),
                decreases name.len() - j,
            {
                e.push(name[j]);
                j = j + 1;
            }
            Some(e)
        },
        _ => None,
    }
}

/// Whether `ext_lower` equals one of the already folded extensions.
pub fn extension_listed(ext_lower: &String, ignored_lower: &Vec<String>) -> (r: bool)
    ensures
        r == exists|j: int| 0 <= j < ignored_lower.len() && (#[trigger] ignored_lower[j])@ == ext_lower@,
{
    let mut j: usize = 0;
    while j < ignored_lower.len()
        invariant
            j <= ignored_lower.len(),
            forall|i: int| 0 <= i < j ==> (#[trigger] ignored_lower[i])@ != ext_lower@,
        decreases ignored_lower.len() - j,
    {
        if ignored_lower[j].eq(ext_lower) {
            return true;
        }
        j = j + 1;
    }
    false
}

/// Folds each extension to lower case.
pub fn lower_all(v: &Vec<String>) -> (r: Vec<String>)
    ensures
        r.len() == v.len(),
        forall|j: int| 0 <= j < v.len() ==> (#[trigger] r[j])@ == lower_of(v[j]@),
{
    let mut r: Vec<String> = Vec::new();
    let mut j: usize = 0;
    while j < v.len()
        invariant
            j <= v.len(),
            r.len() == j,
            forall|i: int| 0 <= i < j ==> (#[trigger] r[i])@ == lower_of(v[i]@),
        decreases v.len() - j,
    {
        r.push(lowercase(v[j].as_str()));
        j = j + 1;
    }
    r
}

/// The filter policy on one changed path: `true` when the path has a hidden
/// or noise component, or when its extension, folded to lower case, equals
/// one of the ignored extensions folded the same way.
pub fn should_skip(path: &str, ignored: &Vec<String>) -> (r: bool)
    ensures
        r == skip_path(path@, views(ignored@)),
        has_excluded_component(path@) ==> r,
{
    if has_excluded(path) {
        return true;
    }
    let name = match final_name(path) {
        Some(n) => n,
        None => return false,
    };
    let ext = match extension_of_name(&name) {
        Some(e) => e,
        None => return false,
    };
    let ext_lower = lowercase(string_of(&ext).as_str());
    let ignored_lower = lower_all(ignored);
    let r = extension_listed(&ext_lower, &ignored_lower);
    proof {
        let e = ext@;
        let iv = views(ignored@);
        assert(extension(path@) == Some(e));
        if r {
            let j = choose|j: int| 0 <= j < ignored_lower.len() && (#[trigger] ignored_lower[j])@ == ext_lower@;
            assert(lower_of(iv[j]) == lower_of(e));
        }
        if extension_is_ignored(e, iv) {
            let j = choose|j: int| 0 <= j < iv.len() && lower_of(#[trigger] iv[j]) == lower_of(e);
            assert(ignored_lower[j]@ == ext_lower@);
        }
    }
    r
}

/// A path with a hidden or noise component is skipped, whatever its
/// extension and whatever extensions are ignored.
pub proof fn lemma_excluded_component_skips(p: Seq<char>, ignored: Seq<Seq<char>>)
    requires
        has_excluded_component(p),
    ensures
        skip_path(p, ignored),
{
}

/// A path whose extension is one of the ignored ones, in any letter case that
/// folds to the same text, is skipped.
pub proof fn lemma_ignored_extension_skips(p: Seq<char>, ignored: Seq<Seq<char>>, j: int)
    requires
        0 <= j < ignored.len(),
        extension(p) is Some,
        lower_of(extension(p)->0) == lower_of(ignored[j]),
    ensures
        skip_path(p, ignored),
{
    assert(lower_of(ignored[j]) == lower_of(extension(p)->0));
}

} // verus!
