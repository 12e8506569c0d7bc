use vstd::prelude::*;
use vstd::std_specs::iter::IteratorSpec;

verus! {

broadcast use vstd::string::next_postcondition, vstd::string::axiom_spec_iter;

/// Collects the characters of a string slice into a vector.
pub fn str_chars(s: &str) -> (v: Vec<char>)
    ensures
        v@ == s@,
{
    let mut it = s.chars();
    let mut v: Vec<char> = Vec::new();
    loop
        invariant
            v@ + it.remaining() == s@,
        ensures
            v@ == s@,
        decreases s@.len() - v@.len(),
    {
        let ghost prev = v@;
        let ghost rem = it.remaining();
        match it.next() {
            Some(c) => {
                v.push(c);
                proof {
                    assert(v@ + it.remaining() =~= prev + rem);
                }
            },
            None => {
                proof {
                    assert(v@ =~= s@);
                }
                break;
            },
        }
    }
    v
}

/// The characters after the last `/`, the whole path if it has none.
pub open spec fn stem_name_part(s: Seq<char>) -> Seq<char> {
    match s.index_of_last('/') {
        Some(i) => s.subrange(i + 1, s.len() as int),
        None => s,
    }
}

/// The display name of a song file: the characters after the last `/`,
/// and before the last `.` of that file name — unless the dot leads the
/// name, as in a hidden file, which keeps it whole.
pub open spec fn stem_of(s: Seq<char>) -> Seq<char> {
    let name = stem_name_part(s);
    match name.index_of_last('.') {
        Some(j) => if j > 0 {
            name.subrange(0, j)
        } else {
            name
        },
        None => name,
    }
}

/// Extracts the display name from a song file's path.
pub fn song_name(path: &str) -> (r: Vec<char>)
    ensures
        r@ == stem_of(path@),
{
    let cs = str_chars(path);
    let n = cs.len();

    // Find the position just past the last '/'.
    let mut start: usize = 0;
    let mut i = n;
    while i > 0
        invariant_except_break
            start == 0,
            forall|j: int| i <= j < n ==> cs@[j] != '/',
        invariant
            i <= n,
            n == cs@.len(),
        ensures
            start <= n,
            start > 0 ==> start <= n && cs@[start as int - 1] == '/',
            forall|j: int| start <= j < n ==> cs@[j] != '/',
        decreases i,
    {
        i = i - 1;
        if cs[i] == '/' {
            start = i + 1;
            break;
        }
    }
    proof {
        cs@.index_of_last_ensures('/');
        match cs@.index_of_last('/') {
            Some(k) => {
                assert(cs@[k] == '/');
                assert(start > 0 && k == start - 1);
            },
            None => {
                assert(start == 0);
            },
        }
    }
    let ghost name = stem_name_part(cs@);
    assert(name =~= cs@.subrange(start as int, n as int));

    // Find the last '.' strictly inside the name part.
    let mut stop: usize = n;
    let mut i2 = n;
    while i2 > start
        invariant_except_break
            stop == n,
            forall|j: int| i2 <= j < n ==> cs@[j] != '.',
        invariant
            start <= i2 <= n,
            n == cs@.len(),
        ensures
            start <= stop <= n,
            stop < n ==> cs@[stop as int] == '.',
            forall|j: int| stop < j < n ==> cs@[j] != '.',
            stop == n ==> forall|j: int| start < j < n ==> cs@[j] != '.',
            stop == n || stop > start,
        decreases i2,
    {
        i2 = i2 - 1;
        if cs[i2] == '.' {
            if i2 > start {
                stop = i2;
            }
            break;
        }
    }
    proof {
        name.index_of_last_ensures('.');
        match name.index_of_last('.') {
            Some(k) => {
                assert(name[k] == cs@[start + k]);
                if stop < n {
                    assert(name[stop - start] == cs@[stop as int]);
                }
                if k > 0 {
                    assert(stop == start + k);
                    assert(stem_of(cs@) =~= cs@.subrange(start as int, stop as int));
                } else {
                    assert(stop == n);
                    assert(stem_of(cs@) =~= cs@.subrange(start as int, stop as int));
                }
            },
            None => {
                if stop < n {
                    assert(name[stop - start] == cs@[stop as int]);
                }
                assert(stop == n);
                assert(stem_of(cs@) =~= cs@.subrange(start as int, stop as int));
            },
        }
    }

    // Copy out the stem.
    let mut r: Vec<char> = Vec::new();
    let mut k = start;
    while k < stop
        invariant
            start <= k <= stop <= n,
            n == cs@.len(),
            r@ =~= cs@.subrange(start as int, k as int),
        decreases stop - k,
    {
        r.push(cs[k]);
        proof {
            assert(r@ =~= cs@.subrange(start as int, k + 1));
        }
        k = k + 1;
    }
    proof {
        assert(r@ =~= stem_of(cs@));
    }
    r
}

} // verus!
