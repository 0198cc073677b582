use vstd::prelude::*;
use vstd::string::*;
use crate::error::{ErrV, OpenApiError};

verus! {

/// Index of the first occurrence of `sep` in `s`, or `s.len()` if none.
pub open spec fn first_sep(s: Seq<char>, sep: char) -> int
    decreases s.len(),
{
    if s.len() == 0 {
        0
    } else if s[0] == sep {
        0
    } else {
        1 + first_sep(s.drop_first(), sep)
    }
}

pub proof fn lemma_first_sep(s: Seq<char>, sep: char)
    ensures
        0 <= first_sep(s, sep) <= s.len(),
        first_sep(s, sep) < s.len() ==> s[first_sep(s, sep)] == sep,
        forall|k: int| 0 <= k < first_sep(s, sep) ==> s[k] != sep,
    decreases s.len(),
{
    if s.len() > 0 && s[0] != sep {
        lemma_first_sep(s.drop_first(), sep);
        assert forall|k: int| 0 <= k < first_sep(s, sep) implies s[k] != sep by {
            if k > 0 {
                assert(s.drop_first()[k - 1] == s[k]);
            }
        }
    }
}

/// The maximal runs of non-`sep` characters of `s`, in order; empty
/// runs are dropped, so consecutive separators collapse.
pub open spec fn split_drop(s: Seq<char>, sep: char) -> Seq<Seq<char>>
    decreases s.len(),
    via split_drop_decreases
{
    if s.len() == 0 {
        Seq::empty()
    } else if s[0] == sep {
        split_drop(s.drop_first(), sep)
    } else {
        seq![s.take(first_sep(s, sep))] + split_drop(s.skip(first_sep(s, sep)), sep)
    }
}

#[via_fn]
proof fn split_drop_decreases(s: Seq<char>, sep: char) {
    if s.len() > 0 && s[0] != sep {
        lemma_first_sep(s, sep);
    }
}

/// A reference stays inside this document exactly when it starts with `#`.
pub open spec fn is_local_ref(s: Seq<char>) -> bool {
    s.len() >= 1 && s[0] == '#'
}

/// The path segments of a local reference: the remainder after `#` and
/// its leading separator, split on `/`.
pub open spec fn ref_segs(s: Seq<char>) -> Seq<Seq<char>> {
    if s.len() < 2 {
        Seq::empty()
    } else {
        split_drop(s.skip(2), '/')
    }
}

/// The views of a list of segment strings.
pub open spec fn seg_views(segs: Seq<String>) -> Seq<Seq<char>> {
    Seq::new(segs.len(), |i: int| segs[i]@)
}

/// The root-anchored query expression for a segment path: `$`, then
/// `.segment` for each segment in order.
pub open spec fn json_path_of(segs: Seq<Seq<char>>) -> Seq<char>
    decreases segs.len(),
{
    if segs.len() == 0 {
        "$"@
    } else {
        json_path_of(segs.drop_last()) + "."@ + segs.last()
    }
}

/// Splits a local reference into its path segments; rejects, exactly,
/// every reference string that does not start with `#`.
pub fn ref_segments(reference: &str) -> (r: Result<Vec<String>, OpenApiError>)
    ensures
        match r {
            Ok(segs) => is_local_ref(reference@) && seg_views(segs@) == ref_segs(reference@),
            Err(e) => !is_local_ref(reference@) && e@ == (ErrV::UnsupportedRefFormat {
                reference: reference@,
            }),
        },
{
    let n = reference.unicode_len();
    if n == 0 || reference.get_char(0) != '#' {
        return Err(OpenApiError::UnsupportedRefFormat { reference: reference.to_owned() });
    }
    let mut segs: Vec<String> = Vec::new();
    if n < 2 {
        proof {
            assert(seg_views(segs@) =~= ref_segs(reference@));
        }
        return Ok(segs);
    }
    let ghost s: Seq<char> = reference@.skip(2);
    proof {
        assert(s.skip(0) =~= s);
        assert(seg_views(segs@) + split_drop(s.skip(0), '/') =~= split_drop(s, '/'));
    }
    let mut i: usize = 2;
    while i < n
        invariant
            2 <= i <= n,
            n == reference@.len(),
            s == reference@.skip(2),
            split_drop(s, '/') == seg_views(segs@) + split_drop(s.skip(i - 2), '/'),
        decreases n - i,
    {
        let c = reference.get_char(i);
        if c == '/' {
            proof {
                assert(s.skip(i - 2).drop_first() =~= s.skip(i + 1 - 2));
            }
            i = i + 1;
        } else {
            let ghost pos: int = i - 2;
            let mut j: usize = i + 1;
            while j < n
                invariant
                    i < j <= n,
                    n == reference@.len(),
                    forall|k: int| i <= k < j ==> reference@[k] != '/',
                ensures
                    i < j <= n,
                    forall|k: int| i <= k < j ==> reference@[k] != '/',
                    j < n ==> reference@[j as int] == '/',
                decreases n - j,
            {
                if reference.get_char(j) == '/' {
                    break;
                }
                j = j + 1;
            }
            let seg = reference.substring_char(i, j).to_owned();
            proof {
                let t = s.skip(pos);
                lemma_first_sep(t, '/');
                assert(forall|k: int| 0 <= k < j - i ==> t[k] == reference@[k + i] && t[k]
                    != '/');
                assert(j - i < t.len() ==> t[j - i] == '/');
                assert(first_sep(t, '/') == j - i);
                assert(t.take(j - i) =~= reference@.subrange(i as int, j as int));
                assert(t.skip(j - i) =~= s.skip(j - 2));
                assert(seg_views(segs@.push(seg)) =~= seg_views(segs@) + seq![seg@]);
                assert(split_drop(t, '/') == seq![t.take(j - i)] + split_drop(
                    s.skip(j - 2),
                    '/',
                ));
            }
            segs.push(seg);
            i = j;
        }
    }
    proof {
        assert(s.skip(i - 2) =~= Seq::<char>::empty());
        assert(split_drop(s.skip(i - 2), '/') =~= Seq::<Seq<char>>::empty());
        assert(seg_views(segs@) + split_drop(s.skip(i - 2), '/') =~= seg_views(segs@));
        assert(ref_segs(reference@) == split_drop(s, '/'));
    }
    Ok(segs)
}

/// Translates a local reference into a root-anchored query expression:
/// `#/a/b/c` becomes `$.a.b.c`. Fails with `UnsupportedRefFormat` on,
/// exactly, every reference that does not start with `#`.
pub fn ref_to_json_path(reference: &str) -> (r: Result<String, OpenApiError>)
    ensures
        match r {
            Ok(p) => is_local_ref(reference@) && p@ == json_path_of(ref_segs(reference@)),
            Err(e) => !is_local_ref(reference@) && e@ == (ErrV::UnsupportedRefFormat {
                reference: reference@,
            }),
        },
{
    let segs = ref_segments(reference)?;
    let ghost views: Seq<Seq<char>> = ref_segs(reference@);
    let mut out = String::from_str("$");
    let n = segs.len();
    proof {
        assert(views.take(0) =~= Seq::<Seq<char>>::empty());
    }
    for k in 0..n
        invariant
            n == segs@.len(),
            views == seg_views(segs@),
            out@ == json_path_of(views.take(k as int)),
        decreases n - k,
    {
        out.append(".");
        out.append(segs[k].as_str());
        proof {
            let pre = views.take(k + 1);
            assert(pre.drop_last() =~= views.take(k as int));
            assert(pre.last() == segs@[k as int]@);
        }
    }
    proof {
        assert(views.take(n as int) =~= views);
    }
    Ok(out)
}

} // verus!
