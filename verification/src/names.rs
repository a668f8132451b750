//! Naming the file a fetched URI is stored under: by convention, the part
//! of the URI after its last `'/'` (for the benchmark URIs, the content
//! hash).

use vstd::prelude::*;

verus! {

/// The characters after the last `'/'` of `s`: the whole of `s` when it has
/// no `'/'`, and empty when it ends in one.
pub open spec fn spec_file_name(s: Seq<char>) -> Seq<char>
    decreases s.len(),
{
    if s.len() == 0 {
        s
    } else if s[s.len() - 1] == '/' {
        Seq::empty()
    } else {
        spec_file_name(s.drop_last()).push(s[s.len() - 1])
    }
}

/// `spec_file_name` is pinned down by its characterisation: if nothing from
/// `k` on is a slash and `k` is either the start or just after a slash, the
/// file name is the suffix from `k`.
proof fn lemma_file_name_is(s: Seq<char>, k: int)
    requires
        0 <= k <= s.len(),
        forall|j: int| k <= j < s.len() ==> s[j] != '/',
        k > 0 ==> s[k - 1] == '/',
    ensures
        spec_file_name(s) == s.subrange(k, s.len() as int),
    decreases s.len(),
{
    if s.len() == 0 {
        assert(s.subrange(0, 0) =~= s);
    } else if k == s.len() {
        assert(s[s.len() - 1] == '/');
        assert(spec_file_name(s) =~= s.subrange(k, s.len() as int));
    } else {
        let t = s.drop_last();
        lemma_file_name_is(t, k);
        assert(t.subrange(k, t.len() as int) =~= s.subrange(k, s.len() - 1));
        assert(s.subrange(k, s.len() - 1).push(s[s.len() - 1]) =~= s.subrange(
            k,
            s.len() as int,
        ));
    }
}

/// The name to store a fetched URI under, as `spec_file_name` states.
pub fn file_name_for(uri: &str) -> (r: String)
    ensures
        r@ == spec_file_name(uri@),
{
    let n = uri.unicode_len();
    let mut k: usize = n;
    while k > 0
        invariant
            k <= n,
            n == uri@.len(),
            forall|j: int| k <= j < n ==> uri@[j] != '/',
        ensures
            k <= n,
            forall|j: int| k <= j < n ==> uri@[j] != '/',
            k > 0 ==> uri@[k - 1] == '/',
        decreases k,
    {
        if uri.get_char(k - 1) == '/' {
            break;
        }
        k -= 1;
    }
    proof {
        lemma_file_name_is(uri@, k as int);
    }
    let piece = uri.substring_char(k, n);
    piece.to_owned()
}

} // verus!
