use vstd::prelude::*;

verus! {

/// Character-wise equality of two string slices.
pub fn str_eq(a: &str, b: &str) -> (r: bool)
    ensures
        r == (a@ == b@),
{
    let la = a.unicode_len();
    let lb = b.unicode_len();
    if la != lb {
        return false;
    }
    let mut i: usize = 0;
    while i < la
        invariant
            i <= la,
            la == a@.len(),
            la == b@.len(),
            forall|j: int| 0 <= j < i ==> a@[j] == b@[j],
        decreases la - i,
    {
        if a.get_char(i) != b.get_char(i) {
            return false;
        }
        i = i + 1;
    }
    assert(a@ =~= b@);
    true
}

/// What the human-readable rendering of a byte count is. Decided by the
/// human_bytes crate; a function of the count alone.
pub uninterp spec fn human_bytes_text(n: int) -> Seq<char>;

/// Relies on the human_bytes crate: renders a byte count in human-readable
/// units (`"5 MB"`); the text depends on the count alone.
#[verifier::external_body]
fn human_bytes_u32(n: u32) -> (r: String)
    ensures
        r@ == human_bytes_text(n as int),
{
    ::human_bytes::human_bytes(n)
}

/// Renders a byte count in human-readable units (`"5 MB"`). Counts beyond
/// what the renderer takes saturate at its maximum.
pub fn human_bytes(n: usize) -> (r: String)
    ensures
        n <= u32::MAX ==> r@ == human_bytes_text(n as int),
        n > u32::MAX ==> r@ == human_bytes_text(u32::MAX as int),
{
    if n <= u32::MAX as usize {
        human_bytes_u32(n as u32)
    } else {
        human_bytes_u32(u32::MAX)
    }
}

/// The index of the last `/` in the text, `-1` when it has none.
pub open spec fn spec_last_slash(s: Seq<char>) -> int
    decreases s.len(),
{
    if s.len() == 0 {
        -1
    } else if s.last() == '/' {
        s.len() - 1
    } else {
        spec_last_slash(s.drop_last())
    }
}

/// The repository owner and name a template-repository URL ends in: its
/// last two `/`-separated segments. A URL without a `/` has no owner
/// segment and is refused.
pub fn repo_user_and_name(url: &str) -> (r: Result<(String, String), String>)
    ensures
        spec_last_slash(url@) < 0 ==> (r matches Err(m) && m@
            == "Failed to get repository owner from URL!"@),
        spec_last_slash(url@) >= 0 ==> (r matches Ok(p) && {
            let last = spec_last_slash(url@);
            let prev = spec_last_slash(url@.take(last));
            &&& p.1@ == url@.skip(last + 1)
            &&& p.0@ == url@.subrange(prev + 1, last)
        }),
{
    let len = url.unicode_len();
    let mut last: Option<usize> = None;
    let mut i: usize = 0;
    proof {
        assert(url@.take(0) =~= Seq::<char>::empty());
    }
    while i < len
        invariant
            i <= len,
            len == url@.len(),
            match last {
                None => spec_last_slash(url@.take(i as int)) == -1,
                Some(l) => l < i && spec_last_slash(url@.take(i as int)) == l,
            },
        decreases len - i,
    {
        let c = url.get_char(i);
        proof {
            assert(url@.take(i + 1).last() == url@[i as int]);
            assert(url@.take(i + 1).drop_last() =~= url@.take(i as int));
        }
        if c == '/' {
            last = Some(i);
        }
        i = i + 1;
    }
    proof {
        assert(url@.take(len as int) =~= url@);
    }
    let last = match last {
        Some(l) => l,
        None => {
            return Err("Failed to get repository owner from URL!".to_owned());
        },
    };
    // scan the prefix before the last slash for the one before it
    let mut prev: Option<usize> = None;
    let mut j: usize = 0;
    proof {
        assert(url@.take(last as int).take(0) =~= Seq::<char>::empty());
    }
    while j < last
        invariant
            j <= last,
            last < len,
            len == url@.len(),
            match prev {
                None => spec_last_slash(url@.take(last as int).take(j as int)) == -1,
                Some(p) => p < j && spec_last_slash(url@.take(last as int).take(j as int)) == p,
            },
        decreases last - j,
    {
        let c = url.get_char(j);
        proof {
            assert(url@.take(last as int).take(j + 1).last() == url@[j as int]);
            assert(url@.take(last as int).take(j + 1).drop_last() =~= url@.take(last as int).take(
                j as int,
            ));
        }
        if c == '/' {
            prev = Some(j);
        }
        j = j + 1;
    }
    proof {
        assert(url@.take(last as int).take(last as int) =~= url@.take(last as int));
    }
    let start: usize = match prev {
        Some(p) => p + 1,
        None => 0,
    };
    let user = url.substring_char(start, last);
    let name = url.substring_char(last + 1, len);
    proof {
        let l = spec_last_slash(url@);
        let p = spec_last_slash(url@.take(l));
        assert(user@ =~= url@.subrange(p + 1, l));
        assert(name@ =~= url@.skip(l + 1));
    }
    Ok((user.to_owned(), name.to_owned()))
}

} // verus!
