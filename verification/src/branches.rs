//! Parsing of the branch listing.
//!
//! The listing command prints one branch per line; the current branch's
//! line starts with a marker byte `*` (42). Lines are trimmed of ASCII
//! whitespace; the current branch is the first marked line with its
//! leading markers stripped, or "main" when no line is marked; the other
//! branches are the unmarked lines, in listing order.

use vstd::prelude::*;

verus! {

/// ASCII whitespace: space and the control characters tab through
/// carriage return.
pub open spec fn is_blank(b: u8) -> bool {
    b == 32 || (9 <= b && b <= 13)
}

/// A trimmed line carrying the current-branch marker `*` (byte 42).
pub open spec fn marked(l: Seq<u8>) -> bool {
    l.len() > 0 && l[0] == 42
}

pub open spec fn trim_front(s: Seq<u8>) -> Seq<u8>
    decreases s.len(),
{
    if s.len() > 0 && is_blank(s[0]) {
        trim_front(s.drop_first())
    } else {
        s
    }
}

pub open spec fn trim_back(s: Seq<u8>) -> Seq<u8>
    decreases s.len(),
{
    if s.len() > 0 && is_blank(s.last()) {
        trim_back(s.drop_last())
    } else {
        s
    }
}

/// The line without leading or trailing ASCII whitespace.
pub open spec fn trimmed(s: Seq<u8>) -> Seq<u8> {
    trim_back(trim_front(s))
}

/// The line without its leading marker bytes.
pub open spec fn strip_marks(s: Seq<u8>) -> Seq<u8>
    decreases s.len(),
{
    if s.len() > 0 && s[0] == 42 {
        strip_marks(s.drop_first())
    } else {
        s
    }
}

/// The segments of `s` between newline bytes (10), with `cur` the segment
/// read so far; a final segment is kept only if it is non-empty, matching
/// line iteration that drops a trailing newline's empty remainder.
pub open spec fn lines_from(s: Seq<u8>, cur: Seq<u8>) -> Seq<Seq<u8>>
    decreases s.len(),
{
    if s.len() == 0 {
        if cur.len() == 0 {
            Seq::empty()
        } else {
            seq![cur]
        }
    } else if s[0] == 10 {
        seq![cur] + lines_from(s.drop_first(), Seq::empty())
    } else {
        lines_from(s.drop_first(), cur.push(s[0]))
    }
}

/// The lines of a listing.
pub open spec fn lines_of(s: Seq<u8>) -> Seq<Seq<u8>> {
    lines_from(s, Seq::empty())
}

/// The lines of a listing, each trimmed.
pub open spec fn trimmed_lines(s: Seq<u8>) -> Seq<Seq<u8>> {
    lines_of(s).map_values(|l: Seq<u8>| trimmed(l))
}

/// The first marked line, if any.
pub open spec fn first_marked(ls: Seq<Seq<u8>>) -> Option<Seq<u8>>
    decreases ls.len(),
{
    if ls.len() == 0 {
        None
    } else if marked(ls[0]) {
        Some(ls[0])
    } else {
        first_marked(ls.drop_first())
    }
}

/// The fallback branch name, the bytes of "main".
pub open spec fn default_branch() -> Seq<u8> {
    seq![109u8, 97u8, 105u8, 110u8]
}

/// The current branch of a listing: the first marked trimmed line with
/// its markers stripped and re-trimmed, or "main" when no line is marked.
pub open spec fn current_of(s: Seq<u8>) -> Seq<u8> {
    match first_marked(trimmed_lines(s)) {
        Some(l) => trimmed(strip_marks(l)),
        None => default_branch(),
    }
}

/// The other branches of a listing: the unmarked trimmed lines, in order.
pub open spec fn others_of(s: Seq<u8>) -> Seq<Seq<u8>> {
    trimmed_lines(s).filter(|l: Seq<u8>| !marked(l))
}

/// The selectable branches of a listing never include the line that
/// marks the current branch: switching to or deleting the branch one is
/// on is never offered.
pub proof fn lemma_others_exclude_current(s: Seq<u8>)
    ensures
        forall|i: int| 0 <= i < others_of(s).len() ==> !marked(#[trigger] others_of(s)[i]),
{
    let tl = trimmed_lines(s);
    let pred = |l: Seq<u8>| !marked(l);
    assert forall|i: int| 0 <= i < others_of(s).len() implies !marked(#[trigger] others_of(s)[i]) by {
        tl.lemma_filter_pred(pred, i);
    }
}

/// The current branch and the other local branches read from one listing.
pub struct BranchInfo {
    pub current: Vec<u8>,
    pub others: Vec<Vec<u8>>,
}

fn blank(b: u8) -> (r: bool)
    ensures
        r == is_blank(b),
{
    b == 32 || (9 <= b && b <= 13)
}

/// The subrange of `v` left once leading and trailing ASCII whitespace
/// is dropped.
pub fn trim_bytes(v: &Vec<u8>) -> (r: Vec<u8>)
    ensures
        r@ == trimmed(v@),
{
    let n = v.len();
    let mut lo: usize = 0;
    proof {
        assert(v@.subrange(0, n as int) =~= v@);
    }
    while lo < n && blank(v[lo])
        invariant
            lo <= n,
            n == v@.len(),
            trim_front(v@) == trim_front(v@.subrange(lo as int, n as int)),
        decreases n - lo,
    {
        proof {
            let s = v@.subrange(lo as int, n as int);
            assert(s.drop_first() =~= v@.subrange(lo as int + 1, n as int));
        }
        lo = lo + 1;
    }
    proof {
        assert(trim_front(v@) == v@.subrange(lo as int, n as int));
    }
    let mut hi: usize = n;
    while hi > lo && blank(v[hi - 1])
        invariant
            lo <= hi <= n,
            n == v@.len(),
            trim_front(v@) == v@.subrange(lo as int, n as int),
            trim_back(v@.subrange(lo as int, n as int)) == trim_back(
                v@.subrange(lo as int, hi as int),
            ),
        decreases hi,
    {
        proof {
            let s = v@.subrange(lo as int, hi as int);
            assert(s.last() == v@[hi - 1]);
            assert(s.drop_last() =~= v@.subrange(lo as int, hi as int - 1));
        }
        hi = hi - 1;
    }
    proof {
        assert(trimmed(v@) == v@.subrange(lo as int, hi as int));
    }
    let mut r: Vec<u8> = Vec::new();
    let mut i: usize = lo;
    while i < hi
        invariant
            lo <= i <= hi <= n,
            n == v@.len(),
            r@ == v@.subrange(lo as int, i as int),
        decreases hi - i,
    {
        let b = v[i];
        r.push(b);
        proof {
            assert(r@ =~= v@.subrange(lo as int, i as int + 1));
        }
        i = i + 1;
    }
    r
}

/// The subrange of `v` left once leading marker bytes are dropped.
pub fn strip_marks_bytes(v: &Vec<u8>) -> (r: Vec<u8>)
    ensures
        r@ == strip_marks(v@),
{
    let n = v.len();
    let mut lo: usize = 0;
    proof {
        assert(v@.subrange(0, n as int) =~= v@);
    }
    while lo < n && v[lo] == 42
        invariant
            lo <= n,
            n == v@.len(),
            strip_marks(v@) == strip_marks(v@.subrange(lo as int, n as int)),
        decreases n - lo,
    {
        proof {
            let s = v@.subrange(lo as int, n as int);
            assert(s.drop_first() =~= v@.subrange(lo as int + 1, n as int));
        }
        lo = lo + 1;
    }
    proof {
        assert(strip_marks(v@) == v@.subrange(lo as int, n as int));
    }
    let mut r: Vec<u8> = Vec::new();
    let mut i: usize = lo;
    while i < n
        invariant
            lo <= i <= n,
            n == v@.len(),
            r@ == v@.subrange(lo as int, i as int),
        decreases n - i,
    {
        let b = v[i];
        r.push(b);
        proof {
            assert(r@ =~= v@.subrange(lo as int, i as int + 1));
        }
        i = i + 1;
    }
    r
}

/// The lines of `v`, split on newline bytes.
pub fn split_lines(v: &Vec<u8>) -> (r: Vec<Vec<u8>>)
    ensures
        r@.len() == lines_of(v@).len(),
        forall|k: int| 0 <= k < r@.len() ==> r@[k]@ == lines_of(v@)[k],
{
    let n = v.len();
    let mut out: Vec<Vec<u8>> = Vec::new();
    let mut cur: Vec<u8> = Vec::new();
    let ghost mut done: Seq<Seq<u8>> = Seq::empty();
    let mut i: usize = 0;
    proof {
        assert(v@.subrange(0, n as int) =~= v@);
    }
    while i < n
        invariant
            i <= n,
            n == v@.len(),
            out@.len() == done.len(),
            forall|k: int| 0 <= k < out@.len() ==> out@[k]@ == done[k],
            done + lines_from(v@.subrange(i as int, n as int), cur@) == lines_of(v@),
        decreases n - i,
    {
        let b = v[i];
        proof {
            let s = v@.subrange(i as int, n as int);
            assert(s.drop_first() =~= v@.subrange(i as int + 1, n as int));
        }
        if b == 10 {
            proof {
                let s = v@.subrange(i as int, n as int);
                let rest = v@.subrange(i as int + 1, n as int);
                assert(lines_from(s, cur@) == seq![cur@] + lines_from(rest, Seq::empty()));
                assert((done + (seq![cur@] + lines_from(rest, Seq::empty()))) =~= (done.push(cur@)
                    + lines_from(rest, Seq::empty())));
                done = done.push(cur@);
            }
            out.push(cur);
            cur = Vec::new();
        } else {
            cur.push(b);
        }
        i = i + 1;
    }
    proof {
        assert(v@.subrange(n as int, n as int) =~= Seq::<u8>::empty());
    }
    if cur.len() > 0 {
        proof {
            assert((done + seq![cur@]) =~= done.push(cur@));
            done = done.push(cur@);
        }
        out.push(cur);
    } else {
        proof {
            assert(done + Seq::<Seq<u8>>::empty() =~= done);
        }
    }
    out
}

proof fn lemma_first_marked_push(ls: Seq<Seq<u8>>, x: Seq<u8>)
    ensures
        first_marked(ls.push(x)) == (match first_marked(ls) {
            Some(l) => Some(l),
            None => if marked(x) {
                Some(x)
            } else {
                None
            },
        }),
    decreases ls.len(),
{
    if ls.len() == 0 {
        assert(ls.push(x).drop_first() =~= Seq::<Seq<u8>>::empty());
        assert(ls.push(x)[0] == x);
    } else {
        assert(ls.push(x)[0] == ls[0]);
        assert(ls.push(x).drop_first() =~= ls.drop_first().push(x));
        lemma_first_marked_push(ls.drop_first(), x);
    }
}

/// The current branch and the other branches of one listing.
///
/// The current branch is the first marked trimmed line, markers stripped,
/// or "main" when no line carries the marker; the others are the unmarked
/// trimmed lines in listing order.
pub fn parse_branch_listing(listing: &Vec<u8>) -> (r: BranchInfo)
    ensures
        r.current@ == current_of(listing@),
        r.others@.len() == others_of(listing@).len(),
        forall|k: int| 0 <= k < r.others@.len() ==> r.others@[k]@ == others_of(listing@)[k],
{
    let raw = split_lines(listing);
    let ghost tl = trimmed_lines(listing@);
    let ghost pred = |l: Seq<u8>| !marked(l);
    let n = raw.len();
    let mut others: Vec<Vec<u8>> = Vec::new();
    let mut current: Option<Vec<u8>> = None;
    let mut k: usize = 0;
    proof {
        reveal(Seq::filter);
        assert(tl.subrange(0, 0) =~= Seq::<Seq<u8>>::empty());
        assert(Seq::<Seq<u8>>::empty().filter(pred) =~= Seq::<Seq<u8>>::empty());
    }
    while k < n
        invariant
            k <= n,
            n == raw@.len(),
            tl.len() == n,
            tl == trimmed_lines(listing@),
            pred == (|l: Seq<u8>| !marked(l)),
            forall|j: int| 0 <= j < n ==> raw@[j]@ == lines_of(listing@)[j],
            forall|j: int| 0 <= j < n ==> tl[j] == trimmed(raw@[j]@),
            others@.len() == tl.subrange(0, k as int).filter(pred).len(),
            forall|j: int|
                0 <= j < others@.len() ==> others@[j]@ == tl.subrange(0, k as int).filter(pred)[j],
            match current {
                Some(c) => first_marked(tl.subrange(0, k as int)) matches Some(l) && c@ == trimmed(
                    strip_marks(l),
                ),
                None => first_marked(tl.subrange(0, k as int)) is None,
            },
        decreases n - k,
    {
        let line = &raw[k];
        let t = trim_bytes(line);
        proof {
            reveal(Seq::filter);
            let pre = tl.subrange(0, k as int);
            let ext = tl.subrange(0, k as int + 1);
            assert(t@ == tl[k as int]);
            assert(ext =~= pre.push(tl[k as int]));
            lemma_first_marked_push(pre, tl[k as int]);
            // one unfolding of filter over the extended prefix
            assert(ext.drop_last() =~= pre);
            assert(ext.last() == tl[k as int]);
            assert(ext.filter(pred) == if pred(tl[k as int]) {
                pre.filter(pred).push(tl[k as int])
            } else {
                pre.filter(pred)
            });
        }
        if t.len() > 0 && t[0] == 42 {
            proof {
                assert(marked(tl[k as int]));
            }
            if current.is_none() {
                let stripped = strip_marks_bytes(&t);
                current = Some(trim_bytes(&stripped));
            }
        } else {
            proof {
                assert(!marked(tl[k as int]));
            }
            others.push(t);
        }
        k = k + 1;
    }
    proof {
        assert(tl.subrange(0, n as int) =~= tl);
    }
    let current = match current {
        Some(c) => c,
        None => {
            // the bytes of "main"
            let mut d: Vec<u8> = Vec::new();
            d.push(109);
            d.push(97);
            d.push(105);
            d.push(110);
            proof {
                assert(d@ =~= default_branch());
            }
            d
        },
    };
    BranchInfo { current, others }
}

} // verus!
