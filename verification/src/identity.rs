//! Creation times and random identifiers of instances and servers, and the
//! newest-first order in which they are listed.

use vstd::prelude::*;

verus! {

/// A UTC instant: whole seconds since the Unix epoch (negative before it) and the nanoseconds past
/// that second (above 999,999,999 only during a leap second).
#[derive(Debug, Clone, Copy, PartialEq, Eq)]
pub struct Timestamp {
    pub secs: i64,
    pub nanos: u32,
}

/// `a` is strictly earlier than `b`.
pub open spec fn earlier(a: Timestamp, b: Timestamp) -> bool {
    a.secs < b.secs || (a.secs == b.secs && a.nanos < b.nanos)
}

/// `earlier` is a strict total order on instants: never reflexive, transitive,
/// and of two different instants exactly one is earlier; the seconds decide
/// first, the nanoseconds only within a second.
pub proof fn lemma_earlier_order(a: Timestamp, b: Timestamp, c: Timestamp)
    ensures
        !earlier(a, a),
        earlier(a, b) && earlier(b, c) ==> earlier(a, c),
        a != b ==> (earlier(a, b) != earlier(b, a)),
        a.secs < b.secs ==> earlier(a, b),
        a.secs == b.secs ==> (earlier(a, b) <==> a.nanos < b.nanos),
{
}

impl Timestamp {
    /// Whether this instant is strictly earlier than `other`.
    pub fn is_earlier_than(&self, other: &Timestamp) -> (r: bool)
        ensures
            r == earlier(*self, *other),
    {
        self.secs < other.secs || (self.secs == other.secs && self.nanos < other.nanos)
    }
}

/// The current time: chrono's `DateTime::<Utc>::from` applied to std's
/// `SystemTime::now()`, split by `DateTime::timestamp` and
/// `DateTime::timestamp_subsec_nanos`. Claimed: the nanoseconds are below one
/// second (the conversion takes them from `Duration::subsec_nanos`, or as
/// `1_000_000_000 - n` with `0 < n` for an instant before the epoch). Which
/// instant it is, is not stated: it depends on the clock. Left unsaid: the
/// conversion ends in `timestamp_opt(..).unwrap()`, which fails only for a
/// clock set outside chrono's range of about 262,000 years around year 0.
#[verifier::external_body]
pub(crate) fn now_utc() -> (t: Timestamp)
    ensures
        t.nanos < 1_000_000_000,
{
    let now = chrono::DateTime::<chrono::Utc>::from(std::time::SystemTime::now());
    Timestamp { secs: now.timestamp(), nanos: now.timestamp_subsec_nanos() }
}

pub open spec fn is_lower_hex(c: char) -> bool {
    ('0' <= c <= '9') || ('a' <= c <= 'f')
}

/// `s` is the hyphenated lowercase text of a random (version 4) UUID.
pub open spec fn is_uuid_v4_text(s: Seq<char>) -> bool {
    &&& s.len() == 36
    &&& forall|i: int|
        0 <= i < 36 ==> if i == 8 || i == 13 || i == 18 || i == 23 {
            s[i] == '-'
        } else {
            is_lower_hex(#[trigger] s[i])
        }
    &&& s[14] == '4'
    &&& (s[19] == '8' || s[19] == '9' || s[19] == 'a' || s[19] == 'b')
}

/// A fresh random identifier: uuid's `Uuid::new_v4`, rendered by its `Display`
/// (`to_string`). Claimed: the text is the 36-character hyphenated lowercase
/// form, with the version digit `4` and a variant digit among `8`, `9`, `a`,
/// `b` (as `new_v4` masks the random bits and `format_hyphenated` writes them).
/// Which identifier it is, is not stated: it is random. Left unsaid: `new_v4`
/// panics when the operating system's random source cannot be read (uuid's
/// rng.rs, on a `getrandom` error), a failure of the machine, not of an input.
#[verifier::external_body]
pub(crate) fn new_uuid_v4() -> (s: String)
    ensures
        is_uuid_v4_text(s@),
{
    uuid::Uuid::new_v4().to_string()
}

/// `s` names exactly one folder entry: not empty, no path separator, not `.` or `..`.
pub open spec fn is_plain_segment(s: Seq<char>) -> bool {
    &&& s.len() > 0
    &&& forall|i: int| 0 <= i < s.len() ==> #[trigger] s[i] != '/' && s[i] != '\\'
    &&& s != seq!['.']
    &&& s != seq!['.', '.']
}

/// A generated identifier is a single folder name, so the folder of an instance
/// or server stays a direct child of its parent.
pub proof fn lemma_uuid_is_plain_segment(s: Seq<char>)
    requires
        is_uuid_v4_text(s),
    ensures
        is_plain_segment(s),
{
    assert forall|i: int| 0 <= i < s.len() implies #[trigger] s[i] != '/' && s[i] != '\\' by {
        if !(i == 8 || i == 13 || i == 18 || i == 23) {
            assert(is_lower_hex(s[i]));
        }
    }
    assert(s.len() != seq!['.'].len());
    assert(s.len() != seq!['.', '.'].len());
}

/// Something listed by creation time.
pub trait Dated {
    spec fn created(&self) -> Timestamp;

    fn created_at(&self) -> (t: Timestamp)
        ensures
            t == self.created(),
    ;
}

/// `p` lists each of `0..n` exactly once.
pub open spec fn is_permutation(p: Seq<int>, n: int) -> bool {
    &&& p.len() == n
    &&& forall|k: int| 0 <= k < n ==> 0 <= #[trigger] p[k] < n
    &&& forall|a: int, b: int| 0 <= a < b < n ==> p[a] != p[b]
}

/// `out` is `items` reordered newest first; items created at the same instant
/// keep their relative order.
pub open spec fn is_newest_first_of<T: Dated>(out: Seq<T>, items: Seq<T>) -> bool {
    &&& out.len() == items.len()
    &&& exists|p: Seq<int>| #[trigger] is_permutation(p, items.len() as int)
        && (forall|k: int| 0 <= k < out.len() ==> #[trigger] out[k] == items[p[k]])
        && (forall|a: int, b: int| 0 <= a < b < out.len()
            && out[a].created() == out[b].created() ==> p[a] < p[b])
    &&& forall|a: int, b: int| 0 <= a < b < out.len()
        ==> !earlier(#[trigger] out[a].created(), #[trigger] out[b].created())
}

/// Reorders `items` newest first, keeping items created at the same instant in
/// their given order (a stable sort by creation time, descending).
pub fn sort_newest_first<T: Dated>(items: Vec<T>) -> (r: Vec<T>)
    ensures
        is_newest_first_of(r@, items@),
{
    let ghost orig = items@;
    let n = items.len();
    let mut rest = items;
    let mut out: Vec<T> = Vec::new();
    let ghost mut p: Seq<int> = Seq::empty();
    let mut i: usize = 0;
    while i < n
        invariant
            n == orig.len(),
            i <= n,
            rest@ == orig.skip(i as int),
            out@.len() == i,
            p.len() == i,
            forall|k: int| 0 <= k < i ==> 0 <= #[trigger] p[k] < i,
            forall|a: int, b: int| 0 <= a < b < i ==> p[a] != p[b],
            forall|k: int| 0 <= k < i ==> #[trigger] out@[k] == orig[p[k]],
            forall|a: int, b: int| 0 <= a < b < i
                ==> !earlier(#[trigger] out@[a].created(), #[trigger] out@[b].created()),
            forall|a: int, b: int| 0 <= a < b < i
                && out@[a].created() == out@[b].created() ==> p[a] < p[b],
        decreases n - i,
    {
        let x = rest.remove(0);
        assert(x == orig[i as int]);
        assert(rest@ == orig.skip(i + 1));
        let tx = x.created_at();
        let mut pos: usize = 0;
        while pos < out.len() && !out[pos].created_at().is_earlier_than(&tx)
            invariant
                pos <= out@.len(),
                tx == x.created(),
                forall|k: int| 0 <= k < pos ==> !earlier(#[trigger] out@[k].created(), tx),
            decreases out@.len() - pos,
        {
            pos = pos + 1;
        }
        let ghost old_out = out@;
        let ghost old_p = p;
        out.insert(pos, x);
        proof {
            p = old_p.insert(pos as int, i as int);
            assert forall|k: int| 0 <= k < i + 1 implies 0 <= #[trigger] p[k] < i + 1 by {
                if k < pos {
                    assert(p[k] == old_p[k]);
                } else if k > pos {
                    assert(p[k] == old_p[k - 1]);
                }
            }
            assert forall|k: int| 0 <= k < i + 1 implies #[trigger] out@[k] == orig[p[k]] by {
                if k < pos {
                    assert(out@[k] == old_out[k]);
                    assert(p[k] == old_p[k]);
                } else if k > pos {
                    assert(out@[k] == old_out[k - 1]);
                    assert(p[k] == old_p[k - 1]);
                }
            }
            assert forall|a: int, b: int| 0 <= a < b < i + 1 implies p[a] != p[b] by {
                if a < pos && b < pos {
                    assert(p[a] == old_p[a] && p[b] == old_p[b]);
                } else if a < pos && b == pos {
                    assert(p[a] == old_p[a]);
                } else if a < pos && b > pos {
                    assert(p[a] == old_p[a] && p[b] == old_p[b - 1]);
                } else if a == pos {
                    assert(p[b] == old_p[b - 1]);
                } else {
                    assert(p[a] == old_p[a - 1] && p[b] == old_p[b - 1]);
                }
            }
            // all entries after the insertion point are strictly older than x
            if pos < old_out.len() {
                assert(earlier(old_out[pos as int].created(), tx));
            }
            assert forall|k: int| pos <= k < old_out.len() implies earlier(
                #[trigger] old_out[k].created(),
                tx,
            ) by {
                if k > pos {
                    assert(!earlier(old_out[pos as int].created(), old_out[k].created()));
                }
            }
            assert forall|a: int, b: int| 0 <= a < b < i + 1 implies !earlier(
                #[trigger] out@[a].created(),
                #[trigger] out@[b].created(),
            ) by {
                if a < pos && b < pos {
                    assert(out@[a] == old_out[a] && out@[b] == old_out[b]);
                } else if a < pos && b == pos {
                    assert(out@[a] == old_out[a]);
                } else if a < pos && b > pos {
                    assert(out@[a] == old_out[a] && out@[b] == old_out[b - 1]);
                    assert(!earlier(old_out[a].created(), tx));
                } else if a == pos {
                    assert(out@[b] == old_out[b - 1]);
                } else {
                    assert(out@[a] == old_out[a - 1] && out@[b] == old_out[b - 1]);
                }
            }
            assert forall|a: int, b: int| 0 <= a < b < i + 1
                && out@[a].created() == out@[b].created() implies p[a] < p[b] by {
                if a < pos && b < pos {
                    assert(out@[a] == old_out[a] && out@[b] == old_out[b]);
                    assert(p[a] == old_p[a] && p[b] == old_p[b]);
                } else if a < pos && b == pos {
                    assert(p[a] == old_p[a]);
                } else if a < pos && b > pos {
                    assert(out@[a] == old_out[a] && out@[b] == old_out[b - 1]);
                    assert(p[a] == old_p[a] && p[b] == old_p[b - 1]);
                } else if a == pos {
                    assert(out@[b] == old_out[b - 1]);
                    assert(earlier(old_out[b - 1].created(), tx));
                } else {
                    assert(out@[a] == old_out[a - 1] && out@[b] == old_out[b - 1]);
                    assert(p[a] == old_p[a - 1] && p[b] == old_p[b - 1]);
                }
            }
        }
        i = i + 1;
    }
    assert(is_permutation(p, orig.len() as int));
    out
}

} // verus!
