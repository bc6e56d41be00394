//! Archive paths as byte strings.
//!
//! A path is a sequence of bytes in which `/` separates the components. A
//! path is *canonical* when it has no empty component: no separator at its
//! start or at its end, and no two in a row. Two paths name the same thing
//! when their canonical forms are the same bytes, so `dir//b/` and `dir/b`
//! do. The empty path names the root. The parent of a path is what stands
//! before its last separator, and its file name is what stands after it.

use vstd::prelude::*;

verus! {

/// The byte that separates the components of a path: `/`.
pub const SEPARATOR: u8 = 0x2f;

/// `s` does not end in a separator.
pub open spec fn is_normal(s: Seq<u8>) -> bool {
    s.len() == 0 || s.last() != SEPARATOR
}

/// `s` holds no separator at all: it is a single component, or empty.
pub open spec fn is_plain(s: Seq<u8>) -> bool {
    forall|i: int| 0 <= i < s.len() ==> s[i] != SEPARATOR
}

/// `s` without the separators that it ends in.
pub open spec fn trimmed(s: Seq<u8>) -> Seq<u8>
    decreases s.len(),
{
    if s.len() > 0 && s.last() == SEPARATOR {
        trimmed(s.drop_last())
    } else {
        s
    }
}

/// The index of the last separator in `s`, or `-1` where it holds none.
pub open spec fn last_separator(s: Seq<u8>) -> int
    decreases s.len(),
{
    if s.len() == 0 {
        -1
    } else if s.last() == SEPARATOR {
        s.len() - 1
    } else {
        last_separator(s.drop_last())
    }
}

/// The path of the directory that holds `s`: what stands before the last
/// separator, in normal form. A path of one component has the root as parent.
pub open spec fn parent_path(s: Seq<u8>) -> Seq<u8> {
    if last_separator(s) < 0 {
        Seq::empty()
    } else {
        trimmed(s.subrange(0, last_separator(s)))
    }
}

/// The last component of `s`: what stands after the last separator.
pub open spec fn file_name(s: Seq<u8>) -> Seq<u8> {
    s.subrange(last_separator(s) + 1, s.len() as int)
}

/// `s` without the separators that stand at its start or directly behind
/// another separator.
pub open spec fn squeezed(s: Seq<u8>) -> Seq<u8>
    decreases s.len(),
{
    if s.len() == 0 {
        s
    } else {
        let head = squeezed(s.drop_last());
        if s.last() == SEPARATOR && (head.len() == 0 || head.last() == SEPARATOR) {
            head
        } else {
            head.push(s.last())
        }
    }
}

/// `s` has no separator at its start and no two separators in a row.
pub open spec fn is_squeezed(s: Seq<u8>) -> bool {
    &&& s.len() > 0 ==> s[0] != SEPARATOR
    &&& forall|i: int| 0 <= i < s.len() - 1 ==> !(s[i] == SEPARATOR && #[trigger] s[i + 1] == SEPARATOR)
}

/// `s` has no empty component: no separator at its start or at its end, and
/// no two in a row.
pub open spec fn is_canonical(s: Seq<u8>) -> bool {
    is_squeezed(s) && is_normal(s)
}

/// The canonical form of `s`: the components of `s` that are not empty, with
/// one separator between them.
pub open spec fn canonical(s: Seq<u8>) -> Seq<u8> {
    trimmed(squeezed(s))
}

/// The path of `child` inside the directory `parent`, in canonical form.
pub open spec fn joined(parent: Seq<u8>, child: Seq<u8>) -> Seq<u8> {
    canonical(parent + seq![SEPARATOR] + child)
}

/// The trimmed form is the longest prefix that is normal.
pub proof fn lemma_trimmed(s: Seq<u8>)
    ensures
        is_normal(trimmed(s)),
        trimmed(s).len() <= s.len(),
        trimmed(s) == s.subrange(0, trimmed(s).len() as int),
        forall|i: int| trimmed(s).len() <= i < s.len() ==> s[i] == SEPARATOR,
        is_normal(s) ==> trimmed(s) == s,
    decreases s.len(),
{
    if s.len() > 0 && s.last() == SEPARATOR {
        let t = s.drop_last();
        lemma_trimmed(t);
        assert(trimmed(s) =~= s.subrange(0, trimmed(s).len() as int));
        assert forall|i: int| trimmed(s).len() <= i < s.len() implies s[i] == SEPARATOR by {
            if i < t.len() {
                assert(t[i] == s[i]);
            }
        }
    } else {
        assert(s =~= s.subrange(0, s.len() as int));
    }
}

/// The last separator is a separator, and none stands after it.
pub proof fn lemma_last_separator(s: Seq<u8>)
    ensures
        -1 <= last_separator(s) < s.len(),
        last_separator(s) >= 0 ==> s[last_separator(s)] == SEPARATOR,
        forall|i: int| last_separator(s) < i < s.len() ==> s[i] != SEPARATOR,
        is_plain(s) <==> last_separator(s) < 0,
    decreases s.len(),
{
    if s.len() == 0 {
    } else if s.last() == SEPARATOR {
        assert(s[s.len() - 1] == SEPARATOR);
    } else {
        let t = s.drop_last();
        lemma_last_separator(t);
        assert forall|i: int| last_separator(s) < i < s.len() implies s[i] != SEPARATOR by {
            if i < t.len() {
                assert(t[i] == s[i]);
            }
        }
        if is_plain(s) {
            assert forall|i: int| 0 <= i < t.len() implies t[i] != SEPARATOR by {
                assert(t[i] == s[i]);
            }
        }
        if last_separator(s) < 0 {
            assert forall|i: int| 0 <= i < s.len() implies s[i] != SEPARATOR by {
                if i < t.len() {
                    assert(t[i] == s[i]);
                }
            }
        }
    }
}

/// Squeezing leaves no separator at the start and no two in a row, and it
/// changes nothing in a sequence that is like that already.
pub proof fn lemma_squeezed(s: Seq<u8>)
    ensures
        is_squeezed(squeezed(s)),
        squeezed(s).len() <= s.len(),
        is_squeezed(s) ==> squeezed(s) == s,
    decreases s.len(),
{
    if s.len() > 0 {
        let t = s.drop_last();
        lemma_squeezed(t);
        let head = squeezed(t);
        if is_squeezed(s) {
            assert(is_squeezed(t)) by {
                assert forall|i: int| 0 <= i < t.len() - 1 implies !(t[i] == SEPARATOR
                    && #[trigger] t[i + 1] == SEPARATOR) by {
                    assert(s[i + 1] == t[i + 1]);
                }
            }
            if s.last() == SEPARATOR && t.len() > 0 {
                assert(s[(s.len() - 2) + 1] == SEPARATOR);
                assert(t.last() == s[s.len() - 2]);
            }
            assert(squeezed(s) =~= s);
        }
        if !(s.last() == SEPARATOR && (head.len() == 0 || head.last() == SEPARATOR)) {
            let all = head.push(s.last());
            assert forall|i: int| 0 <= i < all.len() - 1 implies !(all[i] == SEPARATOR
                && #[trigger] all[i + 1] == SEPARATOR) by {
                if i + 1 < head.len() {
                    assert(head[i + 1] == all[i + 1]);
                }
            }
        }
    }
}

/// A separator in front of a sequence is squeezed away.
pub proof fn lemma_squeezed_leading(s: Seq<u8>)
    ensures
        squeezed(seq![SEPARATOR] + s) == squeezed(s),
    decreases s.len(),
{
    let whole = seq![SEPARATOR] + s;
    if s.len() == 0 {
        assert(whole.drop_last() =~= Seq::<u8>::empty());
        assert(s =~= Seq::<u8>::empty());
    } else {
        lemma_squeezed_leading(s.drop_last());
        assert(whole.drop_last() =~= seq![SEPARATOR] + s.drop_last());
        assert(whole.last() == s.last());
    }
}

/// The canonical form is canonical, it is no longer than what it was made
/// of, and a canonical path is its own canonical form.
pub proof fn lemma_canonical(s: Seq<u8>)
    ensures
        is_canonical(canonical(s)),
        canonical(s).len() <= s.len(),
        is_canonical(s) ==> canonical(s) == s,
        canonical(canonical(s)) == canonical(s),
{
    lemma_squeezed(s);
    let q = squeezed(s);
    lemma_trimmed(q);
    let c = trimmed(q);
    assert(is_squeezed(c)) by {
        assert forall|i: int| 0 <= i < c.len() - 1 implies !(c[i] == SEPARATOR && #[trigger] c[i
            + 1] == SEPARATOR) by {
            assert(q[i + 1] == c[i + 1]);
        }
    }
    lemma_squeezed(c);
    lemma_trimmed(c);
}

/// A canonical path that is not empty is made of its parent and its file
/// name: the parent is canonical, the file name is one component, not empty,
/// and joining the two gives the path back.
pub proof fn lemma_canonical_parts(p: Seq<u8>)
    requires
        is_canonical(p),
        p.len() > 0,
    ensures
        is_canonical(parent_path(p)),
        is_plain(file_name(p)),
        file_name(p).len() > 0,
        joined(parent_path(p), file_name(p)) == p,
{
    lemma_last_separator(p);
    lemma_canonical(p);
    let k = last_separator(p);
    let name = file_name(p);
    if k < 0 {
        assert(name =~= p);
        assert(parent_path(p) + seq![SEPARATOR] + name =~= seq![SEPARATOR] + p);
        lemma_squeezed_leading(p);
    } else {
        let pre = p.subrange(0, k);
        assert(k >= 1);
        assert(p[(k - 1) + 1] == SEPARATOR);
        assert(pre.last() == p[k - 1]);
        assert(is_squeezed(pre)) by {
            assert forall|i: int| 0 <= i < pre.len() - 1 implies !(pre[i] == SEPARATOR
                && #[trigger] pre[i + 1] == SEPARATOR) by {
                assert(p[i + 1] == pre[i + 1]);
            }
        }
        lemma_trimmed(pre);
        assert(parent_path(p) == pre);
        assert(pre + seq![SEPARATOR] + name =~= p);
    }
}

/// Joining a canonical directory and a name and taking the result apart
/// again gives both back: the parent of `joined(dir, name)` is `dir`, its
/// file name is `name`, whenever `name` is one component that is not empty.
pub proof fn lemma_join_then_split(dir: Seq<u8>, name: Seq<u8>)
    requires
        is_canonical(dir),
        is_plain(name),
        name.len() > 0,
    ensures
        is_canonical(joined(dir, name)),
        joined(dir, name).len() > 0,
        parent_path(joined(dir, name)) == dir,
        file_name(joined(dir, name)) == name,
{
    assert(name[0] != SEPARATOR);
    assert(name[name.len() - 1] != SEPARATOR);
    assert(is_canonical(name)) by {
        assert forall|i: int| 0 <= i < name.len() - 1 implies !(name[i] == SEPARATOR
            && #[trigger] name[i + 1] == SEPARATOR) by {}
    }
    if dir.len() == 0 {
        assert(dir + seq![SEPARATOR] + name =~= seq![SEPARATOR] + name);
        lemma_squeezed_leading(name);
        lemma_canonical(name);
        assert(joined(dir, name) == name);
        lemma_last_separator(name);
        assert(file_name(name) =~= name);
    } else {
        let whole = dir + seq![SEPARATOR] + name;
        assert(whole.last() == name.last());
        assert(whole[0] == dir[0]);
        assert(is_squeezed(whole)) by {
            assert forall|i: int| 0 <= i < whole.len() - 1 implies !(whole[i] == SEPARATOR
                && #[trigger] whole[i + 1] == SEPARATOR) by {
                if i + 1 < dir.len() {
                    assert(whole[i] == dir[i] && whole[i + 1] == dir[i + 1]);
                } else if i + 1 == dir.len() {
                    assert(whole[i] == dir.last());
                } else {
                    assert(whole[i + 1] == name[i - dir.len()]);
                }
            }
        }
        lemma_canonical(whole);
        assert(joined(dir, name) == whole);
        lemma_last_separator(whole);
        let k = last_separator(whole);
        assert(whole[dir.len() as int] == SEPARATOR);
        assert forall|i: int| dir.len() < i < whole.len() implies whole[i] != SEPARATOR by {
            assert(whole[i] == name[i - dir.len() - 1]);
        }
        assert(k == dir.len());
        assert(whole.subrange(0, k) =~= dir);
        lemma_trimmed(dir);
        assert(file_name(whole) =~= name);
    }
}

/// The bytes of `raw` before `end`.
fn prefix(raw: &[u8], end: usize) -> (head: Vec<u8>)
    requires
        end <= raw.len(),
    ensures
        head@ == raw@.subrange(0, end as int),
{
    let mut head: Vec<u8> = Vec::new();
    let mut i: usize = 0;
    while i < end
        invariant
            i <= end <= raw.len(),
            head@ == raw@.subrange(0, i as int),
        decreases end - i,
    {
        head.push(raw[i]);
        i += 1;
        assert(head@ =~= raw@.subrange(0, i as int));
    }
    head
}

/// The length of `raw` without the separators that it ends in.
fn trimmed_len(raw: &[u8], len: usize) -> (end: usize)
    requires
        len <= raw.len(),
    ensures
        end <= len,
        raw@.subrange(0, end as int) == trimmed(raw@.subrange(0, len as int)),
{
    let mut end: usize = len;
    while end > 0 && raw[end - 1] == SEPARATOR
        invariant
            end <= len <= raw.len(),
            trimmed(raw@.subrange(0, end as int)) == trimmed(raw@.subrange(0, len as int)),
        decreases end,
    {
        assert(raw@.subrange(0, end as int).drop_last() =~= raw@.subrange(0, end - 1));
        end -= 1;
    }
    end
}

/// The index just after the last separator of `raw`, or 0 where it holds none.
fn name_start(raw: &[u8]) -> (start: usize)
    ensures
        start <= raw.len(),
        start == last_separator(raw@) + 1,
{
    let mut start: usize = raw.len();
    proof {
        assert(raw@.subrange(0, start as int) =~= raw@);
        lemma_last_separator(raw@);
    }
    while start > 0 && raw[start - 1] != SEPARATOR
        invariant
            start <= raw.len(),
            last_separator(raw@) == last_separator(raw@.subrange(0, start as int)),
        decreases start,
    {
        assert(raw@.subrange(0, start as int).drop_last() =~= raw@.subrange(0, start - 1));
        start -= 1;
    }
    start
}

/// A copy of `raw`.
pub fn copy_of(raw: &[u8]) -> (copy: Vec<u8>)
    ensures
        copy@ == raw@,
{
    assert(raw@.subrange(0, raw.len() as int) =~= raw@);
    prefix(raw, raw.len())
}

/// Whether `raw` ends in a separator, as the name of a directory does by
/// convention.
pub fn ends_with_separator(raw: &[u8]) -> (ends: bool)
    ensures
        ends == !is_normal(raw@),
{
    raw.len() > 0 && raw[raw.len() - 1] == SEPARATOR
}

/// The canonical form of `raw`: its components that are not empty, with one
/// separator between them.
pub fn normalize(raw: &[u8]) -> (path: Vec<u8>)
    ensures
        path@ == canonical(raw@),
{
    let mut kept: Vec<u8> = Vec::new();
    let mut i: usize = 0;
    while i < raw.len()
        invariant
            i <= raw.len(),
            kept@ == squeezed(raw@.subrange(0, i as int)),
        decreases raw.len() - i,
    {
        let byte = raw[i];
        assert(raw@.subrange(0, i + 1).drop_last() =~= raw@.subrange(0, i as int));
        if !(byte == SEPARATOR && (kept.len() == 0 || kept[kept.len() - 1] == SEPARATOR)) {
            kept.push(byte);
        }
        i += 1;
    }
    assert(raw@.subrange(0, i as int) =~= raw@);
    assert(kept@.subrange(0, kept.len() as int) =~= kept@);
    let end = trimmed_len(kept.as_slice(), kept.len());
    prefix(kept.as_slice(), end)
}

/// The path of the directory that holds `path`.
pub fn parent(path: &[u8]) -> (dir: Vec<u8>)
    ensures
        dir@ == parent_path(path@),
{
    let start = name_start(path);
    if start == 0 {
        Vec::new()
    } else {
        let end = trimmed_len(path, start - 1);
        prefix(path, end)
    }
}

/// The last component of `path`.
pub fn name(path: &[u8]) -> (last: Vec<u8>)
    ensures
        last@ == file_name(path@),
{
    let start = name_start(path);
    let mut last: Vec<u8> = Vec::new();
    let mut i: usize = start;
    while i < path.len()
        invariant
            start <= i <= path.len(),
            last@ == path@.subrange(start as int, i as int),
        decreases path.len() - i,
    {
        last.push(path[i]);
        i += 1;
        assert(last@ =~= path@.subrange(start as int, i as int));
    }
    last
}

/// The path of `child` inside the directory `dir`, in canonical form.
pub fn join(dir: &[u8], child: &[u8]) -> (path: Vec<u8>)
    ensures
        path@ == joined(dir@, child@),
{
    let mut whole: Vec<u8> = copy_of(dir);
    whole.push(SEPARATOR);
    let ghost head = whole@;
    let mut i: usize = 0;
    while i < child.len()
        invariant
            i <= child.len(),
            whole@ == head + child@.subrange(0, i as int),
        decreases child.len() - i,
    {
        whole.push(child[i]);
        i += 1;
        assert(whole@ =~= head + child@.subrange(0, i as int));
    }
    assert(child@.subrange(0, i as int) =~= child@);
    assert(whole@ =~= dir@ + seq![SEPARATOR] + child@);
    normalize(whole.as_slice())
}

/// Whether two paths are the same bytes.
pub fn same_path(a: &[u8], b: &[u8]) -> (same: bool)
    ensures
        same == (a@ == b@),
{
    if a.len() != b.len() {
        return false;
    }
    let mut i: usize = 0;
    while i < a.len()
        invariant
            i <= a.len() == b.len(),
            a@.subrange(0, i as int) == b@.subrange(0, i as int),
        decreases a.len() - i,
    {
        if a[i] != b[i] {
            return false;
        }
        i += 1;
        assert(a@.subrange(0, i as int) =~= a@.subrange(0, i - 1).push(a@[i - 1]));
        assert(b@.subrange(0, i as int) =~= b@.subrange(0, i - 1).push(b@[i - 1]));
    }
    assert(a@ =~= a@.subrange(0, i as int));
    assert(b@ =~= b@.subrange(0, i as int));
    true
}

} // verus!
