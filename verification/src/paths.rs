use vstd::prelude::*;
use crate::text::{chars_of, owned, push_char, push_str, string_of_range};

verus! {

/// `base` joined with `part` as `PathBuf::push` does on Unix: an absolute
/// `part` replaces `base`; otherwise a `/` separates them unless `base` is
/// empty or already ends in `/`.
pub open spec fn path_join(base: Seq<char>, part: Seq<char>) -> Seq<char> {
    if part.len() > 0 && part[0] == '/' {
        part
    } else if base.len() > 0 && base.last() != '/' {
        base + seq!['/'] + part
    } else {
        base + part
    }
}

/// `Path::join` on strings.
pub fn join(base: &str, part: &str) -> (r: String)
    ensures
        r@ == path_join(base@, part@),
{
    let b = chars_of(base);
    let p = chars_of(part);
    if p.len() > 0 && p[0] == '/' {
        return owned(part);
    }
    let mut r = owned(base);
    if b.len() > 0 && b[b.len() - 1] != '/' {
        push_char(&mut r, '/');
    }
    push_str(&mut r, part);
    r
}

/// The last component of a path: `/`-separated segments with empty and `.`
/// segments dropped, as `Path::file_name` reads them; `None` when nothing is
/// left or the last segment is `..`.
pub open spec fn normal_segments(p: Seq<char>) -> Seq<Seq<char>>
    decreases p.len(),
{
    if p.len() == 0 {
        seq![]
    } else {
        let i = last_slash(p);
        proof {
            lemma_last_slash(p);
        }
        let seg = p.subrange(i + 1, p.len() as int);
        let rest = if i < 0 { Seq::<char>::empty() } else { p.subrange(0, i) };
        if seg.len() == 0 || seg == seq!['.'] {
            normal_segments(rest)
        } else {
            normal_segments(rest).push(seg)
        }
    }
}

/// Index of the last `/` in `p`, or -1.
pub open spec fn last_slash(p: Seq<char>) -> int
    decreases p.len(),
{
    if p.len() == 0 {
        -1
    } else if p.last() == '/' {
        p.len() - 1
    } else {
        last_slash(p.drop_last())
    }
}

pub proof fn lemma_last_slash(p: Seq<char>)
    ensures
        -1 <= last_slash(p) < p.len(),
        last_slash(p) >= 0 ==> p[last_slash(p)] == '/',
        forall|j: int| last_slash(p) < j < p.len() ==> p[j] != '/',
    decreases p.len(),
{
    if p.len() > 0 && p.last() != '/' {
        lemma_last_slash(p.drop_last());
        assert forall|j: int| last_slash(p) < j < p.len() implies p[j] != '/' by {
            if j < p.len() - 1 {
                assert(p.drop_last()[j] == p[j]);
            }
        }
    }
}

/// `Path::file_name` followed by `OsStr::to_str` on a UTF-8 path.
pub open spec fn file_name(p: Seq<char>) -> Option<Seq<char>> {
    let segs = normal_segments(p);
    if segs.len() == 0 || segs.last() == seq!['.', '.'] {
        None
    } else {
        Some(segs.last())
    }
}

fn last_slash_exec(v: &Vec<char>, end: usize) -> (r: Option<usize>)
    requires
        end <= v.len(),
    ensures
        match r {
            Some(i) => i < end && last_slash(v@.subrange(0, end as int)) == i,
            None => last_slash(v@.subrange(0, end as int)) == -1,
        },
{
    let mut k = end;
    while k > 0
        invariant
            k <= end <= v.len(),
            last_slash(v@.subrange(0, end as int)) == last_slash(v@.subrange(0, k as int)),
        decreases k,
    {
        if v[k - 1] == '/' {
            return Some(k - 1);
        }
        assert(v@.subrange(0, k as int).drop_last() =~= v@.subrange(0, k - 1));
        k = k - 1;
    }
    None
}

/// The final component of a path (`Path::file_name` then `to_str`).
pub fn path_file_name(path: &str) -> (r: Option<String>)
    ensures
        r.is_some() == file_name(path@).is_some(),
        r matches Some(s) ==> s@ == file_name(path@).unwrap(),
{
    let v = chars_of(path);
    let mut end = v.len();
    assert(v@.subrange(0, end as int) =~= path@);
    // skip trailing empty and `.` segments
    loop
        invariant
            end <= v.len(),
            v@ == path@,
            normal_segments(path@) == normal_segments(v@.subrange(0, end as int)),
        decreases end,
    {
        if end == 0 {
            assert(v@.subrange(0, 0) =~= Seq::<char>::empty());
            return None;
        }
        let ghost p = v@.subrange(0, end as int);
        let ls = last_slash_exec(&v, end);
        let start: usize = match ls { Some(i) => i + 1, None => 0 };
        proof {
            lemma_last_slash(p);
        }
        let ghost seg = p.subrange(last_slash(p) + 1, p.len() as int);
        assert(seg =~= v@.subrange(start as int, end as int));
        let is_dot = end - start == 1 && v[start] == '.';
        if start == end || is_dot {
            proof {
                if is_dot {
                    assert(seg =~= seq!['.']);
                }
            }
            match ls {
                Some(i) => {
                    assert(p.subrange(0, i as int) =~= v@.subrange(0, i as int));
                    end = i;
                }
                None => {
                    assert(normal_segments(Seq::<char>::empty()) =~= Seq::<Seq<char>>::empty());
                    return None;
                }
            }
        } else {
            let ghost rest = if last_slash(p) < 0 { Seq::<char>::empty() } else { p.subrange(0, last_slash(p)) };
            assert(seg.len() > 0);
            assert(seg != seq!['.']) by {
                if seg == seq!['.'] {
                    assert(seg.len() == 1 && seg[0] == '.');
                    assert(v@[start as int] == '.');
                }
            }
            assert(normal_segments(p) == normal_segments(rest).push(seg));
            let is_dotdot = end - start == 2 && v[start] == '.' && v[start + 1] == '.';
            if is_dotdot {
                assert(seg =~= seq!['.', '.']);
                return None;
            }
            proof {
                if seg == seq!['.', '.'] {
                    assert(seg[0] == '.' && seg[1] == '.');
                }
            }
            return Some(string_of_range(&v, start, end));
        }
    }
}

} // verus!
