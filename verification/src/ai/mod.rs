//! The AI workflows (enrich, implement, split) and what they share.

pub mod enrich;
pub mod implement;
pub mod job;
pub mod split;

use vstd::prelude::*;
use vstd::string::*;

use crate::bd::opt_view;
use crate::text::{
    byte_offset, char_utf8_len, chars_of, first_index_of, last_index_of, str_eq, trim, trim_spec,
    utf8_len, views,
};

verus! {

/// The description part of a prompt: a blank line, `Description:` and the text, or nothing.
pub open spec fn description_section_spec(desc: Option<Seq<char>>) -> Seq<char> {
    match desc {
        Some(d) => "\n\nDescription:\n"@ + d,
        None => Seq::empty(),
    }
}

/// The description part of a prompt.
pub fn description_section(desc: &Option<String>) -> (r: String)
    ensures
        r@ == description_section_spec(opt_view(*desc)),
{
    match desc {
        Some(d) => {
            let mut r = String::from_str("\n\nDescription:\n");
            r.append(d.as_str());
            r
        },
        None => String::new(),
    }
}

/// A set of issue ids (the jobs a workflow is running).
pub struct IdSet {
    pub ids: Vec<String>,
}

impl IdSet {
    /// No id occurs twice.
    pub open spec fn wf(&self) -> bool {
        views(self.ids@).no_duplicates()
    }

    /// The ids as a set.
    pub open spec fn set(&self) -> Set<Seq<char>> {
        views(self.ids@).to_set()
    }

    /// The empty set.
    pub fn new() -> (r: IdSet)
        ensures
            r.wf(),
            r.set() == Set::<Seq<char>>::empty(),
    {
        let r = IdSet { ids: Vec::new() };
        assert(r.set() =~= Set::<Seq<char>>::empty());
        r
    }

    /// Whether `id` is in the set.
    pub fn contains(&self, id: &str) -> (b: bool)
        ensures
            b == self.set().contains(id@),
    {
        crate::text::contains_str(&self.ids, id)
    }

    /// Adds `id`.
    pub fn insert(&mut self, id: &str)
        requires
            old(self).wf(),
        ensures
            final(self).wf(),
            final(self).set() == old(self).set().insert(id@),
    {
        if self.contains(id) {
            assert(self.set().insert(id@) =~= self.set());
            return ;
        }
        let ghost before = views(self.ids@);
        let s = String::from_str(id);
        proof {
            crate::text::lemma_views_push(self.ids@, s);
            before.lemma_push_to_set_commute(id@);
        }
        self.ids.push(s);
        assert forall|a: int, b: int|
            0 <= a < views(self.ids@).len() && 0 <= b < views(self.ids@).len() && a != b implies views(
            self.ids@,
        )[a] != views(self.ids@)[b] by {
            if a < before.len() && b < before.len() {
            } else if a == before.len() {
                assert(before.contains(before[b]));
            } else {
                assert(before.contains(before[a]));
            }
        }
    }

    /// Removes `id`.
    pub fn remove(&mut self, id: &str)
        requires
            old(self).wf(),
        ensures
            final(self).wf(),
            final(self).set() == old(self).set().remove(id@),
    {
        let ghost before = views(self.ids@);
        let mut kept: Vec<String> = Vec::new();
        let mut i: usize = 0;
        while i < self.ids.len()
            invariant
                i <= self.ids@.len(),
                before == views(self.ids@),
                before.no_duplicates(),
                views(kept@).no_duplicates(),
                views(kept@).to_set() == before.take(i as int).to_set().remove(id@),
                forall|y: Seq<char>| views(kept@).contains(y) ==> before.take(i as int).contains(y),
            decreases self.ids@.len() - i,
        {
            let ghost kv = views(kept@);
            proof {
                crate::text::lemma_views_take(self.ids@, i as int);
                before.take(i as int).lemma_push_to_set_commute(before[i as int]);
            }
            if !str_eq(self.ids[i].as_str(), id) {
                let s = self.ids[i].clone();
                proof {
                    crate::text::lemma_views_push(kept@, s);
                    kv.lemma_push_to_set_commute(s@);
                    assert(!kv.contains(s@)) by {
                        if kv.contains(s@) {
                            assert(before.take(i as int).contains(s@));
                            let k = choose|k: int| 0 <= k < i && before.take(i as int)[k] == s@;
                            assert(before[k] == before[i as int]);
                        }
                    }
                }
                kept.push(s);
                assert forall|a: int, b: int|
                    0 <= a < views(kept@).len() && 0 <= b < views(kept@).len() && a != b implies views(
                    kept@,
                )[a] != views(kept@)[b] by {
                    if a < kv.len() && b < kv.len() {
                    } else if a == kv.len() {
                        assert(kv.contains(kv[b]));
                    } else {
                        assert(kv.contains(kv[a]));
                    }
                }
                assert forall|y: Seq<char>| views(kept@).contains(y) implies before.take(
                    i + 1,
                ).contains(y) by {
                    let k = choose|k: int| 0 <= k < views(kept@).len() && views(kept@)[k] == y;
                    if k < kv.len() {
                        assert(kv.contains(y));
                        let j = choose|j: int| 0 <= j < i && before.take(i as int)[j] == y;
                        assert(before.take(i + 1)[j] == y);
                    } else {
                        assert(before.take(i + 1)[i as int] == y);
                    }
                }
            } else {
                assert forall|y: Seq<char>| views(kept@).contains(y) implies before.take(
                    i + 1,
                ).contains(y) by {
                    let j = choose|j: int| 0 <= j < i && before.take(i as int)[j] == y;
                    assert(before.take(i + 1)[j] == y);
                }
            }
            assert(views(kept@).to_set() =~= before.take(i + 1).to_set().remove(id@));
            i = i + 1;
        }
        assert(before.take(before.len() as int) =~= before);
        self.ids = kept;
    }
}

/// The name of a job's directory under `.strand/jobs/`: the workflow, a dash, the short id.
pub open spec fn job_dir_name_spec(workflow: Seq<char>, short_id: Seq<char>) -> Seq<char> {
    workflow + "-"@ + short_id
}

/// The part of an AI answer taken as its JSON object: the whole text when it starts with `{`,
/// else from its first `{` through the last `}` after it; `None` when there is no such part.
pub open spec fn json_candidate(t: Seq<char>) -> Option<Seq<char>> {
    if t.len() > 0 && t[0] == '{' {
        Some(t)
    } else {
        let a = first_index_of(t, '{');
        if a < 0 {
            None
        } else {
            let c = t.skip(a);
            let b = last_index_of(c, '}');
            if b < 0 {
                None
            } else {
                Some(c.take(b + 1))
            }
        }
    }
}

/// Index of the last character of `t`, from `j` on, that starts at most 200 bytes in.
pub open spec fn preview_index(t: Seq<char>, j: int) -> int
    decreases t.len() - j,
{
    if 0 <= j && j + 1 < t.len() && byte_offset(t, j + 1) <= 200 {
        preview_index(t, j + 1)
    } else {
        j
    }
}

/// The head of `t` quoted in the error: the characters before the last one that starts within
/// the first 200 bytes.
pub open spec fn preview_spec(t: Seq<char>) -> Seq<char> {
    t.take(preview_index(t, 0))
}

/// The error text when an answer holds no JSON object.
pub open spec fn no_json_message(t: Seq<char>) -> Seq<char> {
    "No JSON object found in response: "@ + preview_spec(t)
}

/// The JSON object in an AI answer, after trimming it: the whole answer when it starts with
/// `{`, else from its first `{` through its last `}`; an error quoting the answer's head when
/// there is none.
pub fn extract_json(s: &str) -> (r: Result<&str, String>)
    ensures
        match json_candidate(trim_spec(s@)) {
            Some(j) => r is Ok && r->Ok_0@ == j,
            None => r is Err && r->Err_0@ == no_json_message(trim_spec(s@)),
        },
{
    let t = trim(s);
    let v = chars_of(t);
    if v.len() > 0 && v[0] == '{' {
        return Ok(t);
    }
    let mut a: usize = 0;
    while a < v.len() && v[a] != '{'
        invariant
            v@ == t@,
            a <= v@.len(),
            forall|k: int| 0 <= k < a ==> v@[k] != '{',
        decreases v@.len() - a,
    {
        a = a + 1;
    }
    if a < v.len() {
        proof {
            crate::text::lemma_first_index_of_is(t@, '{', a as int);
        }
        let ghost c = t@.skip(a as int);
        let mut j: usize = v.len();
        assert(c.take((j - a) as int) =~= c);
        while j > a && v[j - 1] != '}'
            invariant
                v@ == t@,
                a < j <= v@.len() || j == a,
                a < v@.len(),
                j <= v@.len(),
                c == t@.skip(a as int),
                last_index_of(c, '}') == last_index_of(c.take((j - a) as int), '}'),
            decreases j,
        {
            assert(c.take((j - a) as int).drop_last() =~= c.take(j - a - 1));
            j = j - 1;
        }
        if j > a {
            assert(c.take((j - a) as int).last() == '}');
            assert(c.take((j - a) as int) =~= t@.subrange(a as int, j as int));
            return Ok(t.substring_char(a, j));
        } else {
            assert(c.take(0) =~= Seq::<char>::empty());
        }
    } else {
        proof {
            crate::text::lemma_first_index_of_none(t@, '{');
        }
    }
    let mut k: usize = 0;
    let mut off: usize = 0;
    let mut done = false;
    while !done && v.len() > 0 && k < v.len() - 1
        invariant
            v@ == t@,
            k < v@.len() || k == 0,
            off == byte_offset(t@, k as int),
            off <= 200,
            preview_index(t@, 0) == preview_index(t@, k as int),
            done ==> preview_index(t@, k as int) == k,
        decreases v@.len() - k, if done { 0int } else { 1int },
    {
        let next = off + char_utf8_len(v[k]);
        assert(byte_offset(t@, k + 1) == off + utf8_len(v@[k as int]));
        if next > 200 {
            done = true;
        } else {
            off = next;
            k = k + 1;
        }
    }
    assert(preview_index(t@, k as int) == k);
    let mut msg = String::from_str("No JSON object found in response: ");
    assert(t@.take(k as int) =~= t@.subrange(0, k as int));
    msg.append(t.substring_char(0, k));
    Err(msg)
}

/// The JSON object taken from an answer starts with `{`, and unless it is the whole answer it
/// ends with `}`; it is a piece of the answer.
pub proof fn law_json_candidate_shape(t: Seq<char>)
    ensures
        match json_candidate(t) {
            Some(j) => j.len() > 0 && j[0] == '{' && (j == t || j.last() == '}') && exists|a: int|
                0 <= a && a + j.len() <= t.len() && #[trigger] t.subrange(a, a + j.len()) == j,
            None => true,
        },
{
    match json_candidate(t) {
        Some(j) => {
            if t.len() > 0 && t[0] == '{' {
                let a: int = 0;
                assert(t.subrange(a, a + j.len()) =~= j);
            } else {
                let a = first_index_of(t, '{');
                crate::text::lemma_first_index_of_bounds(t, '{');
                let c = t.skip(a);
                let b = last_index_of(c, '}');
                crate::text::lemma_last_index_of_bounds(c, '}');
                assert(j =~= c.take(b + 1));
                assert(c[0] == t[a]);
                assert(j[0] == c[0]);
                assert(j.last() == c[b]);
                assert(t.subrange(a, a + j.len()) =~= j);
            }
        },
        None => {},
    }
}

} // verus!
