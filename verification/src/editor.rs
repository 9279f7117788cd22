//! Reading back what the user wrote in the editor: the first line is the title, the rest the
//! description.

use vstd::prelude::*;
use vstd::string::*;

use crate::text::{chars_of, join, join_spec, lines, lines_spec, str_eq, trim, trim_spec, views};

verus! {

/// A new issue typed in the editor.
pub struct CreateResult {
    pub title: String,
}

/// An edit of an issue: the new title and description, and which of them changed.
pub struct EditResult {
    pub issue_id: String,
    pub new_title: String,
    pub new_desc: String,
    pub title_changed: bool,
    pub desc_changed: bool,
}

/// The first line of a text, or nothing.
pub open spec fn first_line(content: Seq<char>) -> Seq<char> {
    let ls = lines_spec(content);
    if ls.len() > 0 {
        ls[0]
    } else {
        Seq::empty()
    }
}

/// The title in an edited text: its first line, trimmed.
pub open spec fn edited_title(content: Seq<char>) -> Seq<char> {
    trim_spec(first_line(content))
}

/// The description in an edited text: the lines after the first, trimmed as a whole.
pub open spec fn edited_desc(content: Seq<char>) -> Seq<char> {
    let ls = lines_spec(content);
    trim_spec(
        join_spec(
            if ls.len() > 0 {
                ls.skip(1)
            } else {
                Seq::empty()
            },
            "\n"@,
        ),
    )
}

/// The text the editor opens with: the title, a blank line, the description.
pub open spec fn edit_template_spec(title: Seq<char>, desc: Seq<char>) -> Seq<char> {
    title + "\n\n"@ + desc
}

/// The text the editor opens with.
pub fn edit_template(title: &str, desc: &str) -> (r: String)
    ensures
        r@ == edit_template_spec(title@, desc@),
{
    let mut r = String::from_str(title);
    r.append("\n\n");
    r.append(desc);
    r
}

/// The trimmed first line of a text.
fn title_of(ls: &Vec<String>) -> (r: String)
    ensures
        r@ == trim_spec(
            if ls@.len() > 0 {
                ls@[0]@
            } else {
                Seq::empty()
            },
        ),
{
    if ls.len() > 0 {
        String::from_str(trim(ls[0].as_str()))
    } else {
        assert(trim_spec(Seq::<char>::empty()) =~= Seq::<char>::empty());
        String::new()
    }
}

/// The new issue in the text typed for a quick create: its trimmed first line, unless that is
/// empty.
pub fn parse_create(content: &str) -> (r: Option<CreateResult>)
    ensures
        match r {
            Some(c) => c.title@ == edited_title(content@) && edited_title(content@).len() > 0,
            None => edited_title(content@).len() == 0,
        },
{
    let ls = lines(content);
    let title = title_of(&ls);
    if chars_of(title.as_str()).len() == 0 {
        None
    } else {
        Some(CreateResult { title })
    }
}

/// The edit in a text written over `current_title` and `current_desc`, if the title or the
/// description (each compared trimmed) changed.
pub fn parse_edit(issue_id: &str, current_title: &str, current_desc: &str, content: &str) -> (r:
    Option<EditResult>)
    ensures
        ({
            let t = edited_title(content@);
            let d = edited_desc(content@);
            let tc = t != trim_spec(current_title@);
            let dc = d != trim_spec(current_desc@);
            match r {
                Some(e) => (tc || dc) && e.issue_id@ == issue_id@ && e.new_title@ == t
                    && e.new_desc@ == d && e.title_changed == tc && e.desc_changed == dc,
                None => !tc && !dc,
            }
        }),
{
    let ls = lines(content);
    let new_title = title_of(&ls);
    let mut rest: Vec<String> = Vec::new();
    let mut i: usize = 1;
    while i < ls.len()
        invariant
            1 <= i <= ls@.len() || (i == 1 && ls@.len() == 0),
            views(ls@) == lines_spec(content@),
            ls@.len() > 0 ==> views(rest@) == views(ls@).subrange(1, i as int),
            ls@.len() == 0 ==> rest@.len() == 0,
        decreases ls@.len() - i,
    {
        let x = ls[i].clone();
        proof {
            crate::text::lemma_views_push(rest@, x);
        }
        rest.push(x);
        assert(views(rest@) =~= views(ls@).subrange(1, i + 1));
        i = i + 1;
    }
    proof {
        if ls@.len() == 0 {
            assert(views(rest@) =~= Seq::<Seq<char>>::empty());
        } else {
            assert(views(ls@).subrange(1, ls@.len() as int) =~= lines_spec(content@).skip(1));
        }
    }
    let joined = join(&rest, "\n");
    let new_desc = String::from_str(trim(joined.as_str()));
    let title_changed = !str_eq(new_title.as_str(), trim(current_title));
    let desc_changed = !str_eq(new_desc.as_str(), trim(current_desc));
    if title_changed || desc_changed {
        Some(
            EditResult {
                issue_id: String::from_str(issue_id),
                new_title,
                new_desc,
                title_changed,
                desc_changed,
            },
        )
    } else {
        None
    }
}

/// Saving the editor's text unchanged reports no change: the template of a title without line
/// breaks and a description without carriage returns reads back as the title and the
/// description, each trimmed.
pub proof fn law_unchanged_template_reads_back(t: Seq<char>, d: Seq<char>)
    requires
        forall|k: int| 0 <= k < t.len() ==> t[k] != '\n' && t[k] != '\r',
        forall|k: int| 0 <= k < d.len() ==> d[k] != '\r',
    ensures
        edited_title(edit_template_spec(t, d)) == trim_spec(t),
        edited_desc(edit_template_spec(t, d)) == trim_spec(d),
{
    reveal_strlit("\n\n");
    reveal_strlit("\n");
    let c = edit_template_spec(t, d);
    assert(c[t.len() as int] == '\n');
    assert forall|j: int| 0 <= j < t.len() implies c[j] != '\n' by {
        assert(c[j] == t[j]);
    }
    crate::text::lemma_first_index_of_is(c, '\n', t.len() as int);
    assert(c.take(t.len() as int) =~= t);
    assert(crate::text::strip_cr(t) == t) by {
        if t.len() > 0 {
            assert(t.last() == t[t.len() - 1]);
        }
    }
    let e = c.skip(t.len() + 1int);
    assert(e =~= seq!['\n'] + d);
    crate::text::lemma_first_index_of_is(e, '\n', 0);
    assert(e.take(0) =~= Seq::<char>::empty());
    assert(e.skip(1) =~= d);
    assert(crate::text::strip_cr(Seq::<char>::empty()) == Seq::<char>::empty());
    let ld = lines_spec(d);
    assert(lines_spec(e) == seq![Seq::<char>::empty()] + ld);
    assert(lines_spec(c) == seq![t] + lines_spec(e));
    assert(lines_spec(c).skip(1) =~= seq![Seq::<char>::empty()] + ld);
    crate::text::lemma_join_lines(d);
    crate::text::lemma_join_prepend(Seq::<char>::empty(), ld, "\n"@);
    if d.len() == 0 {
        assert(trim_spec(Seq::<char>::empty()) =~= Seq::<char>::empty());
    } else {
        let j = join_spec(ld, "\n"@);
        assert(Seq::<char>::empty() + "\n"@ + j =~= seq!['\n'] + j);
        assert((seq!['\n'] + j).drop_first() =~= j);
        crate::text::lemma_trim_skip_first_ws(seq!['\n'] + j);
        if d.last() == '\n' {
            crate::text::lemma_trim_drop_last_ws(d);
        }
    }
}

} // verus!
