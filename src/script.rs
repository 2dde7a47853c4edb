//! The script grammar: step declarations and edge declarations.

use vstd::prelude::*;

use crate::text::{
    char_at, find_char, has_char, has_lit, lit_at, phrase_end, seek_char, skip_phrase,
    skip_spaces, skip_word, space_char, space_end, string_of, word_end, is_space,
};

verus! {

/// A step declaration as the grammar reads it.
pub struct StepDecl {
    pub id: Seq<char>,
    pub kind: Seq<char>,
    pub category: Seq<char>,
    pub para: Seq<char>,
}

/// An edge declaration as the grammar reads it.
pub struct EdgeDecl {
    pub source: Seq<char>,
    pub label: Seq<char>,
    pub target: Seq<char>,
}

/// `ID["name: KIND, type: CATEGORY, para: {...}"]`, read from the script.
pub struct StepRecord {
    pub id: String,
    pub kind: String,
    pub category: String,
    pub para: String,
}

/// `SRC -->|LABEL| DST`, read from the script.
pub struct EdgeRecord {
    pub source: String,
    pub label: String,
    pub target: String,
}

impl View for StepRecord {
    type V = StepDecl;

    open spec fn view(&self) -> StepDecl {
        StepDecl { id: self.id@, kind: self.kind@, category: self.category@, para: self.para@ }
    }
}

impl View for EdgeRecord {
    type V = EdgeDecl;

    open spec fn view(&self) -> EdgeDecl {
        EdgeDecl { source: self.source@, label: self.label@, target: self.target@ }
    }
}

/// Position after the last character of `t[lo..hi]` that is not a space.
pub open spec fn trim_end(t: Seq<char>, lo: int, hi: int) -> int
    decreases hi - lo,
{
    if lo < hi && space_char(t[hi - 1]) {
        trim_end(t, lo, hi - 1)
    } else {
        hi
    }
}

/// What follows the category of a step declaration at position `f`: either
/// `, para: {...}` then `"]`, or `"]` alone, spaces allowed before `"]`. Gives the
/// parameter blob (braces included; empty when absent) and the end of the declaration.
pub open spec fn step_tail(t: Seq<char>, f: int) -> Option<(Seq<char>, int)> {
    if char_at(t, f, ',') {
        let g = space_end(t, f + 1);
        if lit_at(t, g, "para:"@) {
            let h = space_end(t, g + "para:"@.len());
            if char_at(t, h, '{') {
                let q = find_char(t, h + 1, '"');
                let r = trim_end(t, h + 1, q);
                if r > h + 1 && t[r - 1] == '}' && lit_at(t, q, "\"]"@) {
                    Some((t.subrange(h, r), q + 2))
                } else {
                    None
                }
            } else {
                None
            }
        } else {
            None
        }
    } else {
        let g = space_end(t, f);
        if lit_at(t, g, "\"]"@) {
            Some((Seq::empty(), g + 2))
        } else {
            None
        }
    }
}

/// The step declaration `ID["name: KIND, type: CATEGORY(, para: {...})?"]` that starts
/// at position `i`, with the position after it. `ID` and `CATEGORY` are runs of word
/// characters, `KIND` a run of word characters and spaces; spaces may follow each colon
/// and comma.
pub open spec fn step_at(t: Seq<char>, i: int) -> Option<(StepDecl, int)> {
    let a = word_end(t, i);
    if 0 <= i && a > i && lit_at(t, a, "[\"name:"@) {
        let b = space_end(t, a + "[\"name:"@.len());
        let c = phrase_end(t, b);
        if c > b && char_at(t, c, ',') {
            let d = space_end(t, c + 1);
            if lit_at(t, d, "type:"@) {
                let e = space_end(t, d + "type:"@.len());
                let f = word_end(t, e);
                if f > e {
                    match step_tail(t, f) {
                        Some(tail) => Some(
                            (
                                StepDecl {
                                    id: t.subrange(i, a),
                                    kind: t.subrange(b, c),
                                    category: t.subrange(e, f),
                                    para: tail.0,
                                },
                                tail.1,
                            ),
                        ),
                        None => None,
                    }
                } else {
                    None
                }
            } else {
                None
            }
        } else {
            None
        }
    } else {
        None
    }
}

/// The step declarations at or after position `i`, leftmost first, none overlapping.
pub open spec fn steps_from(t: Seq<char>, i: int) -> Seq<StepDecl>
    decreases t.len() - i,
{
    if 0 <= i < t.len() {
        match step_at(t, i) {
            Some(found) => if i < found.1 <= t.len() {
                seq![found.0] + steps_from(t, found.1)
            } else {
                Seq::empty()
            },
            None => steps_from(t, i + 1),
        }
    } else {
        Seq::empty()
    }
}

/// The edge declaration `SRC -->|LABEL| DST` that starts at position `i`, with the
/// position where `DST` starts. `SRC` may carry its own step declaration
/// (`A["..."] -->|always| B`), and spaces may stand around the arrow and inside the
/// bars.
pub open spec fn edge_at(t: Seq<char>, i: int) -> Option<(EdgeDecl, int)> {
    let a = word_end(t, i);
    if 0 <= i && a > i {
        let b = match step_at(t, i) {
            Some(found) => found.1,
            None => a,
        };
        let c = space_end(t, b);
        if lit_at(t, c, "-->"@) {
            let d = space_end(t, c + "-->"@.len());
            if char_at(t, d, '|') {
                let e = space_end(t, d + 1);
                let f = word_end(t, e);
                let g = space_end(t, f);
                if f > e && char_at(t, g, '|') {
                    let h = space_end(t, g + 1);
                    let k = word_end(t, h);
                    if k > h {
                        Some(
                            (
                                EdgeDecl {
                                    source: t.subrange(i, a),
                                    label: t.subrange(e, f),
                                    target: t.subrange(h, k),
                                },
                                h,
                            ),
                        )
                    } else {
                        None
                    }
                } else {
                    None
                }
            } else {
                None
            }
        } else {
            None
        }
    } else {
        None
    }
}

/// The edge declarations at or after position `i`, leftmost first; the target of one
/// edge may be the source of the next (`A -->|x| B -->|y| C`).
pub open spec fn edges_from(t: Seq<char>, i: int) -> Seq<EdgeDecl>
    decreases t.len() - i,
{
    if 0 <= i < t.len() {
        match edge_at(t, i) {
            Some(found) => if i < found.1 <= t.len() {
                seq![found.0] + edges_from(t, found.1)
            } else {
                Seq::empty()
            },
            None => edges_from(t, i + 1),
        }
    } else {
        Seq::empty()
    }
}

fn trim_spaces_back(t: &Vec<char>, lo: usize, hi: usize) -> (r: usize)
    requires
        lo <= hi <= t@.len(),
    ensures
        r == trim_end(t@, lo as int, hi as int),
        lo <= r <= hi,
{
    let mut j = hi;
    while j > lo && is_space(t[j - 1])
        invariant
            lo <= j <= hi <= t@.len(),
            trim_end(t@, lo as int, hi as int) == trim_end(t@, lo as int, j as int),
        decreases j,
    {
        j -= 1;
    }
    j
}

fn tail_at(t: &Vec<char>, f: usize) -> (r: Option<(String, usize)>)
    requires
        f <= t@.len(),
    ensures
        match r {
            Some(tail) => step_tail(t@, f as int) == Some((tail.0@, tail.1 as int)) && f < tail.1
                <= t@.len(),
            None => step_tail(t@, f as int) is None,
        },
{
    let _len = t.len(); // positions below stay within the text
    if has_char(t, f, ',') {
        let g = skip_spaces(t, f + 1);
        if !has_lit(t, g, "para:") {
            return None;
        }
        let h = skip_spaces(t, g + "para:".unicode_len());
        if !has_char(t, h, '{') {
            return None;
        }
        let q = seek_char(t, h + 1, '"');
        proof {
            reveal_strlit("\"]");
        }
        let r = trim_spaces_back(t, h + 1, q);
        if r > h + 1 && t[r - 1] == '}' && has_lit(t, q, "\"]") {
            Some((string_of(t, h, r), q + 2))
        } else {
            None
        }
    } else {
        let g = skip_spaces(t, f);
        if has_lit(t, g, "\"]") {
            proof {
                reveal_strlit("\"]");
            }
            Some((String::new(), g + 2))
        } else {
            None
        }
    }
}

/// Reads the step declaration that starts at position `i`, with the position after it.
pub fn step_decl_at(t: &Vec<char>, i: usize) -> (r: Option<(StepRecord, usize)>)
    requires
        i <= t@.len(),
    ensures
        match r {
            Some(found) => step_at(t@, i as int) == Some((found.0@, found.1 as int)) && i
                < found.1 <= t@.len(),
            None => step_at(t@, i as int) is None,
        },
{
    let _len = t.len(); // positions below stay within the text
    let a = skip_word(t, i);
    if a == i || !has_lit(t, a, "[\"name:") {
        return None;
    }
    let b = skip_spaces(t, a + "[\"name:".unicode_len());
    let c = skip_phrase(t, b);
    if c == b || !has_char(t, c, ',') {
        return None;
    }
    let d = skip_spaces(t, c + 1);
    if !has_lit(t, d, "type:") {
        return None;
    }
    let e = skip_spaces(t, d + "type:".unicode_len());
    let f = skip_word(t, e);
    if f == e {
        return None;
    }
    match tail_at(t, f) {
        Some(tail) => {
            let rec = StepRecord {
                id: string_of(t, i, a),
                kind: string_of(t, b, c),
                category: string_of(t, e, f),
                para: tail.0,
            };
            Some((rec, tail.1))
        },
        None => None,
    }
}

/// Reads the edge declaration that starts at position `i`, with the position where its
/// target starts.
pub fn edge_decl_at(t: &Vec<char>, i: usize) -> (r: Option<(EdgeRecord, usize)>)
    requires
        i <= t@.len(),
    ensures
        match r {
            Some(found) => edge_at(t@, i as int) == Some((found.0@, found.1 as int)) && i
                < found.1 <= t@.len(),
            None => edge_at(t@, i as int) is None,
        },
{
    let _len = t.len(); // positions below stay within the text
    let a = skip_word(t, i);
    if a == i {
        return None;
    }
    let b = match step_decl_at(t, i) {
        Some(found) => found.1,
        None => a,
    };
    let c = skip_spaces(t, b);
    if !has_lit(t, c, "-->") {
        return None;
    }
    let d = skip_spaces(t, c + "-->".unicode_len());
    if !has_char(t, d, '|') {
        return None;
    }
    let e = skip_spaces(t, d + 1);
    let f = skip_word(t, e);
    let g = skip_spaces(t, f);
    if f == e || !has_char(t, g, '|') {
        return None;
    }
    let h = skip_spaces(t, g + 1);
    let k = skip_word(t, h);
    if k == h {
        return None;
    }
    let rec = EdgeRecord {
        source: string_of(t, i, a),
        label: string_of(t, e, f),
        target: string_of(t, h, k),
    };
    Some((rec, h))
}

pub open spec fn step_views(v: Seq<StepRecord>) -> Seq<StepDecl> {
    v.map_values(|r: StepRecord| r@)
}

pub open spec fn edge_views(v: Seq<EdgeRecord>) -> Seq<EdgeDecl> {
    v.map_values(|r: EdgeRecord| r@)
}

/// Every step declaration of a script text, in order.
pub fn parse_steps(t: &Vec<char>) -> (r: Vec<StepRecord>)
    ensures
        step_views(r@) == steps_from(t@, 0),
{
    let mut r: Vec<StepRecord> = Vec::new();
    let mut i: usize = 0;
    while i < t.len()
        invariant
            i <= t@.len(),
            steps_from(t@, 0) == step_views(r@) + steps_from(t@, i as int),
        decreases t@.len() - i,
    {
        match step_decl_at(t, i) {
            Some(found) => {
                let ghost before = step_views(r@);
                r.push(found.0);
                assert(step_views(r@) == before.push(found.0@));
                assert(steps_from(t@, i as int) == seq![found.0@] + steps_from(t@, found.1 as int));
                assert(before + (seq![found.0@] + steps_from(t@, found.1 as int)) =~= before.push(
                    found.0@,
                ) + steps_from(t@, found.1 as int));
                i = found.1;
            },
            None => {
                i += 1;
            },
        }
    }
    assert(steps_from(t@, i as int) =~= Seq::<StepDecl>::empty());
    assert(step_views(r@) + Seq::<StepDecl>::empty() =~= step_views(r@));
    r
}

/// Every edge declaration of a script text, in order.
pub fn parse_edges(t: &Vec<char>) -> (r: Vec<EdgeRecord>)
    ensures
        edge_views(r@) == edges_from(t@, 0),
{
    let mut r: Vec<EdgeRecord> = Vec::new();
    let mut i: usize = 0;
    while i < t.len()
        invariant
            i <= t@.len(),
            edges_from(t@, 0) == edge_views(r@) + edges_from(t@, i as int),
        decreases t@.len() - i,
    {
        match edge_decl_at(t, i) {
            Some(found) => {
                let ghost before = edge_views(r@);
                r.push(found.0);
                assert(edge_views(r@) == before.push(found.0@));
                assert(edges_from(t@, i as int) == seq![found.0@] + edges_from(t@, found.1 as int));
                assert(before + (seq![found.0@] + edges_from(t@, found.1 as int)) =~= before.push(
                    found.0@,
                ) + edges_from(t@, found.1 as int));
                i = found.1;
            },
            None => {
                i += 1;
            },
        }
    }
    assert(edges_from(t@, i as int) =~= Seq::<EdgeDecl>::empty());
    assert(edge_views(r@) + Seq::<EdgeDecl>::empty() =~= edge_views(r@));
    r
}

} // verus!
