//! Multiline text navigation and completion helpers for input editing.
//!
//! Cursor positions are character indices into the text, from 0 to the
//! text's length inclusive.

use vstd::prelude::*;

verus! {

/// True when `l` is the start of the line containing position `pos`: the
/// position right after the last newline strictly before `pos`, or 0.
pub open spec fn line_start_of(s: Seq<char>, pos: int, l: int) -> bool {
    &&& 0 <= l <= pos
    &&& (l == 0 || s[l - 1] == '\n')
    &&& forall|m: int| l < m <= pos ==> #[trigger] s[m - 1] != '\n'
}

/// True when `e` is the end of the line containing position `pos`: the
/// first newline at or after `pos`, or the text's length.
pub open spec fn line_end_of(s: Seq<char>, pos: int, e: int) -> bool {
    &&& pos <= e <= s.len()
    &&& (e == s.len() || s[e] == '\n')
    &&& forall|m: int| pos <= m < e ==> #[trigger] s[m] != '\n'
}

/// At most one position is the start of a given line.
pub proof fn lemma_line_start_unique(s: Seq<char>, pos: int, l1: int, l2: int)
    requires
        line_start_of(s, pos, l1),
        line_start_of(s, pos, l2),
    ensures
        l1 == l2,
{
    if l1 < l2 {
        assert(s[l2 - 1] == '\n');
    }
    if l2 < l1 {
        assert(s[l1 - 1] == '\n');
    }
}

/// At most one position is the end of a given line.
pub proof fn lemma_line_end_unique(s: Seq<char>, pos: int, e1: int, e2: int)
    requires
        line_end_of(s, pos, e1),
        line_end_of(s, pos, e2),
    ensures
        e1 == e2,
{
    if e1 < e2 {
        assert(s[e1] == '\n');
    }
    if e2 < e1 {
        assert(s[e2] == '\n');
    }
}

/// Moves the cursor to the start of its current line.
pub fn move_cursor_to_line_start(text: &str, cursor_pos: usize) -> (r: usize)
    requires
        cursor_pos <= text@.len(),
    ensures
        line_start_of(text@, cursor_pos as int, r as int),
{
    let mut l: usize = cursor_pos;
    while l > 0
        invariant
            l <= cursor_pos <= text@.len(),
            forall|m: int| l < m <= cursor_pos ==> #[trigger] text@[m - 1] != '\n',
        decreases l,
    {
        if text.get_char(l - 1) == '\n' {
            return l;
        }
        l = l - 1;
    }
    l
}

/// Moves the cursor to the end of its current line.
pub fn move_cursor_to_line_end(text: &str, cursor_pos: usize) -> (r: usize)
    requires
        cursor_pos <= text@.len(),
    ensures
        line_end_of(text@, cursor_pos as int, r as int),
{
    let n = text.unicode_len();
    let mut e: usize = cursor_pos;
    while e < n
        invariant
            cursor_pos <= e <= n,
            n == text@.len(),
            forall|m: int| cursor_pos <= m < e ==> #[trigger] text@[m] != '\n',
        decreases n - e,
    {
        if text.get_char(e) == '\n' {
            return e;
        }
        e = e + 1;
    }
    e
}

/// Moves the cursor up one line, keeping its column where the previous
/// line is long enough and clamping to that line's end otherwise.  On the
/// first line the cursor moves to the start of the text.
pub fn move_cursor_up(text: &str, cursor_pos: usize) -> (r: usize)
    requires
        cursor_pos <= text@.len(),
    ensures
        cursor_pos == 0 ==> r == 0,
        forall|ls: int|
            line_start_of(text@, cursor_pos as int, ls) ==> ({
                &&& ls == 0 ==> r == 0
                &&& ls > 0 ==> forall|pls: int|
                    #[trigger] line_start_of(text@, ls - 1, pls) ==> ({
                        let column = cursor_pos - ls;
                        let prev_line_len = (ls - 1) - pls;
                        r == pls + (if column <= prev_line_len {
                            column
                        } else {
                            prev_line_len
                        })
                    })
            }),
{
    if cursor_pos == 0 {
        return 0;
    }
    let current_line_start = move_cursor_to_line_start(text, cursor_pos);
    proof {
        assert forall|ls: int|
            line_start_of(text@, cursor_pos as int, ls) implies ls
            == current_line_start as int by {
            lemma_line_start_unique(text@, cursor_pos as int, ls, current_line_start as int);
        }
    }
    if current_line_start == 0 {
        return 0;
    }
    let column = cursor_pos - current_line_start;
    let prev_line_start = move_cursor_to_line_start(text, current_line_start - 1);
    proof {
        assert forall|pls: int|
            #[trigger] line_start_of(text@, current_line_start as int - 1, pls) implies pls
            == prev_line_start as int by {
            lemma_line_start_unique(
                text@,
                current_line_start as int - 1,
                pls,
                prev_line_start as int,
            );
        }
    }
    let prev_line_len = (current_line_start - 1) - prev_line_start;
    if column <= prev_line_len {
        prev_line_start + column
    } else {
        prev_line_start + prev_line_len
    }
}

/// Moves the cursor down one line, keeping its column where the next line
/// is long enough and clamping to that line's end otherwise.  On the last
/// line the cursor moves to the end of the text.
pub fn move_cursor_down(text: &str, cursor_pos: usize) -> (r: usize)
    requires
        cursor_pos <= text@.len(),
    ensures
        cursor_pos == text@.len() ==> r == text@.len(),
        forall|ls: int, le: int|
            line_start_of(text@, cursor_pos as int, ls) && line_end_of(
                text@,
                cursor_pos as int,
                le,
            ) ==> ({
                &&& le == text@.len() ==> r == text@.len()
                &&& le < text@.len() ==> forall|nle: int|
                    #[trigger] line_end_of(text@, le + 1, nle) ==> ({
                        let column = cursor_pos - ls;
                        let next_line_start = le + 1;
                        let next_line_len = nle - next_line_start;
                        r == next_line_start + (if column <= next_line_len {
                            column
                        } else {
                            next_line_len
                        })
                    })
            }),
{
    let n = text.unicode_len();
    if cursor_pos >= n {
        return n;
    }
    let current_line_start = move_cursor_to_line_start(text, cursor_pos);
    let current_line_end = move_cursor_to_line_end(text, cursor_pos);
    proof {
        assert forall|ls: int|
            line_start_of(text@, cursor_pos as int, ls) implies ls
            == current_line_start as int by {
            lemma_line_start_unique(text@, cursor_pos as int, ls, current_line_start as int);
        }
        assert forall|le: int|
            line_end_of(text@, cursor_pos as int, le) implies le == current_line_end as int by {
            lemma_line_end_unique(text@, cursor_pos as int, le, current_line_end as int);
        }
    }
    if current_line_end >= n {
        return n;
    }
    let column = cursor_pos - current_line_start;
    let next_line_start = current_line_end + 1;
    let next_line_end = move_cursor_to_line_end(text, next_line_start);
    proof {
        assert forall|nle: int|
            #[trigger] line_end_of(text@, next_line_start as int, nle) implies nle
            == next_line_end as int by {
            lemma_line_end_unique(text@, next_line_start as int, nle, next_line_end as int);
        }
    }
    let next_line_len = next_line_end - next_line_start;
    if column <= next_line_len {
        next_line_start + column
    } else {
        next_line_start + next_line_len
    }
}

/// True when every string agrees with the first at position `j`.
pub open spec fn all_agree_at(strings: Seq<Seq<char>>, j: int) -> bool {
    forall|k: int|
        0 <= k < strings.len() ==> j < (#[trigger] strings[k]).len() && strings[k][j]
            == strings[0][j]
}

/// The longest prefix shared by every string: empty for no strings, the
/// whole string for one, and otherwise the longest prefix of the first
/// string on which all strings agree.
pub fn find_common_prefix(strings: &[String]) -> (r: String)
    ensures
        ({
            let sv = strings@.map_values(|s: String| s@);
            &&& strings@.len() == 0 ==> r@.len() == 0
            &&& strings@.len() == 1 ==> r@ == sv[0]
            &&& strings@.len() >= 2 ==> ({
                &&& r@.len() <= sv[0].len()
                &&& r@ == sv[0].subrange(0, r@.len() as int)
                &&& forall|j: int| 0 <= j < r@.len() ==> all_agree_at(sv, j)
                &&& r@.len() < sv[0].len() ==> !all_agree_at(sv, r@.len() as int)
            })
        }),
{
    let ghost sv = strings@.map_values(|s: String| s@);
    if strings.len() == 0 {
        return String::new();
    }
    if strings.len() == 1 {
        return strings[0].clone();
    }
    let first: &String = &strings[0];
    let n0 = first.as_str().unicode_len();
    let mut i: usize = 0;
    while i < n0
        invariant
            sv == strings@.map_values(|s: String| s@),
            strings@.len() >= 2,
            first@ == sv[0],
            n0 == sv[0].len(),
            i <= n0,
            forall|j: int| 0 <= j < i ==> all_agree_at(sv, j),
        decreases n0 - i,
    {
        let ch = first.as_str().get_char(i);
        let mut k: usize = 0;
        let mut agree = true;
        while k < strings.len()
            invariant
                sv == strings@.map_values(|s: String| s@),
                0 <= i < sv[0].len(),
                first@ == sv[0],
                ch == sv[0][i as int],
                k <= strings@.len(),
                agree <==> (forall|k2: int|
                    0 <= k2 < k ==> i < (#[trigger] sv[k2]).len() && sv[k2][i as int] == sv[0][
                        i as int
                    ]),
            decreases strings@.len() - k,
        {
            proof {
                assert(sv[k as int] == strings@[k as int]@);
            }
            if agree {
                let sk = &strings[k];
                let lk = sk.as_str().unicode_len();
                if i < lk {
                    if sk.as_str().get_char(i) != ch {
                        proof {
                            assert(sv[k as int][i as int] != sv[0][i as int]);
                        }
                        agree = false;
                    }
                } else {
                    proof {
                        assert(!(i < sv[k as int].len()));
                    }
                    agree = false;
                }
            }
            k = k + 1;
        }
        if !agree {
            proof {
                assert(!all_agree_at(sv, i as int));
            }
            return first.as_str().substring_char(0, i).to_owned();
        }
        proof {
            assert(all_agree_at(sv, i as int));
        }
        i = i + 1;
    }
    proof {
        assert(first@ =~= sv[0].subrange(0, n0 as int));
    }
    first.clone()
}

} // verus!
