//! Rendering a unit of text under a transformation set.
//!
//! With tab visualization on, every horizontal tab becomes the two
//! characters `^I`; with end visualization on, a `$` is placed before every
//! line feed. Afterwards the trailing whitespace of the unit is trimmed,
//! since the sink appends its own line terminator.

use crate::options::OutputOptions;
use vstd::prelude::*;
use vstd::string::*;

verus! {

/// What one character contributes when tabs are visualized.
pub open spec fn tab_mark(c: char) -> Seq<char> {
    if c == '\t' {
        seq!['^', 'I']
    } else {
        seq![c]
    }
}

/// The text with every horizontal tab replaced by `^I`.
pub open spec fn tabs_shown(s: Seq<char>) -> Seq<char>
    decreases s.len(),
{
    if s.len() == 0 {
        Seq::empty()
    } else {
        tabs_shown(s.drop_last()) + tab_mark(s.last())
    }
}

/// What one character contributes when line ends are visualized.
pub open spec fn end_mark(c: char) -> Seq<char> {
    if c == '\n' {
        seq!['$', '\n']
    } else {
        seq![c]
    }
}

/// The text with a `$` placed before every line feed.
pub open spec fn ends_shown(s: Seq<char>) -> Seq<char>
    decreases s.len(),
{
    if s.len() == 0 {
        Seq::empty()
    } else {
        ends_shown(s.drop_last()) + end_mark(s.last())
    }
}

/// The whitespace characters that trailing trimming removes.
pub open spec fn is_trim_blank(c: char) -> bool {
    c == ' ' || c == '\t' || c == '\n' || c == '\r' || c == '\u{B}' || c == '\u{C}'
}

/// The text with its trailing whitespace removed.
pub open spec fn trimmed_end(s: Seq<char>) -> Seq<char>
    decreases s.len(),
{
    if s.len() > 0 && is_trim_blank(s.last()) {
        trimmed_end(s.drop_last())
    } else {
        s
    }
}

/// The full rendering of a unit of text: tab substitution if enabled, then
/// end substitution if enabled, then the trailing trim.
pub open spec fn rendered(show_tabs: bool, show_ends: bool, s: Seq<char>) -> Seq<char> {
    trimmed_end(
        if show_ends {
            ends_shown(
                if show_tabs {
                    tabs_shown(s)
                } else {
                    s
                },
            )
        } else {
            if show_tabs {
                tabs_shown(s)
            } else {
                s
            }
        },
    )
}

/// Replace every horizontal tab with `^I`.
fn show_tabs_in(s: &str) -> (r: String)
    ensures
        r@ == tabs_shown(s@),
{
    let n: usize = s.unicode_len();
    let mut r: String = String::new();
    let mut i: usize = 0;
    while i < n
        invariant
            0 <= i <= n,
            n == s@.len(),
            r@ == tabs_shown(s@.subrange(0, i as int)),
        decreases n - i,
    {
        proof {
            assert(s@.subrange(0, i + 1).drop_last() =~= s@.subrange(0, i as int));
            assert(s@.subrange(0, i + 1).last() == s@[i as int]);
        }
        let c = s.get_char(i);
        if c == '\t' {
            r.append("^I");
            proof {
                reveal_strlit("^I");
                assert(r@ =~= tabs_shown(s@.subrange(0, i + 1)));
            }
        } else {
            r.append(s.substring_char(i, i + 1));
            proof {
                assert(s@.subrange(i as int, i + 1) =~= seq![s@[i as int]]);
                assert(r@ =~= tabs_shown(s@.subrange(0, i + 1)));
            }
        }
        i = i + 1;
    }
    proof {
        assert(s@.subrange(0, n as int) =~= s@);
    }
    r
}

/// Place a `$` before every line feed.
fn show_ends_in(s: &str) -> (r: String)
    ensures
        r@ == ends_shown(s@),
{
    let n: usize = s.unicode_len();
    let mut r: String = String::new();
    let mut i: usize = 0;
    while i < n
        invariant
            0 <= i <= n,
            n == s@.len(),
            r@ == ends_shown(s@.subrange(0, i as int)),
        decreases n - i,
    {
        proof {
            assert(s@.subrange(0, i + 1).drop_last() =~= s@.subrange(0, i as int));
            assert(s@.subrange(0, i + 1).last() == s@[i as int]);
        }
        let c = s.get_char(i);
        if c == '\n' {
            r.append("$\n");
            proof {
                reveal_strlit("$\n");
                assert(r@ =~= ends_shown(s@.subrange(0, i + 1)));
            }
        } else {
            r.append(s.substring_char(i, i + 1));
            proof {
                assert(s@.subrange(i as int, i + 1) =~= seq![s@[i as int]]);
                assert(r@ =~= ends_shown(s@.subrange(0, i + 1)));
            }
        }
        i = i + 1;
    }
    proof {
        assert(s@.subrange(0, n as int) =~= s@);
    }
    r
}

/// Whether trimming removes the character.
fn is_blank_char(c: char) -> (r: bool)
    ensures
        r == is_trim_blank(c),
{
    c == ' ' || c == '\t' || c == '\n' || c == '\r' || c == '\u{B}' || c == '\u{C}'
}

/// Remove the trailing whitespace of the text.
fn trim_end_in(s: &str) -> (r: String)
    ensures
        r@ == trimmed_end(s@),
{
    let n: usize = s.unicode_len();
    let mut j: usize = n;
    proof {
        assert(s@.subrange(0, n as int) =~= s@);
    }
    while j > 0 && is_blank_char(s.get_char(j - 1))
        invariant
            0 <= j <= n,
            n == s@.len(),
            trimmed_end(s@) == trimmed_end(s@.subrange(0, j as int)),
        decreases j,
    {
        proof {
            assert(s@.subrange(0, j as int).last() == s@[j - 1]);
            assert(s@.subrange(0, j as int).drop_last() =~= s@.subrange(0, j - 1));
        }
        j = j - 1;
    }
    proof {
        if j > 0 {
            assert(s@.subrange(0, j as int).last() == s@[j - 1]);
        }
        assert(trimmed_end(s@.subrange(0, j as int)) == s@.subrange(0, j as int));
    }
    let r = s.substring_char(0, j).to_owned();
    r
}

/// Render one unit of text under the given transformation set: substitute
/// tabs and line ends as enabled, then trim the trailing whitespace.
pub fn transform_unit(opts: &OutputOptions, input: &str) -> (r: String)
    ensures
        r@ == rendered(opts.show_tabs, opts.show_ends, input@),
{
    let stage_tabs: String = if opts.show_tabs {
        show_tabs_in(input)
    } else {
        input.to_owned()
    };
    let stage_ends: String = if opts.show_ends {
        show_ends_in(stage_tabs.as_str())
    } else {
        stage_tabs
    };
    trim_end_in(stage_ends.as_str())
}

/// Tab substitution distributes over concatenation.
pub proof fn lemma_tabs_shown_concat(a: Seq<char>, b: Seq<char>)
    ensures
        tabs_shown(a + b) == tabs_shown(a) + tabs_shown(b),
    decreases b.len(),
{
    if b.len() == 0 {
        assert(a + b =~= a);
        assert(tabs_shown(a) + tabs_shown(b) =~= tabs_shown(a));
    } else {
        lemma_tabs_shown_concat(a, b.drop_last());
        assert((a + b).drop_last() =~= a + b.drop_last());
        assert(tabs_shown(a) + (tabs_shown(b.drop_last()) + tab_mark(b.last())) =~= (tabs_shown(a)
            + tabs_shown(b.drop_last())) + tab_mark(b.last()));
    }
}

/// End substitution distributes over concatenation.
pub proof fn lemma_ends_shown_concat(a: Seq<char>, b: Seq<char>)
    ensures
        ends_shown(a + b) == ends_shown(a) + ends_shown(b),
    decreases b.len(),
{
    if b.len() == 0 {
        assert(a + b =~= a);
        assert(ends_shown(a) + ends_shown(b) =~= ends_shown(a));
    } else {
        lemma_ends_shown_concat(a, b.drop_last());
        assert((a + b).drop_last() =~= a + b.drop_last());
        assert(ends_shown(a) + (ends_shown(b.drop_last()) + end_mark(b.last())) =~= (ends_shown(a)
            + ends_shown(b.drop_last())) + end_mark(b.last()));
    }
}

/// The two substitutions target disjoint characters, so they do not
/// interfere: applying them in either order yields the same text.
pub proof fn lemma_substitutions_commute(s: Seq<char>)
    ensures
        ends_shown(tabs_shown(s)) == tabs_shown(ends_shown(s)),
    decreases s.len(),
{
    if s.len() > 0 {
        let p = s.drop_last();
        let c = s.last();
        lemma_substitutions_commute(p);
        lemma_ends_shown_concat(tabs_shown(p), tab_mark(c));
        lemma_tabs_shown_concat(ends_shown(p), end_mark(c));
        assert(ends_shown(tab_mark(c)) =~= tabs_shown(end_mark(c))) by {
            reveal_with_fuel(tabs_shown, 3);
            reveal_with_fuel(ends_shown, 3);
            if c == '\t' {
                assert(seq!['^', 'I'].drop_last() =~= seq!['^']);
                assert(seq!['^'].drop_last() =~= Seq::<char>::empty());
                assert(seq!['\t'].drop_last() =~= Seq::<char>::empty());
            } else if c == '\n' {
                assert(seq!['$', '\n'].drop_last() =~= seq!['$']);
                assert(seq!['$'].drop_last() =~= Seq::<char>::empty());
                assert(seq!['\n'].drop_last() =~= Seq::<char>::empty());
            } else {
                assert(seq![c].drop_last() =~= Seq::<char>::empty());
            }
        }
    }
}

/// Rendering with both substitutions enabled may substitute line ends
/// before tabs instead: the result is the same.
pub proof fn lemma_render_order_irrelevant(s: Seq<char>)
    ensures
        rendered(true, true, s) == trimmed_end(tabs_shown(ends_shown(s))),
{
    lemma_substitutions_commute(s);
}

/// Trimming is idempotent: a trimmed unit is left unchanged by a second
/// trim.
pub proof fn lemma_trim_idempotent(s: Seq<char>)
    ensures
        trimmed_end(trimmed_end(s)) == trimmed_end(s),
    decreases s.len(),
{
    if s.len() > 0 && is_trim_blank(s.last()) {
        lemma_trim_idempotent(s.drop_last());
    }
}

/// With no transformation enabled the renderer is a passthrough up to the
/// trailing trim: one application yields the input trimmed of trailing
/// whitespace, and a second application leaves that result unchanged.
pub proof fn lemma_passthrough_idempotent(s: Seq<char>)
    ensures
        rendered(false, false, s) == trimmed_end(s),
        rendered(false, false, rendered(false, false, s)) == rendered(false, false, s),
{
    lemma_trim_idempotent(s);
}

} // verus!
