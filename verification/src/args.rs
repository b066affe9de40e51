//! The raw flag set collected from the command line, and the parser that
//! produces it.
//!
//! A command line is a sequence of words whose first element is the program
//! name. Every later word is either one of the six recognized flags, some
//! other word beginning with `-` (rejected as unknown), or a positional
//! argument naming an input file.

use vstd::prelude::*;
use vstd::string::*;

verus! {

/// The raw boolean inputs collected from the command line, plus the
/// positional input paths. All combinations of the booleans are legal;
/// `input` is `None` when no path was given.
#[derive(Debug)]
pub struct Args {
    pub all: bool,
    pub show_end: bool,
    pub show_tab: bool,
    pub show_end_partial: bool,
    pub show_tab_partial: bool,
    pub show_non_printing: bool,
    pub input: Option<Vec<String>>,
}

/// A word beginning with `-` that is none of the six recognized flags.
#[derive(Debug)]
pub struct ParseError {
    pub arg: String,
}

/// Whether the word is one of the six recognized flags.
pub open spec fn is_known_flag(w: Seq<char>) -> bool {
    w == "-a"@ || w == "-e"@ || w == "-t"@ || w == "-E"@ || w == "-T"@ || w == "-v"@
}

/// Whether the word is rejected: it begins with `-`, is longer than the
/// lone `-`, and is not a recognized flag.
pub open spec fn is_unknown_flag(w: Seq<char>) -> bool {
    w.len() >= 2 && w[0] == '-' && !is_known_flag(w)
}

/// Whether the word is a positional argument (an input path).
pub open spec fn is_positional(w: Seq<char>) -> bool {
    !is_known_flag(w) && !is_unknown_flag(w)
}

/// Whether the flag word `lit` occurs among `words`.
pub open spec fn flag_on(words: Seq<Seq<char>>, lit: Seq<char>) -> bool
    decreases words.len(),
{
    if words.len() == 0 {
        false
    } else {
        flag_on(words.drop_last(), lit) || words.last() == lit
    }
}

/// The positional arguments of `words`, in order.
pub open spec fn positional_of(words: Seq<Seq<char>>) -> Seq<Seq<char>>
    decreases words.len(),
{
    if words.len() == 0 {
        Seq::empty()
    } else if is_positional(words.last()) {
        positional_of(words.drop_last()).push(words.last())
    } else {
        positional_of(words.drop_last())
    }
}

/// Whether some word of `words` is an unknown flag.
pub open spec fn has_unknown_flag(words: Seq<Seq<char>>) -> bool {
    exists|i: int| 0 <= i < words.len() && is_unknown_flag(words[i])
}

/// The command-line words after the program name: everything past the first
/// element, or nothing when the line is empty.
pub open spec fn tail_words(argv: Seq<Seq<char>>) -> Seq<Seq<char>> {
    if argv.len() == 0 {
        argv
    } else {
        argv.drop_first()
    }
}

/// The view of the parsed positional arguments: `None` when there are none.
pub open spec fn input_view(input: Option<Vec<String>>) -> Option<Seq<Seq<char>>> {
    match input {
        Option::None => Option::None,
        Option::Some(v) => Option::Some(v.deep_view()),
    }
}

impl Args {
    /// Parse a command line into an `Args` value. The first word is the
    /// program name and is ignored. Each recognized flag sets its field, any
    /// other word beginning with `-` is rejected as unknown (the first such
    /// word is reported), and the remaining words become the input paths in
    /// order, `None` when there are none.
    pub fn parse_from(argv: &Vec<String>) -> (r: Result<Args, ParseError>)
        ensures
            (r is Ok) == !has_unknown_flag(tail_words(argv.deep_view())),
            r matches Ok(a) ==> {
                &&& a.all == flag_on(tail_words(argv.deep_view()), "-a"@)
                &&& a.show_end == flag_on(tail_words(argv.deep_view()), "-e"@)
                &&& a.show_tab == flag_on(tail_words(argv.deep_view()), "-t"@)
                &&& a.show_end_partial == flag_on(tail_words(argv.deep_view()), "-E"@)
                &&& a.show_tab_partial == flag_on(tail_words(argv.deep_view()), "-T"@)
                &&& a.show_non_printing == flag_on(tail_words(argv.deep_view()), "-v"@)
                &&& input_view(a.input) == (if positional_of(
                    tail_words(argv.deep_view()),
                ).len() == 0 {
                    Option::<Seq<Seq<char>>>::None
                } else {
                    Option::Some(positional_of(tail_words(argv.deep_view())))
                })
            },
            r matches Err(e) ==> exists|k: int|
                {
                    &&& 1 <= k < argv.deep_view().len()
                    &&& is_unknown_flag(argv.deep_view()[k])
                    &&& e.arg@ == argv.deep_view()[k]
                    &&& forall|j: int|
                        1 <= j < k ==> !is_unknown_flag(#[trigger] argv.deep_view()[j])
                },
    {
        let flag_all: String = String::from_str("-a");
        let flag_end: String = String::from_str("-e");
        let flag_tab: String = String::from_str("-t");
        let flag_end_partial: String = String::from_str("-E");
        let flag_tab_partial: String = String::from_str("-T");
        let flag_non_printing: String = String::from_str("-v");
        let mut all: bool = false;
        let mut show_end: bool = false;
        let mut show_tab: bool = false;
        let mut show_end_partial: bool = false;
        let mut show_tab_partial: bool = false;
        let mut show_non_printing: bool = false;
        let mut inputs: Vec<String> = Vec::new();
        let mut i: usize = 1;
        let ghost words: Seq<Seq<char>> = tail_words(argv.deep_view());
        while i < argv.len()
            invariant
                1 <= i <= argv.len() || (argv.len() == 0 && i == 1),
                flag_all@ == "-a"@,
                flag_end@ == "-e"@,
                flag_tab@ == "-t"@,
                flag_end_partial@ == "-E"@,
                flag_tab_partial@ == "-T"@,
                flag_non_printing@ == "-v"@,
                words == tail_words(argv.deep_view()),
                words.len() == (if argv.len() == 0 {
                    0int
                } else {
                    argv.len() - 1
                }),
                forall|j: int| 0 <= j < words.len() ==> #[trigger] words[j] == argv.deep_view()[j + 1],
                all == flag_on(words.subrange(0, i - 1), "-a"@),
                show_end == flag_on(words.subrange(0, i - 1), "-e"@),
                show_tab == flag_on(words.subrange(0, i - 1), "-t"@),
                show_end_partial == flag_on(words.subrange(0, i - 1), "-E"@),
                show_tab_partial == flag_on(words.subrange(0, i - 1), "-T"@),
                show_non_printing == flag_on(words.subrange(0, i - 1), "-v"@),
                inputs.deep_view() == positional_of(words.subrange(0, i - 1)),
                forall|j: int| 0 <= j < i - 1 ==> !is_unknown_flag(#[trigger] words[j]),
            decreases argv.len() - i,
        {
            let arg: &String = &argv[i];
            let ghost prefix: Seq<Seq<char>> = words.subrange(0, i - 1);
            proof {
                assert(arg@ == words[i - 1]);
                assert(words.subrange(0, i as int).drop_last() =~= prefix);
                assert(words.subrange(0, i as int).last() == arg@);
            }
            let is_all = arg.eq(&flag_all);
            let is_end = arg.eq(&flag_end);
            let is_tab = arg.eq(&flag_tab);
            let is_end_partial = arg.eq(&flag_end_partial);
            let is_tab_partial = arg.eq(&flag_tab_partial);
            let is_non_printing = arg.eq(&flag_non_printing);
            if is_all {
                all = true;
            }
            if is_end {
                show_end = true;
            }
            if is_tab {
                show_tab = true;
            }
            if is_end_partial {
                show_end_partial = true;
            }
            if is_tab_partial {
                show_tab_partial = true;
            }
            if is_non_printing {
                show_non_printing = true;
            }
            if !is_all && !is_end && !is_tab && !is_end_partial && !is_tab_partial
                && !is_non_printing {
                if arg.as_str().unicode_len() >= 2 && arg.as_str().get_char(0) == '-' {
                    proof {
                        assert(is_unknown_flag(arg@));
                        assert(argv.deep_view()[i as int] == words[i - 1]);
                        assert(forall|j: int|
                            1 <= j < i ==> !is_unknown_flag(#[trigger] argv.deep_view()[j])) by {
                            assert(forall|j: int|
                                1 <= j < i ==> #[trigger] argv.deep_view()[j] == words[j - 1]);
                        }
                        assert({
                            &&& 1 <= i < argv.deep_view().len()
                            &&& is_unknown_flag(argv.deep_view()[i as int])
                            &&& forall|j: int|
                                1 <= j < i ==> !is_unknown_flag(#[trigger] argv.deep_view()[j])
                        });
                    }
                    return Err(ParseError { arg: arg.clone() });
                } else {
                    assert(is_positional(arg@));
                    inputs.push(arg.clone());
                }
            }
            proof {
                assert(inputs.deep_view() =~= positional_of(words.subrange(0, i as int)));
            }
            i = i + 1;
        }
        proof {
            assert(words.subrange(0, words.len() as int) =~= words);
        }
        let input: Option<Vec<String>> = if inputs.len() == 0 {
            Option::None
        } else {
            Option::Some(inputs)
        };
        Ok(
            Args {
                all,
                show_end,
                show_tab,
                show_end_partial,
                show_tab_partial,
                show_non_printing,
                input,
            },
        )
    }
}

} // verus!
