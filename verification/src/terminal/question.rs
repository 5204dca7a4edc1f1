//! Ask a question and get an answer: the value-level half. Building the
//! prompt text and resolving the typed line against the default are decided
//! here; printing the prompt and reading the line stay with the caller.

use vstd::prelude::*;

use crate::strings::{trim, trim_of};

verus! {

/// Ask a question and get an answer.
pub struct Question {
    text: String,
    default: Option<String>,
    options: Vec<String>,
}

/// The mathematical image of a [`Question`].
pub struct QuestionData {
    pub text: Seq<char>,
    pub default: Option<Seq<char>>,
    pub options: Seq<Seq<char>>,
}

impl View for Question {
    type V = QuestionData;

    closed spec fn view(&self) -> QuestionData {
        QuestionData {
            text: self.text@,
            default: match self.default {
                Some(d) => Some(d@),
                None => None,
            },
            options: self.options@.map_values(|o: String| o@),
        }
    }
}

/// The options joined with a slash: `a/b/c`.
pub open spec fn options_joined(opts: Seq<Seq<char>>) -> Seq<char>
    decreases opts.len(),
{
    if opts.len() == 0 {
        Seq::empty()
    } else if opts.len() == 1 {
        opts[0]
    } else {
        options_joined(opts.drop_last()) + "/"@ + opts.last()
    }
}

/// The prompt shown for a question: the text, then the options in
/// parentheses when there are any, else a hint naming the default when one
/// is set.
pub open spec fn prompt_of(q: QuestionData) -> Seq<char> {
    if q.options.len() > 0 {
        " "@ + q.text + " ("@ + options_joined(q.options) + ")"@
    } else if q.default is Some {
        " "@ + q.text + " Hit ENTER to use default ("@ + q.default->0 + ")"@
    } else {
        " "@ + q.text + " "@
    }
}

/// The answer derived from the line the user typed: the default when one is
/// set and the line is a bare newline, else the line itself, trimmed of
/// surrounding whitespace either way (the `char::is_whitespace` set, see
/// [`crate::strings::is_space`]).
pub open spec fn answer_of(q: QuestionData, line: Seq<char>) -> Seq<char> {
    if q.default is Some && line == "\n"@ {
        trim_of(q.default->0)
    } else {
        trim_of(line)
    }
}

impl Question {
    /// A question with the given text, no default and no options.
    pub fn new(text: &str) -> (r: Self)
        ensures
            r@.text == text@,
            r@.default is None,
            r@.options == Seq::<Seq<char>>::empty(),
    {
        let r = Question { text: String::from_str(text), default: None, options: Vec::new() };
        proof {
            assert(r@.options =~= Seq::<Seq<char>>::empty());
        }
        r
    }

    /// The same question with a default answer set.
    pub fn with_default(self, default: &str) -> (r: Self)
        ensures
            r@.text == self@.text,
            r@.default == Some(default@),
            r@.options == self@.options,
    {
        Question { text: self.text, default: Some(String::from_str(default)), options: self.options }
    }

    /// The same question with one more answer option appended.
    pub fn with_option(self, option: &str) -> (r: Self)
        ensures
            r@.text == self@.text,
            r@.default == self@.default,
            r@.options == self@.options.push(option@),
    {
        let ghost prev = self.options@;
        let mut options = self.options;
        options.push(String::from_str(option));
        let r = Question { text: self.text, default: self.default, options };
        proof {
            assert(r@.options =~= prev.map_values(|o: String| o@).push(option@));
        }
        r
    }

    /// The prompt to show for this question.
    pub fn prompt(&self) -> (r: String)
        ensures
            r@ == prompt_of(self@),
    {
        let ghost ov = self@.options;
        let mut out = String::new();
        out.append(" ");
        out.append(self.text.as_str());
        if self.options.len() > 0 {
            out.append(" (");
            let ghost head = out@;
            let k = self.options.len();
            let mut j: usize = 0;
            proof {
                assert(head + options_joined(ov.take(0)) =~= head);
            }
            while j < k
                invariant
                    k == self.options@.len(),
                    ov == self@.options,
                    0 <= j <= k,
                    out@ == head + options_joined(ov.take(j as int)),
                decreases k - j,
            {
                proof {
                    assert(ov.take(j as int + 1).drop_last() =~= ov.take(j as int));
                    assert(ov.take(j as int + 1).last() == ov[j as int]);
                    assert(ov.take(1)[0] == ov[0]);
                }
                if j > 0 {
                    out.append("/");
                }
                out.append(self.options[j].as_str());
                proof {
                    assert(out@ =~= head + options_joined(ov.take(j as int + 1)));
                }
                j = j + 1;
            }
            out.append(")");
            proof {
                assert(ov.take(k as int) =~= ov);
                assert(out@ =~= prompt_of(self@));
            }
        } else {
            match &self.default {
                Some(d) => {
                    out.append(" Hit ENTER to use default (");
                    out.append(d.as_str());
                    out.append(")");
                    proof {
                        assert(out@ =~= prompt_of(self@));
                    }
                },
                None => {
                    out.append(" ");
                    proof {
                        assert(out@ =~= prompt_of(self@));
                    }
                },
            }
        }
        out
    }

    /// Resolves the line read from the user into this question's answer:
    /// a bare newline selects the default when one is set; the answer is
    /// trimmed of surrounding whitespace.
    pub fn ask(&self, line: &str) -> (r: String)
        ensures
            r@ == answer_of(self@, line@),
    {
        let is_newline = line.unicode_len() == 1 && line.get_char(0) == '\n';
        proof {
            reveal_strlit("\n");
            if is_newline {
                assert(line@ =~= "\n"@);
            } else {
                assert(line@ != "\n"@);
            }
        }
        match &self.default {
            Some(d) => {
                if is_newline {
                    return trim(d.as_str());
                }
            },
            None => {},
        }
        trim(line)
    }
}

/// Picks the first option a pressed key matches, if any: the decision made
/// when the caller reads single-character answers.
pub fn choose_option(options: &Vec<char>, pressed: char) -> (r: Option<usize>)
    ensures
        r matches Some(i) ==> i < options@.len() && options@[i as int] == pressed && (forall|j: int|
            0 <= j < i ==> options@[j] != pressed),
        r is None ==> forall|j: int| 0 <= j < options@.len() ==> options@[j] != pressed,
{
    let n = options.len();
    let mut i: usize = 0;
    while i < n
        invariant
            n == options@.len(),
            0 <= i <= n,
            forall|j: int| 0 <= j < i ==> options@[j] != pressed,
        decreases n - i,
    {
        if options[i] == pressed {
            return Some(i);
        }
        i = i + 1;
    }
    None
}

} // verus!
