//! The calculator: an input line of digits, points, spaces and the four
//! operators, and the result of the last evaluation. Evaluation splits the
//! input at its operator; the arithmetic on the two numbers is done by the
//! caller, in floating point.

use vstd::prelude::*;
use vstd::string::StringExecFns;

use crate::input::Key;
use crate::text::chars_of;
use crate::text::pop_char;
use crate::text::push_char;
use crate::text::string_of;

verus! {

/// The calculator's state.
pub struct Calculator {
    pub input: String,
    pub result: String,
}

/// An input split for evaluation: two operands around an operator, or a
/// lone number. The operands are left as text.
pub enum Expression {
    Binary { op: char, left: String, right: String },
    Number(String),
}

/// An `Expression` as a mathematical value.
pub enum ExpressionView {
    Binary { op: char, left: Seq<char>, right: Seq<char> },
    Number(Seq<char>),
}

impl View for Expression {
    type V = ExpressionView;

    open spec fn view(&self) -> ExpressionView {
        match self {
            Expression::Binary { op, left, right } => ExpressionView::Binary {
                op: *op,
                left: left@,
                right: right@,
            },
            Expression::Number(s) => ExpressionView::Number(s@),
        }
    }
}

/// Whether the calculator takes `c` into its input.
pub open spec fn accepts(c: char) -> bool {
    c == '0' || c == '1' || c == '2' || c == '3' || c == '4' || c == '5' || c == '6' || c == '7'
        || c == '8' || c == '9' || c == '+' || c == '-' || c == '*' || c == '/' || c == '.'
        || c == ' '
}

/// The input line after a key: accepted characters are appended,
/// Backspace removes the last character, Esc clears the line, and other
/// keys leave it.
pub open spec fn typed(input: Seq<char>, key: Key) -> Seq<char> {
    match key {
        Key::Char(c) => if accepts(c) {
            input.push(c)
        } else {
            input
        },
        Key::Backspace => if input.len() > 0 {
            input.drop_last()
        } else {
            input
        },
        Key::Esc => seq![],
        _ => input,
    }
}

/// `s` with every space removed.
pub open spec fn remove_spaces(s: Seq<char>) -> Seq<char>
    decreases s.len(),
{
    if s.len() == 0 {
        seq![]
    } else if s.last() == ' ' {
        remove_spaces(s.drop_last())
    } else {
        remove_spaces(s.drop_last()).push(s.last())
    }
}

/// The position of the first `c` in `s`, if there is one.
pub open spec fn first_index(s: Seq<char>, c: char) -> Option<int>
    decreases s.len(),
{
    if s.len() == 0 {
        None
    } else if s[0] == c {
        Some(0)
    } else {
        match first_index(s.drop_first(), c) {
            Some(i) => Some(i + 1),
            None => None,
        }
    }
}

/// Whether `op` splits `t`: it occurs in `t`, and its first occurrence is
/// not a leading minus sign.
pub open spec fn splits_at(t: Seq<char>, op: char) -> bool {
    match first_index(t, op) {
        Some(i) => !(i == 0 && op == '-'),
        None => false,
    }
}

/// The operator that `t` is split at: the first of `+`, `-`, `*`, `/`, in
/// that order, that splits it.
pub open spec fn chosen_operator(t: Seq<char>) -> Option<char> {
    if splits_at(t, '+') {
        Some('+')
    } else if splits_at(t, '-') {
        Some('-')
    } else if splits_at(t, '*') {
        Some('*')
    } else if splits_at(t, '/') {
        Some('/')
    } else {
        None
    }
}

/// How an input line is read: spaces are dropped, and the rest is split
/// around the first occurrence of the chosen operator, or kept whole.
pub open spec fn parse(input: Seq<char>) -> ExpressionView {
    let t = remove_spaces(input);
    match chosen_operator(t) {
        Some(op) => match first_index(t, op) {
            Some(i) => ExpressionView::Binary { op, left: t.take(i), right: t.skip(i + 1) },
            None => ExpressionView::Number(t),
        },
        None => ExpressionView::Number(t),
    }
}

/// The text the calculator screen shows for an input and a result.
pub open spec fn calculator_text(input: Seq<char>, result: Seq<char>) -> Seq<char> {
    "\n   📊 Expressive TUI Calculator\n\n   Input:  "@ + input + "\n   Result: "@ + result
        + "\n\n   Controls: Type math (e.g., 5 * 15), press Enter to evaluate.\n   Press Esc inside this tab to clear."@
}

proof fn lemma_first_index(s: Seq<char>, c: char, i: int)
    requires
        0 <= i <= s.len(),
        forall|j: int| 0 <= j < i ==> s[j] != c,
    ensures
        i < s.len() && s[i] == c ==> first_index(s, c) == Some(i),
        i == s.len() ==> first_index(s, c) == None::<int>,
    decreases s.len(),
{
    if s.len() > 0 && i > 0 {
        lemma_first_index(s.drop_first(), c, i - 1);
    }
}

proof fn lemma_first_index_found(s: Seq<char>, c: char)
    ensures
        first_index(s, c) matches Some(i) ==> 0 <= i < s.len() && s[i] == c,
    decreases s.len(),
{
    if s.len() > 0 && s[0] != c {
        lemma_first_index_found(s.drop_first(), c);
    }
}

/// Whether `i` is the position of the first `c` in `t`.
pub open spec fn first_at(t: Seq<char>, c: char, i: int) -> bool {
    &&& 0 <= i < t.len()
    &&& t[i] == c
    &&& forall|j: int| 0 <= j < i ==> t[j] != c
}

proof fn lemma_remove_spaces_is_filter(s: Seq<char>)
    ensures
        remove_spaces(s) == s.filter(|c: char| c != ' '),
    decreases s.len(),
{
    reveal(Seq::filter);
    if s.len() > 0 {
        lemma_remove_spaces_is_filter(s.drop_last());
    }
}

proof fn lemma_first_at(t: Seq<char>, c: char)
    ensures
        forall|i: int| first_at(t, c, i) ==> first_index(t, c) == Some(i),
        !t.contains(c) ==> first_index(t, c) == None::<int>,
{
    assert forall|i: int| first_at(t, c, i) implies first_index(t, c) == Some(i) by {
        lemma_first_index(t, c, i);
    }
    if !t.contains(c) {
        assert forall|j: int| 0 <= j < t.len() implies t[j] != c by {
            if t[j] == c {
                assert(t.contains(c));
            }
        }
        lemma_first_index(t, c, t.len() as int);
    }
}

/// How an input line is split, with the spaces dropped (`t`): at the first
/// `+` if there is one; else at the first `-` unless that leads `t`; else
/// at the first `*`; else at the first `/`; with none of these, `t` is a
/// lone number. The operands are the text before and after the operator.
pub proof fn split_at_first_operator(input: Seq<char>)
    ensures
        ({
            let t = input.filter(|c: char| c != ' ');
            let left_at = |i: int| t.take(i);
            let right_at = |i: int| t.skip(i + 1);
            let no_plus = !t.contains('+');
            let minus_leads_or_absent = !t.contains('-') || first_at(t, '-', 0);
            &&& forall|i: int|
                first_at(t, '+', i) ==> parse(input) == ExpressionView::Binary {
                    op: '+',
                    left: left_at(i),
                    right: right_at(i),
                }
            &&& forall|i: int|
                no_plus && i > 0 && first_at(t, '-', i) ==> parse(input) == ExpressionView::Binary {
                    op: '-',
                    left: left_at(i),
                    right: right_at(i),
                }
            &&& forall|i: int|
                no_plus && minus_leads_or_absent && first_at(t, '*', i) ==> parse(input)
                    == ExpressionView::Binary { op: '*', left: left_at(i), right: right_at(i) }
            &&& forall|i: int|
                no_plus && minus_leads_or_absent && !t.contains('*') && first_at(t, '/', i)
                    ==> parse(input) == ExpressionView::Binary {
                    op: '/',
                    left: left_at(i),
                    right: right_at(i),
                }
            &&& no_plus && minus_leads_or_absent && !t.contains('*') && !t.contains('/')
                ==> parse(input) == ExpressionView::Number(t)
        }),
{
    let t = input.filter(|c: char| c != ' ');
    lemma_remove_spaces_is_filter(input);
    lemma_first_at(t, '+');
    lemma_first_at(t, '-');
    lemma_first_at(t, '*');
    lemma_first_at(t, '/');
    lemma_first_index_found(t, '+');
    lemma_first_index_found(t, '-');
    lemma_first_index_found(t, '*');
    lemma_first_index_found(t, '/');
    if first_at(t, '-', 0) {
        assert(first_index(t, '-') == Some(0int));
    }
}

/// Keys edit the input line: each of the characters `0123456789+-*/. `
/// is appended and every other character is ignored; Backspace removes
/// the last character, if any; Esc empties the line; other keys leave it.
pub proof fn keys_edit_input(input: Seq<char>, c: char)
    ensures
        seq!['0', '1', '2', '3', '4', '5', '6', '7', '8', '9', '+', '-', '*', '/', '.', ' '].contains(c)
            ==> typed(input, Key::Char(c)) == input.push(c),
        !seq!['0', '1', '2', '3', '4', '5', '6', '7', '8', '9', '+', '-', '*', '/', '.', ' '].contains(c)
            ==> typed(input, Key::Char(c)) == input,
        input.len() > 0 ==> typed(input, Key::Backspace) == input.take(input.len() - 1),
        input.len() == 0 ==> typed(input, Key::Backspace) == input,
        typed(input, Key::Esc).len() == 0,
        typed(input, Key::Enter) == input,
        typed(input, Key::Left) == input,
        typed(input, Key::Right) == input,
        typed(input, Key::Other) == input,
{
    let chars = seq!['0', '1', '2', '3', '4', '5', '6', '7', '8', '9', '+', '-', '*', '/', '.', ' '];
    if accepts(c) {
        if c == '0' { assert(chars[0] == c); } else if c == '1' { assert(chars[1] == c); }
        else if c == '2' { assert(chars[2] == c); } else if c == '3' { assert(chars[3] == c); }
        else if c == '4' { assert(chars[4] == c); } else if c == '5' { assert(chars[5] == c); }
        else if c == '6' { assert(chars[6] == c); } else if c == '7' { assert(chars[7] == c); }
        else if c == '8' { assert(chars[8] == c); } else if c == '9' { assert(chars[9] == c); }
        else if c == '+' { assert(chars[10] == c); } else if c == '-' { assert(chars[11] == c); }
        else if c == '*' { assert(chars[12] == c); } else if c == '/' { assert(chars[13] == c); }
        else if c == '.' { assert(chars[14] == c); } else { assert(chars[15] == c); }
    }
    if input.len() > 0 {
        assert(input.drop_last() =~= input.take(input.len() - 1));
    }
}

/// Backspace takes back a character that was just typed into the input.
pub proof fn backspace_undoes_typing(input: Seq<char>, c: char)
    requires
        accepts(c),
    ensures
        typed(typed(input, Key::Char(c)), Key::Backspace) == input,
{
    assert(input.push(c).drop_last() =~= input);
}

proof fn lemma_remove_spaces_no_space(s: Seq<char>)
    ensures
        !remove_spaces(s).contains(' '),
    decreases s.len(),
{
    if s.len() > 0 {
        lemma_remove_spaces_no_space(s.drop_last());
        let r = remove_spaces(s.drop_last());
        if s.last() != ' ' {
            assert forall|i: int| 0 <= i < r.push(s.last()).len() implies r.push(s.last())[i] != ' ' by {
                if i < r.len() {
                    assert(r[i] == r.push(s.last())[i]);
                }
            }
        }
    }
}

proof fn lemma_remove_spaces_keeps(s: Seq<char>)
    requires
        !s.contains(' '),
    ensures
        remove_spaces(s) == s,
    decreases s.len(),
{
    if s.len() > 0 {
        assert(!s.drop_last().contains(' ')) by {
            if s.drop_last().contains(' ') {
                let i = choose|i: int| 0 <= i < s.drop_last().len() && s.drop_last()[i] == ' ';
                assert(s[i] == ' ');
            }
        }
        lemma_remove_spaces_keeps(s.drop_last());
        assert(s.last() != ' ') by {
            assert(s[s.len() - 1] == s.last());
        }
        assert(s.drop_last().push(s.last()) =~= s);
    }
}

/// Spaces do not matter: an input reads the same with its spaces removed.
pub proof fn spaces_do_not_matter(input: Seq<char>)
    ensures
        parse(remove_spaces(input)) == parse(input),
{
    lemma_remove_spaces_no_space(input);
    lemma_remove_spaces_keeps(remove_spaces(input));
}

/// Splitting loses nothing: the left operand, the operator and the right
/// operand, or the lone number, make up the input without its spaces.
pub proof fn split_loses_nothing(input: Seq<char>)
    ensures
        parse(input) matches ExpressionView::Binary { op, left, right } ==> left + seq![op]
            + right == remove_spaces(input),
        parse(input) matches ExpressionView::Number(n) ==> n == remove_spaces(input),
{
    let t = remove_spaces(input);
    if let Some(op) = chosen_operator(t) {
        lemma_first_index_found(t, op);
        if let Some(i) = first_index(t, op) {
            assert(t.take(i) + seq![op] + t.skip(i + 1) =~= t);
        }
    }
}

fn is_accepted(c: char) -> (r: bool)
    ensures
        r == accepts(c),
{
    match c {
        '0' | '1' | '2' | '3' | '4' | '5' | '6' | '7' | '8' | '9' | '+' | '-' | '*' | '/' | '.'
        | ' ' => true,
        _ => false,
    }
}

fn find_char(v: &Vec<char>, c: char) -> (r: Option<usize>)
    ensures
        match r {
            Some(i) => first_index(v@, c) == Some(i as int),
            None => first_index(v@, c) == None::<int>,
        },
{
    let n = v.len();
    let mut i: usize = 0;
    while i < n
        invariant
            n == v@.len(),
            i <= n,
            forall|j: int| 0 <= j < i ==> v@[j] != c,
        decreases n - i,
    {
        if v[i] == c {
            proof {
                lemma_first_index(v@, c, i as int);
            }
            return Some(i);
        }
        i = i + 1;
    }
    proof {
        lemma_first_index(v@, c, n as int);
    }
    None
}

fn without_spaces(v: &Vec<char>) -> (t: Vec<char>)
    ensures
        t@ == remove_spaces(v@),
{
    let mut t: Vec<char> = Vec::new();
    let n = v.len();
    let mut i: usize = 0;
    while i < n
        invariant
            n == v@.len(),
            i <= n,
            t@ == remove_spaces(v@.take(i as int)),
        decreases n - i,
    {
        let c = v[i];
        assert(v@.take(i + 1).drop_last() =~= v@.take(i as int));
        if c != ' ' {
            t.push(c);
        }
        i = i + 1;
    }
    assert(v@.take(n as int) =~= v@);
    t
}

impl Calculator {
    /// A calculator with an empty input and result "0".
    pub fn new() -> (c: Calculator)
        ensures
            c.input@ == Seq::<char>::empty(),
            c.result@ == "0"@,
    {
        Calculator { input: String::new(), result: String::from_str("0") }
    }

    /// Reacts to a key. A digit, point, space or operator is appended to
    /// the input, and any other character is ignored; Backspace removes the
    /// last character; Esc clears the input and sets the result to "0";
    /// Enter hands back the input split for evaluation, which the caller
    /// completes by storing the evaluated result.
    pub fn handle_input(&mut self, key: Key) -> (r: Option<Expression>)
        ensures
            r is Some <==> key == Key::Enter,
            r matches Some(e) ==> e@ == parse(old(self).input@),
            final(self).input@ == typed(old(self).input@, key),
            final(self).result@ == (if key == Key::Esc {
                "0"@
            } else {
                old(self).result@
            }),
    {
        match key {
            Key::Char(c) => {
                if is_accepted(c) {
                    push_char(&mut self.input, c);
                }
                None
            },
            Key::Backspace => {
                let _ = pop_char(&mut self.input);
                None
            },
            Key::Enter => Some(self.calculate()),
            Key::Esc => {
                self.input = String::new();
                self.result = String::from_str("0");
                None
            },
            _ => None,
        }
    }

    /// Splits the input for evaluation: spaces are removed, then the text is
    /// split around the first `+`, else the first `-` unless it leads the
    /// text, else the first `*`, else the first `/`; with none of these it
    /// is a lone number.
    pub fn calculate(&self) -> (e: Expression)
        ensures
            e@ == parse(self.input@),
    {
        let chars = chars_of(&self.input);
        let t = without_spaces(&chars);
        let ops: [char; 4] = ['+', '-', '*', '/'];
        let mut k: usize = 0;
        let mut found: Option<(char, usize)> = None;
        while k < 4
            invariant_except_break
                k <= 4,
                ops@ == seq!['+', '-', '*', '/'],
                found is None,
                forall|m: int| 0 <= m < k ==> !splits_at(t@, #[trigger] ops@[m]),
            ensures
                found matches Some((op, i)) ==> {
                    &&& chosen_operator(t@) == Some(op)
                    &&& first_index(t@, op) == Some(i as int)
                },
                found is None ==> chosen_operator(t@) is None,
            decreases 4 - k,
        {
            let op = ops[k];
            match find_char(&t, op) {
                Some(i) => {
                    if !(i == 0 && op == '-') {
                        found = Some((op, i));
                        assert(splits_at(t@, op));
                        assert(k == 0 ==> op == '+');
                        break;
                    }
                },
                None => {},
            }
            k = k + 1;
        }
        match found {
            Some((op, i)) => {
                proof {
                    lemma_first_index_found(t@, op);
                }
                let n = t.len();
                let left = string_of(&t, 0, i);
                let right = string_of(&t, i + 1, n);
                assert(t@.subrange(0, i as int) =~= t@.take(i as int));
                assert(t@.subrange(i + 1, n as int) =~= t@.skip(i + 1));
                Expression::Binary { op, left, right }
            },
            None => {
                let s = string_of(&t, 0, t.len());
                assert(t@.subrange(0, t@.len() as int) =~= t@);
                Expression::Number(s)
            },
        }
    }

    /// The text the calculator screen shows.
    pub fn screen_text(&self) -> (s: String)
        ensures
            s@ == calculator_text(self.input@, self.result@),
    {
        let mut s = String::from_str("\n   📊 Expressive TUI Calculator\n\n   Input:  ");
        s.append(self.input.as_str());
        s.append("\n   Result: ");
        s.append(self.result.as_str());
        s.append(
            "\n\n   Controls: Type math (e.g., 5 * 15), press Enter to evaluate.\n   Press Esc inside this tab to clear.",
        );
        s
    }
}

} // verus!
