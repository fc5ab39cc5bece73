//! The case formatter: maps an enumerator's declared name to its canonical
//! wire string under a case policy, with an optional per-symbol override.
//!
//! The policies operate on ASCII letters, which is the whole domain of the
//! declared enumerator names they are applied to.

use vstd::prelude::*;
use crate::text::push_char;

verus! {

broadcast use vstd::seq::group_seq_axioms;

/// A case policy for rendering an enumerator name.
#[derive(Clone, Copy, PartialEq, Eq, Structural, Debug)]
pub enum Case {
    Lowercase,
    Uppercase,
    Snakecase,
}

/// The error of declaring an unknown case policy name: a definition-time
/// configuration error, never a runtime one.
#[derive(Clone, Copy, PartialEq, Eq, Structural, Debug)]
pub enum ParseCaseError {
    UnknownCase,
}

/// Whether `c` is an ASCII capital letter.
pub open spec fn is_ascii_upper(c: char) -> bool {
    'A' <= c && c <= 'Z'
}

/// Whether `c` is an ASCII small letter.
pub open spec fn is_ascii_lower(c: char) -> bool {
    'a' <= c && c <= 'z'
}

/// `c` with an ASCII capital letter mapped to its small form.
pub open spec fn lower_char(c: char) -> char {
    if is_ascii_upper(c) {
        (((c as u32) + 32) as u8) as char
    } else {
        c
    }
}

/// `c` with an ASCII small letter mapped to its capital form.
pub open spec fn upper_char(c: char) -> char {
    if is_ascii_lower(c) {
        (((c as u32) - 32) as u8) as char
    } else {
        c
    }
}

/// The whole string lowercased.
pub open spec fn lower_seq(s: Seq<char>) -> Seq<char> {
    s.map_values(|c: char| lower_char(c))
}

/// The whole string uppercased.
pub open spec fn upper_seq(s: Seq<char>) -> Seq<char> {
    s.map_values(|c: char| upper_char(c))
}

/// How one character past the first renders under the snake policy: an
/// underscore is inserted before each interior capital letter, and every
/// letter is lowercased.
pub open spec fn snake_char(c: char) -> Seq<char> {
    if is_ascii_upper(c) {
        seq!['_', lower_char(c)]
    } else {
        seq![lower_char(c)]
    }
}

/// The snake rendering of all characters past the first.
pub open spec fn snake_suffix(s: Seq<char>) -> Seq<char>
    decreases s,
{
    if s.len() == 0 {
        Seq::empty()
    } else {
        snake_char(s[0]) + snake_suffix(s.drop_first())
    }
}

/// The snake rendering of a whole name: the first character is lowercased
/// with no underscore before it.
pub open spec fn snake_seq(s: Seq<char>) -> Seq<char> {
    if s.len() == 0 {
        Seq::empty()
    } else {
        seq![lower_char(s[0])] + snake_suffix(s.drop_first())
    }
}

/// What a case policy does to a name.
pub open spec fn case_apply(case: Case, s: Seq<char>) -> Seq<char> {
    match case {
        Case::Lowercase => lower_seq(s),
        Case::Uppercase => upper_seq(s),
        Case::Snakecase => snake_seq(s),
    }
}

/// The resolved wire string of one enumerator symbol: an explicit override
/// wins; otherwise the policy applied to the symbol's declared name.
pub open spec fn resolve_spec(case: Case, name: Seq<char>, over: Option<Seq<char>>) -> Seq<char> {
    match over {
        Option::Some(o) => o,
        Option::None => case_apply(case, name),
    }
}

/// The snake suffix grows at the right by the new character's rendering.
pub proof fn lemma_snake_suffix_snoc(s: Seq<char>, c: char)
    ensures
        snake_suffix(s.push(c)) == snake_suffix(s) + snake_char(c),
    decreases s,
{
    if s.len() == 0 {
        assert(s.push(c).drop_first() =~= Seq::<char>::empty());
        assert(s.push(c)[0] == c);
        assert(snake_suffix(Seq::<char>::empty()) =~= Seq::<char>::empty());
        assert(snake_suffix(s.push(c)) =~= snake_char(c));
        assert(snake_suffix(s) + snake_char(c) =~= snake_char(c));
    } else {
        assert(s.push(c).drop_first() =~= s.drop_first().push(c));
        assert(s.push(c)[0] == s[0]);
        lemma_snake_suffix_snoc(s.drop_first(), c);
        assert(snake_suffix(s.push(c)) =~= snake_suffix(s) + snake_char(c));
    }
}

/// `c` lowercased, as executable code.
fn lower_char_exec(c: char) -> (r: char)
    ensures
        r == lower_char(c),
{
    if c >= 'A' && c <= 'Z' {
        (((c as u32) + 32) as u8) as char
    } else {
        c
    }
}

/// `c` uppercased, as executable code.
fn upper_char_exec(c: char) -> (r: char)
    ensures
        r == upper_char(c),
{
    if c >= 'a' && c <= 'z' {
        (((c as u32) - 32) as u8) as char
    } else {
        c
    }
}

/// The whole string lowercased, as executable code.
#[verifier::loop_isolation(false)]
fn ascii_lowercase(s: &str) -> (r: String)
    ensures
        r@ == lower_seq(s@),
{
    let mut out = String::new();
    let n = s.unicode_len();
    let mut i: usize = 0;
    while i < n
        invariant
            i <= n,
            out@ == lower_seq(s@.take(i as int)),
        decreases n - i,
    {
        let c = s.get_char(i);
        push_char(&mut out, lower_char_exec(c));
        proof {
            assert(out@ =~= lower_seq(s@.take(i + 1)));
        }
        i = i + 1;
    }
    proof {
        assert(s@.take(n as int) =~= s@);
    }
    out
}

/// The whole string uppercased, as executable code.
#[verifier::loop_isolation(false)]
fn ascii_uppercase(s: &str) -> (r: String)
    ensures
        r@ == upper_seq(s@),
{
    let mut out = String::new();
    let n = s.unicode_len();
    let mut i: usize = 0;
    while i < n
        invariant
            i <= n,
            out@ == upper_seq(s@.take(i as int)),
        decreases n - i,
    {
        let c = s.get_char(i);
        push_char(&mut out, upper_char_exec(c));
        proof {
            assert(out@ =~= upper_seq(s@.take(i + 1)));
        }
        i = i + 1;
    }
    proof {
        assert(s@.take(n as int) =~= s@);
    }
    out
}

/// The snake rendering of a whole name: an underscore before each interior
/// capital letter, all letters lowercased.
#[verifier::loop_isolation(false)]
pub fn snakecase(s: &str) -> (r: String)
    ensures
        r@ == snake_seq(s@),
{
    let mut out = String::new();
    let n = s.unicode_len();
    let mut i: usize = 0;
    while i < n
        invariant
            i <= n,
            out@ == snake_seq(s@.take(i as int)),
        decreases n - i,
    {
        let c = s.get_char(i);
        if i > 0 && c >= 'A' && c <= 'Z' {
            push_char(&mut out, '_');
        }
        push_char(&mut out, lower_char_exec(c));
        proof {
            if i == 0 {
                assert(s@.take(1).drop_first() =~= Seq::<char>::empty());
                assert(snake_suffix(Seq::<char>::empty()) =~= Seq::<char>::empty());
                assert(out@ =~= snake_seq(s@.take(1)));
            } else {
                assert(s@.take(i + 1).drop_first() =~= s@.take(i as int).drop_first().push(
                    s@[i as int],
                ));
                lemma_snake_suffix_snoc(s@.take(i as int).drop_first(), s@[i as int]);
                assert(s@.take(i + 1)[0] == s@[0]);
                assert(out@ =~= snake_seq(s@.take(i + 1)));
            }
        }
        i = i + 1;
    }
    proof {
        assert(s@.take(n as int) =~= s@);
    }
    out
}

/// Whether two string slices hold the same characters.
fn str_eq(a: &str, b: &str) -> (r: bool)
    ensures
        r == (a@ == b@),
{
    let x = a.to_owned();
    let y = b.to_owned();
    x == y
}

impl Case {
    /// Applies this case policy to a name.
    pub fn parse_str(&self, s: &str) -> (r: String)
        ensures
            r@ == case_apply(*self, s@),
    {
        match self {
            Case::Lowercase => ascii_lowercase(s),
            Case::Uppercase => ascii_uppercase(s),
            Case::Snakecase => snakecase(s),
        }
    }

    /// Parses a case policy's declared name; an unknown name is a
    /// definition-time configuration error.
    pub fn parse_name(s: &str) -> (r: Result<Case, ParseCaseError>)
        ensures
            s@ == "lowercase"@ ==> r == Ok::<Case, ParseCaseError>(Case::Lowercase),
            s@ == "uppercase"@ ==> r == Ok::<Case, ParseCaseError>(Case::Uppercase),
            s@ == "snakecase"@ ==> r == Ok::<Case, ParseCaseError>(Case::Snakecase),
            s@ != "lowercase"@ && s@ != "uppercase"@ && s@ != "snakecase"@ ==> r == Err::<
                Case,
                ParseCaseError,
            >(ParseCaseError::UnknownCase),
    {
        proof {
            reveal_strlit("lowercase");
            reveal_strlit("uppercase");
            reveal_strlit("snakecase");
            assert("lowercase"@[0] != "uppercase"@[0]);
            assert("lowercase"@[0] != "snakecase"@[0]);
            assert("uppercase"@[0] != "snakecase"@[0]);
        }
        if str_eq(s, "lowercase") {
            Ok(Case::Lowercase)
        } else if str_eq(s, "uppercase") {
            Ok(Case::Uppercase)
        } else if str_eq(s, "snakecase") {
            Ok(Case::Snakecase)
        } else {
            Err(ParseCaseError::UnknownCase)
        }
    }
}

impl ParseCaseError {
    /// The human-readable description of the error.
    pub fn message(&self) -> (r: String)
        ensures
            r@ == "Parse case error: unknown \"case\" value"@,
    {
        "Parse case error: unknown \"case\" value".to_owned()
    }
}

/// The resolved wire string of one symbol, as executable code: an explicit
/// override wins over the policy-derived value.
pub fn resolve_display(case: Case, name: &str, over: Option<&str>) -> (r: String)
    ensures
        over matches Option::Some(o) ==> r@ == o@,
        over is None ==> r@ == case_apply(case, name@),
        r@ == resolve_spec(
            case,
            name@,
            match over {
                Option::Some(o) => Option::Some(o@),
                Option::None => Option::None,
            },
        ),
{
    match over {
        Some(o) => o.to_owned(),
        None => case.parse_str(name),
    }
}

/// Totality of the case formatter: every policy maps a nonempty symbol
/// name to exactly one wire string, and that string is nonempty.
pub proof fn lemma_case_formatter_total(case: Case, name: Seq<char>)
    requires
        name.len() > 0,
    ensures
        case_apply(case, name).len() > 0,
{
    match case {
        Case::Lowercase => {
            assert(lower_seq(name).len() == name.len());
        },
        Case::Uppercase => {
            assert(upper_seq(name).len() == name.len());
        },
        Case::Snakecase => {
            assert(snake_seq(name).len() >= 1);
        },
    }
}

/// An explicit per-symbol override always wins over the policy-derived
/// value.
pub proof fn lemma_override_wins(case: Case, name: Seq<char>, over: Seq<char>)
    ensures
        resolve_spec(case, name, Option::Some(over)) == over,
{
}

} // verus!
