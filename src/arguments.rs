use vstd::prelude::*;
use vstd::string::*;

verus! {

/// The resolved command-line table, as plain values: every option, flag and
/// positional argument that the resolvers read. `subcommand` is empty when no
/// sub-command was given; `replace_limit` and `color` are `None` when absent.
pub struct RawArguments {
    pub subcommand: String,
    pub expression: String,
    pub replacement: String,
    pub replace_limit: Option<usize>,
    pub paths: Vec<String>,
    pub dump_file: String,
    pub force: bool,
    pub backup: bool,
    pub silent: bool,
    pub dump: bool,
    pub no_dump: bool,
    pub recursive: bool,
    pub include_dirs: bool,
    pub max_depth: Option<usize>,
    pub hidden: bool,
    pub undo: bool,
    pub color: Option<String>,
}

/// The mathematical content of a `RawArguments` table.
pub struct ArgumentTable {
    pub subcommand: Seq<char>,
    pub expression: Seq<char>,
    pub replacement: Seq<char>,
    pub replace_limit: Option<usize>,
    pub paths: Seq<Seq<char>>,
    pub dump_file: Seq<char>,
    pub force: bool,
    pub backup: bool,
    pub silent: bool,
    pub dump: bool,
    pub no_dump: bool,
    pub recursive: bool,
    pub include_dirs: bool,
    pub max_depth: Option<usize>,
    pub hidden: bool,
    pub undo: bool,
    pub color: Option<Seq<char>>,
}

/// The characters of each string of a sequence.
pub open spec fn strings_view(v: Seq<String>) -> Seq<Seq<char>> {
    v.map_values(|s: String| s@)
}

impl View for RawArguments {
    type V = ArgumentTable;

    open spec fn view(&self) -> ArgumentTable {
        ArgumentTable {
            subcommand: self.subcommand@,
            expression: self.expression@,
            replacement: self.replacement@,
            replace_limit: self.replace_limit,
            paths: strings_view(self.paths@),
            dump_file: self.dump_file@,
            force: self.force,
            backup: self.backup,
            silent: self.silent,
            dump: self.dump,
            no_dump: self.no_dump,
            recursive: self.recursive,
            include_dirs: self.include_dirs,
            max_depth: self.max_depth,
            hidden: self.hidden,
            undo: self.undo,
            color: match self.color {
                Some(c) => Some(c@),
                None => None,
            },
        }
    }
}

/// A copy of a sequence of strings.
pub fn copy_strings(v: &Vec<String>) -> (r: Vec<String>)
    ensures
        r@ == v@,
{
    let mut r: Vec<String> = Vec::new();
    let mut i: usize = 0;
    while i < v.len()
        invariant
            i <= v@.len(),
            r@ == v@.subrange(0, i as int),
        decreases v@.len() - i,
    {
        r.push(v[i].clone());
        i = i + 1;
    }
    assert(v@ == v@.subrange(0, v@.len() as int));
    r
}

/// Whether a character is an ASCII decimal digit.
pub open spec fn is_decimal_digit(c: char) -> bool {
    '0' <= c && c <= '9'
}

/// The number that a sequence of decimal digits spells.
pub open spec fn digits_value(s: Seq<char>) -> nat
    decreases s.len(),
{
    if s.len() == 0 {
        0
    } else {
        digits_value(s.drop_last()) * 10 + ((s.last() as u32) - ('0' as u32)) as nat
    }
}

/// The digits of an unsigned literal: a leading `+` is allowed.
pub open spec fn literal_digits(s: Seq<char>) -> Seq<char> {
    if s.len() > 0 && s[0] == '+' {
        s.drop_first()
    } else {
        s
    }
}

/// Whether a text is the decimal literal of a `usize`: an optional `+`, then
/// one or more digits whose value fits.
pub open spec fn is_usize_literal(s: Seq<char>) -> bool {
    let d = literal_digits(s);
    &&& d.len() > 0
    &&& forall|i: int| 0 <= i < d.len() ==> is_decimal_digit(#[trigger] d[i])
    &&& digits_value(d) <= usize::MAX
}

/// A longer run of digits is worth at least as much as its prefix.
proof fn lemma_digits_value_grows(s: Seq<char>, j: int)
    requires
        0 <= j <= s.len(),
        forall|i: int| 0 <= i < s.len() ==> is_decimal_digit(#[trigger] s[i]),
    ensures
        digits_value(s.subrange(0, j)) <= digits_value(s),
    decreases s.len() - j,
{
    if j < s.len() {
        lemma_digits_value_grows(s, j + 1);
        let p = s.subrange(0, j + 1);
        assert(p.drop_last() =~= s.subrange(0, j));
    } else {
        assert(s.subrange(0, j) =~= s);
    }
}

/// Checks that a value is a valid unsigned integer.
pub fn is_integer(arg_value: String) -> (r: Result<(), String>)
    ensures
        r is Ok <==> is_usize_literal(arg_value@),
        r matches Err(m) ==> m@ == "Value provided is not an integer"@,
{
    let s = arg_value.as_str();
    let n = s.unicode_len();
    let mut i: usize = 0;
    if n > 0 && s.get_char(0) == '+' {
        i = 1;
    }
    let start = i;
    let ghost d = literal_digits(s@);
    assert(d =~= s@.subrange(start as int, n as int));
    let mut value: usize = 0;
    let mut fits = true;
    while i < n
        invariant
            start <= i <= n,
            n == s@.len(),
            d == s@.subrange(start as int, n as int),
            d == literal_digits(s@),
            fits ==> forall|k: int| 0 <= k < i - start ==> is_decimal_digit(#[trigger] d[k]),
            fits ==> value == digits_value(d.subrange(0, i - start)),
            !fits ==> !is_usize_literal(s@),
        decreases n - i,
    {
        let c = s.get_char(i);
        assert(d[i - start] == c);
        if fits {
            if c < '0' || c > '9' {
                fits = false;
            } else {
                let digit = ((c as u32) - ('0' as u32)) as usize;
                proof {
                    let p = d.subrange(0, i - start + 1);
                    assert(p.drop_last() =~= d.subrange(0, i - start));
                    assert(p.last() == c);
                }
                match value.checked_mul(10) {
                    Some(v) => match v.checked_add(digit) {
                        Some(w) => {
                            value = w;
                        },
                        None => {
                            proof { lemma_overflow_refutes(s@, d, (i - start) as int); }
                            fits = false;
                        },
                    },
                    None => {
                        proof { lemma_overflow_refutes(s@, d, (i - start) as int); }
                        fits = false;
                    },
                }
            }
        }
        i = i + 1;
    }
    if fits && n > start {
        assert(d.subrange(0, n - start) =~= d);
        Ok(())
    } else {
        proof { reveal_strlit("Value provided is not an integer"); }
        Err(String::from_str("Value provided is not an integer"))
    }
}

/// Once the digits up to and including position `k` are worth more than a
/// `usize` holds, the text is no `usize` literal.
proof fn lemma_overflow_refutes(s: Seq<char>, d: Seq<char>, k: int)
    requires
        d == literal_digits(s),
        0 <= k < d.len(),
        forall|i: int| 0 <= i <= k ==> is_decimal_digit(#[trigger] d[i]),
        digits_value(d.subrange(0, k + 1)) > usize::MAX,
    ensures
        !is_usize_literal(s),
{
    if is_usize_literal(s) {
        lemma_digits_value_grows(d, k + 1);
    }
}

} // verus!
