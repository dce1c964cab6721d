//! Character-level text utilities: separator splitting and joining, trimming,
//! thousands-separator stripping, dash replacement, and decimal numerals.
//! Each executable function is pinned to a spec-level model of the same
//! operation on `Seq<char>`.

use vstd::prelude::*;

verus! {

/// Numeric value of an ASCII decimal digit character.
pub open spec fn digit_val(c: char) -> int {
    c as int - 48
}

/// Whether a character is an ASCII decimal digit.
pub open spec fn is_digit(c: char) -> bool {
    48 <= c as int <= 57
}

/// Whether a character counts as surrounding whitespace for trimming.
pub open spec fn is_space(c: char) -> bool {
    c == ' ' || c == '\t' || c == '\n' || c == '\r'
}

/// Splitting on a separator character, one field per separator-free run;
/// the empty text has one (empty) field.
pub open spec fn split_on(s: Seq<char>, sep: char) -> Seq<Seq<char>>
    decreases s.len(),
{
    if s.len() == 0 {
        seq![Seq::<char>::empty()]
    } else if s.first() == sep {
        seq![Seq::<char>::empty()] + split_on(s.drop_first(), sep)
    } else {
        let rest = split_on(s.drop_first(), sep);
        seq![seq![s.first()] + rest.first()] + rest.drop_first()
    }
}

/// Whether a text contains no occurrence of a character.
pub open spec fn free_of(s: Seq<char>, sep: char) -> bool {
    forall|i: int| 0 <= i < s.len() ==> s[i] != sep
}

/// Joining fields with a separator character; inverse of `split_on` for
/// separator-free fields.
pub open spec fn join_with(fields: Seq<Seq<char>>, sep: char) -> Seq<char>
    decreases fields.len(),
{
    if fields.len() == 0 {
        Seq::empty()
    } else if fields.len() == 1 {
        fields[0]
    } else {
        fields.first() + seq![sep] + join_with(fields.drop_first(), sep)
    }
}

/// Joining one more field appends one separator and the field.
pub proof fn lemma_join_push(fields: Seq<Seq<char>>, f: Seq<char>, sep: char)
    requires
        fields.len() >= 1,
    ensures
        join_with(fields.push(f), sep) == join_with(fields, sep) + seq![sep] + f,
    decreases fields.len(),
{
    if fields.len() == 1 {
        assert(fields.push(f).drop_first() =~= seq![f]);
        assert(join_with(seq![f], sep) == f);
        assert(fields.push(f).first() == fields[0]);
        assert(join_with(fields.push(f), sep) =~= join_with(fields, sep) + seq![sep] + f);
    } else {
        assert(fields.push(f).drop_first() =~= fields.drop_first().push(f));
        lemma_join_push(fields.drop_first(), f, sep);
        assert(join_with(fields.push(f), sep) =~= join_with(fields, sep) + seq![sep] + f);
    }
}

/// Splitting a separator-free text yields that one field.
pub proof fn lemma_split_no_sep(s: Seq<char>, sep: char)
    requires
        free_of(s, sep),
    ensures
        split_on(s, sep) == seq![s],
    decreases s.len(),
{
    if s.len() == 0 {
        assert(split_on(s, sep) =~~= seq![s]);
    } else {
        lemma_split_no_sep(s.drop_first(), sep);
        assert(split_on(s, sep) =~~= seq![s]);
    }
}

/// Splitting at the first separator: a separator-free prefix becomes the
/// first field and the remainder is split on its own.
pub proof fn lemma_split_at_sep(a: Seq<char>, b: Seq<char>, sep: char)
    requires
        free_of(a, sep),
    ensures
        split_on(a + seq![sep] + b, sep) == seq![a] + split_on(b, sep),
    decreases a.len(),
{
    let s = a + seq![sep] + b;
    if a.len() == 0 {
        assert(s.first() == sep);
        assert(s.drop_first() =~= b);
        assert(split_on(s, sep) =~~= seq![a] + split_on(b, sep));
    } else {
        assert(s.first() == a.first());
        assert(s.drop_first() =~= a.drop_first() + seq![sep] + b);
        lemma_split_at_sep(a.drop_first(), b, sep);
        assert(seq![a.first()] + (seq![a.drop_first()] + split_on(b, sep)).first() =~= a);
        assert(split_on(s, sep) =~~= seq![a] + split_on(b, sep));
    }
}

/// Every field of a split is free of the separator.
pub proof fn lemma_split_fields_free(s: Seq<char>, sep: char)
    ensures
        forall|k: int| 0 <= k < split_on(s, sep).len() ==> free_of(
            #[trigger] split_on(s, sep)[k],
            sep,
        ),
    decreases s.len(),
{
    if s.len() == 0 {
    } else {
        lemma_split_fields_free(s.drop_first(), sep);
        let rest = split_on(s.drop_first(), sep);
        if s.first() == sep {
            assert forall|k: int| 0 <= k < split_on(s, sep).len() implies free_of(
                #[trigger] split_on(s, sep)[k],
                sep,
            ) by {
                if k > 0 {
                    assert(split_on(s, sep)[k] == rest[k - 1]);
                }
            }
        } else {
            assert forall|k: int| 0 <= k < split_on(s, sep).len() implies free_of(
                #[trigger] split_on(s, sep)[k],
                sep,
            ) by {
                if k == 0 {
                    assert(rest.len() > 0);
                    assert(free_of(rest[0], sep));
                    assert(split_on(s, sep)[0] == seq![s.first()] + rest.first());
                } else {
                    assert(split_on(s, sep)[k] == rest[k]);
                }
            }
        }
    }
}

/// Splitting inverts joining, for separator-free fields.
pub proof fn lemma_split_join(fields: Seq<Seq<char>>, sep: char)
    requires
        fields.len() >= 1,
        forall|k: int| 0 <= k < fields.len() ==> free_of(#[trigger] fields[k], sep),
    ensures
        split_on(join_with(fields, sep), sep) == fields,
    decreases fields.len(),
{
    if fields.len() == 1 {
        lemma_split_no_sep(fields[0], sep);
        assert(split_on(join_with(fields, sep), sep) =~~= fields);
    } else {
        lemma_split_join(fields.drop_first(), sep);
        lemma_split_at_sep(fields.first(), join_with(fields.drop_first(), sep), sep);
        assert(split_on(join_with(fields, sep), sep) =~~= fields);
    }
}

/// Splits a text on a separator character.
pub fn split_char(s: &str, sep: char) -> (fields: Vec<String>)
    ensures
        fields@.map_values(|f: String| f@) == split_on(s@, sep),
{
    let len = s.unicode_len();
    let mut fields: Vec<String> = Vec::new();
    let mut start: usize = 0;
    let mut i: usize = 0;
    proof {
        assert(s@.subrange(0, len as int) =~= s@);
        assert(fields@.map_values(|f: String| f@) =~= Seq::<Seq<char>>::empty());
    }
    while i < len
        invariant
            start <= i <= len,
            len == s@.len(),
            forall|j: int| start <= j < i ==> s@[j] != sep,
            split_on(s@, sep) =~~= fields@.map_values(|f: String| f@) + split_on(
                s@.subrange(start as int, len as int),
                sep,
            ),
        decreases len - i,
    {
        let c = s.get_char(i);
        if c == sep {
            let field = s.substring_char(start, i).to_owned();
            proof {
                let a = s@.subrange(start as int, i as int);
                let b = s@.subrange(i + 1, len as int);
                assert(s@.subrange(start as int, len as int) =~= a + seq![sep] + b);
                lemma_split_at_sep(a, b, sep);
                assert((fields@.push(field)).map_values(|f: String| f@) =~= fields@.map_values(
                    |f: String| f@,
                ).push(field@));
            }
            fields.push(field);
            start = i + 1;
        }
        i += 1;
    }
    let last = s.substring_char(start, len).to_owned();
    proof {
        lemma_split_no_sep(s@.subrange(start as int, len as int), sep);
        assert((fields@.push(last)).map_values(|f: String| f@) =~= fields@.map_values(
            |f: String| f@,
        ).push(last@));
    }
    fields.push(last);
    proof {
        assert(fields@.map_values(|f: String| f@) =~~= split_on(s@, sep));
    }
    fields
}

/// The value of a digit string read in base ten.
pub open spec fn digits_val(s: Seq<char>) -> int
    decreases s.len(),
{
    if s.len() == 0 {
        0
    } else {
        digits_val(s.drop_last()) * 10 + digit_val(s.last())
    }
}

/// Whether every character of a text is a decimal digit.
pub open spec fn all_digits(s: Seq<char>) -> bool {
    forall|i: int| 0 <= i < s.len() ==> is_digit(#[trigger] s[i])
}

/// Reading an unsigned integer: defined exactly on nonempty all-digit texts.
pub open spec fn parse_uint(s: Seq<char>) -> Option<int> {
    if s.len() > 0 && all_digits(s) {
        Some(digits_val(s))
    } else {
        None
    }
}

/// A digit string's value is non-negative.
pub proof fn lemma_digits_val_nonneg(s: Seq<char>)
    requires
        all_digits(s),
    ensures
        digits_val(s) >= 0,
    decreases s.len(),
{
    if s.len() > 0 {
        assert(all_digits(s.drop_last()));
        lemma_digits_val_nonneg(s.drop_last());
    }
}

/// A prefix of a digit string never exceeds the whole string's value.
pub proof fn lemma_digits_val_prefix(s: Seq<char>, k: int)
    requires
        0 <= k <= s.len(),
        all_digits(s),
    ensures
        digits_val(s.subrange(0, k)) <= digits_val(s),
    decreases s.len() - k,
{
    if k == s.len() {
        assert(s.subrange(0, k) =~= s);
    } else {
        lemma_digits_val_prefix(s, k + 1);
        let p = s.subrange(0, k);
        let q = s.subrange(0, k + 1);
        assert(q.drop_last() =~= p);
        assert(all_digits(p));
        lemma_digits_val_nonneg(p);
        assert(digits_val(q) == digits_val(p) * 10 + digit_val(s[k]));
        assert(digits_val(p) * 10 >= digits_val(p));
    }
}

/// A parsed unsigned integer is never negative.
pub proof fn lemma_parse_uint_nonneg(s: Seq<char>)
    ensures
        parse_uint(s) matches Some(v) ==> v >= 0,
{
    if s.len() > 0 && all_digits(s) {
        lemma_digits_val_nonneg(s);
    }
}

/// Reads an unsigned decimal integer, refusing values above `u32::MAX`.
pub fn parse_uint_capped(s: &str) -> (r: Option<u64>)
    ensures
        match parse_uint(s@) {
            Some(v) => if v <= u32::MAX {
                r == Some(v as u64)
            } else {
                r is None
            },
            None => r is None,
        },
{
    let len = s.unicode_len();
    if len == 0 {
        return None;
    }
    let mut acc: u64 = 0;
    let mut i: usize = 0;
    while i < len
        invariant
            0 <= i <= len,
            len == s@.len(),
            len > 0,
            forall|j: int| 0 <= j < i ==> is_digit(#[trigger] s@[j]),
            acc == digits_val(s@.subrange(0, i as int)),
            acc <= u32::MAX,
        decreases len - i,
    {
        let c = s.get_char(i);
        let cv = c as u32;
        if cv < 48 || cv > 57 {
            proof {
                assert(!is_digit(s@[i as int]));
                assert(!all_digits(s@));
            }
            return None;
        }
        let d: u64 = (cv - 48) as u64;
        proof {
            assert(s@.subrange(0, i + 1).drop_last() =~= s@.subrange(0, i as int));
            assert(s@.subrange(0, i + 1).last() == s@[i as int]);
        }
        acc = acc * 10 + d;
        i += 1;
        if acc > 0xFFFF_FFFF {
            proof {
                if all_digits(s@) {
                    lemma_digits_val_prefix(s@, i as int);
                }
            }
            return None;
        }
    }
    proof {
        assert(s@.subrange(0, len as int) =~= s@);
    }
    Some(acc)
}

/// The canonical decimal numeral of a non-negative integer.
pub open spec fn dec_digit(d: int) -> char {
    if d == 0 {
        '0'
    } else if d == 1 {
        '1'
    } else if d == 2 {
        '2'
    } else if d == 3 {
        '3'
    } else if d == 4 {
        '4'
    } else if d == 5 {
        '5'
    } else if d == 6 {
        '6'
    } else if d == 7 {
        '7'
    } else if d == 8 {
        '8'
    } else {
        '9'
    }
}

/// Decimal numeral of `n`, most significant digit first, no leading zeros.
pub open spec fn dec_str(n: int) -> Seq<char>
    decreases n,
{
    if n < 10 {
        seq![dec_digit(n)]
    } else {
        dec_str(n / 10).push(dec_digit(n % 10))
    }
}

/// Decimal numerals contain digits only.
pub proof fn lemma_dec_str_digits(n: int)
    requires
        n >= 0,
    ensures
        all_digits(dec_str(n)),
    decreases n,
{
    if n < 10 {
    } else {
        lemma_dec_str_digits(n / 10);
        assert forall|i: int| 0 <= i < dec_str(n).len() implies is_digit(
            #[trigger] dec_str(n)[i],
        ) by {
            if i < dec_str(n / 10).len() {
                assert(dec_str(n)[i] == dec_str(n / 10)[i]);
            }
        }
    }
}

fn digit_char(d: u64) -> (r: &'static str)
    requires
        d < 10,
    ensures
        r@ == seq![dec_digit(d as int)],
{
    proof {
        reveal_strlit("0");
        reveal_strlit("1");
        reveal_strlit("2");
        reveal_strlit("3");
        reveal_strlit("4");
        reveal_strlit("5");
        reveal_strlit("6");
        reveal_strlit("7");
        reveal_strlit("8");
        reveal_strlit("9");
    }
    let r = if d == 0 {
        "0"
    } else if d == 1 {
        "1"
    } else if d == 2 {
        "2"
    } else if d == 3 {
        "3"
    } else if d == 4 {
        "4"
    } else if d == 5 {
        "5"
    } else if d == 6 {
        "6"
    } else if d == 7 {
        "7"
    } else if d == 8 {
        "8"
    } else {
        "9"
    };
    proof {
        assert(r@ =~= seq![dec_digit(d as int)]);
    }
    r
}

/// Writes a number as its decimal numeral.
pub fn u64_to_string(n: u64) -> (r: String)
    ensures
        r@ == dec_str(n as int),
    decreases n,
{
    if n < 10 {
        digit_char(n).to_owned()
    } else {
        let mut r = u64_to_string(n / 10);
        r.append(digit_char(n % 10));
        proof {
            assert(r@ =~= dec_str(n as int));
        }
        r
    }
}

fn is_space_char(c: char) -> (r: bool)
    ensures
        r == is_space(c),
{
    c == ' ' || c == '\t' || c == '\n' || c == '\r'
}

/// Dropping leading whitespace.
pub open spec fn trim_start_spec(s: Seq<char>) -> Seq<char>
    decreases s.len(),
{
    if s.len() > 0 && is_space(s.first()) {
        trim_start_spec(s.drop_first())
    } else {
        s
    }
}

/// Dropping trailing whitespace.
pub open spec fn trim_end_spec(s: Seq<char>) -> Seq<char>
    decreases s.len(),
{
    if s.len() > 0 && is_space(s.last()) {
        trim_end_spec(s.drop_last())
    } else {
        s
    }
}

/// Dropping surrounding whitespace.
pub open spec fn trim_spec(s: Seq<char>) -> Seq<char> {
    trim_end_spec(trim_start_spec(s))
}

/// Removes surrounding whitespace.
pub fn trim_str(s: &str) -> (r: String)
    ensures
        r@ == trim_spec(s@),
{
    let len = s.unicode_len();
    let mut a: usize = 0;
    proof {
        assert(s@.subrange(0, len as int) =~= s@);
    }
    while a < len && is_space_char(s.get_char(a))
        invariant
            0 <= a <= len,
            len == s@.len(),
            trim_start_spec(s@) == trim_start_spec(s@.subrange(a as int, len as int)),
        decreases len - a,
    {
        proof {
            let cur = s@.subrange(a as int, len as int);
            assert(cur.first() == s@[a as int]);
            assert(cur.drop_first() =~= s@.subrange(a + 1, len as int));
        }
        a += 1;
    }
    proof {
        let cur = s@.subrange(a as int, len as int);
        if a < len {
            assert(cur.first() == s@[a as int]);
        }
        assert(trim_start_spec(cur) == cur);
    }
    let mut b: usize = len;
    while b > a && is_space_char(s.get_char(b - 1))
        invariant
            a <= b <= len,
            len == s@.len(),
            trim_start_spec(s@) == s@.subrange(a as int, len as int),
            trim_end_spec(s@.subrange(a as int, len as int)) == trim_end_spec(
                s@.subrange(a as int, b as int),
            ),
        decreases b,
    {
        proof {
            let cur = s@.subrange(a as int, b as int);
            assert(cur.last() == s@[b - 1]);
            assert(cur.drop_last() =~= s@.subrange(a as int, b - 1));
        }
        b -= 1;
    }
    proof {
        let cur = s@.subrange(a as int, b as int);
        if b > a {
            assert(cur.last() == s@[b - 1]);
        }
        assert(trim_end_spec(cur) == cur);
    }
    s.substring_char(a, b).to_owned()
}

/// Trimming leading whitespace keeps a text free of a character.
pub proof fn lemma_trim_start_free_of(s: Seq<char>, c: char)
    requires
        free_of(s, c),
    ensures
        free_of(trim_start_spec(s), c),
    decreases s.len(),
{
    if s.len() > 0 && is_space(s.first()) {
        assert forall|j: int| 0 <= j < s.drop_first().len() implies s.drop_first()[j] != c by {
            assert(s.drop_first()[j] == s[j + 1]);
        }
        lemma_trim_start_free_of(s.drop_first(), c);
    }
}

/// Trimming trailing whitespace keeps a text free of a character.
pub proof fn lemma_trim_end_free_of(s: Seq<char>, c: char)
    requires
        free_of(s, c),
    ensures
        free_of(trim_end_spec(s), c),
    decreases s.len(),
{
    if s.len() > 0 && is_space(s.last()) {
        assert forall|j: int| 0 <= j < s.drop_last().len() implies s.drop_last()[j] != c by {
            assert(s.drop_last()[j] == s[j]);
        }
        lemma_trim_end_free_of(s.drop_last(), c);
    }
}

/// Trimming keeps a text free of a character.
pub proof fn lemma_trim_free_of(s: Seq<char>, c: char)
    requires
        free_of(s, c),
    ensures
        free_of(trim_spec(s), c),
{
    lemma_trim_start_free_of(s, c);
    lemma_trim_end_free_of(trim_start_spec(s), c);
}

/// Removing every comma (a thousands separator) from a text.
pub open spec fn strip_commas(s: Seq<char>) -> Seq<char>
    decreases s.len(),
{
    if s.len() == 0 {
        Seq::empty()
    } else if s.last() == ',' {
        strip_commas(s.drop_last())
    } else {
        strip_commas(s.drop_last()).push(s.last())
    }
}

/// Removes every comma from a text.
pub fn remove_commas(s: &str) -> (r: String)
    ensures
        r@ == strip_commas(s@),
{
    let len = s.unicode_len();
    let mut out = String::new();
    let mut run: usize = 0;
    let mut i: usize = 0;
    while i < len
        invariant
            0 <= run <= i <= len,
            len == s@.len(),
            forall|j: int| run <= j < i ==> s@[j] != ',',
            out@ + s@.subrange(run as int, i as int) == strip_commas(s@.subrange(0, i as int)),
        decreases len - i,
    {
        let c = s.get_char(i);
        proof {
            assert(s@.subrange(0, i + 1).drop_last() =~= s@.subrange(0, i as int));
            assert(s@.subrange(0, i + 1).last() == s@[i as int]);
        }
        if c == ',' {
            out.append(s.substring_char(run, i));
            run = i + 1;
            proof {
                assert(out@ + s@.subrange(run as int, i + 1) =~= strip_commas(
                    s@.subrange(0, i + 1),
                ));
            }
        } else {
            proof {
                assert(out@ + s@.subrange(run as int, i + 1) =~= strip_commas(
                    s@.subrange(0, i + 1),
                ));
            }
        }
        i += 1;
    }
    out.append(s.substring_char(run, len));
    proof {
        assert(s@.subrange(0, len as int) =~= s@);
        assert(out@ =~= strip_commas(s@));
    }
    out
}

/// Each dash replaced by an underscore, all else kept.
pub open spec fn replace_dashes(s: Seq<char>) -> Seq<char> {
    Seq::new(
        s.len(),
        |j: int|
            if s[j] == '-' {
                '_'
            } else {
                s[j]
            },
    )
}

/// Replaces each dash with an underscore.
pub fn dashes_to_underscores(s: &str) -> (r: String)
    ensures
        r@ == replace_dashes(s@),
{
    let len = s.unicode_len();
    let mut out = String::new();
    let mut run: usize = 0;
    let mut i: usize = 0;
    while i < len
        invariant
            0 <= run <= i <= len,
            len == s@.len(),
            forall|j: int| run <= j < i ==> s@[j] != '-',
            out@ + s@.subrange(run as int, i as int) == replace_dashes(s@).subrange(0, i as int),
        decreases len - i,
    {
        let c = s.get_char(i);
        if c == '-' {
            out.append(s.substring_char(run, i));
            out.append("_");
            run = i + 1;
            proof {
                reveal_strlit("_");
                assert(out@ + s@.subrange(run as int, i + 1) =~= replace_dashes(s@).subrange(
                    0,
                    i + 1,
                ));
            }
        } else {
            proof {
                assert(out@ + s@.subrange(run as int, i + 1) =~= (out@ + s@.subrange(
                    run as int,
                    i as int,
                )).push(s@[i as int]));
                assert(replace_dashes(s@).subrange(0, i + 1) =~= replace_dashes(s@).subrange(
                    0,
                    i as int,
                ).push(replace_dashes(s@)[i as int]));
            }
        }
        i += 1;
    }
    out.append(s.substring_char(run, len));
    proof {
        assert(out@ =~= replace_dashes(s@));
    }
    out
}

} // verus!
