use vstd::prelude::*;
use vstd::string::StringExecFns;

verus! {

/// The character that writes the digit `d`, for `d` below ten.
pub open spec fn digit(d: nat) -> char {
    if d == 0 {
        '0'
    } else if d == 1 {
        '1'
    } else if d == 2 {
        '2'
    } else if d == 3 {
        '3'
    } else if d == 4 {
        '4'
    } else if d == 5 {
        '5'
    } else if d == 6 {
        '6'
    } else if d == 7 {
        '7'
    } else if d == 8 {
        '8'
    } else {
        '9'
    }
}

/// The decimal numeral of `n`, without leading zeros.
pub open spec fn decimal(n: nat) -> Seq<char>
    decreases n,
{
    if n < 10 {
        seq![digit(n)]
    } else {
        decimal(n / 10).push(digit(n % 10))
    }
}

/// The positional placeholder with the given one-based index: `$1`, `$2`, ...
pub open spec fn placeholder(index: nat) -> Seq<char> {
    seq!['$'] + decimal(index)
}

/// `name` with every double quote written twice.
pub open spec fn doubled(name: Seq<char>) -> Seq<char>
    decreases name.len(),
{
    if name.len() == 0 {
        Seq::empty()
    } else if name.last() == '"' {
        doubled(name.drop_last()) + seq!['"', '"']
    } else {
        doubled(name.drop_last()).push(name.last())
    }
}

/// `name` as a quoted identifier: between double quotes, its own double quotes doubled.
pub open spec fn quoted(name: Seq<char>) -> Seq<char> {
    seq!['"'] + doubled(name) + seq!['"']
}

/// Whether the text holds no NUL character, so that it can be handed to the
/// backend as a C string.
pub open spec fn nul_free(text: Seq<char>) -> bool {
    forall|i: int| 0 <= i < text.len() ==> text[i] != '\0'
}

/// Whether `name` can be written as an identifier: it holds no NUL character.
pub open spec fn valid_identifier(name: Seq<char>) -> bool {
    nul_free(name)
}

/// Quoting keeps names apart: two names that are written as the same
/// quoted identifier are the same name.
pub proof fn lemma_quoted_injective(first: Seq<char>, second: Seq<char>)
    requires
        quoted(first) == quoted(second),
    ensures
        first == second,
{
    assert(quoted(first).subrange(1, quoted(first).len() - 1) =~= doubled(first));
    assert(quoted(second).subrange(1, quoted(second).len() - 1) =~= doubled(second));
    lemma_doubled_injective(first, second);
}

/// Doubling the quotes keeps names apart.
pub proof fn lemma_doubled_injective(first: Seq<char>, second: Seq<char>)
    requires
        doubled(first) == doubled(second),
    ensures
        first == second,
    decreases first.len(),
{
    lemma_doubled_last(first);
    lemma_doubled_last(second);
    if first.len() == 0 {
        assert(second.len() == 0);
        assert(first =~= second);
    } else {
        assert(second.len() > 0);
        let a = doubled(first.drop_last());
        let b = doubled(second.drop_last());
        if first.last() == '"' {
            assert(second.last() == '"');
            assert(a =~= doubled(first).subrange(0, doubled(first).len() - 2));
            assert(b =~= doubled(second).subrange(0, doubled(second).len() - 2));
        } else {
            assert(second.last() == first.last());
            assert(a =~= doubled(first).drop_last());
            assert(b =~= doubled(second).drop_last());
        }
        lemma_doubled_injective(first.drop_last(), second.drop_last());
        assert(first =~= first.drop_last().push(first.last()));
        assert(second =~= second.drop_last().push(second.last()));
    }
}

/// How a name with its quotes doubled ends: it is empty only for the empty
/// name, and its last character is the name's last; before a last quote
/// stands another quote.
pub proof fn lemma_doubled_last(name: Seq<char>)
    ensures
        (doubled(name).len() == 0) == (name.len() == 0),
        name.len() > 0 ==> doubled(name).last() == name.last(),
        name.len() > 0 && name.last() == '"' ==> doubled(name).len() >= 2,
{
}

/// A decimal numeral holds no NUL character.
pub proof fn lemma_decimal_nul_free(n: nat)
    ensures
        nul_free(decimal(n)),
    decreases n,
{
    if n >= 10 {
        lemma_decimal_nul_free(n / 10);
    }
}

/// `String::push`: appends one character to the end of the string.
#[verifier::external_body]
fn push_char(out: &mut String, c: char)
    ensures
        final(out)@ == old(out)@.push(c),
{
    out.push(c);
}

fn digit_str(d: usize) -> (r: &'static str)
    requires
        d < 10,
    ensures
        r@ == seq![digit(d as nat)],
{
    proof {
        reveal_strlit("0");
        reveal_strlit("1");
        reveal_strlit("2");
        reveal_strlit("3");
        reveal_strlit("4");
        reveal_strlit("5");
        reveal_strlit("6");
        reveal_strlit("7");
        reveal_strlit("8");
        reveal_strlit("9");
    }
    let r = if d == 0 {
        "0"
    } else if d == 1 {
        "1"
    } else if d == 2 {
        "2"
    } else if d == 3 {
        "3"
    } else if d == 4 {
        "4"
    } else if d == 5 {
        "5"
    } else if d == 6 {
        "6"
    } else if d == 7 {
        "7"
    } else if d == 8 {
        "8"
    } else {
        "9"
    };
    assert(r@ =~= seq![digit(d as nat)]);
    r
}

/// Appends the decimal numeral of `n`.
pub fn push_decimal(out: &mut String, n: usize)
    ensures
        final(out)@ == old(out)@ + decimal(n as nat),
    decreases n,
{
    if n >= 10 {
        push_decimal(out, n / 10);
    }
    out.append(digit_str(n % 10));
    assert(out@ =~= old(out)@ + decimal(n as nat));
}

/// Appends the placeholder with the given index.
pub fn push_placeholder(out: &mut String, index: usize)
    ensures
        final(out)@ == old(out)@ + placeholder(index as nat),
{
    proof {
        reveal_strlit("$");
    }
    out.append("$");
    push_decimal(out, index);
    assert(out@ =~= old(out)@ + placeholder(index as nat));
}

/// Whether the text holds no NUL character.
pub fn is_nul_free(text: &str) -> (r: bool)
    ensures
        r == nul_free(text@),
{
    broadcast use vstd::string::group_string_axioms;
    let chars = text.chars();
    for c in it: chars
        invariant
            it.seq() == text@,
            forall|j: int| 0 <= j < it.index() ==> text@[j] != '\0',
    {
        if c == '\0' {
            return false;
        }
    }
    true
}

/// Appends `name` as a quoted identifier.
pub fn push_quoted(out: &mut String, name: &str)
    ensures
        final(out)@ == old(out)@ + quoted(name@),
{
    broadcast use vstd::string::group_string_axioms;
    push_char(out, '"');
    let chars = name.chars();
    for c in it: chars
        invariant
            it.seq() == name@,
            out@ == old(out)@ + seq!['"'] + doubled(name@.take(it.index())),
    {
        proof {
            let next = name@.take(it.index() + 1);
            assert(next.drop_last() =~= name@.take(it.index()));
            assert(next.last() == c);
        }
        if c == '"' {
            push_char(out, '"');
            push_char(out, '"');
        } else {
            push_char(out, c);
        }
        assert(out@ =~= old(out)@ + seq!['"'] + doubled(name@.take(it.index() + 1)));
    }
    push_char(out, '"');
    assert(name@.take(name@.len() as int) =~= name@);
    assert(out@ =~= old(out)@ + quoted(name@));
}

} // verus!
