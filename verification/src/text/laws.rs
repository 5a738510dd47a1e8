//! What holds of every text that is cut, compared, counted out or joined.
use crate::text::{
    before, bool_text, decimal, decimal_text, digit, join, joined, precedes, texts, trim,
    starts_with, trim_end_char, trimmed_end, trimmed_start, white_space, without_trailing,
};
use vstd::prelude::*;

verus! {

proof fn the_start_is_cut_at_the_first_other_character(s: Seq<char>) -> (i: int)
    ensures
        0 <= i <= s.len(),
        trimmed_start(s) == s.skip(i),
        forall|k: int| 0 <= k < i ==> white_space(#[trigger] s[k]),
        i < s.len() ==> !white_space(s[i]),
    decreases s.len(),
{
    if s.len() > 0 && white_space(s[0]) {
        let rest = s.drop_first();
        let j = the_start_is_cut_at_the_first_other_character(rest);
        assert(rest.skip(j) =~= s.skip(j + 1));
        assert forall|k: int| 0 <= k < j + 1 implies white_space(#[trigger] s[k]) by {
            if k > 0 {
                assert(rest[k - 1] == s[k]);
            }
        }
        j + 1
    } else {
        assert(s.skip(0) =~= s);
        0
    }
}

proof fn the_end_is_cut_behind_the_last_other_character(s: Seq<char>) -> (n: int)
    ensures
        0 <= n <= s.len(),
        trimmed_end(s) == s.take(n),
        forall|k: int| n <= k < s.len() ==> white_space(#[trigger] s[k]),
        n > 0 ==> !white_space(s[n - 1]),
    decreases s.len(),
{
    if s.len() > 0 && white_space(s.last()) {
        let rest = s.drop_last();
        let n = the_end_is_cut_behind_the_last_other_character(rest);
        assert(rest.take(n) =~= s.take(n));
        assert forall|k: int| n <= k < s.len() implies white_space(#[trigger] s[k]) by {
            if k < rest.len() {
                assert(rest[k] == s[k]);
            }
        }
        n
    } else {
        assert(s.take(s.len() as int) =~= s);
        s.len() as int
    }
}

/// What is cut from the ends of a text is white space, all of it and nothing else.
pub proof fn only_white_space_is_cut(s: &str, r: &str)
    requires
        call_ensures(trim, (s,), r),
    ensures
        r@.len() > 0 ==> !white_space(r@[0]) && !white_space(r@.last()),
        exists|i: int, j: int|
            #![trigger s@.subrange(i, j)]
            0 <= i <= j <= s@.len() && r@ == s@.subrange(i, j) && (forall|k: int|
                0 <= k < i || j <= k < s@.len() ==> white_space(#[trigger] s@[k])),
{
    let i = the_start_is_cut_at_the_first_other_character(s@);
    let rest = s@.skip(i);
    let n = the_end_is_cut_behind_the_last_other_character(rest);
    assert(rest.take(n) =~= s@.subrange(i, i + n));
    assert forall|k: int| 0 <= k < i || i + n <= k < s@.len() implies white_space(
        #[trigger] s@[k],
    ) by {
        if k >= i + n {
            assert(rest[k - i] == s@[k]);
        }
    }
    assert(s@.subrange(i, i + n) == r@);
    if n > 0 {
        assert(!white_space(rest[n - 1]));
        assert(rest[0] == s@[i]);
        assert(r@[0] == rest[0]);
        assert(r@.last() == rest[n - 1]);
    }
}

proof fn the_run_is_cut_whole(s: Seq<char>, c: char) -> (n: int)
    ensures
        0 <= n <= s.len(),
        without_trailing(s, c) == s.take(n),
        forall|k: int| n <= k < s.len() ==> #[trigger] s[k] == c,
        n > 0 ==> s[n - 1] != c,
    decreases s.len(),
{
    if s.len() > 0 && s.last() == c {
        let rest = s.drop_last();
        let n = the_run_is_cut_whole(rest, c);
        assert(rest.take(n) =~= s.take(n));
        assert forall|k: int| n <= k < s.len() implies #[trigger] s[k] == c by {
            if k < rest.len() {
                assert(rest[k] == s[k]);
            }
        }
        n
    } else {
        assert(s.take(s.len() as int) =~= s);
        s.len() as int
    }
}

/// The run of a character at the end of a text is cut whole, and nothing else is.
pub proof fn a_run_at_the_end_is_cut_whole(s: &str, c: char, r: &str)
    requires
        call_ensures(trim_end_char, (s, c), r),
    ensures
        r@.len() <= s@.len(),
        r@ == s@.take(r@.len() as int),
        r@.len() > 0 ==> r@.last() != c,
        forall|k: int| r@.len() <= k < s@.len() ==> #[trigger] s@[k] == c,
{
    let n = the_run_is_cut_whole(s@, c);
}

proof fn the_first_difference_decides(a: Seq<char>, b: Seq<char>, k: int)
    requires
        0 <= k <= a.len(),
        k <= b.len(),
        forall|i: int| 0 <= i < k ==> #[trigger] a[i] == b[i],
    ensures
        k < a.len() && k < b.len() && a[k] != b[k] ==> (before(a, b) <==> (a[k] as int) < (
        b[k] as int)),
        k == a.len() && k < b.len() ==> before(a, b),
        k == b.len() ==> !before(a, b),
    decreases k,
{
    if k > 0 {
        let x = a.drop_first();
        let y = b.drop_first();
        assert(a[0] == b[0]);
        assert forall|i: int| 0 <= i < k - 1 implies #[trigger] x[i] == y[i] by {
            assert(x[i] == a[i + 1] && y[i] == b[i + 1]);
        }
        the_first_difference_decides(x, y, k - 1);
        if k < a.len() {
            assert(x[k - 1] == a[k]);
        }
        if k < b.len() {
            assert(y[k - 1] == b[k]);
        }
    }
}

/// Of two texts the one goes first that has the smaller character where they first
/// differ, or that ends there.
pub proof fn the_first_different_character_decides(a: &str, b: &str, r: bool, k: int)
    requires
        call_ensures(precedes, (a, b), r),
        0 <= k <= a@.len(),
        k <= b@.len(),
        forall|i: int| 0 <= i < k ==> #[trigger] a@[i] == b@[i],
    ensures
        k < a@.len() && k < b@.len() && a@[k] != b@[k] ==> (r <==> (a@[k] as int) < (
        b@[k] as int)),
        k == a@.len() && k < b@.len() ==> r,
        k == b@.len() ==> !r,
{
    the_first_difference_decides(a@, b@, k);
}

/// The number that a row of digits stands for.
pub open spec fn number(s: Seq<char>) -> int
    decreases s.len(),
{
    if s.len() == 0 {
        0
    } else {
        number(s.drop_last()) * 10 + (s.last() as int) - 48
    }
}

proof fn decimal_stands_for_its_number(n: nat, i: int)
    ensures
        number(decimal(n)) == n,
        decimal(n).len() > 0,
        0 <= i < decimal(n).len() ==> '0' <= decimal(n)[i] && decimal(n)[i] <= '9',
        n > 0 ==> decimal(n)[0] != '0',
    decreases n,
{
    if n < 10 {
        assert(decimal(n).drop_last() =~= Seq::empty());
        reveal_with_fuel(number, 2);
    } else {
        decimal_stands_for_its_number(n / 10, i);
        assert(decimal(n).drop_last() =~= decimal(n / 10));
        assert(decimal(n).last() == digit(n % 10));
    }
}

/// A number is written in digits that stand for it, without a zero in front.
pub proof fn a_number_is_written_in_its_digits(n: u64, r: String, i: int)
    requires
        call_ensures(decimal_text, (n,), r),
    ensures
        number(r@) == n,
        r@.len() > 0,
        0 <= i < r@.len() ==> '0' <= r@[i] && r@[i] <= '9',
        n > 0 ==> r@[0] != '0',
{
    decimal_stands_for_its_number(n as nat, i);
}

/// A flag is written as its word.
pub proof fn a_flag_is_written_as_its_word(b: bool, r: &'static str)
    requires
        call_ensures(bool_text, (b,), r),
    ensures
        b ==> r@ == "true"@,
        !b ==> r@ == "false"@,
{
}

/// Parts are joined in order with the separator between each two, and nowhere else.
pub proof fn parts_are_joined_in_order(parts: &Vec<String>, sep: &str, r: String)
    requires
        call_ensures(join, (parts, sep), r),
    ensures
        parts@.len() == 0 ==> r@.len() == 0,
        parts@.len() == 1 ==> r@ == parts@[0]@,
        parts@.len() == 2 ==> r@ == parts@[0]@ + sep@ + parts@[1]@,
        parts@.len() == 3 ==> r@ == parts@[0]@ + sep@ + parts@[1]@ + sep@ + parts@[2]@,
{
    let all = texts(parts@);
    assert(all.len() == parts@.len());
    reveal_with_fuel(joined, 4);
    if parts@.len() >= 1 {
        assert(all[0] == parts@[0]@);
    }
    if parts@.len() >= 2 {
        assert(all[1] == parts@[1]@);
    }
    if parts@.len() == 3 {
        assert(all[2] == parts@[2]@);
        assert(all.drop_last().last() == all[1]);
        assert(all.drop_last().drop_last().last() == all[0]);
    }
    if parts@.len() == 2 {
        assert(all.drop_last().last() == all[0]);
    }
}

/// A text starts with another exactly where the other is what it begins with.
pub proof fn a_text_starts_with_its_beginning(s: &str, prefix: &str, r: bool)
    requires
        call_ensures(starts_with, (s, prefix), r),
    ensures
        r <==> prefix@.len() <= s@.len() && s@.take(prefix@.len() as int) == prefix@,
{
}

} // verus!
