//! Properties of number parsing and number display, stated over characters.
use vstd::prelude::*;
use crate::activity;
use crate::phone;
use crate::text;

verus! {

/// What a displayed number reads as once its plus sign and spaces are removed.
pub open spec fn without_plus_and_spaces(s: Seq<char>) -> Seq<char> {
    s.filter(|c: char| c != '+' && c != ' ')
}

/// Every character lies in `'0'..='9'`.
pub open spec fn only_decimal_digits(s: Seq<char>) -> bool {
    forall|i: int| 0 <= i < s.len() ==> '0' <= #[trigger] s[i] && s[i] <= '9'
}

/// Filtering keeps a sequence whole when every element passes.
proof fn filter_keeps_all(s: Seq<char>, pred: spec_fn(char) -> bool)
    requires
        forall|i: int| 0 <= i < s.len() ==> pred(#[trigger] s[i]),
    ensures
        s.filter(pred) == s,
    decreases s.len(),
{
    reveal(Seq::filter);
    if s.len() > 0 {
        filter_keeps_all(s.drop_last(), pred);
        assert(s.drop_last().push(s.last()) =~= s);
    }
}

/// Filtering drops a sequence whole when no element passes.
proof fn filter_drops_all(s: Seq<char>, pred: spec_fn(char) -> bool)
    requires
        forall|i: int| 0 <= i < s.len() ==> !pred(#[trigger] s[i]),
    ensures
        s.filter(pred) == Seq::<char>::empty(),
    decreases s.len(),
{
    reveal(Seq::filter);
    if s.len() > 0 {
        filter_drops_all(s.drop_last(), pred);
    }
}

/// A single character counts as a digit exactly when it lies in `'0'..='9'`.
pub proof fn digit_means_zero_to_nine(c: char)
    ensures
        text::ascii_digits(seq![c]) == (if '0' <= c && c <= '9' {
            seq![c]
        } else {
            Seq::<char>::empty()
        }),
{
    reveal_with_fuel(Seq::filter, 2);
    assert(seq![c].drop_last() =~= Seq::<char>::empty());
    assert(Seq::<char>::empty().push(c) =~= seq![c]);
}

/// The digits of a concatenation are the digits of its parts, in order.
pub proof fn digits_of_concatenation(a: Seq<char>, b: Seq<char>)
    ensures
        text::ascii_digits(a + b) == text::ascii_digits(a) + text::ascii_digits(b),
{
    Seq::filter_distributes_over_add(a, b, |c: char| text::is_ascii_digit(c));
}

/// An input made only of digits keeps every one of them: with enough of
/// them it parses to exactly that number's chat id.
pub proof fn digit_input_parses_to_itself(s: Seq<char>)
    requires
        only_decimal_digits(s),
        s.len() >= activity::MIN_DIGITS,
    ensures
        activity::monitor_target_of(s) == Some(s + "@s.whatsapp.net"@),
{
    filter_keeps_all(s, |c: char| text::is_ascii_digit(c));
}

/// An input without any character in `'0'..='9'` never parses.
pub proof fn input_without_digits_never_parses(s: Seq<char>)
    requires
        forall|i: int| 0 <= i < s.len() ==> !('0' <= #[trigger] s[i] && s[i] <= '9'),
    ensures
        activity::monitor_target_of(s) is None,
{
    filter_drops_all(s, |c: char| text::is_ascii_digit(c));
}

/// A person's chat id names the digits before its server.
pub proof fn person_id_names_its_number(d: Seq<char>)
    requires
        d.len() > 0,
        only_decimal_digits(d),
    ensures
        phone::phone_in_id(d + "@s.whatsapp.net"@) == Some(d),
{
    let id = d + "@s.whatsapp.net"@;
    let n = id.len() - phone::user_server().len();
    assert(n == d.len());
    assert(id.skip(n) =~= phone::user_server());
    assert(id.take(n) =~= d);
}

/// Where the spaces of a grouped digit run stand: one before each group of
/// three, so at every fourth position.
proof fn spaced_triples_layout(s: Seq<char>)
    requires
        only_decimal_digits(s),
    ensures
        phone::spaced_triples(s).len() == s.len() + (s.len() + 2) / 3,
        forall|k: int|
            0 <= k < phone::spaced_triples(s).len() ==> (#[trigger] phone::spaced_triples(s)[k]
                == ' ' <==> k % 4 == 0),
    decreases s.len(),
{
    let t = phone::spaced_triples(s);
    if s.len() == 0 {
    } else if s.len() <= 3 {
        assert forall|k: int| 0 <= k < t.len() implies (#[trigger] t[k] == ' ' <==> k % 4 == 0) by {
            if k > 0 {
                assert(t[k] == s[k - 1]);
            }
        }
    } else {
        let rest = s.skip(3);
        assert forall|i: int| 0 <= i < rest.len() implies '0' <= #[trigger] rest[i] && rest[i] <= '9' by {
            assert(rest[i] == s[i + 3]);
        }
        spaced_triples_layout(rest);
        let tail = phone::spaced_triples(rest);
        assert(t == seq![' '] + s.take(3) + tail);
        assert forall|k: int| 0 <= k < t.len() implies (#[trigger] t[k] == ' ' <==> k % 4 == 0) by {
            if k >= 4 {
                assert(t[k] == tail[k - 4]);
            } else if k > 0 {
                assert(t[k] == s[k - 1]);
            }
        }
    }
}

/// A grouped digit run holds exactly the digits, in order, besides its spaces.
proof fn spaced_triples_digits(s: Seq<char>)
    requires
        only_decimal_digits(s),
    ensures
        without_plus_and_spaces(phone::spaced_triples(s)) == s,
    decreases s.len(),
{
    let keep = |c: char| c != '+' && c != ' ';
    let t = phone::spaced_triples(s);
    space_is_dropped();
    if s.len() == 0 {
        reveal(Seq::filter);
    } else if s.len() <= 3 {
        filter_keeps_all(s, keep);
        Seq::filter_distributes_over_add(seq![' '], s, keep);
        assert(t == seq![' '] + s);
        assert(t.filter(keep) =~= s);
    } else {
        let rest = s.skip(3);
        assert forall|i: int| 0 <= i < rest.len() implies '0' <= #[trigger] rest[i] && rest[i] <= '9' by {
            assert(rest[i] == s[i + 3]);
        }
        spaced_triples_digits(rest);
        let head = seq![' '] + s.take(3);
        let tail = phone::spaced_triples(rest);
        assert(t == head + tail);
        filter_keeps_all(s.take(3), keep);
        Seq::filter_distributes_over_add(seq![' '], s.take(3), keep);
        Seq::filter_distributes_over_add(head, tail, keep);
        assert(head.filter(keep) =~= s.take(3));
        assert(s.take(3) + rest =~= s);
        assert(t.filter(keep) =~= s);
    }
}

proof fn space_is_dropped()
    ensures
        seq![' '].filter(|c: char| c != '+' && c != ' ') == Seq::<char>::empty(),
        seq!['+'].filter(|c: char| c != '+' && c != ' ') == Seq::<char>::empty(),
{
    reveal_with_fuel(Seq::filter, 2);
    assert(seq![' '].drop_last() =~= Seq::<char>::empty());
    assert(seq!['+'].drop_last() =~= Seq::<char>::empty());
}

/// A displayed number keeps every digit in order: it is a plus sign, then
/// the digits, with a space before each group of three after the first two
/// (the last group may be shorter), and nothing else.
pub proof fn formatted_number_keeps_every_digit(d: Seq<char>)
    requires
        only_decimal_digits(d),
    ensures
        phone::formatted_phone(d).len() > 0,
        phone::formatted_phone(d)[0] == '+',
        without_plus_and_spaces(phone::formatted_phone(d)) == d,
        d.len() <= 2 ==> phone::formatted_phone(d).len() == d.len() + 1,
        d.len() > 2 ==> phone::formatted_phone(d).len() == d.len() + 1 + d.len() / 3,
        forall|k: int|
            0 <= k < phone::formatted_phone(d).len() ==> (#[trigger] phone::formatted_phone(d)[k]
                == ' ' <==> (d.len() > 2 && k >= 3 && (k - 3) % 4 == 0)),
{
    let keep = |c: char| c != '+' && c != ' ';
    let f = phone::formatted_phone(d);
    space_is_dropped();
    if d.len() <= 2 {
        filter_keeps_all(d, keep);
        Seq::filter_distributes_over_add(seq!['+'], d, keep);
        assert(f.filter(keep) =~= d);
        assert forall|k: int| 0 <= k < f.len() implies (#[trigger] f[k] == ' ' <==> (d.len() > 2
            && k >= 3 && (k - 3) % 4 == 0)) by {
            if k > 0 {
                assert(f[k] == d[k - 1]);
            }
        }
    } else {
        let rest = d.skip(2);
        assert forall|i: int| 0 <= i < rest.len() implies '0' <= #[trigger] rest[i] && rest[i] <= '9' by {
            assert(rest[i] == d[i + 2]);
        }
        spaced_triples_layout(rest);
        spaced_triples_digits(rest);
        let head = seq!['+'] + d.take(2);
        let tail = phone::spaced_triples(rest);
        assert(f == head + tail);
        filter_keeps_all(d.take(2), keep);
        Seq::filter_distributes_over_add(seq!['+'], d.take(2), keep);
        Seq::filter_distributes_over_add(head, tail, keep);
        assert(head.filter(keep) =~= d.take(2));
        assert(d.take(2) + rest =~= d);
        assert(f.filter(keep) =~= d);
        assert(rest.len() + (rest.len() + 2) / 3 == d.len() - 2 + d.len() / 3);
        assert forall|k: int| 0 <= k < f.len() implies (#[trigger] f[k] == ' ' <==> (d.len() > 2
            && k >= 3 && (k - 3) % 4 == 0)) by {
            if k >= 3 {
                assert(f[k] == tail[k - 3]);
            } else if k > 0 {
                assert(f[k] == d[k - 1]);
            }
        }
    }
}

/// The label of a person's id with no usable name is its number, shown with
/// every digit in order after a plus sign.
pub proof fn number_label_keeps_every_digit(d: Seq<char>, known: Option<Seq<char>>)
    requires
        d.len() > 0,
        only_decimal_digits(d),
        known matches Some(name) ==> forall|i: int| 0 <= i < name.len() ==> (#[trigger] name[i]
            == ' ' || name[i] == '\t'),
    ensures
        activity::target_label(d + "@s.whatsapp.net"@, known)[0] == '+',
        without_plus_and_spaces(activity::target_label(d + "@s.whatsapp.net"@, known)) == d,
{
    person_id_names_its_number(d);
    formatted_number_keeps_every_digit(d);
}

/// An input of fewer than [`activity::MIN_DIGITS`] digits never parses.
pub proof fn short_digit_input_never_parses(s: Seq<char>)
    requires
        only_decimal_digits(s),
        s.len() < activity::MIN_DIGITS,
    ensures
        activity::monitor_target_of(s) is None,
{
    filter_keeps_all(s, |c: char| text::is_ascii_digit(c));
}

/// A known name with a letter or a digit in it is the label, whatever the id.
pub proof fn named_target_keeps_its_name(id: Seq<char>, name: Seq<char>, i: int)
    requires
        0 <= i < name.len(),
        ('a' <= name[i] && name[i] <= 'z') || ('A' <= name[i] && name[i] <= 'Z') || ('0'
            <= name[i] && name[i] <= '9'),
    ensures
        activity::target_label(id, Some(name)) == name,
{
    assert(!text::is_unicode_whitespace(name[i]));
}

} // verus!
