//! Phone numbers inside chat ids, and their display form.
use vstd::prelude::*;
use vstd::string::StringExecFns;
use crate::text;

verus! {

/// The server part of a person's chat id (`<digits>@s.whatsapp.net`).
pub open spec fn user_server() -> Seq<char> {
    "@s.whatsapp.net"@
}

/// The phone number a chat id names: the non-empty run of digits before the
/// user server, when the id is a person's id; `None` for any other id (a
/// group, a broadcast list, a malformed id).
pub open spec fn phone_in_id(id: Seq<char>) -> Option<Seq<char>> {
    let n = id.len() - user_server().len();
    if n > 0 && id.skip(n) == user_server() && text::all_ascii_digits(id.take(n)) {
        Some(id.take(n))
    } else {
        None
    }
}

/// The digits of `s` in groups of three, each group preceded by a space;
/// the last group holds what is left.
pub open spec fn spaced_triples(s: Seq<char>) -> Seq<char>
    decreases s.len(),
{
    if s.len() == 0 {
        Seq::empty()
    } else if s.len() <= 3 {
        seq![' '] + s
    } else {
        seq![' '] + s.take(3) + spaced_triples(s.skip(3))
    }
}

/// Display form of a phone number: a plus sign, the first two digits
/// (the country code), then the rest in space-separated groups of three.
pub open spec fn formatted_phone(d: Seq<char>) -> Seq<char> {
    if d.len() <= 2 {
        seq!['+'] + d
    } else {
        seq!['+'] + d.take(2) + spaced_triples(d.skip(2))
    }
}

/// The phone number of a person's chat id, or `None` for any other id.
pub fn phone_of(id: &str) -> (r: Option<String>)
    ensures
        match r {
            Some(d) => phone_in_id(id@) == Some(d@),
            None => phone_in_id(id@) is None,
        },
{
    let cs = text::chars_of(id);
    let server = text::chars_of("@s.whatsapp.net");
    proof {
        assert(server@ == user_server());
    }
    if cs.len() <= server.len() {
        return None;
    }
    let n = cs.len() - server.len();
    let mut j: usize = 0;
    while j < server.len()
        invariant
            cs@ == id@,
            server@ == user_server(),
            n + server.len() == cs.len(),
            j <= server.len(),
            forall|k: int| 0 <= k < j ==> cs@[n + k] == server@[k],
        decreases server.len() - j,
    {
        if cs[n + j] != server[j] {
            proof {
                assert(cs@.skip(n as int)[j as int] != user_server()[j as int]);
            }
            return None;
        }
        j = j + 1;
    }
    proof {
        assert(cs@.skip(n as int) =~= user_server());
    }
    let mut i: usize = 0;
    while i < n
        invariant
            cs@ == id@,
            server@ == user_server(),
            n + server.len() == cs.len(),
            0 < n,
            cs@.skip(n as int) == user_server(),
            i <= n,
            forall|k: int| 0 <= k < i ==> text::is_ascii_digit(#[trigger] cs@[k]),
        decreases n - i,
    {
        let c = cs[i];
        if !('0' <= c && c <= '9') {
            proof {
                assert(cs@.take(n as int)[i as int] == c);
            }
            return None;
        }
        i = i + 1;
    }
    proof {
        assert(text::all_ascii_digits(cs@.take(n as int)));
    }
    let digits = text::string_of_chars(&cs, 0, n);
    proof {
        assert(cs@.subrange(0, n as int) =~= cs@.take(n as int));
    }
    Some(digits)
}

/// Display form of a phone number given by its digits.
pub fn phone(digits: &str) -> (r: String)
    ensures
        r@ == formatted_phone(digits@),
{
    let cs = text::chars_of(digits);
    let mut r = String::new();
    text::push_char(&mut r, '+');
    if cs.len() <= 2 {
        r.append(digits);
        return r;
    }
    text::push_char(&mut r, cs[0]);
    text::push_char(&mut r, cs[1]);
    proof {
        assert(r@ =~= seq!['+'] + cs@.take(2));
    }
    let mut i: usize = 2;
    while i < cs.len()
        invariant
            cs@ == digits@,
            2 < cs.len(),
            2 <= i <= cs.len(),
            r@ + spaced_triples(cs@.skip(i as int)) == formatted_phone(cs@),
        decreases cs.len() - i,
    {
        let ghost before = r@;
        let ghost rest = cs@.skip(i as int);
        text::push_char(&mut r, ' ');
        let end = if cs.len() - i <= 3 { cs.len() } else { i + 3 };
        let mut k = i;
        while k < end
            invariant
                cs@ == digits@,
                i <= k <= end <= cs.len(),
                r@ == before + seq![' '] + cs@.subrange(i as int, k as int),
            decreases end - k,
        {
            text::push_char(&mut r, cs[k]);
            k = k + 1;
            proof {
                assert(r@ =~= before + seq![' '] + cs@.subrange(i as int, k as int));
            }
        }
        proof {
            if rest.len() <= 3 {
                assert(cs@.subrange(i as int, end as int) =~= rest);
                assert(cs@.skip(end as int) =~= Seq::<char>::empty());
                assert(spaced_triples(cs@.skip(end as int)) =~= Seq::<char>::empty());
                assert(r@ + spaced_triples(cs@.skip(end as int)) =~= before + spaced_triples(rest));
            } else {
                assert(cs@.subrange(i as int, end as int) =~= rest.take(3));
                assert(cs@.skip(end as int) =~= rest.skip(3));
                assert(r@ + spaced_triples(cs@.skip(end as int)) =~= before + spaced_triples(rest));
            }
        }
        i = end;
    }
    proof {
        assert(spaced_triples(cs@.skip(i as int)) =~= Seq::<char>::empty());
        assert(r@ =~= formatted_phone(cs@));
    }
    r
}

} // verus!
