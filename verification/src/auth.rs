use vstd::prelude::*;
use vstd::string::StringExecFns;

verus! {

/// The character of one decimal digit.
pub open spec fn digit_char(d: nat) -> char {
    if d == 0 {
        '0'
    } else if d == 1 {
        '1'
    } else if d == 2 {
        '2'
    } else if d == 3 {
        '3'
    } else if d == 4 {
        '4'
    } else if d == 5 {
        '5'
    } else if d == 6 {
        '6'
    } else if d == 7 {
        '7'
    } else if d == 8 {
        '8'
    } else {
        '9'
    }
}

/// The decimal digits of `n`, most significant first.
pub open spec fn dec_chars(n: nat) -> Seq<char>
    decreases n,
{
    if n < 10 {
        seq![digit_char(n)]
    } else {
        dec_chars(n / 10).push(digit_char(n % 10))
    }
}

/// What each authentication method byte is called: the three assigned
/// names, and for every other byte its decimal value with the range it
/// falls in per the method-number registry.
pub open spec fn method_name_spec(id: u8) -> Seq<char> {
    if id == 0x00 {
        "NO AUTHENTICATION REQUIRED"@
    } else if id == 0x01 {
        "GSSAPI"@
    } else if id == 0x02 {
        "USERNAME/PASSWORD"@
    } else if id <= 0x7f {
        dec_chars(id as nat) + " (IANA ASSIGNED)"@
    } else if id <= 0xfe {
        dec_chars(id as nat) + " (RESERVED FOR PRIVATE METHODS)"@
    } else {
        dec_chars(id as nat) + " (NO ACCEPTABLE METHODS)"@
    }
}

/// Appends one decimal digit character.
fn push_digit(s: &mut String, d: u8)
    requires
        d < 10,
    ensures
        final(s)@ == old(s)@.push(digit_char(d as nat)),
{
    proof {
        reveal_strlit("0");
        reveal_strlit("1");
        reveal_strlit("2");
        reveal_strlit("3");
        reveal_strlit("4");
        reveal_strlit("5");
        reveal_strlit("6");
        reveal_strlit("7");
        reveal_strlit("8");
        reveal_strlit("9");
    }
    if d == 0 {
        s.append("0");
    } else if d == 1 {
        s.append("1");
    } else if d == 2 {
        s.append("2");
    } else if d == 3 {
        s.append("3");
    } else if d == 4 {
        s.append("4");
    } else if d == 5 {
        s.append("5");
    } else if d == 6 {
        s.append("6");
    } else if d == 7 {
        s.append("7");
    } else if d == 8 {
        s.append("8");
    } else {
        s.append("9");
    }
    proof {
        assert(s@ =~= old(s)@.push(digit_char(d as nat)));
    }
}

/// Appends the decimal rendering of `n`.
fn append_decimal(s: &mut String, n: u8)
    ensures
        final(s)@ == old(s)@ + dec_chars(n as nat),
    decreases n,
{
    if n < 10 {
        push_digit(s, n);
        proof {
            assert(s@ =~= old(s)@ + dec_chars(n as nat));
        }
    } else {
        append_decimal(s, n / 10);
        push_digit(s, n % 10);
        proof {
            assert(s@ =~= old(s)@ + dec_chars(n as nat));
        }
    }
}

/// The human-readable name of an offered authentication method byte, as
/// the negotiator's diagnostics print it.
pub fn authentication_method_name(id: u8) -> (r: String)
    ensures
        r@ == method_name_spec(id),
{
    if id == 0x00 {
        String::from_str("NO AUTHENTICATION REQUIRED")
    } else if id == 0x01 {
        String::from_str("GSSAPI")
    } else if id == 0x02 {
        String::from_str("USERNAME/PASSWORD")
    } else {
        let mut s = String::new();
        append_decimal(&mut s, id);
        if id <= 0x7f {
            s.append(" (IANA ASSIGNED)");
        } else if id <= 0xfe {
            s.append(" (RESERVED FOR PRIVATE METHODS)");
        } else {
            s.append(" (NO ACCEPTABLE METHODS)");
        }
        proof {
            assert(s@ =~= method_name_spec(id));
        }
        s
    }
}

} // verus!
